use spin_triangle::scene::{
    buffer_bytes, color_layout, interleave, position_layout, shader_source, triangle,
    triangle_data, window_request, GlProfile, ShaderStage, Vertex, FRAGMENT_SHADER_SRC,
    UNITS_PER_ONE, VERTEX_SHADER_SRC,
};

#[test]
fn window_is_800_by_600_with_core_32_forward_compatible_context() {
    let w = window_request();
    assert_eq!(w.width, 800);
    assert_eq!(w.height, 600);
    assert_eq!(w.title, "Spiiiin");
    assert_eq!((w.gl_major, w.gl_minor), (3, 2));
    assert_eq!(w.profile, GlProfile::Core);
    assert!(w.forward_compatible);
}

#[test]
fn uploaded_buffer_is_the_literal_table() {
    let expected: [f32; 18] = [
        0.0, 0.5, 0.0, 0.0, 1.0, 1.0, //
        0.5, -0.5, 0.0, 1.0, 0.0, 1.0, //
        -0.5, -0.5, 1.0, 0.0, 0.0, 1.0,
    ];
    let data = triangle_data();
    assert_eq!(data.len(), 18);
    let floats: Vec<f32> = data.iter().map(|&c| c as f32 / UNITS_PER_ONE as f32).collect();
    assert_eq!(floats, expected.to_vec());
}

#[test]
fn interleave_orders_components_per_vertex() {
    let vs = vec![
        Vertex { x: 1, y: 2, r: 3, g: 4, b: 5, a: 6 },
        Vertex { x: 7, y: 8, r: 9, g: 10, b: 11, a: 12 },
    ];
    assert_eq!(interleave(&vs), (1..=12).collect::<Vec<i32>>());
    assert!(interleave(&Vec::new()).is_empty());
}

#[test]
fn triangle_has_three_opaque_vertices() {
    let t = triangle();
    assert_eq!(t.len(), 3);
    assert_eq!(t[0], Vertex { x: 0, y: 500, r: 0, g: 0, b: 1000, a: 1000 });
    assert!(t.iter().all(|v| v.a == UNITS_PER_ONE));
}

#[test]
fn attribute_layout_uses_six_float_stride() {
    let p = position_layout();
    let c = color_layout();
    assert_eq!((p.components, p.stride_bytes, p.offset_bytes), (2, 24, 0));
    assert_eq!((c.components, c.stride_bytes, c.offset_bytes), (4, 24, 8));
    assert_eq!(buffer_bytes(18), 72);
    assert_eq!(buffer_bytes(0), 0);
}

#[test]
fn shader_sources_by_stage() {
    assert_eq!(shader_source(ShaderStage::Vertex), VERTEX_SHADER_SRC);
    assert_eq!(shader_source(ShaderStage::Fragment), FRAGMENT_SHADER_SRC);
    assert!(VERTEX_SHADER_SRC.contains("uniform mat4 modelview;"));
    assert!(FRAGMENT_SHADER_SRC.contains("out_color = in_color;"));
}
