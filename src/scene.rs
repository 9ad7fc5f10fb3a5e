//! The fixed scene: the window and context to ask for, the shaders, and the
//! vertex data with its attribute layout.
use vstd::prelude::*;

verus! {

/// Which OpenGL profile the context is asked for with.
#[derive(Clone, Copy, Debug, PartialEq, Eq, Structural)]
pub enum GlProfile {
    Core,
    Compatibility,
    Any,
}

/// The window and context the program asks the window system for.
#[derive(Clone, Copy, Debug)]
pub struct WindowRequest {
    pub width: u32,
    pub height: u32,
    pub title: &'static str,
    pub gl_major: u32,
    pub gl_minor: u32,
    pub profile: GlProfile,
    pub forward_compatible: bool,
}

pub const WINDOW_TITLE: &'static str = "Spiiiin";

/// An 800x600 window with an OpenGL 3.2 core, forward-compatible context:
/// the profile that macOS 10.7 and later can give.
pub fn window_request() -> (r: WindowRequest)
    ensures
        r.width == 800,
        r.height == 600,
        r.title@ == WINDOW_TITLE@,
        r.gl_major == 3,
        r.gl_minor == 2,
        r.profile == GlProfile::Core,
        r.forward_compatible,
{
    WindowRequest {
        width: 800,
        height: 600,
        title: WINDOW_TITLE,
        gl_major: 3,
        gl_minor: 2,
        profile: GlProfile::Core,
        forward_compatible: true,
    }
}

/// Vertex components are held in fixed point: this many units make 1.0.
pub const UNITS_PER_ONE: i32 = 1000;

/// One vertex: a 2D position and an RGBA colour, each component in units of
/// `1 / UNITS_PER_ONE`.
#[derive(Clone, Copy, Debug, PartialEq, Eq, Structural)]
pub struct Vertex {
    pub x: i32,
    pub y: i32,
    pub r: i32,
    pub g: i32,
    pub b: i32,
    pub a: i32,
}

/// Components of the position attribute, and of the colour attribute.
pub const POSITION_COMPONENTS: usize = 2;
pub const COLOR_COMPONENTS: usize = 4;

/// Components of one vertex in the interleaved buffer.
pub const VERTEX_COMPONENTS: usize = 6;

/// The size in bytes of one 32-bit float as the buffer stores it.
pub const FLOAT_BYTES: usize = 4;

/// The vertices of the triangle.
pub const TRIANGLE_VERTICES: usize = 3;

/// Component `k` of `v`, in the order the buffer stores them.
pub open spec fn component(v: Vertex, k: int) -> i32 {
    if k == 0 {
        v.x
    } else if k == 1 {
        v.y
    } else if k == 2 {
        v.r
    } else if k == 3 {
        v.g
    } else if k == 4 {
        v.b
    } else {
        v.a
    }
}

/// The vertices, interleaved: component `k` of vertex `i` at `6 * i + k`.
pub open spec fn interleaved(vs: Seq<Vertex>) -> Seq<i32> {
    Seq::new(
        (vs.len() * VERTEX_COMPONENTS) as nat,
        |j: int| component(vs[j / VERTEX_COMPONENTS as int], j % VERTEX_COMPONENTS as int),
    )
}

/// The triangle: top vertex blue, bottom right green, bottom left red, all opaque.
pub open spec fn triangle_spec() -> Seq<Vertex> {
    seq![
        Vertex { x: 0, y: 500, r: 0, g: 0, b: 1000, a: 1000 },
        Vertex { x: 500, y: -500i32, r: 0, g: 1000, b: 0, a: 1000 },
        Vertex { x: -500i32, y: -500i32, r: 1000, g: 0, b: 0, a: 1000 },
    ]
}

/// The triangle's buffer contents, 18 components in the order they are uploaded.
pub open spec fn triangle_data_spec() -> Seq<i32> {
    seq![
        0i32, 500, 0, 0, 1000, 1000,
        500, -500i32, 0, 1000, 0, 1000,
        -500i32, -500i32, 1000, 0, 0, 1000,
    ]
}

/// The three vertices of the triangle.
pub fn triangle() -> (r: Vec<Vertex>)
    ensures
        r@ == triangle_spec(),
{
    let r = vec![
        Vertex { x: 0, y: 500, r: 0, g: 0, b: 1000, a: 1000 },
        Vertex { x: 500, y: -500, r: 0, g: 1000, b: 0, a: 1000 },
        Vertex { x: -500, y: -500, r: 1000, g: 0, b: 0, a: 1000 },
    ];
    assert(r@ =~= triangle_spec());
    r
}

/// Lays vertices out one after another, each as x, y, r, g, b, a.
pub fn interleave(vs: &Vec<Vertex>) -> (r: Vec<i32>)
    requires
        vs@.len() * VERTEX_COMPONENTS <= usize::MAX,
    ensures
        r@ == interleaved(vs@),
{
    let mut r: Vec<i32> = Vec::new();
    let mut i: usize = 0;
    while i < vs.len()
        invariant
            i <= vs@.len(),
            r@ == interleaved(vs@.take(i as int)),
        decreases vs@.len() - i,
    {
        let v = vs[i];
        r.push(v.x);
        r.push(v.y);
        r.push(v.r);
        r.push(v.g);
        r.push(v.b);
        r.push(v.a);
        proof {
            let next = vs@.take(i + 1);
            assert forall|j: int| 0 <= j < next.len() * 6 implies #[trigger] r@[j]
                == component(next[j / 6], j % 6) by {
                if j < i * 6 {
                    assert(j / 6 < i) by (nonlinear_arith)
                        requires 0 <= j < i * 6;
                } else {
                    assert(j / 6 == i && j % 6 == j - i * 6) by (nonlinear_arith)
                        requires i * 6 <= j < (i + 1) * 6;
                }
            }
            assert(r@ =~= interleaved(next));
        }
        i = i + 1;
    }
    assert(vs@.take(vs@.len() as int) =~= vs@);
    r
}

/// The buffer contents for the triangle, in fixed point.
pub fn triangle_data() -> (r: Vec<i32>)
    ensures
        r@ == triangle_data_spec(),
        r@ == interleaved(triangle_spec()),
{
    let vs = triangle();
    let r = interleave(&vs);
    assert(r@ =~= triangle_data_spec());
    r
}

/// How one vertex attribute is read from the interleaved buffer.
#[derive(Clone, Copy, Debug, PartialEq, Eq, Structural)]
pub struct AttributeLayout {
    /// Float components per vertex.
    pub components: usize,
    /// Bytes from the start of one vertex to the start of the next.
    pub stride_bytes: usize,
    /// Bytes from the start of a vertex to this attribute.
    pub offset_bytes: usize,
}

/// The position attribute: two floats at the start of each vertex.
pub fn position_layout() -> (r: AttributeLayout)
    ensures
        r.components == POSITION_COMPONENTS,
        r.stride_bytes == VERTEX_COMPONENTS * FLOAT_BYTES,
        r.offset_bytes == 0,
{
    AttributeLayout {
        components: POSITION_COMPONENTS,
        stride_bytes: VERTEX_COMPONENTS * FLOAT_BYTES,
        offset_bytes: 0,
    }
}

/// The colour attribute: four floats right after the position.
pub fn color_layout() -> (r: AttributeLayout)
    ensures
        r.components == COLOR_COMPONENTS,
        r.stride_bytes == VERTEX_COMPONENTS * FLOAT_BYTES,
        r.offset_bytes == POSITION_COMPONENTS * FLOAT_BYTES,
{
    AttributeLayout {
        components: COLOR_COMPONENTS,
        stride_bytes: VERTEX_COMPONENTS * FLOAT_BYTES,
        offset_bytes: POSITION_COMPONENTS * FLOAT_BYTES,
    }
}

/// The size in bytes of a buffer of `floats` 32-bit floats.
pub fn buffer_bytes(floats: usize) -> (r: usize)
    requires
        floats * FLOAT_BYTES <= usize::MAX,
    ensures
        r == floats * FLOAT_BYTES,
{
    floats * FLOAT_BYTES
}

/// The vertex stage: applies the `modelview` matrix to the 2D position
/// (with z = 0 and w = 1) and passes the colour on.
pub const VERTEX_SHADER_SRC: &'static str = "
    #version 150
    uniform mat4 modelview;
    in vec2 position;
    in vec4 color;
    out vec4 in_color;
    void main() {
       gl_Position = modelview * vec4(position, 0.0, 1.0);
       in_color = color;
    }
";

/// The fragment stage: writes the interpolated colour unchanged.
pub const FRAGMENT_SHADER_SRC: &'static str = "
    #version 150
    in vec4 in_color;
    out vec4 out_color;
    void main() {
       out_color = in_color;
    }
";

/// The names the program's inputs and outputs are looked up by.
pub const POSITION_ATTRIBUTE: &'static str = "position";
pub const COLOR_ATTRIBUTE: &'static str = "color";
pub const MODELVIEW_UNIFORM: &'static str = "modelview";
pub const COLOR_OUTPUT: &'static str = "out_color";

/// A stage of the shader program.
#[derive(Clone, Copy, Debug, PartialEq, Eq, Structural)]
pub enum ShaderStage {
    Vertex,
    Fragment,
}

/// The source compiled for `stage`.
pub fn shader_source(stage: ShaderStage) -> (r: &'static str)
    ensures
        stage == ShaderStage::Vertex ==> r@ == VERTEX_SHADER_SRC@,
        stage == ShaderStage::Fragment ==> r@ == FRAGMENT_SHADER_SRC@,
{
    match stage {
        ShaderStage::Vertex => VERTEX_SHADER_SRC,
        ShaderStage::Fragment => FRAGMENT_SHADER_SRC,
    }
}

} // verus!
