use spin_triangle::motion::{Axis, Spin, Turn};
use spin_triangle::session::{handle_events, KeyAction, KeyCode, KeyInput, Session};

fn key(key: KeyCode, action: KeyAction) -> KeyInput {
    KeyInput { key, action }
}

#[test]
fn velocities_grow_by_fixed_steps() {
    let mut s = Spin::new();
    assert_eq!(s.velocity(Axis::X), 0);
    for _ in 0..250 {
        s.advance();
    }
    assert_eq!(s.frame(), 250);
    assert_eq!(s.velocity(Axis::X), 250);
    assert_eq!(s.velocity(Axis::Y), -750);
    assert_eq!(s.velocity(Axis::Z), -250);
}

#[test]
fn each_frame_turns_x_then_y_then_z() {
    let mut s = Spin::new();
    let first = s.advance();
    assert_eq!(
        first,
        vec![
            Turn { axis: Axis::X, milliradians: 1 },
            Turn { axis: Axis::Y, milliradians: -3 },
            Turn { axis: Axis::Z, milliradians: -1 },
        ]
    );
    let second = s.advance();
    assert_eq!(
        second,
        vec![
            Turn { axis: Axis::X, milliradians: 2 },
            Turn { axis: Axis::Y, milliradians: -6 },
            Turn { axis: Axis::Z, milliradians: -2 },
        ]
    );
}

#[test]
fn sessions_with_no_input_hand_out_the_same_turns() {
    let mut a = Session::new();
    let mut b = Session::new();
    for _ in 0..100 {
        assert_eq!(a.tick(&Vec::new(), false), b.tick(&Vec::new(), false));
    }
    assert_eq!(a.frame(), 100);
}

#[test]
fn escape_press_is_found_among_other_keys() {
    assert!(!handle_events(&Vec::new()));
    assert!(!handle_events(&vec![
        key(KeyCode::Other, KeyAction::Press),
        key(KeyCode::Escape, KeyAction::Release),
        key(KeyCode::Escape, KeyAction::Repeat),
    ]));
    assert!(handle_events(&vec![
        key(KeyCode::Other, KeyAction::Press),
        key(KeyCode::Escape, KeyAction::Press),
    ]));
}

#[test]
fn escape_at_frame_k_ends_loop_after_frame_k() {
    let k: u64 = 5;
    let mut s = Session::new();
    let mut drawn: u64 = 0;
    while s.is_running() {
        let keys = if drawn == k {
            vec![key(KeyCode::Escape, KeyAction::Press)]
        } else {
            vec![key(KeyCode::Other, KeyAction::Press)]
        };
        let turns = s.tick(&keys, false);
        assert_eq!(turns.len(), 3);
        drawn += 1;
    }
    assert_eq!(drawn, k + 1);
    assert_eq!(s.frame(), k + 1);
}

#[test]
fn window_close_request_ends_loop_after_current_frame() {
    let mut s = Session::new();
    s.tick(&Vec::new(), false);
    assert!(s.is_running());
    s.tick(&Vec::new(), true);
    assert!(!s.is_running());
    assert_eq!(s.frame(), 2);
}
