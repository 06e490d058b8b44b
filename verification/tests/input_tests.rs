use jumpy_session::input::{apply_raw_input, PlayerControl, RawPlayerInput};

fn raw(jump: bool, grab: bool, shoot: bool, x: i32, y: i32) -> RawPlayerInput {
    RawPlayerInput {
        jump,
        grab,
        shoot,
        move_x: x,
        move_y: y,
    }
}

#[test]
fn jump_edge_fires_only_on_the_transition_frame() {
    let c0 = PlayerControl::zero();
    let c1 = apply_raw_input(c0, raw(true, false, false, 0, 0));
    assert!(c1.jump_pressed);
    assert!(c1.jump_just_pressed);
    // Held down: the edge must be false on every later frame.
    let c2 = apply_raw_input(c1, raw(true, false, false, 0, 0));
    assert!(c2.jump_pressed);
    assert!(!c2.jump_just_pressed);
    let c3 = apply_raw_input(c2, raw(true, false, false, 0, 0));
    assert!(!c3.jump_just_pressed);
    // Released, then pressed again: a fresh edge.
    let c4 = apply_raw_input(c3, raw(false, false, false, 0, 0));
    assert!(!c4.jump_pressed);
    let c5 = apply_raw_input(c4, raw(true, false, false, 0, 0));
    assert!(c5.jump_just_pressed);
}

#[test]
fn grab_and_shoot_edges_are_independent() {
    let c0 = PlayerControl::zero();
    let c1 = apply_raw_input(c0, raw(false, true, true, 0, 0));
    assert!(c1.grab_just_pressed && c1.shoot_just_pressed);
    assert!(!c1.jump_just_pressed);
    let c2 = apply_raw_input(c1, raw(false, true, false, 0, 0));
    assert!(!c2.grab_just_pressed);
    assert!(!c2.shoot_pressed);
}

#[test]
fn just_moved_fires_on_the_start_of_movement_only() {
    let c0 = PlayerControl::zero();
    let c1 = apply_raw_input(c0, raw(false, false, false, 10, 0));
    assert!(c1.just_moved);
    assert_eq!(c1.move_x, 10);
    let c2 = apply_raw_input(c1, raw(false, false, false, 0, -3));
    assert!(!c2.just_moved);
    let c3 = apply_raw_input(c2, raw(false, false, false, 0, 0));
    assert!(!c3.just_moved);
    let c4 = apply_raw_input(c3, raw(false, false, false, 0, 1));
    assert!(c4.just_moved);
}
