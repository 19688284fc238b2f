use map_editor::ui::menus::viewport::renderer::grid_line_vertices;
use map_editor::ui::menus::viewport::{
    fit_viewport_size, move_direction, MiddleDrag, PointerInput, PointerTracker,
};

fn input(pos: Option<(i32, i32)>, over: bool, middle: bool, right: bool, shift: bool, ctrl: bool) -> PointerInput<(i32, i32)> {
    PointerInput { pos, over, middle, right, shift, ctrl }
}

#[test]
fn right_drag_rotates_between_frames() {
    let mut t = PointerTracker::new();
    let r = t.track(input(Some((1, 1)), true, false, true, false, false));
    assert!(r.active);
    assert_eq!(r.rotate, None);
    let r = t.track(input(Some((4, 6)), true, false, true, false, false));
    assert_eq!(r.rotate, Some(((1, 1), (4, 6))));
    assert_eq!(r.middle, None);
    let r = t.track(input(Some((5, 6)), true, false, false, false, false));
    assert_eq!(r.rotate, None);
    assert_eq!(t.last_mouse_pos, None);
}

#[test]
fn middle_drag_without_modifiers_rotates() {
    let mut t = PointerTracker::new();
    t.track(input(Some((0, 0)), true, true, false, false, false));
    let r = t.track(input(Some((2, 0)), true, true, false, false, false));
    assert_eq!(r.rotate, Some(((0, 0), (2, 0))));
    assert_eq!(r.middle, None);
}

#[test]
fn middle_drag_with_ctrl_zooms_and_shift_pans() {
    let mut t = PointerTracker::new();
    t.track(input(Some((0, 0)), true, true, false, false, true));
    let r = t.track(input(Some((0, 3)), true, true, false, false, true));
    assert_eq!(r.middle, Some(MiddleDrag::Zoom((0, 0), (0, 3))));
    assert_eq!(r.rotate, None);
    let r = t.track(input(Some((2, 3)), true, true, false, true, false));
    assert_eq!(r.middle, Some(MiddleDrag::Pan((0, 3), (2, 3))));
    let r = t.track(input(Some((2, 5)), true, true, false, true, true));
    assert_eq!(r.middle, Some(MiddleDrag::Zoom((2, 3), (2, 5))));
    t.track(input(Some((2, 5)), true, false, false, true, true));
    assert_eq!(t.last_mmb_pos, None);
}

#[test]
fn leaving_the_viewport_ends_drags() {
    let mut t = PointerTracker::new();
    t.track(input(Some((0, 0)), true, true, true, false, true));
    assert_eq!(t.last_mouse_pos, Some((0, 0)));
    assert_eq!(t.last_mmb_pos, Some((0, 0)));
    let r = t.track(input(Some((9, 9)), false, true, true, false, true));
    assert!(!r.active);
    assert_eq!(r.rotate, None);
    assert_eq!(r.middle, None);
    assert_eq!(t.last_mouse_pos, None);
    assert_eq!(t.last_mmb_pos, None);
}

#[test]
fn movement_keys() {
    assert_eq!(move_direction(false, false, false, false), None);
    assert_eq!(move_direction(true, false, false, false), Some((-1, 0)));
    assert_eq!(move_direction(false, true, false, false), Some((1, 0)));
    assert_eq!(move_direction(false, false, true, false), Some((0, -1)));
    assert_eq!(move_direction(false, false, false, true), Some((0, 1)));
    assert_eq!(move_direction(true, true, false, false), None);
    assert_eq!(move_direction(true, false, false, true), Some((-1, 1)));
    assert_eq!(move_direction(true, true, true, true), None);
}

#[test]
fn viewport_size() {
    assert_eq!(fit_viewport_size([512, 512], 512, 512), [512, 512]);
    assert_eq!(fit_viewport_size([512, 512], 800, 600), [800, 600]);
    assert_eq!(fit_viewport_size([512, 512], 0, -3), [1, 1]);
    assert_eq!(fit_viewport_size([1, 1], 0, 1), [1, 1]);
}

#[test]
fn grid_vertices() {
    let v = grid_line_vertices();
    assert_eq!(v.len(), 252);
    assert_eq!(v.len() / 3, 84);
    assert_eq!(&v[0..12], &[-10, 0, -10, -10, 0, 10, -10, 0, -10, 10, 0, -10]);
    assert_eq!(&v[240..252], &[10, 0, -10, 10, 0, 10, -10, 0, 10, 10, 0, 10]);
    assert_eq!(&v[120..132], &[0, 0, -10, 0, 0, 10, -10, 0, 0, 10, 0, 0]);
}
