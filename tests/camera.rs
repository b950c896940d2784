use emergent_empire::camera::{CameraRig, Input, ZoomLimits, POLAR_LIMIT};
use emergent_empire::ease::{cubic_ease_out, EASE_ONE};
use emergent_empire::geometry::Vec3;
use emergent_empire::orbit::TURN;

fn idle() -> Input {
    Input {
        select_down: false,
        drag_down: false,
        pointer_dx: 0,
        pointer_dy: 0,
        scroll: 0,
        pointer_x: 0,
        pointer_y: 0,
        clicked: false,
    }
}

fn rig() -> CameraRig {
    let limits = ZoomLimits { min_factor: 2, max_factor: 3, offset: 234 };
    CameraRig::new(4, 2, 0, 200, limits, 1000)
}

#[test]
fn ease_out_endpoints_and_steepness() {
    assert_eq!(cubic_ease_out(0), 0);
    assert_eq!(cubic_ease_out(EASE_ONE), EASE_ONE);
    assert_eq!(cubic_ease_out(100_000), 957_613);
    assert!(cubic_ease_out(100_000) > 900_000);
    assert_eq!(cubic_ease_out(1), 30);
    let mut last = 0;
    for p in (0..=EASE_ONE).step_by(997) {
        let e = cubic_ease_out(p);
        assert!(e >= last);
        last = e;
    }
}

#[test]
fn held_select_key_advances_once() {
    let mut c = rig();
    let held = Input { select_down: true, ..idle() };
    for t in 0..10u64 {
        c.control(&held, t);
    }
    assert_eq!(c.selection, 3);
    c.control(&idle(), 10);
    c.control(&held, 11);
    assert_eq!(c.selection, 0);
    assert_eq!(c.transition, 11);
}

#[test]
fn selection_change_starts_transition() {
    let mut c = rig();
    c.selected_pos = Vec3::new(1000, 0, 0);
    c.selected_body_radius = 5;
    c.select_next(100);
    assert_eq!(c.selection, 3);
    assert_eq!(c.selected_body_radius, 0);
    assert_eq!(c.prev_selected_pos, Vec3::new(1000, 0, 0));
    assert_eq!(c.transition, 100);
    c.selected_pos = Vec3::new(0, 2000, 0);
    assert_eq!(c.look_target(100), Vec3::new(1000, 0, 0));
    // a tenth of the way in, the curve has done 957613 millionths
    assert_eq!(c.progress_at(200), 100_000);
    assert_eq!(c.look_target(200), Vec3::new(43, 1915, 0));
    assert_eq!(c.look_target(5000), Vec3::new(0, 2000, 0));
}

#[test]
fn zoom_stays_within_limits() {
    for scroll in [i32::MIN, -1000, -1, 0, 1, 3, 1000, i32::MAX] {
        let mut c = rig();
        c.selected_body_radius = 50;
        c.distance = 150;
        c.control(&Input { scroll, ..idle() }, 0);
        assert!(c.distance >= 100 && c.distance <= 384, "scroll {} gave {}", scroll, c.distance);
    }
}

#[test]
fn zoom_step_scales_with_offset() {
    let mut c = rig();
    c.selected_body_radius = 50;
    c.distance = 250;
    // 250 - (250 - 50) * 15 / 100 = 220
    c.control(&Input { scroll: 1, ..idle() }, 0);
    assert_eq!(c.distance, 220);
    // zooming out is capped at 50 * 3 + 234
    c.control(&Input { scroll: -100, ..idle() }, 0);
    assert_eq!(c.distance, 384);
}

#[test]
fn drag_turns_and_clamps_polar() {
    let mut c = rig();
    c.control(&Input { drag_down: true, pointer_dx: 1, pointer_dy: -1_000_000, ..idle() }, 0);
    assert_eq!(c.phi, (TURN - 796) as i64);
    assert_eq!(c.theta, POLAR_LIMIT);
    c.control(&Input { drag_down: true, pointer_dy: 1_000_000, ..idle() }, 0);
    assert_eq!(c.theta, -POLAR_LIMIT);
    // without the button down the pointer does nothing
    c.control(&Input { pointer_dx: 5, pointer_dy: 5, ..idle() }, 0);
    assert_eq!(c.phi, (TURN - 796) as i64);
}

#[test]
fn zoom_right_after_selection_uses_zero_radius() {
    let mut c = rig();
    c.selected_body_radius = 1000;
    c.distance = 2500;
    // the press drops the radius to 0, so the clamp is [0, 234]
    c.control(&Input { select_down: true, ..idle() }, 5);
    assert_eq!(c.selected_body_radius, 0);
    assert_eq!(c.distance, 234);
}
