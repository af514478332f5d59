use traffic_editor::camera::{
    latest_sample, total_scroll, zoom_length, CameraAction, FlexibleProjection, ProjectionMode,
    TickInput, MIN_ORBIT_RADIUS, MIN_ORTHO_SCALE, ORTHO_ZOOM_DIVISOR,
};

fn idle() -> TickInput {
    TickInput {
        pan_pressed: false,
        orbit_pressed: false,
        orbit_just_pressed: false,
        orbit_just_released: false,
        pointer_moved: false,
        scroll: 0,
        up_z_nonpositive: false,
    }
}

fn scrolled(scroll: i64) -> TickInput {
    TickInput { scroll, ..idle() }
}

fn settled(mode: ProjectionMode) -> FlexibleProjection {
    let mut p = FlexibleProjection::new();
    p.set_mode(mode);
    assert_eq!(p.step(&idle()), CameraAction::ResetPose);
    p
}

#[test]
fn new_controller_starts_orthographic_with_pending_switch() {
    let p = FlexibleProjection::new();
    assert_eq!(p.mode(), ProjectionMode::Orthographic);
    assert!(p.mode_switched());
    assert_eq!(p.ortho_scale(), 10_000_000);
    assert_eq!(p.orbit_radius(), 100_000_000);
    assert!(!p.upside_down());
    let d = FlexibleProjection::default();
    assert_eq!(d.ortho_scale(), p.ortho_scale());
    assert_eq!(d.orbit_radius(), p.orbit_radius());
    assert_eq!(d.mode(), p.mode());
}

#[test]
fn orthographic_scroll_in_by_one_step_shrinks_scale_by_a_tenth() {
    let mut p = settled(ProjectionMode::Orthographic);
    p.set_ortho_scale(10_000_000);
    let a = p.step(&scrolled(1000));
    assert_eq!(a, CameraAction::Orthographic { pan: false });
    assert_eq!(p.ortho_scale(), 9_000_000);
}

#[test]
fn perspective_radius_at_floor_stays_there_under_large_scroll() {
    let mut p = settled(ProjectionMode::Perspective);
    p.set_orbit_radius(50_000);
    assert_eq!(p.orbit_radius(), 50_000);
    let a = p.step(&scrolled(100_000));
    assert_eq!(a, CameraAction::Zoom);
    assert_eq!(p.orbit_radius(), 50_000);
}

#[test]
fn perspective_radius_never_drops_below_floor() {
    let mut p = settled(ProjectionMode::Perspective);
    let scrolls: [i64; 8] = [1000, 4999, 5000, 5001, i64::MAX, -3000, 100_000_000, 250];
    for s in scrolls {
        p.step(&scrolled(s));
        assert!(p.orbit_radius() >= MIN_ORBIT_RADIUS);
    }
    assert_eq!(p.orbit_radius(), MIN_ORBIT_RADIUS);
}

#[test]
fn perspective_scroll_out_grows_radius_by_a_fifth() {
    let mut p = settled(ProjectionMode::Perspective);
    p.set_orbit_radius(200_000_000);
    assert_eq!(p.step(&scrolled(-1000)), CameraAction::Zoom);
    assert_eq!(p.orbit_radius(), 240_000_000);
}

#[test]
fn orthographic_scale_has_floor() {
    let mut p = settled(ProjectionMode::Orthographic);
    p.step(&scrolled(50_000));
    assert_eq!(p.ortho_scale(), MIN_ORTHO_SCALE);
    p.set_ortho_scale(1);
    assert_eq!(p.ortho_scale(), MIN_ORTHO_SCALE);
}

#[test]
fn zoom_in_then_out_does_not_restore_scale() {
    // (1 - 0.1)(1 + 0.1) = 0.99: an equal scroll back does not undo a zoom.
    let mut p = settled(ProjectionMode::Orthographic);
    p.set_ortho_scale(10_000_000);
    p.step(&scrolled(1000));
    assert_eq!(p.ortho_scale(), 9_000_000);
    p.step(&scrolled(-1000));
    assert_eq!(p.ortho_scale(), 9_900_000);
}

#[test]
fn zero_scroll_leaves_scale_unchanged() {
    let mut p = settled(ProjectionMode::Orthographic);
    let before = p.ortho_scale();
    p.step(&idle());
    assert_eq!(p.ortho_scale(), before);
}

#[test]
fn mode_switch_resets_pose_and_discards_tick_input() {
    let mut p = settled(ProjectionMode::Orthographic);
    p.set_mode(ProjectionMode::Perspective);
    assert!(p.mode_switched());
    let busy = TickInput {
        pan_pressed: true,
        orbit_pressed: true,
        orbit_just_pressed: true,
        pointer_moved: true,
        scroll: 3000,
        up_z_nonpositive: true,
        ..idle()
    };
    let radius = p.orbit_radius();
    let scale = p.ortho_scale();
    assert_eq!(p.step(&busy), CameraAction::ResetPose);
    assert!(!p.mode_switched());
    assert_eq!(p.mode(), ProjectionMode::Perspective);
    assert_eq!(p.orbit_radius(), radius);
    assert_eq!(p.ortho_scale(), scale);
    assert!(!p.upside_down());
    assert_eq!(p.step(&busy), CameraAction::Orbit { upside_down: true });
}

#[test]
fn setting_the_same_mode_still_resets() {
    let mut p = settled(ProjectionMode::Orthographic);
    p.set_mode(ProjectionMode::Orthographic);
    assert_eq!(p.step(&idle()), CameraAction::ResetPose);
    assert_eq!(p.step(&idle()), CameraAction::Orthographic { pan: false });
}

#[test]
fn orthographic_pans_only_with_a_button_held() {
    let mut p = settled(ProjectionMode::Orthographic);
    let moved = TickInput { pointer_moved: true, ..idle() };
    assert_eq!(p.step(&moved), CameraAction::Orthographic { pan: false });
    let dragged = TickInput { pan_pressed: true, ..moved };
    assert_eq!(p.step(&dragged), CameraAction::Orthographic { pan: true });
    let held_still = TickInput { pan_pressed: true, ..idle() };
    assert_eq!(p.step(&held_still), CameraAction::Orthographic { pan: false });
}

#[test]
fn orthographic_pans_and_zooms_in_one_tick() {
    let mut p = settled(ProjectionMode::Orthographic);
    let both = TickInput { pan_pressed: true, pointer_moved: true, scroll: 1000, ..idle() };
    assert_eq!(p.step(&both), CameraAction::Orthographic { pan: true });
    assert_eq!(p.ortho_scale(), 9_000_000);
}

#[test]
fn perspective_priority_is_orbit_then_pan_then_zoom() {
    let mut p = settled(ProjectionMode::Perspective);
    let radius = p.orbit_radius();
    let all = TickInput { pan_pressed: true, orbit_pressed: true, pointer_moved: true, scroll: 1000, ..idle() };
    assert_eq!(p.step(&all), CameraAction::Orbit { upside_down: false });
    assert_eq!(p.orbit_radius(), radius);
    let pan_zoom = TickInput { pan_pressed: true, pointer_moved: true, scroll: 1000, ..idle() };
    assert_eq!(p.step(&pan_zoom), CameraAction::PanCenter);
    assert_eq!(p.orbit_radius(), radius);
    let still = TickInput { pan_pressed: true, scroll: 1000, ..idle() };
    assert_eq!(p.step(&still), CameraAction::Zoom);
    assert_eq!(p.orbit_radius(), 80_000_000);
    assert_eq!(p.step(&idle()), CameraAction::Idle);
}

#[test]
fn upside_down_is_latched_on_orbit_button_edges_only() {
    let mut p = settled(ProjectionMode::Perspective);
    let held = TickInput { orbit_pressed: true, pointer_moved: true, up_z_nonpositive: true, ..idle() };
    assert_eq!(p.step(&held), CameraAction::Orbit { upside_down: false });
    assert!(!p.upside_down());
    let press = TickInput { orbit_just_pressed: true, ..held };
    assert_eq!(p.step(&press), CameraAction::Orbit { upside_down: true });
    let held_upright = TickInput { up_z_nonpositive: false, ..held };
    assert_eq!(p.step(&held_upright), CameraAction::Orbit { upside_down: true });
    let release = TickInput { orbit_just_released: true, orbit_pressed: false, pointer_moved: false, ..held_upright };
    assert_eq!(p.step(&release), CameraAction::Idle);
    assert!(!p.upside_down());
}

#[test]
fn latest_sample_keeps_only_the_last_pointer_position() {
    assert_eq!(latest_sample((1, 2), &vec![]), (1, 2));
    assert_eq!(latest_sample((1, 2), &vec![(5, 5), (7, 3), (9, 1)]), (9, 1));
    assert_eq!(latest_sample((0.5f32, 0.25f32), &vec![(3.5f32, 4.0f32)]), (3.5, 4.0));
}

#[test]
fn total_scroll_adds_every_event() {
    assert_eq!(total_scroll(&vec![]), 0);
    assert_eq!(total_scroll(&vec![1000, -250, 1000]), 1750);
    assert_eq!(total_scroll(&vec![i32::MAX, i32::MAX]), 2 * i32::MAX as i64);
}

#[test]
fn zoom_length_saturates_at_the_largest_value() {
    assert_eq!(zoom_length(u64::MAX, -1000, ORTHO_ZOOM_DIVISOR, MIN_ORTHO_SCALE), u64::MAX);
    assert_eq!(zoom_length(10_000_000, i64::MIN, ORTHO_ZOOM_DIVISOR, MIN_ORTHO_SCALE), u64::MAX);
    assert_eq!(zoom_length(10_000_000, 10_000, ORTHO_ZOOM_DIVISOR, MIN_ORTHO_SCALE), MIN_ORTHO_SCALE);
    assert_eq!(zoom_length(10_000_000, 0, ORTHO_ZOOM_DIVISOR, MIN_ORTHO_SCALE), 10_000_000);
}
