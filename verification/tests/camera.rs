//! Tests of the camera controller: construction, event ingestion, mode
//! precedence, clamping, accumulation and the pose query.

use orbit_zoom_camera::controller::{Button, CameraEvent, OrbitZoomCamera};
use orbit_zoom_camera::vector::Vec3;
use orbit_zoom_camera::mode::Mode;
use orbit_zoom_camera::settings::{
    OrbitZoomCameraSettings, KEY_LCTRL, KEY_LSHIFT, MOUSE_LEFT, MOUSE_RIGHT,
};

fn origin() -> Vec3 {
    Vec3 { x: 0, y: 0, z: 0 }
}

fn empty_mode() -> Mode {
    Mode {
        orbit_button: false,
        zoom_button: false,
        pan_button: false,
        orbit_mod: false,
        zoom_mod: false,
        pan_mod: false,
    }
}

/// Settings with no modifier key configured for any action, so each
/// action engages on its button alone.
fn unmodified_settings() -> OrbitZoomCameraSettings {
    let mut s = OrbitZoomCameraSettings::default();
    s.pan_mod = None;
    s
}

#[test]
fn new_defaults() {
    let c = OrbitZoomCamera::new(origin(), OrbitZoomCameraSettings::default());
    assert_eq!(c.target, origin());
    assert_eq!(c.yaw, 0);
    assert_eq!(c.pitch, 0);
    assert_eq!(c.rotation.yaw, 0);
    assert_eq!(c.rotation.pitch, 0);
    assert_eq!(c.distance, 10_000);
    assert_eq!(c.distance_near_limit, 100);
    assert_eq!(c.distance_far_limit, 1_000_000);
    // orbit and zoom have no configured modifier, so their modifier
    // flags come pre-set; pan is gated by left shift
    assert_eq!(
        c.mode(),
        Mode { orbit_mod: true, zoom_mod: true, ..empty_mode() }
    );
}

#[test]
fn new_presets_all_modifier_flags_when_none_configured() {
    let c = OrbitZoomCamera::new(origin(), unmodified_settings());
    assert_eq!(
        c.mode(),
        Mode { orbit_mod: true, zoom_mod: true, pan_mod: true, ..empty_mode() }
    );
}

#[test]
fn press_and_release_toggle_flags() {
    let mut c = OrbitZoomCamera::new(origin(), OrbitZoomCameraSettings::default());
    c.event(&CameraEvent::Press(Button::Mouse(MOUSE_LEFT)));
    // left is both the orbit and the pan button
    let m = c.mode();
    assert!(m.orbit_button && m.pan_button && !m.zoom_button);
    c.event(&CameraEvent::Press(Button::Key(KEY_LSHIFT)));
    assert!(c.mode().pan_mod);
    c.event(&CameraEvent::Release(Button::Mouse(MOUSE_LEFT)));
    let m = c.mode();
    assert!(!m.orbit_button && !m.pan_button && m.pan_mod);
    // unrecognized inputs are ignored
    c.event(&CameraEvent::Press(Button::Mouse(9)));
    c.event(&CameraEvent::Press(Button::Key(9)));
    assert_eq!(c.mode(), m);
}

#[test]
fn orbit_accumulates_scaled_deltas() {
    // with the default settings the pan action is gated by the unheld
    // shift key, so the left button engages orbiting alone
    let mut c = OrbitZoomCamera::new(origin(), OrbitZoomCameraSettings::default());
    c.event(&CameraEvent::Press(Button::Mouse(MOUSE_LEFT)));
    // orbit speed 0.05: a delta of 1.0 adds 0.05 to the yaw
    c.control_camera(1000, 0);
    assert_eq!(c.yaw, 50);
    assert_eq!(c.pitch, 0);
    // pitch speed 0.1 relative to orbit speed: a vertical delta of 1.0
    // adds 0.05 * 0.1 = 0.005 to the pitch
    c.control_camera(0, 1000);
    assert_eq!(c.yaw, 50);
    assert_eq!(c.pitch, 5);
    assert_eq!(c.rotation.yaw, 50);
    assert_eq!(c.rotation.pitch, 5);
    assert_eq!(c.distance, 10_000);
    assert_eq!(c.target, origin());
}

#[test]
fn orbit_linearity_two_steps_equal_one_double_step() {
    let mut a = OrbitZoomCamera::new(origin(), OrbitZoomCameraSettings::default());
    a.event(&CameraEvent::Press(Button::Mouse(MOUSE_LEFT)));
    let mut b = a;
    a.control_camera(3000, 0);
    a.control_camera(3000, 0);
    b.control_camera(6000, 0);
    assert_eq!(a.yaw, b.yaw);
    assert_eq!(a.yaw, 300);
}

#[test]
fn zoom_multiplies_and_is_exact() {
    let mut c = OrbitZoomCamera::new(origin(), unmodified_settings());
    c.event(&CameraEvent::Press(Button::Mouse(MOUSE_RIGHT)));
    // distance 10, zoom speed 0.1, delta 1.0: 10 + 1.0 * 0.1 * 10 = 11
    c.control_camera(0, 1000);
    assert_eq!(c.distance, 11_000);
    assert_eq!(c.yaw, 0);
    assert_eq!(c.target, origin());
}

#[test]
fn zoom_clamps_to_far_limit() {
    let mut c = OrbitZoomCamera::new(origin(), unmodified_settings());
    c.distance_far_limit = 10_500;
    c.event(&CameraEvent::Press(Button::Mouse(MOUSE_RIGHT)));
    c.control_camera(0, 1000);
    assert_eq!(c.distance, 10_500);
}

#[test]
fn zoom_clamps_to_near_limit() {
    let mut c = OrbitZoomCamera::new(origin(), unmodified_settings());
    c.distance_near_limit = 9_500;
    c.event(&CameraEvent::Press(Button::Mouse(MOUSE_RIGHT)));
    // 10 - 1.0 * 0.1 * 10 = 9, below the raised near limit
    c.control_camera(0, -1000);
    assert_eq!(c.distance, 9_500);
}

#[test]
fn pan_moves_target_along_frame_axes() {
    let mut c = OrbitZoomCamera::new(origin(), unmodified_settings());
    c.event(&CameraEvent::Press(Button::Mouse(MOUSE_LEFT)));
    // pan speed 0.1, distance 10: a delta of 1.0 moves the target by
    // 1.0 along the identity frame's axis
    c.control_camera(1000, 2000);
    assert_eq!(c.target, Vec3 { x: 1000, y: 2000, z: 0 });
    assert_eq!(c.distance, 10_000);
    assert_eq!(c.yaw, 0);
    assert_eq!(c.pitch, 0);
}

#[test]
fn pan_displacement_doubles_with_distance() {
    let mut near = OrbitZoomCamera::new(origin(), unmodified_settings());
    near.event(&CameraEvent::Press(Button::Mouse(MOUSE_LEFT)));
    let mut far = near;
    far.distance = 20_000;
    near.control_camera(1000, 0);
    far.control_camera(1000, 0);
    assert_eq!(near.target.x, 1000);
    assert_eq!(far.target.x, 2000);
}

#[test]
fn pan_takes_precedence_over_zoom_and_orbit() {
    let mut c = OrbitZoomCamera::new(origin(), unmodified_settings());
    c.event(&CameraEvent::Press(Button::Mouse(MOUSE_LEFT)));
    c.event(&CameraEvent::Press(Button::Mouse(MOUSE_RIGHT)));
    let mode_before = c.mode();
    assert!(mode_before.pan_button && mode_before.zoom_button && mode_before.orbit_button);
    c.control_camera(1000, 1000);
    // only the pan effect: target moved, everything else unchanged
    assert_eq!(c.target, Vec3 { x: 1000, y: 1000, z: 0 });
    assert_eq!(c.distance, 10_000);
    assert_eq!(c.yaw, 0);
    assert_eq!(c.pitch, 0);
    assert_eq!(c.mode(), mode_before);
}

#[test]
fn scroll_engages_default_mode_and_restores_flags() {
    let mut c = OrbitZoomCamera::new(origin(), OrbitZoomCameraSettings::default());
    let mode_before = c.mode();
    // no button held and the pan modifier (the only configured one) is
    // not held: scrolling temporarily enables the default zoom action
    c.event(&CameraEvent::Scroll(0, 1000));
    assert_eq!(c.distance, 11_000);
    assert_eq!(c.mode(), mode_before);
}

#[test]
fn scroll_restores_flags_it_did_not_set() {
    // the scroll default forces both zoom flags here; the zoom modifier
    // flag is already pre-set (no zoom key is configured), and the
    // restore must leave it set rather than clear the whole mask
    let mut s = OrbitZoomCameraSettings::default();
    s.scroll_mode = Mode { zoom_button: true, zoom_mod: true, ..empty_mode() };
    let mut c = OrbitZoomCamera::new(origin(), s);
    let before = c.mode();
    assert!(before.zoom_mod);
    c.event(&CameraEvent::Scroll(0, 1000));
    assert_eq!(c.distance, 11_000);
    assert_eq!(c.mode(), before);
    // zooming by its button alone still works afterwards
    c.event(&CameraEvent::Press(Button::Mouse(MOUSE_RIGHT)));
    c.control_camera(0, 1000);
    assert_eq!(c.distance, 12_100);
}

#[test]
fn scroll_with_modifier_held_is_plain_motion() {
    let mut c = OrbitZoomCamera::new(origin(), OrbitZoomCameraSettings::default());
    c.event(&CameraEvent::Press(Button::Key(KEY_LSHIFT)));
    let mode_before = c.mode();
    // the configured pan modifier is held, so the default scroll mode
    // is not forced; no button is held, so nothing happens
    c.event(&CameraEvent::Scroll(0, 1000));
    assert_eq!(c.distance, 10_000);
    assert_eq!(c.mode(), mode_before);
}

#[test]
fn negative_pitch_speed_inverts_pitch_direction() {
    let mut c = OrbitZoomCamera::new(
        origin(),
        OrbitZoomCameraSettings::default().pitch_speed(-100),
    );
    c.event(&CameraEvent::Press(Button::Mouse(MOUSE_LEFT)));
    c.control_camera(0, 1000);
    assert_eq!(c.pitch, -5);
}

#[test]
fn scroll_with_modifier_and_button_is_ordinary_motion() {
    let mut c = OrbitZoomCamera::new(origin(), OrbitZoomCameraSettings::default());
    c.event(&CameraEvent::Press(Button::Key(KEY_LSHIFT)));
    c.event(&CameraEvent::Press(Button::Mouse(MOUSE_LEFT)));
    // the configured pan modifier is held, so scrolling is subject to
    // the state as it stands: pan is active and wins
    c.event(&CameraEvent::Scroll(1000, 0));
    assert_eq!(c.target.x, 1000);
    assert_eq!(c.distance, 10_000);
}

#[test]
fn scroll_modifier_check_stops_at_first_configured_action() {
    let mut s = OrbitZoomCameraSettings::default();
    s.orbit_mod = Some(KEY_LCTRL);
    let mut c = OrbitZoomCamera::new(origin(), s);
    c.event(&CameraEvent::Press(Button::Key(KEY_LSHIFT)));
    // orbit has a configured modifier, so the check inspects it first
    // and stops there: it is not held, so the scroll reports "no
    // modifier held" although pan's modifier is held, and the default
    // zoom mode engages
    let before = c.mode();
    c.event(&CameraEvent::Scroll(0, 1000));
    assert_eq!(c.distance, 11_000);
    assert_eq!(c.mode(), before);
}

#[test]
fn motion_inverts_horizontal_axis() {
    let mut c = OrbitZoomCamera::new(origin(), OrbitZoomCameraSettings::default());
    c.event(&CameraEvent::Press(Button::Mouse(MOUSE_LEFT)));
    c.event(&CameraEvent::Motion(1000, 0));
    assert_eq!(c.yaw, -50);
}

#[test]
fn camera_query_is_deterministic_and_pure() {
    let mut c = OrbitZoomCamera::new(origin(), unmodified_settings());
    c.event(&CameraEvent::Press(Button::Mouse(MOUSE_LEFT)));
    c.control_camera(1000, 500);
    let p1 = c.camera(16);
    let p2 = c.camera(16);
    assert_eq!(p1, p2);
    assert_eq!(p1.target, c.target);
    assert_eq!(p1.rotation, c.rotation);
    assert_eq!(p1.distance, c.distance);
}

#[test]
fn init_resynchronizes_rotation_after_direct_edits() {
    let mut c = OrbitZoomCamera::new(origin(), unmodified_settings());
    c.yaw = 700;
    c.pitch = -300;
    // the rotation is stale until init is called
    assert_eq!(c.camera(0).rotation.yaw, 0);
    c.init();
    let p = c.camera(0);
    assert_eq!(p.rotation.yaw, 700);
    assert_eq!(p.rotation.pitch, -300);
}

#[test]
fn default_scenario_orbit_step() {
    // default settings, target at the origin, initial distance 10;
    // pressing the orbit button (its modifier flag is pre-set) and
    // moving by (1.0, 0.0) yaws by exactly orbit_speed = 0.05
    let mut c = OrbitZoomCamera::new(origin(), OrbitZoomCameraSettings::default());
    c.event(&CameraEvent::Press(Button::Mouse(MOUSE_LEFT)));
    c.control_camera(1000, 0);
    assert_eq!(c.yaw, 50);
    assert_eq!(c.pitch, 0);
    assert_eq!(c.distance, 10_000);
    assert_eq!(c.target, origin());
    let p = c.camera(0);
    assert_eq!(p.rotation.yaw, 50);
    // the camera sits 10 units from the origin along the forward axis
    // rotated by yaw = 0.05 radians
    let yaw = p.rotation.yaw as f64 / 1000.0;
    let dist = p.distance as f64 / 1000.0;
    let pos = [dist * yaw.sin(), 0.0, dist * yaw.cos()];
    let norm = (pos[0] * pos[0] + pos[1] * pos[1] + pos[2] * pos[2]).sqrt();
    assert!((norm - 10.0).abs() < 1e-9);
    assert!((pos[0] - 10.0 * 0.05f64.sin()).abs() < 1e-9);
}
