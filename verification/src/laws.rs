//! The laws the controller obeys, stated over the mathematical model
//! and proved once for every state and input.

use vstd::prelude::*;
use crate::controller::{
    control_spec, mod_key_pressed_spec, new_spec, pan_spec, pose_spec, press_mode, scroll_spec,
    Button, CamState, SettingsState,
};
use crate::scalar::{lemma_mul_value_double, mul_value, SCALE};
use crate::vector::V3;

verus! {

/// After a zoom update the distance lies within the configured limits,
/// whatever the deltas, whenever the limits are ordered.
pub proof fn lemma_zoom_respects_limits(s: CamState, dx: int, dy: int)
    requires
        s.distance_near_limit <= s.distance_far_limit,
        s.mode.zoom_active(),
        !s.mode.pan_active(),
    ensures
        s.distance_near_limit <= control_spec(s, dx, dy).distance <= s.distance_far_limit,
{
}

/// Orbit updates are purely additive and unbounded: each horizontal
/// orbit step adds exactly the scaled delta to the yaw, with no clamp
/// and no wraparound, and two steps of `dx` land on the same yaw as one
/// step of `2 * dx` whenever the scaling loses nothing to rounding.
pub proof fn lemma_orbit_additive(s: CamState, dx: int)
    requires
        s.mode.orbit_active(),
        !s.mode.pan_active(),
        !s.mode.zoom_active(),
        (dx * s.settings.orbit_speed) % (SCALE as int) == 0,
    ensures
        control_spec(s, dx, 0).yaw == s.yaw + mul_value(dx, s.settings.orbit_speed),
        control_spec(control_spec(s, dx, 0), dx, 0).yaw == control_spec(s, 2 * dx, 0).yaw,
{
    lemma_mul_value_double(dx, s.settings.orbit_speed);
}

/// The state after `n` horizontal orbit steps of `dx` each.
pub open spec fn orbit_steps(s: CamState, dx: int, n: nat) -> CamState
    decreases n,
{
    if n == 0 {
        s
    } else {
        control_spec(orbit_steps(s, dx, (n - 1) as nat), dx, 0)
    }
}

/// Yaw accumulates without bound and without wraparound: any number of
/// identical horizontal orbit steps lands exactly `n` scaled deltas
/// away from the starting yaw, and leaves the mode untouched.
pub proof fn lemma_orbit_unbounded(s: CamState, dx: int, n: nat)
    requires
        s.mode.orbit_active(),
        !s.mode.pan_active(),
        !s.mode.zoom_active(),
    ensures
        orbit_steps(s, dx, n).yaw == s.yaw + n * mul_value(dx, s.settings.orbit_speed),
        orbit_steps(s, dx, n).mode == s.mode,
        orbit_steps(s, dx, n).settings == s.settings,
    decreases n,
{
    if n > 0 {
        lemma_orbit_unbounded(s, dx, (n - 1) as nat);
        let d = mul_value(dx, s.settings.orbit_speed);
        assert((n - 1) * d + d == n * d) by (nonlinear_arith);
    }
}

/// The rounding-free side conditions under which pan scaling is exactly
/// linear: the scale factor divides each product the pan effect forms.
pub open spec fn pan_exact(s: CamState, dx: int, dy: int) -> bool {
    let dxs = mul_value(mul_value(dx, s.settings.pan_speed), s.distance);
    let dys = mul_value(mul_value(dy, s.settings.pan_speed), s.distance);
    &&& (mul_value(dx, s.settings.pan_speed) * s.distance) % (SCALE as int) == 0
    &&& (mul_value(dy, s.settings.pan_speed) * s.distance) % (SCALE as int) == 0
    &&& (s.frame.up.x * dys) % (SCALE as int) == 0
    &&& (s.frame.up.y * dys) % (SCALE as int) == 0
    &&& (s.frame.up.z * dys) % (SCALE as int) == 0
    &&& (s.frame.right.x * dxs) % (SCALE as int) == 0
    &&& (s.frame.right.y * dxs) % (SCALE as int) == 0
    &&& (s.frame.right.z * dxs) % (SCALE as int) == 0
}

/// Pan displacement scales linearly with the current distance: doubling
/// the distance doubles the target displacement of the same input
/// deltas, whenever the fixed-point scaling loses nothing to rounding.
pub proof fn lemma_pan_scales_with_distance(s: CamState, dx: int, dy: int)
    requires
        s.mode.pan_active(),
        pan_exact(s, dx, dy),
    ensures
        ({
            let doubled = CamState { distance: 2 * s.distance, ..s };
            let near_t = control_spec(s, dx, dy).target;
            let far_t = control_spec(doubled, dx, dy).target;
            &&& far_t.x - s.target.x == 2 * (near_t.x - s.target.x)
            &&& far_t.y - s.target.y == 2 * (near_t.y - s.target.y)
            &&& far_t.z - s.target.z == 2 * (near_t.z - s.target.z)
        }),
{
    let kx = mul_value(dx, s.settings.pan_speed);
    let ky = mul_value(dy, s.settings.pan_speed);
    let dxs = mul_value(kx, s.distance);
    let dys = mul_value(ky, s.distance);
    lemma_mul_value_double(kx, s.distance);
    lemma_mul_value_double(ky, s.distance);
    lemma_mul_value_double(s.frame.up.x, dys);
    lemma_mul_value_double(s.frame.up.y, dys);
    lemma_mul_value_double(s.frame.up.z, dys);
    lemma_mul_value_double(s.frame.right.x, dxs);
    lemma_mul_value_double(s.frame.right.y, dxs);
    lemma_mul_value_double(s.frame.right.z, dxs);
}

/// Mode precedence: with pan, zoom and orbit simultaneously active,
/// motion resolution produces exactly the pan effect — the target may
/// move, while distance, yaw, pitch, rotation and mode stay as they are.
pub proof fn lemma_pan_precedence(s: CamState, dx: int, dy: int)
    requires
        s.mode.pan_active(),
        s.mode.zoom_active(),
        s.mode.orbit_active(),
    ensures
        control_spec(s, dx, dy) == pan_spec(s, dx, dy),
        control_spec(s, dx, dy).distance == s.distance,
        control_spec(s, dx, dy).yaw == s.yaw,
        control_spec(s, dx, dy).pitch == s.pitch,
        control_spec(s, dx, dy).rotation == s.rotation,
        control_spec(s, dx, dy).mode == s.mode,
{
}

/// Default-scroll-mode restoration: every scroll leaves the mode flags
/// exactly as they were before the event, and one arriving while no
/// configured modifier is held applies the default action's effect
/// under the temporarily forced flags.
pub proof fn lemma_scroll_restores_mode(s: CamState, dx: int, dy: int)
    ensures
        scroll_spec(s, dx, dy).mode == s.mode,
        !mod_key_pressed_spec(s.settings, s.mode) ==> scroll_spec(s, dx, dy) == (CamState {
            mode: s.mode,
            ..control_spec(
                CamState { mode: s.mode.union_spec(s.settings.scroll_mode), ..s },
                dx,
                dy,
            )
        }),
{
}

/// Construction invariant: with no modifier key configured for any
/// action, the fresh controller has all three modifier flags pre-set
/// and all three button flags clear, and pressing an action's button
/// alone makes that action active at once.
pub proof fn lemma_construction_presets_modifiers(t: V3, s: SettingsState)
    requires
        s.orbit_mod is None,
        s.zoom_mod is None,
        s.pan_mod is None,
    ensures
        new_spec(t, s).mode.orbit_mod,
        new_spec(t, s).mode.zoom_mod,
        new_spec(t, s).mode.pan_mod,
        !new_spec(t, s).mode.orbit_button,
        !new_spec(t, s).mode.zoom_button,
        !new_spec(t, s).mode.pan_button,
        press_mode(s, new_spec(t, s).mode, Button::Mouse(s.orbit_button)).orbit_active(),
        press_mode(s, new_spec(t, s).mode, Button::Mouse(s.zoom_button)).zoom_active(),
        press_mode(s, new_spec(t, s).mode, Button::Mouse(s.pan_button)).pan_active(),
{
}

/// Camera derivation is deterministic and side-effect-free: the pose is
/// a pure function of the state, so equal states give identical poses.
pub proof fn lemma_camera_deterministic(a: CamState, b: CamState)
    requires
        a == b,
    ensures
        pose_spec(a) == pose_spec(b),
{
}

} // verus!
