//! Immutable-after-construction configuration: which mouse buttons and
//! optional modifier keys drive each action, what scrolling does by
//! default, and the four speed scalars.
//!
//! Buttons and keys are opaque identifiers compared by equality only;
//! the embedding program maps its real input identifiers onto them.

use vstd::prelude::*;
use crate::mode::Mode;
use crate::scalar::Scalar;

verus! {

/// Identifier of the primary (left) mouse button.
pub const MOUSE_LEFT: u32 = 0;

/// Identifier of the secondary (right) mouse button.
pub const MOUSE_RIGHT: u32 = 1;

/// Identifier of the middle mouse button.
pub const MOUSE_MIDDLE: u32 = 2;

/// Identifier of the left shift key.
pub const KEY_LSHIFT: u32 = 0;

/// Identifier of the left control key.
pub const KEY_LCTRL: u32 = 1;

/// Key bindings and speed modifiers for an [`crate::controller::OrbitZoomCamera`].
#[derive(Clone, Copy, PartialEq, Eq, Debug)]
pub struct OrbitZoomCameraSettings {
    /// Which mouse button to press to orbit with the mouse.
    pub orbit_button: u32,
    /// Which mouse button to press to zoom with the mouse.
    pub zoom_button: u32,
    /// Which mouse button to press to pan with the mouse.
    pub pan_button: u32,
    /// Which key to press to orbit with the mouse (if any).
    pub orbit_mod: Option<u32>,
    /// Which key to press to zoom with the mouse (if any).
    pub zoom_mod: Option<u32>,
    /// Which key to press to pan with the mouse (if any).
    pub pan_mod: Option<u32>,
    /// What scrolling controls: these flags are temporarily set while a
    /// scroll event is handled and no configured modifier is held.
    pub scroll_mode: Mode,
    /// Modifier for orbiting speed (arbitrary unit).
    pub orbit_speed: Scalar,
    /// Modifier for pitch speed relative to orbiting speed (arbitrary
    /// unit). A negative value reverses the pitch direction.
    pub pitch_speed: Scalar,
    /// Modifier for panning speed (arbitrary unit).
    pub pan_speed: Scalar,
    /// Modifier for zoom speed (arbitrary unit).
    pub zoom_speed: Scalar,
}

impl OrbitZoomCameraSettings {
    /// The documented default configuration: orbit on the left button,
    /// zoom on the right button, pan on the left button gated by the
    /// left shift key, scroll zooming, orbit speed 0.05, pitch speed
    /// 0.1, pan speed 0.1 and zoom speed 0.1 (in thousandths).
    pub open spec fn default_spec() -> OrbitZoomCameraSettings {
        OrbitZoomCameraSettings {
            orbit_button: MOUSE_LEFT,
            zoom_button: MOUSE_RIGHT,
            pan_button: MOUSE_LEFT,
            orbit_mod: None,
            zoom_mod: None,
            pan_mod: Some(KEY_LSHIFT),
            scroll_mode: Mode {
                orbit_button: false,
                zoom_button: true,
                pan_button: false,
                orbit_mod: false,
                zoom_mod: false,
                pan_mod: false,
            },
            orbit_speed: 50,
            pitch_speed: 100,
            pan_speed: 100,
            zoom_speed: 100,
        }
    }

    /// Clicking and dragging orbits the camera and scrolling zooms by
    /// default, with the left shift key as the pan modifier.
    pub fn default() -> (r: OrbitZoomCameraSettings)
        ensures
            r == OrbitZoomCameraSettings::default_spec(),
    {
        OrbitZoomCameraSettings {
            orbit_button: MOUSE_LEFT,
            zoom_button: MOUSE_RIGHT,
            pan_button: MOUSE_LEFT,
            orbit_mod: None,
            zoom_mod: None,
            pan_mod: Some(KEY_LSHIFT),
            scroll_mode: Mode {
                orbit_button: false,
                zoom_button: true,
                pan_button: false,
                orbit_mod: false,
                zoom_mod: false,
                pan_mod: false,
            },
            orbit_speed: 50,
            pitch_speed: 100,
            pan_speed: 100,
            zoom_speed: 100,
        }
    }

    /// Set the button for orbiting.
    pub fn orbit_button(self, button: u32) -> (r: OrbitZoomCameraSettings)
        ensures
            r == (OrbitZoomCameraSettings { orbit_button: button, ..self }),
    {
        OrbitZoomCameraSettings { orbit_button: button, ..self }
    }

    /// Set the button for zooming.
    pub fn zoom_button(self, button: u32) -> (r: OrbitZoomCameraSettings)
        ensures
            r == (OrbitZoomCameraSettings { zoom_button: button, ..self }),
    {
        OrbitZoomCameraSettings { zoom_button: button, ..self }
    }

    /// Set the button for panning.
    pub fn pan_button(self, button: u32) -> (r: OrbitZoomCameraSettings)
        ensures
            r == (OrbitZoomCameraSettings { pan_button: button, ..self }),
    {
        OrbitZoomCameraSettings { pan_button: button, ..self }
    }

    /// Set what scrolling does by default.
    pub fn scroll_mode(self, mode: Mode) -> (r: OrbitZoomCameraSettings)
        ensures
            r == (OrbitZoomCameraSettings { scroll_mode: mode, ..self }),
    {
        OrbitZoomCameraSettings { scroll_mode: mode, ..self }
    }

    /// Set the orbit speed modifier.
    pub fn orbit_speed(self, s: Scalar) -> (r: OrbitZoomCameraSettings)
        ensures
            r == (OrbitZoomCameraSettings { orbit_speed: s, ..self }),
    {
        OrbitZoomCameraSettings { orbit_speed: s, ..self }
    }

    /// Set the pitch speed modifier.
    pub fn pitch_speed(self, s: Scalar) -> (r: OrbitZoomCameraSettings)
        ensures
            r == (OrbitZoomCameraSettings { pitch_speed: s, ..self }),
    {
        OrbitZoomCameraSettings { pitch_speed: s, ..self }
    }

    /// Set the pan speed modifier.
    pub fn pan_speed(self, s: Scalar) -> (r: OrbitZoomCameraSettings)
        ensures
            r == (OrbitZoomCameraSettings { pan_speed: s, ..self }),
    {
        OrbitZoomCameraSettings { pan_speed: s, ..self }
    }

    /// Set the zoom speed modifier.
    pub fn zoom_speed(self, s: Scalar) -> (r: OrbitZoomCameraSettings)
        ensures
            r == (OrbitZoomCameraSettings { zoom_speed: s, ..self }),
    {
        OrbitZoomCameraSettings { zoom_speed: s, ..self }
    }
}

} // verus!
