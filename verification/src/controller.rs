//! The camera controller: live state (target, yaw, pitch, distance,
//! orientation, input mode) plus event ingestion and a pure
//! state-to-pose query.
//!
//! The orientation is kept symbolically as the yaw/pitch pair it is
//! derived from; the embedding program realizes it as a concrete
//! rotation (yaw about the world up axis composed with pitch about the
//! world right axis, yaw outermost) with its own math library, and
//! keeps the [`Frame`] of world-space camera axes in step with it, just
//! as it keeps `rotation` in step with direct yaw/pitch edits through
//! [`OrbitZoomCamera::init`].

use vstd::prelude::*;
use crate::mode::Mode;
use crate::scalar::{fits, fp_mul, mul_value, Scalar};
use crate::settings::OrbitZoomCameraSettings;
use crate::vector::{add3, add3_ok, scale3, scale3_ok, vec3_add, vec3_scale, Vec3, V3};

verus! {

/// A camera orientation, kept symbolically as the yaw and pitch angles
/// (thousandths of a radian) it derives from: the rotation about the
/// world up axis by `yaw`, composed with the rotation about the world
/// right axis by `pitch`, yaw applied outermost. Yaw and pitch both
/// zero name the identity orientation.
#[derive(Clone, Copy, PartialEq, Eq, Structural, Debug)]
pub struct Rotation {
    /// Yaw angle, thousandths of a radian.
    pub yaw: Scalar,
    /// Pitch angle, thousandths of a radian.
    pub pitch: Scalar,
}

/// The mathematical value of a [`Rotation`].
pub struct RotState {
    /// Yaw angle.
    pub yaw: int,
    /// Pitch angle.
    pub pitch: int,
}

impl View for Rotation {
    type V = RotState;

    open spec fn view(&self) -> RotState {
        RotState { yaw: self.yaw as int, pitch: self.pitch as int }
    }
}

/// The camera's local X (right) and Y (up) axes rotated into world
/// space by the current rotation, as fixed-point unit vectors. The
/// owner recomputes it from `rotation` whenever the rotation changes,
/// as it calls [`OrbitZoomCamera::init`] after direct yaw/pitch edits.
#[derive(Clone, Copy, PartialEq, Eq, Structural, Debug)]
pub struct Frame {
    /// World-space camera right axis.
    pub right: Vec3,
    /// World-space camera up axis.
    pub up: Vec3,
}

/// The mathematical value of a [`Frame`].
pub struct FrameState {
    /// World-space camera right axis.
    pub right: V3,
    /// World-space camera up axis.
    pub up: V3,
}

impl View for Frame {
    type V = FrameState;

    open spec fn view(&self) -> FrameState {
        FrameState { right: self.right@, up: self.up@ }
    }
}

/// A physical input: a mouse button or a keyboard key, each named by an
/// opaque identifier compared by equality only.
#[derive(Clone, Copy, PartialEq, Eq, Structural, Debug)]
pub enum Button {
    /// A mouse button.
    Mouse(u32),
    /// A keyboard key.
    Key(u32),
}

/// An input notification delivered to [`OrbitZoomCamera::event`].
/// Motion and scroll deltas are fixed-point scalars.
#[derive(Clone, Copy, PartialEq, Eq, Structural, Debug)]
pub enum CameraEvent {
    /// A button or key was pressed.
    Press(Button),
    /// A button or key was released.
    Release(Button),
    /// Pointer-relative motion: horizontal and vertical deltas.
    Motion(Scalar, Scalar),
    /// Scroll input: horizontal and vertical deltas.
    Scroll(Scalar, Scalar),
}

/// The renderable output of the camera query: the point the camera
/// orbits, its orientation, and its distance behind the target along
/// the local forward axis. The world position is
/// `target + rotate(rotation, [0, 0, distance])`, realized by the
/// consumer's math library.
#[derive(Clone, Copy, PartialEq, Eq, Structural, Debug)]
pub struct CameraPose {
    /// The world point the camera orbits.
    pub target: Vec3,
    /// The camera orientation.
    pub rotation: Rotation,
    /// Camera-to-target distance.
    pub distance: Scalar,
}

/// The mathematical value of a [`CameraPose`].
pub struct PoseState {
    /// The world point the camera orbits.
    pub target: V3,
    /// The camera orientation.
    pub rotation: RotState,
    /// Camera-to-target distance.
    pub distance: int,
}

impl View for CameraPose {
    type V = PoseState;

    open spec fn view(&self) -> PoseState {
        PoseState { target: self.target@, rotation: self.rotation@, distance: self.distance as int }
    }
}

/// The mathematical value of the settings: speeds as unbounded integers.
pub struct SettingsState {
    /// Which mouse button orbits.
    pub orbit_button: u32,
    /// Which mouse button zooms.
    pub zoom_button: u32,
    /// Which mouse button pans.
    pub pan_button: u32,
    /// Which key gates orbiting, if any.
    pub orbit_mod: Option<u32>,
    /// Which key gates zooming, if any.
    pub zoom_mod: Option<u32>,
    /// Which key gates panning, if any.
    pub pan_mod: Option<u32>,
    /// The flags scrolling forces by default.
    pub scroll_mode: Mode,
    /// Orbit speed.
    pub orbit_speed: int,
    /// Pitch speed, relative to orbit speed.
    pub pitch_speed: int,
    /// Pan speed.
    pub pan_speed: int,
    /// Zoom speed.
    pub zoom_speed: int,
}

impl View for OrbitZoomCameraSettings {
    type V = SettingsState;

    open spec fn view(&self) -> SettingsState {
        SettingsState {
            orbit_button: self.orbit_button,
            zoom_button: self.zoom_button,
            pan_button: self.pan_button,
            orbit_mod: self.orbit_mod,
            zoom_mod: self.zoom_mod,
            pan_mod: self.pan_mod,
            scroll_mode: self.scroll_mode,
            orbit_speed: self.orbit_speed as int,
            pitch_speed: self.pitch_speed as int,
            pan_speed: self.pan_speed as int,
            zoom_speed: self.zoom_speed as int,
        }
    }
}

/// The mathematical value of the whole controller state.
pub struct CamState {
    /// The world point the camera orbits.
    pub target: V3,
    /// The camera orientation, derived from yaw and pitch.
    pub rotation: RotState,
    /// Accumulated pitch angle.
    pub pitch: int,
    /// Accumulated yaw angle.
    pub yaw: int,
    /// Camera-to-target distance.
    pub distance: int,
    /// Lower distance limit.
    pub distance_near_limit: int,
    /// Upper distance limit.
    pub distance_far_limit: int,
    /// World-space camera right and up axes for `rotation`.
    pub frame: FrameState,
    /// The settings.
    pub settings: SettingsState,
    /// The live input mode flags.
    pub mode: Mode,
}

/// An orbiting camera that pans, zooms and orbits about a target point.
#[derive(Clone, Copy, Debug)]
pub struct OrbitZoomCamera {
    /// Origin of camera rotation.
    pub target: Vec3,
    /// Rotation of the camera, derived from `yaw` and `pitch`.
    pub rotation: Rotation,
    /// Pitch up/down from the target, thousandths of a radian.
    pub pitch: Scalar,
    /// Yaw left/right from the target, thousandths of a radian.
    pub yaw: Scalar,
    /// Camera distance from the target.
    pub distance: Scalar,
    /// Lower distance limit; set this to the near clipping distance.
    pub distance_near_limit: Scalar,
    /// Upper distance limit; set this to the far clipping distance.
    pub distance_far_limit: Scalar,
    /// World-space camera axes for `rotation`, kept in step by the owner.
    pub frame: Frame,
    /// Settings for the camera.
    pub settings: OrbitZoomCameraSettings,
    /// Current camera control mode activated.
    mode: Mode,
}

impl View for OrbitZoomCamera {
    type V = CamState;

    closed spec fn view(&self) -> CamState {
        CamState {
            target: self.target@,
            rotation: self.rotation@,
            pitch: self.pitch as int,
            yaw: self.yaw as int,
            distance: self.distance as int,
            distance_near_limit: self.distance_near_limit as int,
            distance_far_limit: self.distance_far_limit as int,
            frame: self.frame@,
            settings: self.settings@,
            mode: self.mode,
        }
    }
}

/// `x` forced into the closed band from `lo` to `hi`, the upper bound
/// winning when the band is empty.
pub open spec fn clamp(x: int, lo: int, hi: int) -> int {
    if x > hi {
        hi
    } else if x < lo {
        lo
    } else {
        x
    }
}

/// The state a freshly constructed controller holds: identity rotation
/// and frame, distance 10 with limits 0.1 and 1000 (in thousandths),
/// yaw and pitch zero, and the modifier flag of every action whose
/// settings configure no modifier key pre-set.
pub open spec fn new_spec(target: V3, settings: SettingsState) -> CamState {
    CamState {
        target: target,
        rotation: RotState { yaw: 0, pitch: 0 },
        pitch: 0,
        yaw: 0,
        distance: 10_000,
        distance_near_limit: 100,
        distance_far_limit: 1_000_000,
        frame: FrameState {
            right: V3 { x: 1000, y: 0, z: 0 },
            up: V3 { x: 0, y: 1000, z: 0 },
        },
        settings: settings,
        mode: Mode {
            orbit_button: false,
            zoom_button: false,
            pan_button: false,
            orbit_mod: settings.orbit_mod is None,
            zoom_mod: settings.zoom_mod is None,
            pan_mod: settings.pan_mod is None,
        },
    }
}

/// The pan effect: scale the deltas by pan speed and current distance,
/// then move the target along the camera's world-space up and right axes.
pub open spec fn pan_spec(s: CamState, dx: int, dy: int) -> CamState {
    let dxs = mul_value(mul_value(dx, s.settings.pan_speed), s.distance);
    let dys = mul_value(mul_value(dy, s.settings.pan_speed), s.distance);
    CamState {
        target: add3(add3(s.target, scale3(s.frame.up, dys)), scale3(s.frame.right, dxs)),
        ..s
    }
}

/// Every intermediate of the pan effect fits the executable scalar type.
pub open spec fn pan_ok(s: CamState, dx: int, dy: int) -> bool {
    let dxs = mul_value(mul_value(dx, s.settings.pan_speed), s.distance);
    let dys = mul_value(mul_value(dy, s.settings.pan_speed), s.distance);
    &&& fits(mul_value(dx, s.settings.pan_speed))
    &&& fits(dxs)
    &&& fits(mul_value(dy, s.settings.pan_speed))
    &&& fits(dys)
    &&& scale3_ok(s.frame.up, dys)
    &&& scale3_ok(s.frame.right, dxs)
    &&& add3_ok(s.target, scale3(s.frame.up, dys))
    &&& add3_ok(add3(s.target, scale3(s.frame.up, dys)), scale3(s.frame.right, dxs))
}

/// The zoom effect: grow the distance by the vertical delta times zoom
/// speed times the current distance, then clamp it into the limits.
pub open spec fn zoom_spec(s: CamState, dy: int) -> CamState {
    let new_dist = s.distance + mul_value(mul_value(dy, s.settings.zoom_speed), s.distance);
    CamState {
        distance: clamp(new_dist, s.distance_near_limit, s.distance_far_limit),
        ..s
    }
}

/// Every intermediate of the zoom effect fits the executable scalar type.
pub open spec fn zoom_ok(s: CamState, dy: int) -> bool {
    &&& fits(mul_value(dy, s.settings.zoom_speed))
    &&& fits(mul_value(mul_value(dy, s.settings.zoom_speed), s.distance))
    &&& fits(s.distance + mul_value(mul_value(dy, s.settings.zoom_speed), s.distance))
}

/// The orbit effect: accumulate the scaled deltas onto yaw and pitch
/// without bound or wraparound, and re-derive the rotation from them.
pub open spec fn orbit_spec(s: CamState, dx: int, dy: int) -> CamState {
    let new_yaw = s.yaw + mul_value(dx, s.settings.orbit_speed);
    let new_pitch = s.pitch + mul_value(
        mul_value(dy, s.settings.orbit_speed),
        s.settings.pitch_speed,
    );
    CamState {
        yaw: new_yaw,
        pitch: new_pitch,
        rotation: RotState { yaw: new_yaw, pitch: new_pitch },
        ..s
    }
}

/// Every intermediate of the orbit effect fits the executable scalar type.
pub open spec fn orbit_ok(s: CamState, dx: int, dy: int) -> bool {
    &&& fits(mul_value(dx, s.settings.orbit_speed))
    &&& fits(s.yaw + mul_value(dx, s.settings.orbit_speed))
    &&& fits(mul_value(dy, s.settings.orbit_speed))
    &&& fits(mul_value(mul_value(dy, s.settings.orbit_speed), s.settings.pitch_speed))
    &&& fits(s.pitch + mul_value(mul_value(dy, s.settings.orbit_speed), s.settings.pitch_speed))
}

/// Motion resolution: exactly one effect applies, pan taking precedence
/// over zoom, zoom over orbit; with no action active the event has no
/// effect.
pub open spec fn control_spec(s: CamState, dx: int, dy: int) -> CamState {
    if s.mode.pan_active() {
        pan_spec(s, dx, dy)
    } else if s.mode.zoom_active() {
        zoom_spec(s, dy)
    } else if s.mode.orbit_active() {
        orbit_spec(s, dx, dy)
    } else {
        s
    }
}

/// The arithmetic of the one effect motion resolution picks stays
/// within the executable scalar type.
pub open spec fn control_ok(s: CamState, dx: int, dy: int) -> bool {
    if s.mode.pan_active() {
        pan_ok(s, dx, dy)
    } else if s.mode.zoom_active() {
        zoom_ok(s, dy)
    } else if s.mode.orbit_active() {
        orbit_ok(s, dx, dy)
    } else {
        true
    }
}

/// Whether the configured modifier key of some action is held: orbit,
/// zoom and pan are inspected in that fixed order, stopping at the
/// first action that has a configured modifier at all.
pub open spec fn mod_key_pressed_spec(settings: SettingsState, mode: Mode) -> bool {
    if settings.orbit_mod is Some {
        mode.orbit_mod
    } else if settings.zoom_mod is Some {
        mode.zoom_mod
    } else if settings.pan_mod is Some {
        mode.pan_mod
    } else {
        false
    }
}

/// The mode after a press: the flag of every binding the input matches
/// is set.
pub open spec fn press_mode(settings: SettingsState, mode: Mode, b: Button) -> Mode {
    Mode {
        orbit_button: mode.orbit_button || b == Button::Mouse(settings.orbit_button),
        pan_button: mode.pan_button || b == Button::Mouse(settings.pan_button),
        zoom_button: mode.zoom_button || b == Button::Mouse(settings.zoom_button),
        orbit_mod: mode.orbit_mod || (settings.orbit_mod matches Some(k) && b == Button::Key(k)),
        pan_mod: mode.pan_mod || (settings.pan_mod matches Some(k) && b == Button::Key(k)),
        zoom_mod: mode.zoom_mod || (settings.zoom_mod matches Some(k) && b == Button::Key(k)),
    }
}

/// The mode after a release: the flag of every binding the input
/// matches is cleared.
pub open spec fn release_mode(settings: SettingsState, mode: Mode, b: Button) -> Mode {
    Mode {
        orbit_button: mode.orbit_button && !(b == Button::Mouse(settings.orbit_button)),
        pan_button: mode.pan_button && !(b == Button::Mouse(settings.pan_button)),
        zoom_button: mode.zoom_button && !(b == Button::Mouse(settings.zoom_button)),
        orbit_mod: mode.orbit_mod && !(settings.orbit_mod matches Some(k) && b == Button::Key(k)),
        pan_mod: mode.pan_mod && !(settings.pan_mod matches Some(k) && b == Button::Key(k)),
        zoom_mod: mode.zoom_mod && !(settings.zoom_mod matches Some(k) && b == Button::Key(k)),
    }
}

/// A scroll event: when no configured modifier is held, the default
/// scroll-mode flags are forced for the duration of this one motion
/// resolution, and the flags' prior state is restored right after it —
/// the mode leaves a scroll exactly as it entered it.
pub open spec fn scroll_spec(s: CamState, dx: int, dy: int) -> CamState {
    let engaged = !mod_key_pressed_spec(s.settings, s.mode);
    let forced = if engaged {
        CamState { mode: s.mode.union_spec(s.settings.scroll_mode), ..s }
    } else {
        s
    };
    let after = control_spec(forced, dx, dy);
    CamState { mode: s.mode, ..after }
}

/// The state after one input event is ingested.
pub open spec fn event_spec(s: CamState, e: CameraEvent) -> CamState {
    match e {
        CameraEvent::Scroll(dx, dy) => scroll_spec(s, dx as int, dy as int),
        CameraEvent::Motion(dx, dy) => control_spec(s, -(dx as int), dy as int),
        CameraEvent::Press(b) => CamState { mode: press_mode(s.settings, s.mode, b), ..s },
        CameraEvent::Release(b) => CamState { mode: release_mode(s.settings, s.mode, b), ..s },
    }
}

/// The arithmetic that handling the event performs stays within the
/// executable scalar type.
pub open spec fn event_ok(s: CamState, e: CameraEvent) -> bool {
    match e {
        CameraEvent::Scroll(dx, dy) => {
            let forced = if !mod_key_pressed_spec(s.settings, s.mode) {
                CamState { mode: s.mode.union_spec(s.settings.scroll_mode), ..s }
            } else {
                s
            };
            control_ok(forced, dx as int, dy as int)
        },
        CameraEvent::Motion(dx, dy) => fits(-(dx as int)) && control_ok(
            s,
            -(dx as int),
            dy as int,
        ),
        CameraEvent::Press(_) => true,
        CameraEvent::Release(_) => true,
    }
}

/// The pose the camera query derives: a pure projection of the state.
pub open spec fn pose_spec(s: CamState) -> PoseState {
    PoseState { target: s.target, rotation: s.rotation, distance: s.distance }
}

impl OrbitZoomCamera {
    /// Create a new controller targeting the given coordinates. Any
    /// action lacking a configured modifier key gets its modifier flag
    /// pre-set, so its button alone engages it.
    pub fn new(target: Vec3, settings: OrbitZoomCameraSettings) -> (r: OrbitZoomCamera)
        ensures
            r@ == new_spec(target@, settings@),
    {
        let mode = Mode {
            orbit_button: false,
            zoom_button: false,
            pan_button: false,
            orbit_mod: settings.orbit_mod.is_none(),
            zoom_mod: settings.zoom_mod.is_none(),
            pan_mod: settings.pan_mod.is_none(),
        };
        OrbitZoomCamera {
            target,
            rotation: Rotation { yaw: 0, pitch: 0 },
            pitch: 0,
            yaw: 0,
            distance: 10_000,
            distance_near_limit: 100,
            distance_far_limit: 1_000_000,
            frame: Frame {
                right: Vec3 { x: 1000, y: 0, z: 0 },
                up: Vec3 { x: 0, y: 1000, z: 0 },
            },
            settings,
            mode,
        }
    }

    /// The current mode flags.
    pub fn mode(&self) -> (m: Mode)
        ensures
            m == self@.mode,
    {
        self.mode
    }

    /// Return the pose for the current configuration: a pure query of
    /// the state, mutating nothing. The parameter is accepted but
    /// unused, reserved for time-based smoothing.
    pub fn camera(&self, _dt: Scalar) -> (r: CameraPose)
        ensures
            r@ == pose_spec(self@),
    {
        CameraPose { target: self.target, rotation: self.rotation, distance: self.distance }
    }

    /// The orientation derived from the given yaw and pitch: yaw about
    /// the world up axis composed with pitch about the world right
    /// axis, yaw outermost.
    fn rotation_from_yaw_and_pitch(yaw: Scalar, pitch: Scalar) -> (r: Rotation)
        ensures
            r@ == (RotState { yaw: yaw as int, pitch: pitch as int }),
    {
        Rotation { yaw, pitch }
    }

    /// Re-derive `rotation` from the current `yaw` and `pitch`. Call
    /// this after mutating yaw or pitch directly, outside the normal
    /// event path, so the next camera query sees a consistent rotation.
    pub fn init(&mut self)
        ensures
            final(self)@ == (CamState {
                rotation: RotState { yaw: old(self)@.yaw, pitch: old(self)@.pitch },
                ..old(self)@
            }),
    {
        self.rotation = Self::rotation_from_yaw_and_pitch(self.yaw, self.pitch);
    }

    /// The orbit action is active.
    fn is_orbit(&self) -> (r: bool)
        ensures
            r == self@.mode.orbit_active(),
    {
        self.mode.orbit_button && self.mode.orbit_mod
    }

    /// The zoom action is active.
    fn is_zoom(&self) -> (r: bool)
        ensures
            r == self@.mode.zoom_active(),
    {
        self.mode.zoom_button && self.mode.zoom_mod
    }

    /// The pan action is active.
    fn is_pan(&self) -> (r: bool)
        ensures
            r == self@.mode.pan_active(),
    {
        self.mode.pan_button && self.mode.pan_mod
    }

    /// Orbit the camera with the given horizontal and vertical deltas,
    /// or pan or zoom instead when those actions take precedence: pan
    /// before zoom before orbit, and at most one effect per call.
    pub fn control_camera(&mut self, dx: Scalar, dy: Scalar)
        requires
            control_ok(old(self)@, dx as int, dy as int),
        ensures
            final(self)@ == control_spec(old(self)@, dx as int, dy as int),
    {
        if self.is_pan() {
            // Pan target position along the plane normal to the camera direction
            let dxs = fp_mul(fp_mul(dx, self.settings.pan_speed), self.distance);
            let dys = fp_mul(fp_mul(dy, self.settings.pan_speed), self.distance);
            let right = self.frame.right;
            let up = self.frame.up;
            self.target = vec3_add(
                vec3_add(self.target, vec3_scale(up, dys)),
                vec3_scale(right, dxs),
            );
        } else if self.is_zoom() {
            // Zoom to / from target
            let new_dist = self.distance + fp_mul(
                fp_mul(dy, self.settings.zoom_speed),
                self.distance,
            );
            self.distance = if new_dist > self.distance_far_limit {
                self.distance_far_limit
            } else if new_dist < self.distance_near_limit {
                self.distance_near_limit
            } else {
                new_dist
            };
        } else if self.is_orbit() {
            // Orbit around target
            let sdx = fp_mul(dx, self.settings.orbit_speed);
            let sdy = fp_mul(dy, self.settings.orbit_speed);
            self.yaw = self.yaw + sdx;
            self.pitch = self.pitch + fp_mul(sdy, self.settings.pitch_speed);
            self.rotation = Self::rotation_from_yaw_and_pitch(self.yaw, self.pitch);
        }
    }

    /// Whether the configured modifier key of some action is held,
    /// inspecting orbit, then zoom, then pan, and stopping at the first
    /// action that has a configured modifier at all.
    fn mod_key_pressed(&self) -> (r: bool)
        ensures
            r == mod_key_pressed_spec(self@.settings, self@.mode),
    {
        let mut is_pressed = false;
        if self.settings.orbit_mod.is_some() {
            if self.mode.orbit_mod {
                is_pressed = true;
            }
        } else if self.settings.zoom_mod.is_some() {
            if self.mode.zoom_mod {
                is_pressed = true;
            }
        } else if self.settings.pan_mod.is_some() {
            if self.mode.pan_mod {
                is_pressed = true;
            }
        }
        is_pressed
    }

    /// Handle a scroll: when no configured modifier is held, force the
    /// default scroll-mode flags for this one motion resolution, and
    /// clear exactly the flags that were not already set, restoring the
    /// mode to its prior state right after it.
    fn scroll(&mut self, dx: Scalar, dy: Scalar)
        requires
            event_ok(old(self)@, CameraEvent::Scroll(dx, dy)),
        ensures
            final(self)@ == scroll_spec(old(self)@, dx as int, dy as int),
    {
        // if a mod key is pressed, keep the mode as it stands;
        // otherwise force the default scroll mode for this event
        let mut inserted = Mode::empty();
        if !self.mod_key_pressed() {
            inserted = self.settings.scroll_mode;
            inserted.remove(self.mode);
            self.mode.insert(self.settings.scroll_mode);
        }
        self.control_camera(dx, dy);
        self.mode.remove(inserted);
    }

    /// Set the flag of every binding the pressed input matches.
    fn press(&mut self, b: Button)
        ensures
            final(self)@ == (CamState {
                mode: press_mode(old(self)@.settings, old(self)@.mode, b),
                ..old(self)@
            }),
    {
        let m = self.mode;
        self.mode = Mode {
            orbit_button: m.orbit_button || b == Button::Mouse(self.settings.orbit_button),
            pan_button: m.pan_button || b == Button::Mouse(self.settings.pan_button),
            zoom_button: m.zoom_button || b == Button::Mouse(self.settings.zoom_button),
            orbit_mod: m.orbit_mod || (match self.settings.orbit_mod {
                Some(k) => b == Button::Key(k),
                None => false,
            }),
            pan_mod: m.pan_mod || (match self.settings.pan_mod {
                Some(k) => b == Button::Key(k),
                None => false,
            }),
            zoom_mod: m.zoom_mod || (match self.settings.zoom_mod {
                Some(k) => b == Button::Key(k),
                None => false,
            }),
        };
    }

    /// Clear the flag of every binding the released input matches.
    fn release(&mut self, b: Button)
        ensures
            final(self)@ == (CamState {
                mode: release_mode(old(self)@.settings, old(self)@.mode, b),
                ..old(self)@
            }),
    {
        let m = self.mode;
        self.mode = Mode {
            orbit_button: m.orbit_button && !(b == Button::Mouse(self.settings.orbit_button)),
            pan_button: m.pan_button && !(b == Button::Mouse(self.settings.pan_button)),
            zoom_button: m.zoom_button && !(b == Button::Mouse(self.settings.zoom_button)),
            orbit_mod: m.orbit_mod && !(match self.settings.orbit_mod {
                Some(k) => b == Button::Key(k),
                None => false,
            }),
            pan_mod: m.pan_mod && !(match self.settings.pan_mod {
                Some(k) => b == Button::Key(k),
                None => false,
            }),
            zoom_mod: m.zoom_mod && !(match self.settings.zoom_mod {
                Some(k) => b == Button::Key(k),
                None => false,
            }),
        };
    }

    /// Respond to one scroll, motion, press or release notification.
    /// Scroll may force the default scroll-mode flags for the one
    /// motion resolution; motion inverts the horizontal axis; press and
    /// release set and clear the flags of the matching bindings, and
    /// unrecognized inputs are ignored.
    pub fn event(&mut self, e: &CameraEvent)
        requires
            event_ok(old(self)@, *e),
        ensures
            final(self)@ == event_spec(old(self)@, *e),
    {
        match *e {
            CameraEvent::Scroll(dx, dy) => {
                self.scroll(dx, dy);
            },
            CameraEvent::Motion(dx, dy) => {
                self.control_camera(-dx, dy);
            },
            CameraEvent::Press(b) => {
                self.press(b);
            },
            CameraEvent::Release(b) => {
                self.release(b);
            },
        }
    }
}

} // verus!
