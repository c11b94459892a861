//! The live input mode: which action buttons and modifier keys are held.
//!
//! An action (orbit, zoom or pan) is *active* exactly when both its
//! button flag and its modifier flag are set. A modifier flag of an
//! action whose settings configure no modifier key is pre-set at
//! construction, so the button alone engages the action.

use vstd::prelude::*;

verus! {

/// A set of six independent flags: one button flag and one modifier
/// flag per action.
#[derive(Clone, Copy, PartialEq, Eq, Structural, Debug)]
pub struct Mode {
    /// The orbit button is held.
    pub orbit_button: bool,
    /// The zoom button is held.
    pub zoom_button: bool,
    /// The pan button is held.
    pub pan_button: bool,
    /// The orbit modifier is held (or none is configured).
    pub orbit_mod: bool,
    /// The zoom modifier is held (or none is configured).
    pub zoom_mod: bool,
    /// The pan modifier is held (or none is configured).
    pub pan_mod: bool,
}

impl Mode {
    /// The flag set with every flag of `self` or of `other`.
    pub open spec fn union_spec(self, other: Mode) -> Mode {
        Mode {
            orbit_button: self.orbit_button || other.orbit_button,
            zoom_button: self.zoom_button || other.zoom_button,
            pan_button: self.pan_button || other.pan_button,
            orbit_mod: self.orbit_mod || other.orbit_mod,
            zoom_mod: self.zoom_mod || other.zoom_mod,
            pan_mod: self.pan_mod || other.pan_mod,
        }
    }

    /// The flag set with every flag of `self` that is not in `other`.
    pub open spec fn diff_spec(self, other: Mode) -> Mode {
        Mode {
            orbit_button: self.orbit_button && !other.orbit_button,
            zoom_button: self.zoom_button && !other.zoom_button,
            pan_button: self.pan_button && !other.pan_button,
            orbit_mod: self.orbit_mod && !other.orbit_mod,
            zoom_mod: self.zoom_mod && !other.zoom_mod,
            pan_mod: self.pan_mod && !other.pan_mod,
        }
    }

    /// Every flag of `other` is set in `self`.
    pub open spec fn contains_spec(self, other: Mode) -> bool {
        &&& (other.orbit_button ==> self.orbit_button)
        &&& (other.zoom_button ==> self.zoom_button)
        &&& (other.pan_button ==> self.pan_button)
        &&& (other.orbit_mod ==> self.orbit_mod)
        &&& (other.zoom_mod ==> self.zoom_mod)
        &&& (other.pan_mod ==> self.pan_mod)
    }

    /// The orbit action is active: its button and modifier flags are set.
    pub open spec fn orbit_active(self) -> bool {
        self.orbit_button && self.orbit_mod
    }

    /// The zoom action is active: its button and modifier flags are set.
    pub open spec fn zoom_active(self) -> bool {
        self.zoom_button && self.zoom_mod
    }

    /// The pan action is active: its button and modifier flags are set.
    pub open spec fn pan_active(self) -> bool {
        self.pan_button && self.pan_mod
    }

    /// The flag set with no flag set.
    pub fn empty() -> (m: Mode)
        ensures
            m == (Mode {
                orbit_button: false,
                zoom_button: false,
                pan_button: false,
                orbit_mod: false,
                zoom_mod: false,
                pan_mod: false,
            }),
    {
        Mode {
            orbit_button: false,
            zoom_button: false,
            pan_button: false,
            orbit_mod: false,
            zoom_mod: false,
            pan_mod: false,
        }
    }

    /// Whether every flag of `other` is set in `self`.
    pub fn contains(&self, other: Mode) -> (r: bool)
        ensures
            r == self.contains_spec(other),
    {
        (!other.orbit_button || self.orbit_button)
            && (!other.zoom_button || self.zoom_button)
            && (!other.pan_button || self.pan_button)
            && (!other.orbit_mod || self.orbit_mod)
            && (!other.zoom_mod || self.zoom_mod)
            && (!other.pan_mod || self.pan_mod)
    }

    /// Set every flag of `other`.
    pub fn insert(&mut self, other: Mode)
        ensures
            *final(self) == old(self).union_spec(other),
    {
        self.orbit_button = self.orbit_button || other.orbit_button;
        self.zoom_button = self.zoom_button || other.zoom_button;
        self.pan_button = self.pan_button || other.pan_button;
        self.orbit_mod = self.orbit_mod || other.orbit_mod;
        self.zoom_mod = self.zoom_mod || other.zoom_mod;
        self.pan_mod = self.pan_mod || other.pan_mod;
    }

    /// Clear every flag of `other`.
    pub fn remove(&mut self, other: Mode)
        ensures
            *final(self) == old(self).diff_spec(other),
    {
        self.orbit_button = self.orbit_button && !other.orbit_button;
        self.zoom_button = self.zoom_button && !other.zoom_button;
        self.pan_button = self.pan_button && !other.pan_button;
        self.orbit_mod = self.orbit_mod && !other.orbit_mod;
        self.zoom_mod = self.zoom_mod && !other.zoom_mod;
        self.pan_mod = self.pan_mod && !other.pan_mod;
    }
}

} // verus!
