//! Modifier keys, the precision they select, and the harmonic selector's state.

use vstd::prelude::*;
use crate::harmonics::Harmonic;

verus! {

/// The state of the two modifier keys that select the precision.
#[derive(Debug, Clone, Copy, PartialEq, Eq, Structural)]
pub struct Modifiers {
    pub shift: bool,
    pub ctrl: bool,
}

/// The step in arcseconds that a pair of modifiers selects: one degree with
/// shift alone, one arcsecond with shift and ctrl, one arcminute otherwise.
pub open spec fn increment_of(shift: bool, ctrl: bool) -> int {
    if shift && ctrl {
        1
    } else if shift {
        3600
    } else {
        60
    }
}

/// The step in arcseconds that a pair of modifiers selects.
pub fn increment_for(shift: bool, ctrl: bool) -> (r: i64)
    ensures
        r == increment_of(shift, ctrl),
        r == 1 || r == 60 || r == 3600,
{
    match (shift, ctrl) {
        (true, true) => 1,
        (false, true) => 60,
        (true, false) => 3600,
        (false, false) => 60,
    }
}

/// The state behind the harmonic selector: the chosen harmonic and the
/// modifier keys last seen.
pub struct DialControls {
    harmonic: Harmonic,
    shift_pressed: bool,
    ctrl_pressed: bool,
}

impl DialControls {
    /// The chosen harmonic.
    pub closed spec fn spec_harmonic(&self) -> Harmonic {
        self.harmonic
    }

    /// Whether shift was held when the modifiers were last updated.
    pub closed spec fn spec_shift_pressed(&self) -> bool {
        self.shift_pressed
    }

    /// Whether ctrl was held when the modifiers were last updated.
    pub closed spec fn spec_ctrl_pressed(&self) -> bool {
        self.ctrl_pressed
    }

    /// Controls on the first harmonic with no modifier held.
    pub fn new() -> (r: Self)
        ensures
            r.spec_harmonic() == Harmonic::First,
            !r.spec_shift_pressed(),
            !r.spec_ctrl_pressed(),
    {
        Self { harmonic: Harmonic::First, shift_pressed: false, ctrl_pressed: false }
    }

    /// The chosen harmonic.
    #[verifier::when_used_as_spec(spec_harmonic)]
    pub fn harmonic(&self) -> (r: Harmonic)
        ensures
            r == self.spec_harmonic(),
    {
        self.harmonic
    }

    /// Replaces the chosen harmonic and nothing else.
    pub fn set_harmonic(&mut self, harmonic: Harmonic)
        ensures
            final(self).spec_harmonic() == harmonic,
            final(self).spec_shift_pressed() == old(self).spec_shift_pressed(),
            final(self).spec_ctrl_pressed() == old(self).spec_ctrl_pressed(),
    {
        self.harmonic = harmonic;
    }

    /// Whether shift was held when the modifiers were last updated.
    #[verifier::when_used_as_spec(spec_shift_pressed)]
    pub fn shift_pressed(&self) -> (r: bool)
        ensures
            r == self.spec_shift_pressed(),
    {
        self.shift_pressed
    }

    /// Whether ctrl was held when the modifiers were last updated.
    #[verifier::when_used_as_spec(spec_ctrl_pressed)]
    pub fn ctrl_pressed(&self) -> (r: bool)
        ensures
            r == self.spec_ctrl_pressed(),
    {
        self.ctrl_pressed
    }

    /// Records the modifier keys and nothing else.
    pub fn update_modifiers(&mut self, modifiers: Modifiers)
        ensures
            final(self).spec_shift_pressed() == modifiers.shift,
            final(self).spec_ctrl_pressed() == modifiers.ctrl,
            final(self).spec_harmonic() == old(self).spec_harmonic(),
    {
        self.shift_pressed = modifiers.shift;
        self.ctrl_pressed = modifiers.ctrl;
    }

    /// The step in arcseconds that the recorded modifiers select.
    pub fn get_increment(&self) -> (r: i64)
        ensures
            r == increment_of(self.spec_shift_pressed(), self.spec_ctrl_pressed()),
    {
        increment_for(self.shift_pressed, self.ctrl_pressed)
    }
}

impl Default for DialControls {
    fn default() -> (r: Self)
        ensures
            r.spec_harmonic() == Harmonic::First,
            !r.spec_shift_pressed(),
            !r.spec_ctrl_pressed(),
    {
        Self::new()
    }
}

} // verus!
