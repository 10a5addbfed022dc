//! The dial's interaction engine: keyboard nudges, snapping, and the drag
//! session that turns pointer motion into changes of the angle.

use vstd::prelude::*;
use vstd::arithmetic::div_mod::*;
use crate::angle::DegreePosition;
use crate::controls::{increment_for, increment_of, Modifiers};
use crate::harmonics::Harmonic;
use crate::math::{
    lemma_normalize_periodic, lemma_round_div_bounds, normalize_degrees, normalized, round_div,
    rounded_quotient, short_way, shortest_delta,
};

verus! {

/// A key press as the dial sees it.
#[derive(Debug, Clone, Copy, PartialEq, Eq, Structural)]
pub enum Key {
    /// Turns the dial by one increment towards larger angles.
    ArrowLeft,
    /// Turns the dial by one increment towards smaller angles.
    ArrowRight,
    /// Any other key; the dial ignores it.
    Other,
}

/// A pointer location on screen, in whole units of the caller's choosing.
#[derive(Debug, Clone, Copy, PartialEq, Eq, Structural)]
pub struct ScreenPoint {
    pub x: i32,
    pub y: i32,
}

/// One reading of the pointer: where it is, and the angle in arcseconds at
/// which it stands about the dial's centre, clockwise from straight up.
#[derive(Debug, Clone, Copy, PartialEq, Eq, Structural)]
pub struct PointerSample {
    pub point: ScreenPoint,
    pub angle: i64,
}

/// Whether a drag session is under way, and what it remembers.
#[derive(Debug, Clone, Copy, PartialEq, Eq, Structural)]
pub enum DragState {
    /// No drag session.
    Idle,
    /// A drag session: the last pointer reading taken, and the dial's angle
    /// in arcseconds recorded with it.
    Dragging { anchor: PointerSample, start_angle: i64 },
}

/// What a dial holds, as contracts see it.
pub struct DialState {
    pub position: DegreePosition,
    pub harmonic: Harmonic,
    pub drag: DragState,
    pub shift: bool,
    pub ctrl: bool,
}

impl DialState {
    /// The angle is normalized, and a drag session records a normalized angle.
    pub open spec fn wf(self) -> bool {
        &&& self.position.wf()
        &&& match self.drag {
            DragState::Idle => true,
            DragState::Dragging { anchor, start_angle } => 0 <= start_angle < 1_296_000,
        }
    }
}

/// The dial angle of a direction on screen. The direction is measured from
/// the positive x axis towards the positive y axis; the dial angle is
/// measured clockwise from straight up, a quarter turn further on.
pub open spec fn dial_angle(direction: int) -> int {
    normalized(direction + 324_000)
}

/// `angle` rounded to the nearest multiple of `increment`, ties upwards.
pub open spec fn snapped(angle: int, increment: int) -> int
    recommends
        increment > 0,
{
    round_div(angle, increment) * increment
}

/// The signed turn that a pointer makes going from one reading to the next:
/// the anchor's angle less the pointer's, folded onto the short way round.
pub open spec fn drag_delta(anchor: PointerSample, pointer: PointerSample) -> int {
    short_way(normalized(anchor.angle as int) - normalized(pointer.angle as int))
}

/// The state after a key press.
pub open spec fn key_step(s: DialState, key: Key) -> DialState {
    let step = increment_of(s.shift, s.ctrl);
    match key {
        Key::ArrowLeft => DialState {
            position: DegreePosition::at(s.position.arcseconds() + step),
            ..s
        },
        Key::ArrowRight => DialState {
            position: DegreePosition::at(s.position.arcseconds() - step),
            ..s
        },
        Key::Other => s,
    }
}

/// The drag session after the start and release flags of one frame: a start
/// anchors at the pointer with the current angle, a release ends the session.
pub open spec fn session_after_flags(
    s: DialState,
    pointer: Option<PointerSample>,
    started: bool,
    released: bool,
) -> DragState {
    if released {
        DragState::Idle
    } else if started {
        match pointer {
            Some(p) => DragState::Dragging { anchor: p, start_angle: s.position.arcseconds() as i64 },
            None => DragState::Idle,
        }
    } else {
        s.drag
    }
}

/// The state after one frame of pointer input.
pub open spec fn pointer_step(
    s: DialState,
    pointer: Option<PointerSample>,
    started: bool,
    released: bool,
) -> DialState {
    let session = session_after_flags(s, pointer, started, released);
    match (session, pointer) {
        (DragState::Dragging { anchor, start_angle }, Some(p)) => if anchor.point != p.point {
            let target = snapped(start_angle + drag_delta(anchor, p), increment_of(s.shift, s.ctrl));
            DialState {
                position: DegreePosition::at(target),
                drag: DragState::Dragging { anchor: p, start_angle: normalized(target) as i64 },
                ..s
            }
        } else {
            DialState { drag: session, ..s }
        },
        _ => DialState { drag: session, ..s },
    }
}

/// `angle` rounded to the nearest multiple of `increment`.
pub fn snap_to(angle: i64, increment: i64) -> (r: i64)
    requires
        1 <= increment,
        i64::MIN + increment <= angle <= i64::MAX - increment,
    ensures
        r == snapped(angle as int, increment as int),
        2 * (r - angle) <= increment,
        2 * (angle - r) < increment,
{
    let q: i64 = rounded_quotient(angle, increment);
    proof {
        lemma_round_div_bounds(angle as int, increment as int);
        assert(2 * increment * q == 2 * (q * increment)) by (nonlinear_arith);
    }
    q * increment
}

/// The rotatable dial: its current angle, its harmonic, the drag session and
/// the modifier keys last seen.
pub struct Dial {
    current_position: DegreePosition,
    harmonic: Harmonic,
    drag: DragState,
    shift_pressed: bool,
    ctrl_pressed: bool,
}

impl View for Dial {
    type V = DialState;

    closed spec fn view(&self) -> DialState {
        DialState {
            position: self.current_position,
            harmonic: self.harmonic,
            drag: self.drag,
            shift: self.shift_pressed,
            ctrl: self.ctrl_pressed,
        }
    }
}

impl Dial {
    /// What the dial holds is well formed.
    #[verifier::type_invariant]
    pub closed spec fn wf(self) -> bool {
        self@.wf()
    }

    /// A well-formed dial shows a well-formed state.
    pub proof fn lemma_view_wf(self)
        requires
            self.wf(),
        ensures
            self@.wf(),
    {
    }

    /// The dial angle, in `[0, 360°)`, of a pointer that stands in the given
    /// direction from the centre. The direction is in arcseconds from the
    /// positive x axis towards the positive y axis of the screen, so that
    /// straight up is zero and the angle grows clockwise.
    pub fn calculate_angle(direction: i64) -> (r: i64)
        ensures
            r == dial_angle(direction as int),
            0 <= r < 1_296_000,
    {
        let base: i64 = normalize_degrees(direction);
        proof {
            lemma_add_mod_noop(direction as int, 324_000, 1_296_000);
        }
        normalize_degrees(base + 324_000)
    }

    /// A dial at zero on the first harmonic, idle, with no modifier held.
    pub fn new() -> (r: Self)
        ensures
            r@.position == DegreePosition::at(0),
            r@.harmonic == Harmonic::First,
            r@.drag == DragState::Idle,
            !r@.shift,
            !r@.ctrl,
    {
        let position = DegreePosition::from_degrees(0);
        Self {
            current_position: position,
            harmonic: Harmonic::First,
            drag: DragState::Idle,
            shift_pressed: false,
            ctrl_pressed: false,
        }
    }

    /// The increment in arcseconds that the modifier keys select.
    pub fn get_increment(&self) -> (r: i64)
        ensures
            r == increment_of(self@.shift, self@.ctrl),
    {
        increment_for(self.shift_pressed, self.ctrl_pressed)
    }

    /// Snaps an angle to the nearest multiple of the current increment.
    pub fn snap_angle(&self, angle: i64) -> (r: i64)
        requires
            i64::MIN + 3600 <= angle <= i64::MAX - 3600,
        ensures
            r == snapped(angle as int, increment_of(self@.shift, self@.ctrl)),
    {
        snap_to(angle, self.get_increment())
    }

    /// The current angle.
    pub fn position(&self) -> (r: DegreePosition)
        ensures
            r == self@.position,
            r.wf(),
    {
        proof {
            use_type_invariant(self);
        }
        self.current_position
    }

    /// Replaces the current angle and nothing else.
    pub fn set_position(&mut self, position: DegreePosition)
        ensures
            final(self)@ == (DialState { position: position, ..old(self)@ }),
    {
        proof {
            use_type_invariant(&*self);
            use_type_invariant(&position);
        }
        self.current_position = position;
    }

    /// The active harmonic.
    pub fn harmonic(&self) -> (r: Harmonic)
        ensures
            r == self@.harmonic,
    {
        self.harmonic
    }

    /// Replaces the active harmonic and nothing else.
    pub fn set_harmonic(&mut self, harmonic: Harmonic)
        ensures
            final(self)@ == (DialState { harmonic: harmonic, ..old(self)@ }),
    {
        proof {
            use_type_invariant(&*self);
        }
        self.harmonic = harmonic;
    }

    /// Whether a drag session is under way.
    pub fn is_dragging(&self) -> (r: bool)
        ensures
            r == (self@.drag != DragState::Idle),
    {
        match self.drag {
            DragState::Idle => false,
            DragState::Dragging { .. } => true,
        }
    }

    /// Records the modifier keys and nothing else.
    pub fn update_modifiers(&mut self, modifiers: Modifiers)
        ensures
            final(self)@ == (DialState {
                shift: modifiers.shift,
                ctrl: modifiers.ctrl,
                ..old(self)@
            }),
    {
        proof {
            use_type_invariant(&*self);
        }
        self.shift_pressed = modifiers.shift;
        self.ctrl_pressed = modifiers.ctrl;
    }

    /// Nudges the angle by one increment: up on the left arrow, down on the
    /// right arrow. Other keys change nothing.
    pub fn handle_key(&mut self, key: Key)
        ensures
            final(self)@ == key_step(old(self)@, key),
    {
        proof {
            use_type_invariant(&*self);
        }
        let step: i64 = self.get_increment();
        match key {
            Key::ArrowLeft => {
                let total: i64 = self.current_position.to_degrees() + step;
                self.current_position = DegreePosition::from_degrees(total);
            },
            Key::ArrowRight => {
                let total: i64 = self.current_position.to_degrees() - step;
                self.current_position = DegreePosition::from_degrees(total);
            },
            Key::Other => {},
        }
    }

    /// Feeds one frame of pointer input to the drag session.
    ///
    /// A start anchors the session at the pointer; a release ends it. While a
    /// session runs and the pointer has left the anchor, the dial turns by the
    /// angle between anchor and pointer, snaps to the current increment, and
    /// the session re-anchors at the pointer.
    pub fn handle_pointer_interaction(
        &mut self,
        pointer: Option<PointerSample>,
        drag_started: bool,
        drag_released: bool,
    )
        ensures
            final(self)@ == pointer_step(old(self)@, pointer, drag_started, drag_released),
    {
        proof {
            use_type_invariant(&*self);
        }
        if drag_started {
            self.drag = match pointer {
                Some(p) => DragState::Dragging {
                    anchor: p,
                    start_angle: self.current_position.to_degrees(),
                },
                None => DragState::Idle,
            };
        }
        if drag_released {
            self.drag = DragState::Idle;
        }
        match (self.drag, pointer) {
            (DragState::Dragging { anchor, start_angle }, Some(p)) => {
                if anchor.point != p.point {
                    let from: i64 = normalize_degrees(anchor.angle);
                    let to: i64 = normalize_degrees(p.angle);
                    let delta: i64 = shortest_delta(from - to);
                    let target: i64 = snap_to(start_angle + delta, self.get_increment());
                    self.current_position = DegreePosition::from_degrees(target);
                    self.drag = DragState::Dragging {
                        anchor: p,
                        start_angle: normalize_degrees(target),
                    };
                }
            },
            _ => {},
        }
    }
}

impl Default for Dial {
    fn default() -> (r: Self)
        ensures
            r@.position == DegreePosition::at(0),
            r@.harmonic == Harmonic::First,
            r@.drag == DragState::Idle,
            !r@.shift,
            !r@.ctrl,
    {
        Self::new()
    }
}

/// Snapping is idempotent: an angle that is already snapped stays where it is.
pub proof fn lemma_snap_idempotent(angle: int, increment: int)
    requires
        increment > 0,
    ensures
        snapped(snapped(angle, increment), increment) == snapped(angle, increment),
{
    let q = round_div(angle, increment);
    assert(2 * (q * increment) + increment == (2 * increment) * q + increment)
        by (nonlinear_arith);
    lemma_fundamental_div_mod_converse(
        2 * (q * increment) + increment,
        2 * increment,
        q,
        increment,
    );
}

/// A snapped angle is a multiple of the increment and lies within half an
/// increment of the angle it came from.
pub proof fn lemma_snap_is_nearest(angle: int, increment: int)
    requires
        increment > 0,
    ensures
        snapped(angle, increment) % increment == 0,
        2 * (angle - snapped(angle, increment)) < increment,
        2 * (snapped(angle, increment) - angle) <= increment,
{
    let q = round_div(angle, increment);
    lemma_round_div_bounds(angle, increment);
    assert(2 * increment * q == 2 * (q * increment)) by (nonlinear_arith);
    lemma_mod_multiples_basic(q, increment);
}

/// Snapping commutes with whole turns for every increment that the modifier
/// keys can select, so the dial's angle does not depend on which
/// representative of an angle is snapped.
pub proof fn lemma_snap_whole_turns(angle: int, turns: int, shift: bool, ctrl: bool)
    ensures
        snapped(angle + turns * 1_296_000, increment_of(shift, ctrl)) == snapped(
            angle,
            increment_of(shift, ctrl),
        ) + turns * 1_296_000,
{
    let step = increment_of(shift, ctrl);
    let per_turn: int = 1_296_000int / step;
    assert(per_turn * step == 1_296_000);
    let q = round_div(angle, step);
    lemma_round_div_bounds(angle, step);
    let shifted = angle + turns * 1_296_000;
    let r = (2 * angle + step) - 2 * step * q;
    assert(2 * shifted + step == (2 * step) * (q + turns * per_turn) + r) by (nonlinear_arith)
        requires
            shifted == angle + turns * 1_296_000,
            per_turn * step == 1_296_000,
            r == (2 * angle + step) - 2 * step * q,
    ;
    lemma_fundamental_div_mod_converse(2 * shifted + step, 2 * step, q + turns * per_turn, r);
    assert((q + turns * per_turn) * step == q * step + turns * 1_296_000) by (nonlinear_arith)
        requires
            per_turn * step == 1_296_000,
    ;
}

/// Every step keeps the state well formed: the angle stays normalized and a
/// running session records a normalized angle.
pub proof fn lemma_steps_keep_wf(
    s: DialState,
    key: Key,
    pointer: Option<PointerSample>,
    started: bool,
    released: bool,
)
    requires
        s.wf(),
    ensures
        key_step(s, key).wf(),
        pointer_step(s, pointer, started, released).wf(),
{
    let step = increment_of(s.shift, s.ctrl);
    s.position.lemma_fields();
    DegreePosition::lemma_at(s.position.arcseconds() + step);
    DegreePosition::lemma_at(s.position.arcseconds() - step);
    let session = session_after_flags(s, pointer, started, released);
    match (session, pointer) {
        (DragState::Dragging { anchor, start_angle }, Some(p)) => {
            let target = snapped(start_angle + drag_delta(anchor, p), step);
            DegreePosition::lemma_at(target);
            lemma_normalize_periodic(target, 0);
        },
        _ => {},
    }
}

/// At the finest precision a drag move turns the dial by exactly the angle
/// that the pointer went back round the centre, and the session then records
/// the dial's new angle at the pointer's new place.
pub proof fn lemma_fine_drag_follows_pointer(
    s: DialState,
    anchor: PointerSample,
    pointer: PointerSample,
)
    requires
        s.wf(),
        s.shift && s.ctrl,
        s.drag == (DragState::Dragging { anchor: anchor, start_angle: s.position.arcseconds() as i64 }),
        anchor.point != pointer.point,
    ensures
        pointer_step(s, Some(pointer), false, false).position.arcseconds() == normalized(
            s.position.arcseconds() + anchor.angle - pointer.angle,
        ),
        pointer_step(s, Some(pointer), false, false).drag == (DragState::Dragging {
            anchor: pointer,
            start_angle: pointer_step(s, Some(pointer), false, false).position.arcseconds() as i64,
        }),
{
    s.position.lemma_fields();
    let start = s.position.arcseconds();
    let raw = normalized(anchor.angle as int) - normalized(pointer.angle as int);
    let delta = drag_delta(anchor, pointer);
    lemma_normalize_periodic(anchor.angle as int, 0);
    lemma_normalize_periodic(pointer.angle as int, 0);
    lemma_fundamental_div_mod_converse(2 * (start + delta) + 1, 2, start + delta, 1);
    assert(snapped(start + delta, 1) == start + delta);
    DegreePosition::lemma_at(start + delta);
    // the folded difference is congruent to the plain one
    if raw > 648_000 {
        lemma_normalize_periodic(start + raw, -1);
    } else if raw < -648_000 {
        lemma_normalize_periodic(start + raw, 1);
    }
    assert(normalized(start + delta) == normalized(start + raw));
    lemma_sub_mod_noop(anchor.angle as int, pointer.angle as int, 1_296_000);
    lemma_add_mod_noop(start, anchor.angle - pointer.angle, 1_296_000);
    lemma_add_mod_noop(start, raw, 1_296_000);
}

/// Releasing ends the drag session and leaves the angle alone, whatever else
/// the frame carries.
pub proof fn lemma_release_keeps_angle(s: DialState, pointer: Option<PointerSample>, started: bool)
    ensures
        pointer_step(s, pointer, started, true).position == s.position,
        pointer_step(s, pointer, started, true).drag == DragState::Idle,
{
}

/// A drag that starts without the pointer having moved anchors the session
/// and leaves the angle alone.
pub proof fn lemma_start_without_motion(s: DialState, pointer: PointerSample)
    requires
        s.position.wf(),
    ensures
        pointer_step(s, Some(pointer), true, false).position == s.position,
        pointer_step(s, Some(pointer), true, false).drag == (DragState::Dragging {
            anchor: pointer,
            start_angle: s.position.arcseconds() as i64,
        }),
{
}

/// While idle, pointer motion without a start changes nothing.
pub proof fn lemma_idle_ignores_motion(s: DialState, pointer: Option<PointerSample>)
    requires
        s.drag == DragState::Idle,
    ensures
        pointer_step(s, pointer, false, false) == s,
{
}

} // verus!
