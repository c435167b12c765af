//! Edge extraction for the two momentary buttons. The multi-sample debounce
//! primitive comes from the `debouncr` crate and is treated as a black box:
//! only its documented edge-reporting behaviour is assumed, and the mapping
//! from confirmed rising edges to controller events is verified here.

use vstd::prelude::*;

use crate::controller::MainTaskMessage;

verus! {

#[verifier::external_type_specification]
#[verifier::external_body]
#[verifier::reject_recursive_types(S)]
#[verifier::reject_recursive_types(M)]
pub struct ExDebouncerStateful<S, M>(debouncr::DebouncerStateful<S, M>);

#[verifier::external_type_specification]
#[verifier::external_body]
pub struct ExRepeat8(debouncr::Repeat8);

/// The debounced stable level a stateful debouncer currently reports:
/// `true` once eight consecutive pressed samples have been seen, back to
/// `false` once eight consecutive released samples have been seen.
pub uninterp spec fn deb_level(d: debouncr::DebouncerStateful<u8, debouncr::Repeat8>) -> bool;

/// The state a stateful debouncer is left in after one update with the given
/// raw sample: a pure function of the old state and the sample.
pub uninterp spec fn deb_step(
    d: debouncr::DebouncerStateful<u8, debouncr::Repeat8>,
    pressed: bool,
) -> debouncr::DebouncerStateful<u8, debouncr::Repeat8>;

/// An edge of the debounced level.
#[derive(Clone, Copy, PartialEq, Eq, Structural, Debug)]
pub enum ButtonEdge {
    Rising,
    Falling,
}

/// Relies on debouncr::debounce_stateful_8: a fresh stateful debouncer
/// reports the given initial state as its stable level.
#[verifier::external_body]
fn new_debouncer_8(initial_pressed: bool) -> (d: debouncr::DebouncerStateful<
    u8,
    debouncr::Repeat8,
>)
    ensures
        deb_level(d) == initial_pressed,
{
    debouncr::debounce_stateful_8(initial_pressed)
}

/// Relies on debouncr::DebouncerStateful::update: the new state is a pure
/// function of the old state and the sample; an edge is reported exactly
/// when the debounced stable level flips (rising on low-to-high, falling on
/// high-to-low), the level only rises on a pressed sample and only falls on
/// a released one, and it stays put when no edge is reported.
#[verifier::external_body]
fn update_debouncer(
    d: &mut debouncr::DebouncerStateful<u8, debouncr::Repeat8>,
    pressed: bool,
) -> (edge: Option<ButtonEdge>)
    ensures
        *final(d) == deb_step(*old(d), pressed),
        edge is None ==> deb_level(*final(d)) == deb_level(*old(d)),
        (edge == Some(ButtonEdge::Rising)) <==> (!deb_level(*old(d)) && deb_level(*final(d))),
        (edge == Some(ButtonEdge::Falling)) <==> (deb_level(*old(d)) && !deb_level(*final(d))),
        edge == Some(ButtonEdge::Rising) ==> pressed,
        edge == Some(ButtonEdge::Falling) ==> !pressed,
{
    match d.update(pressed) {
        Some(debouncr::Edge::Rising) => Some(ButtonEdge::Rising),
        Some(debouncr::Edge::Falling) => Some(ButtonEdge::Falling),
        None => None,
    }
}

/// The debounce state of the two buttons, sampled together at a fixed
/// period.
pub struct ButtonPoller {
    pub plus: debouncr::DebouncerStateful<u8, debouncr::Repeat8>,
    pub minus: debouncr::DebouncerStateful<u8, debouncr::Repeat8>,
}

impl ButtonPoller {
    /// The debounced level of the plus button.
    pub open spec fn plus_level(self) -> bool {
        deb_level(self.plus)
    }

    /// The debounced level of the minus button.
    pub open spec fn minus_level(self) -> bool {
        deb_level(self.minus)
    }

    /// Start debouncing from the buttons' current raw levels.
    pub fn new(plus_pressed: bool, minus_pressed: bool) -> (p: ButtonPoller)
        ensures
            p.plus_level() == plus_pressed,
            p.minus_level() == minus_pressed,
    {
        ButtonPoller {
            plus: new_debouncer_8(plus_pressed),
            minus: new_debouncer_8(minus_pressed),
        }
    }

    /// Feed one raw sample of each button into its debounce filter; the
    /// result carries the event to emit for each button, present exactly
    /// when that button's debounced level confirmed a rising edge (a
    /// completed press).
    pub fn sample(&mut self, plus_pressed: bool, minus_pressed: bool) -> (events: (
        Option<MainTaskMessage>,
        Option<MainTaskMessage>,
    ))
        ensures
            final(self).plus == deb_step(old(self).plus, plus_pressed),
            final(self).minus == deb_step(old(self).minus, minus_pressed),
            events.0 is Some <==> (!old(self).plus_level() && final(self).plus_level()),
            events.0 matches Some(m) ==> m == MainTaskMessage::PlusButtonPressed,
            events.0 is Some ==> plus_pressed,
            events.1 is Some <==> (!old(self).minus_level() && final(self).minus_level()),
            events.1 matches Some(m) ==> m == MainTaskMessage::MinusButtonPressed,
            events.1 is Some ==> minus_pressed,
    {
        let plus_event = match update_debouncer(&mut self.plus, plus_pressed) {
            Some(ButtonEdge::Rising) => Some(MainTaskMessage::PlusButtonPressed),
            _ => None,
        };
        let minus_event = match update_debouncer(&mut self.minus, minus_pressed) {
            Some(ButtonEdge::Rising) => Some(MainTaskMessage::MinusButtonPressed),
            _ => None,
        };
        (plus_event, minus_event)
    }
}

} // verus!
