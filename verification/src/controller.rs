//! The central state machine. It owns the selected preset index, the
//! dummy-load flag, the lockout flag and the indicator deadline; every event
//! is folded in by a pure transition function, and the hardware outputs are
//! a pure function of the state.

use vstd::prelude::*;

use crate::fraction::U16Fraction;
use crate::presets::{spec_fraction, spec_state_at, state_at, INITIAL_STATE_IDX, STATE_COUNT};

verus! {

/// An event consumed by the controller, pushed by one of the producer tasks.
#[derive(Clone, Copy, PartialEq, Eq, Structural, Debug)]
pub enum MainTaskMessage {
    PlusButtonPressed,
    MinusButtonPressed,
    EnableDummyLoad,
    DisableDummyLoad,
    /// Initially, the load cannot be enabled. Only when enough power
    /// is detected to be available (via the CC lines of the USB Type-C
    /// connector), is this enabled. (It can also later be disabled again.)
    SetLoadLockedOut(bool),
}

/// How long the indicator stays on after a button press, in the same time
/// unit as the `now` values handed to the controller (milliseconds here).
pub const LED_ON_DURATION_AFTER_BUTTON_PRESS_MS: u64 = 10_000;

/// The state owned by the controller.
#[derive(Clone, Copy, Debug)]
pub struct Controller {
    /// Index of the selected preset; always a valid table offset.
    pub state_idx: usize,
    /// Whether the dummy load is allowed to draw its preset duty.
    pub dummy_enabled: bool,
    /// True while available supply power is judged insufficient; forces all
    /// loads off.
    pub load_locked_out: bool,
    /// When set, the indicator shows the active preset colour until this
    /// instant; when absent, the indicator is off.
    pub led_turn_off_deadline: Option<u64>,
}

/// The duty values and the master enable line that the controller drives.
#[derive(Clone, Copy, PartialEq, Eq, Structural, Debug)]
pub struct Outputs {
    pub fan: U16Fraction,
    pub dummy: U16Fraction,
    pub led_r: U16Fraction,
    pub led_g: U16Fraction,
    pub led_b: U16Fraction,
    pub load_enable: bool,
}

impl Controller {
    /// The controller's invariant: the preset index is a valid table offset.
    pub open spec fn wf(self) -> bool {
        self.state_idx < STATE_COUNT
    }
}

/// The state the controller boots into: locked out until power is proven
/// sufficient, dummy load off, indicator idle.
pub open spec fn spec_initial(initial_idx: usize) -> Controller {
    Controller {
        state_idx: initial_idx,
        dummy_enabled: false,
        load_locked_out: true,
        led_turn_off_deadline: None::<u64>,
    }
}

/// The transition function: how one event at time `now` changes the state.
///
/// A button event clamps the index move at both table ends and always
/// re-arms the indicator deadline, whether or not the index changed.
/// The dummy-load and lockout events touch exactly their own flag.
pub open spec fn spec_step(c: Controller, msg: MainTaskMessage, now: u64) -> Controller {
    match msg {
        MainTaskMessage::PlusButtonPressed => Controller {
            state_idx: if c.state_idx + 1 < STATE_COUNT {
                (c.state_idx + 1) as usize
            } else {
                c.state_idx
            },
            led_turn_off_deadline: Some((now + LED_ON_DURATION_AFTER_BUTTON_PRESS_MS) as u64),
            ..c
        },
        MainTaskMessage::MinusButtonPressed => Controller {
            state_idx: if c.state_idx >= 1 {
                (c.state_idx - 1) as usize
            } else {
                c.state_idx
            },
            led_turn_off_deadline: Some((now + LED_ON_DURATION_AFTER_BUTTON_PRESS_MS) as u64),
            ..c
        },
        MainTaskMessage::EnableDummyLoad => Controller { dummy_enabled: true, ..c },
        MainTaskMessage::DisableDummyLoad => Controller { dummy_enabled: false, ..c },
        MainTaskMessage::SetLoadLockedOut(v) => Controller { load_locked_out: v, ..c },
    }
}

/// What expiry of the indicator deadline changes: only the deadline is
/// cleared.
pub open spec fn spec_clear_deadline(c: Controller) -> Controller {
    Controller { led_turn_off_deadline: None::<u64>, ..c }
}

/// The rendering function: the outputs as a pure function of the state.
///
/// Locked out: fan and dummy fully off, a fixed dim red warning colour,
/// master enable de-asserted. Otherwise the selected preset drives the fan,
/// the dummy load only if enabled, and the indicator only while the
/// deadline is armed.
pub open spec fn spec_render(c: Controller) -> Outputs {
    if c.load_locked_out {
        Outputs {
            fan: spec_fraction(0, 1),
            dummy: spec_fraction(0, 1),
            led_r: spec_fraction(1, 50),
            led_g: spec_fraction(0, 1),
            led_b: spec_fraction(0, 1),
            load_enable: false,
        }
    } else {
        let preset = spec_state_at(c.state_idx as int);
        Outputs {
            fan: preset.fan,
            dummy: if c.dummy_enabled { preset.dummy } else { spec_fraction(0, 1) },
            led_r: if c.led_turn_off_deadline is Some { preset.r } else { spec_fraction(0, 1) },
            led_g: if c.led_turn_off_deadline is Some { preset.g } else { spec_fraction(0, 1) },
            led_b: if c.led_turn_off_deadline is Some { preset.b } else { spec_fraction(0, 1) },
            load_enable: true,
        }
    }
}

/// The preset index the controller boots with: the restored record when it
/// is a valid table offset, else the build-time default.
pub open spec fn spec_boot_state_idx(restored: Option<usize>) -> usize {
    match restored {
        Some(i) => if i < STATE_COUNT {
            i
        } else {
            INITIAL_STATE_IDX
        },
        None => INITIAL_STATE_IDX,
    }
}

/// Resolve the restored record to the index the controller boots with:
/// absence, corruption or an out-of-table value fall back to the build-time
/// default.
pub fn boot_state_idx(restored: Option<usize>) -> (idx: usize)
    ensures
        idx == spec_boot_state_idx(restored),
        idx < STATE_COUNT,
{
    match restored {
        Some(i) if i < STATE_COUNT => i,
        _ => INITIAL_STATE_IDX,
    }
}

impl Controller {
    /// Boot the controller at the given preset index.
    pub fn new(initial_idx: usize) -> (c: Controller)
        requires
            initial_idx < STATE_COUNT,
        ensures
            c == spec_initial(initial_idx),
            c.wf(),
    {
        Controller {
            state_idx: initial_idx,
            dummy_enabled: false,
            load_locked_out: true,
            led_turn_off_deadline: None,
        }
    }

    /// Fold one event received at time `now` into the state.
    pub fn handle_message(&mut self, msg: MainTaskMessage, now: u64)
        requires
            old(self).wf(),
            now <= u64::MAX - LED_ON_DURATION_AFTER_BUTTON_PRESS_MS,
        ensures
            *final(self) == spec_step(*old(self), msg, now),
            final(self).wf(),
    {
        match msg {
            MainTaskMessage::PlusButtonPressed => {
                if self.state_idx + 1 < STATE_COUNT {
                    self.state_idx = self.state_idx + 1;
                }
                self.led_turn_off_deadline = Some(now + LED_ON_DURATION_AFTER_BUTTON_PRESS_MS);
            }
            MainTaskMessage::MinusButtonPressed => {
                if self.state_idx >= 1 {
                    self.state_idx = self.state_idx - 1;
                }
                self.led_turn_off_deadline = Some(now + LED_ON_DURATION_AFTER_BUTTON_PRESS_MS);
            }
            MainTaskMessage::EnableDummyLoad => {
                self.dummy_enabled = true;
            }
            MainTaskMessage::DisableDummyLoad => {
                self.dummy_enabled = false;
            }
            MainTaskMessage::SetLoadLockedOut(v) => {
                self.load_locked_out = v;
            }
        }
    }

    /// The indicator deadline expired: turn the indicator off and touch
    /// nothing else.
    pub fn handle_led_timeout(&mut self)
        ensures
            *final(self) == spec_clear_deadline(*old(self)),
    {
        self.led_turn_off_deadline = None;
    }

    /// Compute the hardware outputs for the current state. The result is a
    /// pure function of the state, so re-rendering an unchanged state gives
    /// identical duties.
    pub fn render(&self) -> (out: Outputs)
        requires
            self.wf(),
        ensures
            out == spec_render(*self),
    {
        if self.load_locked_out {
            Outputs {
                fan: U16Fraction::new(0, 1),
                dummy: U16Fraction::new(0, 1),
                led_r: U16Fraction::new(1, 50),
                led_g: U16Fraction::new(0, 1),
                led_b: U16Fraction::new(0, 1),
                load_enable: false,
            }
        } else {
            let preset = state_at(self.state_idx);
            let led_on = match self.led_turn_off_deadline {
                Some(_) => true,
                None => false,
            };
            Outputs {
                fan: preset.fan,
                dummy: if self.dummy_enabled { preset.dummy } else { U16Fraction::new(0, 1) },
                led_r: if led_on { preset.r } else { U16Fraction::new(0, 1) },
                led_g: if led_on { preset.g } else { U16Fraction::new(0, 1) },
                led_b: if led_on { preset.b } else { U16Fraction::new(0, 1) },
                load_enable: true,
            }
        }
    }
}

/// Only deadline expiry turns the indicator off: no event clears an armed
/// deadline — button events re-arm it and every other event leaves it as it
/// is. So, once armed, the indicator stays on for the whole fixed duration.
pub proof fn lemma_events_never_clear_the_indicator(c: Controller, msg: MainTaskMessage, now: u64)
    ensures
        c.led_turn_off_deadline is Some ==> spec_step(c, msg, now).led_turn_off_deadline is Some,
        !(msg is PlusButtonPressed) && !(msg is MinusButtonPressed)
            ==> spec_step(c, msg, now).led_turn_off_deadline == c.led_turn_off_deadline,
{
}

/// The boot state is safe: until supply power is proven sufficient the
/// controller is locked out, so the boot render leaves the fan and the
/// dummy load at zero duty and the master enable line de-asserted — an
/// undetected-power condition can never enable a load.
pub proof fn lemma_boot_state_is_safe(initial_idx: usize)
    ensures
        spec_initial(initial_idx).load_locked_out,
        spec_initial(initial_idx).led_turn_off_deadline is None,
        spec_render(spec_initial(initial_idx)).fan.is_zero(),
        spec_render(spec_initial(initial_idx)).dummy.is_zero(),
        !spec_render(spec_initial(initial_idx)).load_enable,
{
}

/// Rendering is idempotent: two consecutive renderings with no intervening
/// event produce identical duty values, because the outputs are a pure
/// function of the state.
pub fn render_twice(c: &Controller) -> (outs: (Outputs, Outputs))
    requires
        c.wf(),
    ensures
        outs.0 == outs.1,
        outs.0 == spec_render(*c),
{
    (c.render(), c.render())
}

/// The state after a whole sequence of timestamped events.
pub open spec fn spec_run(c: Controller, msgs: Seq<(MainTaskMessage, u64)>) -> Controller
    decreases msgs.len(),
{
    if msgs.len() == 0 {
        c
    } else {
        spec_run(spec_step(c, msgs[0].0, msgs[0].1), msgs.drop_first())
    }
}

/// One event moves the preset index by at most one, clamped at both table
/// ends, and never out of the table.
pub proof fn lemma_preset_index_moves_by_at_most_one(c: Controller, msg: MainTaskMessage, now: u64)
    requires
        c.wf(),
    ensures
        spec_step(c, msg, now).wf(),
        spec_step(c, msg, now).state_idx <= c.state_idx + 1,
        c.state_idx <= spec_step(c, msg, now).state_idx + 1,
        c.state_idx == STATE_COUNT - 1 && msg is PlusButtonPressed
            ==> spec_step(c, msg, now).state_idx == c.state_idx,
        c.state_idx == 0 && msg is MinusButtonPressed
            ==> spec_step(c, msg, now).state_idx == 0,
{
}

/// Over any sequence of events, the preset index stays a valid table
/// offset.
pub proof fn lemma_preset_index_stays_bounded(c: Controller, msgs: Seq<(MainTaskMessage, u64)>)
    requires
        c.wf(),
    ensures
        spec_run(c, msgs).wf(),
    decreases msgs.len(),
{
    if msgs.len() > 0 {
        lemma_preset_index_moves_by_at_most_one(c, msgs[0].0, msgs[0].1);
        lemma_preset_index_stays_bounded(spec_step(c, msgs[0].0, msgs[0].1), msgs.drop_first());
    }
}

/// Lockout dominance: while locked out, the rendered fan and dummy duties
/// are zero and the master enable line is de-asserted, whatever the preset
/// index, the dummy flag or the indicator deadline.
pub proof fn lemma_lockout_forces_loads_off(c: Controller)
    requires
        c.load_locked_out,
    ensures
        spec_render(c).fan.is_zero(),
        spec_render(c).dummy.is_zero(),
        !spec_render(c).load_enable,
{
}

/// Indicator auto-off: a button event re-arms the deadline to exactly
/// `now` plus the fixed on-duration (so the indicator stays on for the whole
/// period absent further events); while armed and not locked out the
/// indicator shows the active preset colour, and once the deadline expiry
/// is folded in, all three indicator channels render zero.
pub proof fn lemma_indicator_auto_off(c: Controller, msg: MainTaskMessage, now: u64)
    requires
        c.wf(),
        msg is PlusButtonPressed || msg is MinusButtonPressed,
        now <= u64::MAX - LED_ON_DURATION_AFTER_BUTTON_PRESS_MS,
    ensures
        spec_step(c, msg, now).led_turn_off_deadline
            == Some((now + LED_ON_DURATION_AFTER_BUTTON_PRESS_MS) as u64),
        !spec_step(c, msg, now).load_locked_out ==> {
            let rendered = spec_render(spec_step(c, msg, now));
            let preset = spec_state_at(spec_step(c, msg, now).state_idx as int);
            rendered.led_r == preset.r && rendered.led_g == preset.g && rendered.led_b == preset.b
        },
        !spec_step(c, msg, now).load_locked_out ==> {
            let after_expiry = spec_render(spec_clear_deadline(spec_step(c, msg, now)));
            after_expiry.led_r.is_zero() && after_expiry.led_g.is_zero()
                && after_expiry.led_b.is_zero()
        },
{
}

} // verus!
