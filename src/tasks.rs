use vstd::prelude::*;

use crate::clock::ClockState;
use crate::display::{displays, prepare_buffer};
use crate::repeat::{ButtonRepeat, RepeatStep};

verus! {

/// The state that the interrupt tasks share, and the pending flag of the
/// display refresh. Each method is one critical section: the caller holds the
/// lock over the whole value for its duration.
#[derive(Clone, Copy, Debug, PartialEq, Eq, Structural)]
pub struct Scheduler {
    pub clock: ClockState,
    pub button: ButtonRepeat,
    /// A display refresh is requested and has not run yet; further requests
    /// are merged into it.
    pub refresh_pending: bool,
}

impl Scheduler {
    pub open spec fn wf(&self) -> bool {
        self.clock.wf() && self.button.wf()
    }

    /// The state with a display refresh requested.
    pub open spec fn after_request(self) -> Scheduler {
        Scheduler { refresh_pending: true, ..self }
    }

    /// The state after the one-second tick.
    pub open spec fn after_second(self) -> Scheduler {
        Scheduler { clock: self.clock.second_later(), ..self }.after_request()
    }

    /// The clock as it stands after a step of the button logic.
    pub open spec fn clock_after(self, step: RepeatStep) -> ClockState {
        if step.advance_minute {
            self.clock.minute_later()
        } else {
            self.clock
        }
    }

    /// The state after the button logic took `step` and moved to `button`:
    /// the clock advanced by a minute and a refresh requested if it asks so.
    pub open spec fn after_button(self, button: ButtonRepeat, step: RepeatStep) -> Scheduler {
        let moved = Scheduler { clock: self.clock_after(step), button, ..self };
        if step.advance_minute {
            moved.after_request()
        } else {
            moved
        }
    }

    /// Whether a refresh request made now is queued rather than merged.
    pub open spec fn queues_refresh(self) -> bool {
        !self.refresh_pending
    }

    /// The clock that the refresh task renders if it runs now, if any.
    pub open spec fn refresh_snapshot(self) -> Option<ClockState> {
        if self.refresh_pending {
            Some(self.clock)
        } else {
            None
        }
    }

    /// The state after the refresh task ran: nothing pending.
    pub open spec fn after_refresh(self) -> Scheduler {
        Scheduler { refresh_pending: false, ..self }
    }

    /// The state at power-on: 12:34:56, button idle, nothing pending.
    pub fn new() -> (s: Scheduler)
        ensures
            s.wf(),
            s.clock == (ClockState { hours: 12, mins: 34, secs: 56 }),
            s.button == ButtonRepeat::new_spec(),
            !s.refresh_pending,
    {
        Scheduler {
            clock: ClockState::new(12, 34, 56),
            button: ButtonRepeat::new(),
            refresh_pending: false,
        }
    }

    /// Requests a display refresh. Returns whether the request was queued;
    /// while one is pending, the request is merged into it.
    pub fn request_refresh(&mut self) -> (queued: bool)
        ensures
            *final(self) == old(self).after_request(),
            queued == old(self).queues_refresh(),
    {
        let queued = !self.refresh_pending;
        self.refresh_pending = true;
        queued
    }

    /// The one-second tick task: advances the clock and requests a refresh.
    /// Returns whether the refresh was queued.
    pub fn timer_tick(&mut self) -> (queued: bool)
        requires
            old(self).wf(),
        ensures
            final(self).wf(),
            *final(self) == old(self).after_second(),
            queued == old(self).queues_refresh(),
    {
        self.clock.tick();
        self.request_refresh()
    }

    /// Applies a step of the button logic to the clock and the refresh flag.
    fn apply_button_step(&mut self, step: RepeatStep) -> (queued: bool)
        requires
            old(self).wf(),
        ensures
            final(self).wf(),
            *final(self) == old(self).after_button(old(self).button, step),
            queued == (step.advance_minute && old(self).queues_refresh()),
    {
        if step.advance_minute {
            self.clock.add_minute();
            self.request_refresh()
        } else {
            false
        }
    }

    /// The button edge task. Returns what the button logic asks of the
    /// hardware and whether a refresh was queued.
    pub fn button_press(&mut self) -> (out: (RepeatStep, bool))
        requires
            old(self).wf(),
        ensures
            final(self).wf(),
            out.0 == old(self).button.press_step(),
            *final(self) == old(self).after_button(old(self).button.after_press(), out.0),
            out.1 == (out.0.advance_minute && old(self).queues_refresh()),
    {
        let step = self.button.press();
        let queued = self.apply_button_step(step);
        (step, queued)
    }

    /// The repeat timer task, the button read as `pressed`. Returns what the
    /// button logic asks of the hardware and whether a refresh was queued.
    pub fn button_repeat(&mut self, pressed: bool) -> (out: (RepeatStep, bool))
        requires
            old(self).wf(),
        ensures
            final(self).wf(),
            out.0 == old(self).button.expiry_step(pressed),
            *final(self) == old(self).after_button(old(self).button.after_expiry(pressed), out.0),
            out.1 == (out.0.advance_minute && old(self).queues_refresh()),
    {
        let step = self.button.expire(pressed);
        let queued = self.apply_button_step(step);
        (step, queued)
    }

    /// The display refresh task: when a refresh is pending, clears it and
    /// returns the device buffers of the clock as it stands now.
    pub fn update_display(&mut self) -> (frame: Option<[[u8; 8]; 4]>)
        requires
            old(self).wf(),
        ensures
            final(self).wf(),
            *final(self) == old(self).after_refresh(),
            frame is Some <==> old(self).refresh_snapshot() is Some,
            frame matches Some(bufs) ==> displays(bufs, old(self).refresh_snapshot()->0),
    {
        if self.refresh_pending {
            self.refresh_pending = false;
            let snapshot = self.clock;
            Some(prepare_buffer(&snapshot))
        } else {
            None
        }
    }
}

/// Refresh requests coalesce: a request made while one is pending queues
/// nothing, the refresh that then runs renders the clock as it stood at the
/// latest request, and it runs once.
pub proof fn lemma_refresh_coalesces(s: Scheduler, first: ClockState, second: ClockState)
    ensures
        ({
            let one = Scheduler { clock: first, ..s }.after_request();
            let two = Scheduler { clock: second, ..one }.after_request();
            &&& !one.queues_refresh()
            &&& two.refresh_snapshot() == Some(second)
            &&& two.after_refresh().refresh_snapshot() is None
            &&& two.after_refresh().clock == second
        }),
{
}

} // verus!
