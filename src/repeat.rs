use vstd::prelude::*;

verus! {

/// First auto-repeat interval after a press, in microseconds.
pub const INITIAL_REPEAT_INTERVAL_US: u32 = 500000;

/// Shortest auto-repeat interval, in microseconds.
pub const REPEAT_FLOOR_US: u32 = 20000;

/// Each repeat shortens the interval to `DECAY_NUM / DECAY_DEN` of itself.
pub const DECAY_NUM: u32 = 4;

/// See `DECAY_NUM`.
pub const DECAY_DEN: u32 = 5;

/// The interval that follows `interval`: four fifths of it, rounded down,
/// but never below the floor.
pub open spec fn decayed(interval: nat) -> nat {
    let shorter = interval * (DECAY_NUM as nat) / (DECAY_DEN as nat);
    if shorter < REPEAT_FLOOR_US as nat {
        REPEAT_FLOOR_US as nat
    } else {
        shorter
    }
}

/// The interval armed after `n` repeats of one hold.
pub open spec fn interval_after(n: nat) -> nat
    decreases n,
{
    if n == 0 {
        INITIAL_REPEAT_INTERVAL_US as nat
    } else {
        decayed(interval_after((n - 1) as nat))
    }
}

/// The next auto-repeat interval: `max(floor, interval * 4 / 5)`.
pub fn next_interval(interval: u32) -> (next: u32)
    ensures
        next == decayed(interval as nat),
{
    let shorter = ((interval as u64) * (DECAY_NUM as u64) / (DECAY_DEN as u64)) as u32;
    if shorter < REPEAT_FLOOR_US {
        REPEAT_FLOOR_US
    } else {
        shorter
    }
}

/// Auto-repeat timing of the button: `active` while the button is held.
#[derive(Clone, Copy, Debug, PartialEq, Eq, Structural)]
pub struct RepeatState {
    pub current_interval: u32,
    pub active: bool,
}

/// What the button logic asks of its surroundings after an event.
#[derive(Clone, Copy, Debug, PartialEq, Eq, Structural)]
pub struct RepeatStep {
    /// Advance the clock by one minute (and so refresh the display).
    pub advance_minute: bool,
    /// Arm the one-shot repeat timer for this many microseconds.
    pub arm_timer_us: Option<u32>,
    /// Switch the button's edge interrupt on or off.
    pub set_edge_interrupt: Option<bool>,
}

/// The debounce and auto-repeat state machine of the button: `Idle` while
/// `state.active` is false, `Held` while it is true. The edge interrupt is
/// enabled exactly while idle.
#[derive(Clone, Copy, Debug, PartialEq, Eq, Structural)]
pub struct ButtonRepeat {
    pub state: RepeatState,
    pub edge_enabled: bool,
}

/// The step that asks for nothing.
pub open spec fn no_step() -> RepeatStep {
    RepeatStep { advance_minute: false, arm_timer_us: None, set_edge_interrupt: None }
}

impl ButtonRepeat {
    pub open spec fn wf(&self) -> bool {
        &&& self.edge_enabled == !self.state.active
        &&& self.state.active ==> REPEAT_FLOOR_US <= self.state.current_interval
            <= INITIAL_REPEAT_INTERVAL_US
    }

    pub open spec fn is_held(&self) -> bool {
        self.state.active
    }

    /// The state after a press edge: `Idle` becomes `Held` at the initial
    /// interval; in `Held` the edge is ignored.
    pub open spec fn after_press(self) -> ButtonRepeat {
        if self.state.active {
            self
        } else {
            ButtonRepeat {
                state: RepeatState { current_interval: INITIAL_REPEAT_INTERVAL_US, active: true },
                edge_enabled: false,
            }
        }
    }

    /// What a press edge asks for.
    pub open spec fn press_step(self) -> RepeatStep {
        if self.state.active {
            no_step()
        } else {
            RepeatStep {
                advance_minute: true,
                arm_timer_us: Some(INITIAL_REPEAT_INTERVAL_US),
                set_edge_interrupt: Some(false),
            }
        }
    }

    /// The state after the repeat timer expires with the button read as
    /// `pressed`: `Held` stays with a shorter interval, or returns to `Idle`.
    pub open spec fn after_expiry(self, pressed: bool) -> ButtonRepeat {
        if !self.state.active {
            self
        } else if pressed {
            ButtonRepeat {
                state: RepeatState {
                    current_interval: decayed(self.state.current_interval as nat) as u32,
                    active: true,
                },
                edge_enabled: false,
            }
        } else {
            ButtonRepeat {
                state: RepeatState { active: false, ..self.state },
                edge_enabled: true,
            }
        }
    }

    /// What an expiry of the repeat timer asks for.
    pub open spec fn expiry_step(self, pressed: bool) -> RepeatStep {
        if !self.state.active {
            no_step()
        } else if pressed {
            RepeatStep {
                advance_minute: true,
                arm_timer_us: Some(decayed(self.state.current_interval as nat) as u32),
                set_edge_interrupt: None,
            }
        } else {
            RepeatStep { advance_minute: false, arm_timer_us: None, set_edge_interrupt: Some(true) }
        }
    }

    /// The idle button: edge interrupt enabled, interval at its initial value.
    pub open spec fn new_spec() -> ButtonRepeat {
        ButtonRepeat {
            state: RepeatState { current_interval: INITIAL_REPEAT_INTERVAL_US, active: false },
            edge_enabled: true,
        }
    }

    /// The idle button, edge interrupt enabled.
    pub fn new() -> (b: ButtonRepeat)
        ensures
            b == ButtonRepeat::new_spec(),
            b.wf(),
            !b.is_held(),
    {
        ButtonRepeat {
            state: RepeatState { current_interval: INITIAL_REPEAT_INTERVAL_US, active: false },
            edge_enabled: true,
        }
    }

    /// Handles a falling edge of the button.
    pub fn press(&mut self) -> (step: RepeatStep)
        requires
            old(self).wf(),
        ensures
            final(self).wf(),
            *final(self) == old(self).after_press(),
            step == old(self).press_step(),
    {
        if self.state.active {
            RepeatStep { advance_minute: false, arm_timer_us: None, set_edge_interrupt: None }
        } else {
            self.state = RepeatState { current_interval: INITIAL_REPEAT_INTERVAL_US, active: true };
            self.edge_enabled = false;
            RepeatStep {
                advance_minute: true,
                arm_timer_us: Some(INITIAL_REPEAT_INTERVAL_US),
                set_edge_interrupt: Some(false),
            }
        }
    }

    /// Handles an expiry of the repeat timer, the button read as `pressed`.
    pub fn expire(&mut self, pressed: bool) -> (step: RepeatStep)
        requires
            old(self).wf(),
        ensures
            final(self).wf(),
            *final(self) == old(self).after_expiry(pressed),
            step == old(self).expiry_step(pressed),
    {
        if !self.state.active {
            RepeatStep { advance_minute: false, arm_timer_us: None, set_edge_interrupt: None }
        } else if pressed {
            let next = next_interval(self.state.current_interval);
            self.state.current_interval = next;
            RepeatStep {
                advance_minute: true,
                arm_timer_us: Some(next),
                set_edge_interrupt: None,
            }
        } else {
            self.state.active = false;
            self.edge_enabled = true;
            RepeatStep { advance_minute: false, arm_timer_us: None, set_edge_interrupt: Some(true) }
        }
    }
}

/// The auto-repeat interval starts at 500000 us and shrinks to four fifths at
/// each repeat (400000, 320000, 256000, ...); it never rises, never drops
/// below 20000 us, reaches that floor at the fifteenth repeat and stays there.
pub proof fn lemma_interval_decay(n: nat)
    ensures
        interval_after(0) == 500000,
        interval_after(1) == 400000,
        interval_after(2) == 320000,
        interval_after(3) == 256000,
        interval_after(15) == REPEAT_FLOOR_US,
        REPEAT_FLOOR_US <= interval_after(n + 1) <= interval_after(n),
        n >= 15 ==> interval_after(n) == REPEAT_FLOOR_US,
        decayed(REPEAT_FLOOR_US as nat) == REPEAT_FLOOR_US,
        forall|x: nat|
            x >= REPEAT_FLOOR_US ==> REPEAT_FLOOR_US <= #[trigger] decayed(x) <= x,
    decreases n,
{
    assert(interval_after(0) == 500000);
    assert(interval_after(1) == 400000);
    assert(interval_after(2) == 320000);
    assert(interval_after(3) == 256000);
    assert(interval_after(4) == 204800);
    assert(interval_after(5) == 163840);
    assert(interval_after(6) == 131072);
    assert(interval_after(7) == 104857);
    assert(interval_after(8) == 83885);
    assert(interval_after(9) == 67108);
    assert(interval_after(10) == 53686);
    assert(interval_after(11) == 42948);
    assert(interval_after(12) == 34358);
    assert(interval_after(13) == 27486);
    assert(interval_after(14) == 21988);
    assert(interval_after(15) == 20000);
    if n > 0 {
        lemma_interval_decay((n - 1) as nat);
    }
}

/// A press moves an idle button to `Held` and switches its edge interrupt
/// off; expiries while it is held keep it there with the interrupt off; the
/// first expiry that reads it released returns it to `Idle` and switches the
/// interrupt back on, without arming the timer again.
pub proof fn lemma_press_release_round_trip(b: ButtonRepeat)
    requires
        b.wf(),
        !b.is_held(),
    ensures
        b.after_press().is_held(),
        !b.after_press().edge_enabled,
        b.press_step().set_edge_interrupt == Some(false),
        b.after_press().after_expiry(true).is_held(),
        !b.after_press().after_expiry(true).edge_enabled,
        b.after_press().expiry_step(true).set_edge_interrupt is None,
        !b.after_press().after_expiry(false).is_held(),
        b.after_press().after_expiry(false).edge_enabled,
        b.after_press().expiry_step(false).set_edge_interrupt == Some(true),
        b.after_press().expiry_step(false).arm_timer_us is None,
        forall|h: ButtonRepeat| #[trigger] h.wf() && h.is_held() ==> !h.edge_enabled,
        forall|h: ButtonRepeat| h.wf() ==> (#[trigger] h.after_press()).wf(),
        forall|h: ButtonRepeat, pressed: bool|
            h.wf() ==> (#[trigger] h.after_expiry(pressed)).wf(),
{
}

} // verus!
