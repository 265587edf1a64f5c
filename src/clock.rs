use vstd::prelude::*;

verus! {

/// Seconds in one day.
pub const SECS_PER_DAY: u32 = 86400;

/// Minutes in one day.
pub const MINS_PER_DAY: u32 = 1440;

/// Time of day, volatile: hours 0..=23, minutes and seconds 0..=59.
#[derive(Clone, Copy, Debug, PartialEq, Eq, Structural)]
pub struct ClockState {
    pub hours: u8,
    pub mins: u8,
    pub secs: u8,
}

impl ClockState {
    /// All three fields within their ranges.
    pub open spec fn wf(&self) -> bool {
        &&& self.hours < 24
        &&& self.mins < 60
        &&& self.secs < 60
    }

    /// Seconds elapsed since midnight.
    pub open spec fn second_of_day(&self) -> int {
        self.hours * 3600 + self.mins * 60 + self.secs
    }

    /// Minutes elapsed since midnight.
    pub open spec fn minute_of_day(&self) -> int {
        self.hours * 60 + self.mins
    }

    /// What `add_minute` does to the fields.
    pub open spec fn minute_later(self) -> ClockState {
        if self.mins + 1 < 60 {
            ClockState { mins: (self.mins + 1) as u8, ..self }
        } else {
            ClockState { hours: ((self.hours + 1) % 24) as u8, mins: 0, secs: self.secs }
        }
    }

    /// What `tick` does to the fields.
    pub open spec fn second_later(self) -> ClockState {
        if self.secs + 1 < 60 {
            ClockState { secs: (self.secs + 1) as u8, ..self }
        } else {
            ClockState { secs: 0, ..self.minute_later() }
        }
    }

    pub fn new(hours: u8, mins: u8, secs: u8) -> (c: ClockState)
        requires
            hours < 24,
            mins < 60,
            secs < 60,
        ensures
            c.wf(),
            c.hours == hours,
            c.mins == mins,
            c.secs == secs,
    {
        ClockState { hours, mins, secs }
    }

    /// Advances the clock by one second, rolling over into minutes and hours.
    pub fn tick(&mut self)
        requires
            old(self).wf(),
        ensures
            final(self).wf(),
            *final(self) == old(self).second_later(),
            final(self).second_of_day() == (old(self).second_of_day() + 1) % (SECS_PER_DAY as int),
    {
        self.secs = self.secs + 1;
        if self.secs >= 60 {
            self.secs = 0;
            self.add_minute();
        }
    }

    /// Advances the clock by one minute, rolling over into hours; seconds are kept.
    pub fn add_minute(&mut self)
        requires
            old(self).wf(),
        ensures
            final(self).wf(),
            *final(self) == old(self).minute_later(),
            final(self).secs == old(self).secs,
            final(self).minute_of_day() == (old(self).minute_of_day() + 1) % (MINS_PER_DAY as int),
    {
        self.mins = self.mins + 1;
        if self.mins >= 60 {
            self.mins = 0;
            self.hours = (self.hours + 1) % 24;
        }
    }
}

/// A tick at second 59 resets the seconds and advances the clock exactly as
/// one `add_minute` does; below 59 it raises the seconds alone.
pub proof fn lemma_tick_rollover(c: ClockState)
    requires
        c.wf(),
    ensures
        c.secs == 59 ==> c.second_later().secs == 0,
        c.secs == 59 ==> c.second_later() == (ClockState { secs: 0, ..c.minute_later() }),
        c.secs == 59 ==> c.second_later().minute_of_day() == (c.minute_of_day() + 1) % (
        MINS_PER_DAY as int),
        c.secs < 59 ==> c.second_later() == (ClockState { secs: (c.secs + 1) as u8, ..c }),
{
}

/// `add_minute` at minute 59 resets the minutes and advances the hours modulo
/// 24, so 23:59 becomes 00:00; below 59 it raises the minutes alone.
pub proof fn lemma_add_minute_rollover(c: ClockState)
    requires
        c.wf(),
    ensures
        c.mins == 59 ==> c.minute_later().mins == 0,
        c.mins == 59 ==> c.minute_later().hours == (c.hours + 1) % 24,
        c.mins == 59 && c.hours == 23 ==> c.minute_later().hours == 0,
        c.mins < 59 ==> c.minute_later() == (ClockState { mins: (c.mins + 1) as u8, ..c }),
        c.minute_later().secs == c.secs,
{
}

} // verus!
