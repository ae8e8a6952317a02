use vstd::prelude::*;

verus! {

/// Abstract state of a countdown clock: its level-triggered enable flag and
/// the number of seconds left.
pub struct ClockModel {
    pub active: bool,
    pub remaining: nat,
}

impl ClockModel {
    /// One elapsed second: an active clock with time left loses one second;
    /// otherwise nothing changes.
    pub open spec fn tick(self) -> ClockModel {
        if self.active && self.remaining > 0 {
            ClockModel { remaining: (self.remaining - 1) as nat, ..self }
        } else {
            self
        }
    }
}

/// A counter of remaining seconds that is decremented once per tick while the
/// clock is enabled. The enable flag keeps its last value until it is changed.
pub struct CountdownClock {
    active: bool,
    remaining: u32,
}

impl View for CountdownClock {
    type V = ClockModel;

    closed spec fn view(&self) -> ClockModel {
        ClockModel { active: self.active, remaining: self.remaining as nat }
    }
}

impl CountdownClock {
    /// A disabled clock whose counter starts at zero.
    pub fn new() -> (r: CountdownClock)
        ensures
            r@ == (ClockModel { active: false, remaining: 0 }),
    {
        CountdownClock { active: false, remaining: 0 }
    }

    /// Enables counting; the counter is left as it is.
    pub fn activate(&mut self)
        ensures
            final(self)@ == (ClockModel { active: true, ..old(self)@ }),
    {
        self.active = true;
    }

    /// Disables counting; the counter is left as it is.
    pub fn deactivate(&mut self)
        ensures
            final(self)@ == (ClockModel { active: false, ..old(self)@ }),
    {
        self.active = false;
    }

    pub fn is_active(&self) -> (r: bool)
        ensures
            r == self@.active,
    {
        self.active
    }

    pub fn remaining(&self) -> (r: u32)
        ensures
            r as nat == self@.remaining,
    {
        self.remaining
    }

    /// Overwrites the counter; the enable flag is left as it is.
    pub fn set_remaining(&mut self, secs: u32)
        ensures
            final(self)@ == (ClockModel { remaining: secs as nat, ..old(self)@ }),
    {
        self.remaining = secs;
    }

    /// One elapsed second of wall-clock time.
    pub fn tick(&mut self)
        ensures
            final(self)@ == old(self)@.tick(),
    {
        if self.active && self.remaining > 0 {
            self.remaining = self.remaining - 1;
        }
    }
}

} // verus!
