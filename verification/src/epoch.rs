use vstd::prelude::*;

use crate::clock::current_timestamp;

verus! {

/// Whether an epoch is still running or has been closed.
#[derive(Debug, Clone, Copy, PartialEq, Eq, Structural)]
pub enum EpochStatus {
    Active,
    Completed,
}

/// A numbered period of the root contract, with the times at which it
/// started and (once completed) ended, in seconds.
#[derive(Debug, Clone)]
pub struct Epoch {
    pub epoch_number: u64,
    pub start_time: u64,
    pub end_time: u64,
    pub state: EpochStatus,
}

impl Epoch {
    /// The parameters `new` accepts: an end time, when set, is not before the
    /// start time; an active epoch has no end time; a completed one has one.
    pub open spec fn valid_params(start_time: u64, end_time: u64, state: EpochStatus) -> bool {
        &&& (end_time != 0 ==> end_time >= start_time)
        &&& (end_time == 0 ==> state == EpochStatus::Active)
        &&& (end_time != 0 ==> state == EpochStatus::Completed)
    }

    /// A consistent epoch value.
    pub open spec fn well_formed(self) -> bool {
        Self::valid_params(self.start_time, self.end_time, self.state)
    }

    /// Length of a completed epoch: end minus start, floored at zero.
    pub open spec fn spec_duration(self) -> Option<u64> {
        if self.state == EpochStatus::Completed {
            Some(if self.end_time >= self.start_time { (self.end_time - self.start_time) as u64 } else { 0 })
        } else {
            None
        }
    }

    /// Starts epoch `epoch_number` at the given time.
    pub fn start_new_at(epoch_number: u64, now: u64) -> (r: Self)
        ensures
            r.epoch_number == epoch_number,
            r.start_time == now,
            r.end_time == 0,
            r.state == EpochStatus::Active,
    {
        Epoch { epoch_number, start_time: now, end_time: 0, state: EpochStatus::Active }
    }

    /// Starts epoch `epoch_number` now, as the clock reads.
    pub fn start_new(epoch_number: u64) -> (r: Self)
        ensures
            r.epoch_number == epoch_number,
            r.end_time == 0,
            r.state == EpochStatus::Active,
    {
        let now = current_timestamp();
        Self::start_new_at(epoch_number, now)
    }

    /// Returns true if the epoch is currently active.
    pub fn is_active(&self) -> (r: bool)
        ensures
            r == (self.state == EpochStatus::Active),
    {
        match self.state {
            EpochStatus::Active => true,
            EpochStatus::Completed => false,
        }
    }

    /// Returns true if the epoch has been completed.
    pub fn is_completed(&self) -> (r: bool)
        ensures
            r == (self.state == EpochStatus::Completed),
    {
        match self.state {
            EpochStatus::Active => false,
            EpochStatus::Completed => true,
        }
    }

    /// The duration of a completed epoch in seconds; `None` while it is active.
    pub fn duration(&self) -> (r: Option<u64>)
        ensures
            r == self.spec_duration(),
    {
        if self.is_completed() {
            Some(self.end_time.saturating_sub(self.start_time))
        } else {
            None
        }
    }

    /// Ends the epoch at time `now`; an already completed epoch is refused and
    /// left unchanged.
    pub fn end_epoch_at(&mut self, now: u64) -> (r: Result<(), &'static str>)
        ensures
            old(self).state == EpochStatus::Completed ==> {
                &&& r matches Err(msg) && msg@ == "Epoch is already completed"@
                &&& *final(self) == *old(self)
            },
            old(self).state == EpochStatus::Active ==> {
                &&& r.is_ok()
                &&& final(self).epoch_number == old(self).epoch_number
                &&& final(self).start_time == old(self).start_time
                &&& final(self).end_time == now
                &&& final(self).state == EpochStatus::Completed
            },
    {
        if self.is_completed() {
            return Err("Epoch is already completed");
        }
        self.end_time = now;
        self.state = EpochStatus::Completed;
        Ok(())
    }

    /// Ends the epoch at the current clock reading.
    pub fn end_epoch(&mut self) -> (r: Result<(), &'static str>)
        ensures
            old(self).state == EpochStatus::Completed ==> {
                &&& r matches Err(msg) && msg@ == "Epoch is already completed"@
                &&& *final(self) == *old(self)
            },
            old(self).state == EpochStatus::Active ==> {
                &&& r.is_ok()
                &&& final(self).epoch_number == old(self).epoch_number
                &&& final(self).start_time == old(self).start_time
                &&& final(self).state == EpochStatus::Completed
            },
    {
        let now = current_timestamp();
        self.end_epoch_at(now)
    }

    /// Builds an epoch from its parts, refusing inconsistent ones.
    pub fn new(epoch_number: u64, start_time: u64, end_time: u64, state: EpochStatus) -> (r: Result<Self, &'static str>)
        ensures
            r.is_ok() <==> Self::valid_params(start_time, end_time, state),
            end_time != 0 && end_time < start_time ==> (r matches Err(msg) && msg@
                == "End time cannot be before start time"@),
            !(end_time != 0 && end_time < start_time) && end_time == 0 && state == EpochStatus::Completed ==> (r matches Err(
                msg,
            ) && msg@ == "Completed epoch must have an end time"@),
            !(end_time != 0 && end_time < start_time) && end_time != 0 && state == EpochStatus::Active ==> (r matches Err(
                msg,
            ) && msg@ == "Active epoch cannot have an end time"@),
            r matches Ok(e) ==> {
                &&& e.epoch_number == epoch_number
                &&& e.start_time == start_time
                &&& e.end_time == end_time
                &&& e.state == state
            },
    {
        if end_time != 0 && end_time < start_time {
            return Err("End time cannot be before start time");
        }
        if end_time == 0 && state == EpochStatus::Completed {
            return Err("Completed epoch must have an end time");
        }
        if end_time != 0 && state == EpochStatus::Active {
            return Err("Active epoch cannot have an end time");
        }
        Ok(Epoch { epoch_number, start_time, end_time, state })
    }
}

/// Ending a well-formed active epoch at a positive time no earlier than its
/// start gives a well-formed completed epoch whose duration is the time elapsed.
pub proof fn lemma_end_epoch_keeps_well_formed(e: Epoch, now: u64)
    requires
        e.well_formed(),
        e.state == EpochStatus::Active,
        now >= e.start_time,
        now > 0,
    ensures
        ({
            let done = Epoch { end_time: now, state: EpochStatus::Completed, ..e };
            &&& done.well_formed()
            &&& done.spec_duration() == Some((now - e.start_time) as u64)
        }),
{
}

} // verus!
