//! Parking the target at a known address: a one-shot breakpoint is set
//! there, the target is resumed, and the stop that ends the resume is
//! judged.

use vstd::prelude::*;

verus! {

/// What the controller knows of the breakpoint that it set.
#[derive(Clone, Copy, Debug, PartialEq, Eq, Structural)]
pub struct Breakpoint {
    /// The address at which it stops the target.
    pub address: u64,
    /// It still stops the target.
    pub enabled: bool,
    /// It disables itself at its first hit.
    pub one_shot: bool,
    /// How often it has stopped the target.
    pub hit_count: u32,
}

/// How a resume of the target ended.
#[derive(Clone, Copy, Debug, PartialEq, Eq, Structural)]
pub enum StopEvent {
    /// A thread hit a breakpoint at this address.
    BreakpointHit(u64),
    /// The target exited.
    Exited,
    /// The target stopped for any other reason.
    Other,
}

/// Why the target is not parked where it was meant to be.
#[derive(Clone, Copy, Debug, PartialEq, Eq, Structural)]
pub enum SynchronizationError {
    /// The breakpoint was disabled before the resume: it can stop nothing.
    BreakpointDisabled,
    /// The target exited before it reached the breakpoint.
    TargetExited,
    /// The target stopped, but not at the breakpoint.
    UnrelatedStop,
}

impl Breakpoint {
    /// The breakpoint as it is set for synchronisation: enabled, one-shot,
    /// never hit.
    pub open spec fn armed(address: u64) -> Breakpoint {
        Breakpoint { address, enabled: true, one_shot: true, hit_count: 0 }
    }

    /// The breakpoint after one more hit: a one-shot breakpoint is disabled
    /// by it.
    pub open spec fn after_hit(self) -> Breakpoint {
        Breakpoint {
            address: self.address,
            enabled: self.enabled && !self.one_shot,
            one_shot: self.one_shot,
            hit_count: if self.hit_count < u32::MAX {
                (self.hit_count + 1) as u32
            } else {
                self.hit_count
            },
        }
    }

    /// How a stop is judged: the target is parked at the breakpoint's
    /// address exactly when the breakpoint was enabled and the stop is a
    /// hit at that address.
    pub open spec fn pause_outcome(self, stop: StopEvent) -> Result<u64, SynchronizationError> {
        if !self.enabled {
            Err(SynchronizationError::BreakpointDisabled)
        } else {
            match stop {
                StopEvent::BreakpointHit(address) if address == self.address => Ok(address),
                StopEvent::Exited => Err(SynchronizationError::TargetExited),
                _ => Err(SynchronizationError::UnrelatedStop),
            }
        }
    }

    /// A breakpoint at `address` as it is set for synchronisation.
    pub fn one_shot_at(address: u64) -> (breakpoint: Breakpoint)
        ensures
            breakpoint == Breakpoint::armed(address),
    {
        Breakpoint { address, enabled: true, one_shot: true, hit_count: 0 }
    }

    /// Judges the stop that ended a resume and, where it is a hit of this
    /// breakpoint, records the hit.
    pub fn observe_stop(&mut self, stop: StopEvent) -> (outcome: Result<u64, SynchronizationError>)
        ensures
            outcome == old(self).pause_outcome(stop),
            *final(self) == if outcome is Ok {
                old(self).after_hit()
            } else {
                *old(self)
            },
    {
        if !self.enabled {
            return Err(SynchronizationError::BreakpointDisabled);
        }
        match stop {
            StopEvent::BreakpointHit(address) => {
                if address == self.address {
                    if self.one_shot {
                        self.enabled = false;
                    }
                    if self.hit_count < u32::MAX {
                        self.hit_count = self.hit_count + 1;
                    }
                    Ok(address)
                } else {
                    Err(SynchronizationError::UnrelatedStop)
                }
            },
            StopEvent::Exited => Err(SynchronizationError::TargetExited),
            StopEvent::Other => Err(SynchronizationError::UnrelatedStop),
        }
    }
}

/// Judges the stop that ended the resume after a one-shot breakpoint was
/// set at `address`: the address at which the target is parked, or why it
/// is not parked there.
pub fn pause_at(address: u64, stop: StopEvent) -> (outcome: Result<u64, SynchronizationError>)
    ensures
        outcome == Breakpoint::armed(address).pause_outcome(stop),
        outcome is Ok <==> stop == StopEvent::BreakpointHit(address),
        outcome is Ok ==> outcome == Ok::<u64, SynchronizationError>(address),
{
    let mut breakpoint: Breakpoint = Breakpoint::one_shot_at(address);
    breakpoint.observe_stop(stop)
}

/// A stop parks the target only if it is a hit of the enabled breakpoint at
/// the breakpoint's own address. A one-shot breakpoint is disabled by its
/// first hit, and no later stop is taken for a hit of it.
pub proof fn law_one_shot_fires_once(breakpoint: Breakpoint, first: StopEvent, second: StopEvent)
    ensures
        breakpoint.pause_outcome(first) is Ok <==> (breakpoint.enabled && first
            == StopEvent::BreakpointHit(breakpoint.address)),
        breakpoint.one_shot && breakpoint.pause_outcome(first) is Ok ==> {
            &&& !breakpoint.after_hit().enabled
            &&& breakpoint.after_hit().pause_outcome(second) is Err
        },
{
}

} // verus!
