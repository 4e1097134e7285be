//! Scheduling policies, their parameters, and the numeric invariants the OS
//! imposes on them.
//!
//! The numeric encoding here is the wire-level contract with the host OS
//! scheduler: the niceness range, the policy class numbers, and the
//! per-policy real-time-priority range.

use vstd::prelude::*;

verus! {

/// The smallest valid niceness value (highest priority).
pub const NICENESS_MIN: i32 = -20;

/// The largest valid niceness value (lowest priority).
pub const NICENESS_MAX: i32 = 19;

/// The smallest valid real-time priority for FIFO and round-robin.
pub const RT_PRIORITY_MIN: i32 = 1;

/// The largest valid real-time priority for FIFO and round-robin.
pub const RT_PRIORITY_MAX: i32 = 99;

/// An OS-level scheduling class.
#[derive(Copy, Clone, Debug, PartialEq, Eq, Hash, Structural)]
pub enum SchedulingPolicy {
    /// The default time-sharing class.
    Normal,
    /// First-in, first-out real-time class.
    Fifo,
    /// Round-robin real-time class.
    RoundRobin,
    /// Class for CPU-intensive batch work.
    Batch,
    /// Class for very-low-priority background work.
    Idle,
}

/// Policy parameters: the real-time priority, `0` for non-real-time classes.
#[derive(Copy, Clone, Debug, PartialEq, Eq, Hash, Structural)]
pub struct Parameters {
    /// Priority level used only by the FIFO and round-robin classes.
    pub realtime_priority: i32,
}

impl Default for Parameters {
    /// Parameters with the real-time priority at its default, `0`.
    fn default() -> (r: Self)
        ensures
            r.realtime_priority == 0,
    {
        Parameters { realtime_priority: 0 }
    }
}

/// Whether a niceness value lies in the valid range.
pub open spec fn valid_niceness(n: int) -> bool {
    NICENESS_MIN <= n <= NICENESS_MAX
}

/// Whether a policy is one of the real-time classes.
pub open spec fn realtime_policy(p: SchedulingPolicy) -> bool {
    p is Fifo || p is RoundRobin
}

/// Whether parameters fit a policy: real-time priority in
/// `[RT_PRIORITY_MIN, RT_PRIORITY_MAX]` for the real-time classes, exactly
/// `0` for the others.
pub open spec fn valid_parameters(p: SchedulingPolicy, params: Parameters) -> bool {
    if realtime_policy(p) {
        RT_PRIORITY_MIN <= params.realtime_priority <= RT_PRIORITY_MAX
    } else {
        params.realtime_priority == 0
    }
}

/// The OS class number of each policy.
pub open spec fn policy_raw_spec(p: SchedulingPolicy) -> i32 {
    match p {
        SchedulingPolicy::Normal => 0,
        SchedulingPolicy::Fifo => 1,
        SchedulingPolicy::RoundRobin => 2,
        SchedulingPolicy::Batch => 3,
        SchedulingPolicy::Idle => 5,
    }
}

impl SchedulingPolicy {
    /// The OS class number of this policy, for handing to the OS.
    pub fn as_raw(self) -> (r: i32)
        ensures
            r == policy_raw_spec(self),
    {
        match self {
            SchedulingPolicy::Normal => 0,
            SchedulingPolicy::Fifo => 1,
            SchedulingPolicy::RoundRobin => 2,
            SchedulingPolicy::Batch => 3,
            SchedulingPolicy::Idle => 5,
        }
    }

    /// The policy a class number the OS reported denotes, or `None` for a
    /// number this system does not model.
    pub fn from_raw(raw: i32) -> (r: Option<SchedulingPolicy>)
        ensures
            match r {
                Some(p) => policy_raw_spec(p) == raw,
                None => forall|p: SchedulingPolicy| policy_raw_spec(p) != raw,
            },
    {
        if raw == 0 {
            Some(SchedulingPolicy::Normal)
        } else if raw == 1 {
            Some(SchedulingPolicy::Fifo)
        } else if raw == 2 {
            Some(SchedulingPolicy::RoundRobin)
        } else if raw == 3 {
            Some(SchedulingPolicy::Batch)
        } else if raw == 5 {
            Some(SchedulingPolicy::Idle)
        } else {
            None
        }
    }
}

} // verus!
