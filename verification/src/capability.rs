//! Planning of scheduling operations.
//!
//! A plan is the validated, fully numeric form of one scheduling operation:
//! everything the OS syscall needs, produced only when the operation's
//! numeric invariants hold. Planning never touches the OS, so an invalid
//! value is rejected with [`SchedError::InvalidArgument`] before anything
//! changes; the surrounding binary performs the planned syscall and maps a
//! failure back through [`crate::error::error_from_errno`].

use vstd::prelude::*;

use crate::affinity::{count_true, CpuAffinity};
use crate::error::SchedError;
use crate::ids::{Affinity, CpuPriority, Scheduling};
use crate::policy::{valid_niceness, valid_parameters, Parameters, SchedulingPolicy};
use crate::rules::Rule;

verus! {

/// A validated niceness change: `setpriority(which, who, niceness)`.
#[derive(Copy, Clone, Debug, PartialEq, Eq, Structural)]
pub struct PriorityAction {
    /// The target class: process, process group, or user.
    pub which: i32,
    /// The native id of the target.
    pub who: i32,
    /// The niceness to set, within the valid range.
    pub niceness: i32,
}

/// A validated policy change: `sched_setscheduler(who, policy, params)`.
#[derive(Copy, Clone, Debug, PartialEq, Eq, Structural)]
pub struct SchedulerAction {
    /// The native id of the target.
    pub who: i32,
    /// The scheduling class to set.
    pub policy: SchedulingPolicy,
    /// The parameters to set, fitting the class.
    pub params: Parameters,
}

/// A validated affinity change: `sched_setaffinity(who, mask)`, for the
/// mask the plan was made with.
#[derive(Copy, Clone, Debug, PartialEq, Eq, Structural)]
pub struct AffinityAction {
    /// The native id of the target.
    pub who: i32,
}

/// What planning a niceness change yields: the action when the niceness is
/// valid, `InvalidArgument` otherwise.
pub open spec fn priority_plan(which: i32, who: i32, niceness: i32) -> Result<
    PriorityAction,
    SchedError,
> {
    if valid_niceness(niceness as int) {
        Ok(PriorityAction { which, who, niceness })
    } else {
        Err(SchedError::InvalidArgument)
    }
}

/// What planning a policy change yields: the action when the parameters fit
/// the policy, `InvalidArgument` otherwise.
pub open spec fn scheduler_plan(who: i32, policy: SchedulingPolicy, params: Parameters) -> Result<
    SchedulerAction,
    SchedError,
> {
    if valid_parameters(policy, params) {
        Ok(SchedulerAction { who, policy, params })
    } else {
        Err(SchedError::InvalidArgument)
    }
}

/// Plans setting the niceness of any target that supports priority
/// operations. Succeeds exactly when `niceness` lies in the valid range;
/// an out-of-range value is rejected before any OS state could change.
pub fn plan_set_priority<T: CpuPriority>(target: &T, niceness: i32) -> (r: Result<
    PriorityAction,
    SchedError,
>)
    ensures
        r == priority_plan(target.prio_class(), target.prio_who(), niceness),
        r is Ok <==> valid_niceness(niceness as int),
{
    if crate::policy::NICENESS_MIN <= niceness && niceness <= crate::policy::NICENESS_MAX {
        let (which, who) = target.priority_target();
        Ok(PriorityAction { which, who, niceness })
    } else {
        Err(SchedError::InvalidArgument)
    }
}

/// Plans setting the scheduling policy of any target that supports
/// scheduler operations. Succeeds exactly when the parameters fit the
/// policy; a violation is rejected before any OS state could change.
pub fn plan_set_scheduler<T: Scheduling>(
    target: &T,
    policy: SchedulingPolicy,
    params: Parameters,
) -> (r: Result<SchedulerAction, SchedError>)
    ensures
        r == scheduler_plan(target.sched_who(), policy, params),
        r is Ok <==> valid_parameters(policy, params),
{
    let rt = match policy {
        SchedulingPolicy::Fifo => true,
        SchedulingPolicy::RoundRobin => true,
        _ => false,
    };
    let ok = if rt {
        crate::policy::RT_PRIORITY_MIN <= params.realtime_priority && params.realtime_priority
            <= crate::policy::RT_PRIORITY_MAX
    } else {
        params.realtime_priority == 0
    };
    if ok {
        let who = target.sched_target();
        Ok(SchedulerAction { who, policy, params })
    } else {
        Err(SchedError::InvalidArgument)
    }
}

/// Plans setting the CPU affinity of a target that supports affinity
/// operations. An empty mask is never valid input: it is rejected with
/// `InvalidArgument`; any mask with at least one bit set is accepted.
pub fn plan_set_affinity<T: Affinity>(target: &T, mask: &CpuAffinity) -> (r: Result<
    AffinityAction,
    SchedError,
>)
    ensures
        r is Ok <==> count_true(mask@) > 0,
        r matches Ok(a) ==> a.who == target.affinity_who(),
        r matches Err(e) ==> e == SchedError::InvalidArgument,
{
    if mask.count_ones() > 0 {
        Ok(AffinityAction { who: target.affinity_target() })
    } else {
        Err(SchedError::InvalidArgument)
    }
}

/// What applying one rule to one target plans: one entry per field the
/// rule sets, each independently validated. A failed field (here, an
/// invalid value) does not prevent the other field from being planned,
/// and a field the rule leaves unset is a no-op.
pub struct RulePlan {
    /// The niceness change, where the rule sets a niceness.
    pub priority: Option<Result<PriorityAction, SchedError>>,
    /// The policy change, where the rule sets a policy.
    pub policy: Option<Result<SchedulerAction, SchedError>>,
}

/// Plans every available parameter of a rule for a target that supports
/// priority and scheduler operations. The two fields are planned
/// independently: each is present in the plan exactly when the rule sets
/// it, and carries exactly what planning that field alone would yield.
pub fn plan_apply_rule<P: CpuPriority + Scheduling>(target: &P, rule: &Rule) -> (plan: RulePlan)
    ensures
        match rule.priority {
            Some(n) => plan.priority == Some(
                priority_plan(target.prio_class(), target.prio_who(), n),
            ),
            None => plan.priority is None,
        },
        match rule.policy {
            Some((policy, params)) => plan.policy == Some(
                scheduler_plan(target.sched_who(), policy, params),
            ),
            None => plan.policy is None,
        },
{
    let priority = match rule.priority {
        Some(n) => Some(plan_set_priority(target, n)),
        None => None,
    };
    let policy = match rule.policy {
        Some((policy, params)) => Some(plan_set_scheduler(target, policy, params)),
        None => None,
    };
    RulePlan { priority, policy }
}

} // verus!
