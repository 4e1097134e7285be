//! Process-scheduling policy daemon core.
//!
//! The library discovers newly spawned processes by diffing the live pid
//! table against a remembered set, matches them against configured rules
//! keyed by executable name and owning principal, and plans the scheduling
//! operations (niceness, policy, CPU affinity) to apply. The OS syscalls
//! themselves are performed by the surrounding binary; everything that
//! decides or computes is here, with its contract.

pub mod affinity;
pub mod capability;
pub mod error;
pub mod ids;
pub mod policy;
pub mod rules;
pub mod watcher;

pub use affinity::{num_cpus, CpuAffinity};
pub use capability::{
    plan_apply_rule, plan_set_affinity, plan_set_priority, plan_set_scheduler, AffinityAction,
    PriorityAction, RulePlan, SchedulerAction,
};
pub use error::SchedError;
pub use ids::{Affinity, CpuPriority, Id, Process, ProcessGroup, Scheduling, User};
pub use policy::{Parameters, SchedulingPolicy};
pub use rules::{effective_settings, should_reload, Config, Principal, Rule, Settings};
pub use watcher::{PidWatcher, ProcessInfo};
