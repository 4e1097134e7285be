//! Typed identifiers for the three kinds of schedulable targets — a single
//! process, a process group, and a user — plus a tagged union over them.
//!
//! An identifier is a thin wrapper over the native signed id the OS uses
//! (`pid_t`, a 32-bit signed integer on this platform). The value `0` stands
//! for "the calling process/group/user". Identifiers are immutable value
//! types with structural equality; they own no OS resources.

use vstd::prelude::*;

verus! {

/// The `which` class a priority operation passes for a process target.
pub const PRIO_CLASS_PROCESS: i32 = 0;

/// The `which` class a priority operation passes for a process-group target.
pub const PRIO_CLASS_GROUP: i32 = 1;

/// The `which` class a priority operation passes for a user target.
pub const PRIO_CLASS_USER: i32 = 2;

/// A single process, identified by its pid.
#[derive(Copy, Clone, Debug, PartialEq, Eq, Hash, Structural)]
pub struct Process(i32);

/// A process group, identified by its pgid.
#[derive(Copy, Clone, Debug, PartialEq, Eq, Hash, Structural)]
pub struct ProcessGroup(i32);

/// A user, identified by its uid.
#[derive(Copy, Clone, Debug, PartialEq, Eq, Hash, Structural)]
pub struct User(i32);

impl Process {
    /// The native id this identifier wraps.
    pub closed spec fn raw(self) -> i32 {
        self.0
    }

    /// Wraps a native id, truncating to the native signed width.
    pub fn new(id: u64) -> (r: Self)
        ensures
            r.raw() == id as i32,
    {
        Process(#[verifier::truncate] (id as i32))
    }

    /// The identifier of the calling process.
    pub fn current() -> (r: Self)
        ensures
            r.raw() == 0,
    {
        Process(0)
    }

    /// The native id, for handing to the OS.
    pub fn as_raw(self) -> (r: i32)
        ensures
            r == self.raw(),
    {
        self.0
    }
}

impl ProcessGroup {
    /// The native id this identifier wraps.
    pub closed spec fn raw(self) -> i32 {
        self.0
    }

    /// Wraps a native id, truncating to the native signed width.
    pub fn new(id: u64) -> (r: Self)
        ensures
            r.raw() == id as i32,
    {
        ProcessGroup(#[verifier::truncate] (id as i32))
    }

    /// The identifier of the calling process's group.
    pub fn current() -> (r: Self)
        ensures
            r.raw() == 0,
    {
        ProcessGroup(0)
    }

    /// The native id, for handing to the OS.
    pub fn as_raw(self) -> (r: i32)
        ensures
            r == self.raw(),
    {
        self.0
    }
}

impl User {
    /// The native id this identifier wraps.
    pub closed spec fn raw(self) -> i32 {
        self.0
    }

    /// Wraps a native id, truncating to the native signed width.
    pub fn new(id: u64) -> (r: Self)
        ensures
            r.raw() == id as i32,
    {
        User(#[verifier::truncate] (id as i32))
    }

    /// The identifier of the calling user.
    pub fn current() -> (r: Self)
        ensures
            r.raw() == 0,
    {
        User(0)
    }

    /// The native id, for handing to the OS.
    pub fn as_raw(self) -> (r: i32)
        ensures
            r == self.raw(),
    {
        self.0
    }
}

/// Any of the three target kinds, as one tagged union.
#[derive(Copy, Clone, Debug, PartialEq, Eq, Hash, Structural)]
pub enum Id {
    Process(Process),
    ProcessGroup(ProcessGroup),
    User(User),
}

/// The native id an [`Id`] wraps, whichever kind it is.
pub open spec fn id_raw(id: Id) -> i32 {
    match id {
        Id::Process(p) => p.raw(),
        Id::ProcessGroup(g) => g.raw(),
        Id::User(u) => u.raw(),
    }
}

impl Id {
    /// The native id, for handing to the OS.
    pub fn as_raw(self) -> (r: i32)
        ensures
            r == id_raw(self),
    {
        match self {
            Id::Process(p) => p.as_raw(),
            Id::ProcessGroup(g) => g.as_raw(),
            Id::User(u) => u.as_raw(),
        }
    }
}

/// Capability of a target to have its niceness queried and set.
///
/// A conforming identifier names the `which` class and `who` id that a
/// priority operation on it passes to the OS.
pub trait CpuPriority {
    /// The `which` class of this target kind.
    spec fn prio_class(&self) -> i32;

    /// The native id the priority operation addresses.
    spec fn prio_who(&self) -> i32;

    /// The `(which, who)` pair a priority operation on this target uses.
    fn priority_target(&self) -> (r: (i32, i32))
        ensures
            r.0 == self.prio_class(),
            r.1 == self.prio_who(),
    ;
}

/// Capability of a target to have its scheduling policy queried and set.
pub trait Scheduling {
    /// The native id the scheduler operation addresses.
    spec fn sched_who(&self) -> i32;

    /// The native id a scheduler operation on this target uses.
    fn sched_target(&self) -> (r: i32)
        ensures
            r == self.sched_who(),
    ;
}

/// Capability of a target to have its CPU affinity queried and set.
///
/// Only a single process is meaningfully pinned to CPUs, so only
/// [`Process`] carries this capability.
pub trait Affinity {
    /// The native id the affinity operation addresses.
    spec fn affinity_who(&self) -> i32;

    /// The native id an affinity operation on this target uses.
    fn affinity_target(&self) -> (r: i32)
        ensures
            r == self.affinity_who(),
    ;
}

impl CpuPriority for Process {
    open spec fn prio_class(&self) -> i32 {
        PRIO_CLASS_PROCESS
    }

    open spec fn prio_who(&self) -> i32 {
        self.raw()
    }

    fn priority_target(&self) -> (r: (i32, i32)) {
        (PRIO_CLASS_PROCESS, self.as_raw())
    }
}

impl Scheduling for Process {
    open spec fn sched_who(&self) -> i32 {
        self.raw()
    }

    fn sched_target(&self) -> (r: i32) {
        self.as_raw()
    }
}

impl Affinity for Process {
    open spec fn affinity_who(&self) -> i32 {
        self.raw()
    }

    fn affinity_target(&self) -> (r: i32) {
        self.as_raw()
    }
}

impl CpuPriority for ProcessGroup {
    open spec fn prio_class(&self) -> i32 {
        PRIO_CLASS_GROUP
    }

    open spec fn prio_who(&self) -> i32 {
        self.raw()
    }

    fn priority_target(&self) -> (r: (i32, i32)) {
        (PRIO_CLASS_GROUP, self.as_raw())
    }
}

impl Scheduling for ProcessGroup {
    open spec fn sched_who(&self) -> i32 {
        self.raw()
    }

    fn sched_target(&self) -> (r: i32) {
        self.as_raw()
    }
}

impl CpuPriority for User {
    open spec fn prio_class(&self) -> i32 {
        PRIO_CLASS_USER
    }

    open spec fn prio_who(&self) -> i32 {
        self.raw()
    }

    fn priority_target(&self) -> (r: (i32, i32)) {
        (PRIO_CLASS_USER, self.as_raw())
    }
}

impl Scheduling for User {
    open spec fn sched_who(&self) -> i32 {
        self.raw()
    }

    fn sched_target(&self) -> (r: i32) {
        self.as_raw()
    }
}

} // verus!
