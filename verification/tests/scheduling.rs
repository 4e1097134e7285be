use process_scheduler::error::{
    error_from_errno, ERRNO_ACCES, ERRNO_INVAL, ERRNO_PERM, ERRNO_SRCH,
};
use process_scheduler::{
    num_cpus, plan_apply_rule, plan_set_affinity, plan_set_priority, plan_set_scheduler,
    CpuAffinity, Id, Parameters, Process, ProcessGroup, Rule, SchedError, SchedulingPolicy, User,
};

#[test]
fn niceness_out_of_range_is_invalid_argument() {
    let process = Process::new(1234);
    // Out of range: rejected before any OS state could change, so the
    // process's niceness stays as it was.
    assert_eq!(plan_set_priority(&process, 25), Err(SchedError::InvalidArgument));
    assert_eq!(plan_set_priority(&process, 20), Err(SchedError::InvalidArgument));
    assert_eq!(plan_set_priority(&process, -21), Err(SchedError::InvalidArgument));
}

#[test]
fn niceness_boundaries_are_accepted() {
    let process = Process::new(1234);
    let action = plan_set_priority(&process, -20).unwrap();
    assert_eq!(action.which, 0);
    assert_eq!(action.who, 1234);
    assert_eq!(action.niceness, -20);
    assert!(plan_set_priority(&process, 19).is_ok());
    assert!(plan_set_priority(&process, 0).is_ok());
}

#[test]
fn priority_classes_per_target_kind() {
    assert_eq!(plan_set_priority(&Process::new(7), 0).unwrap().which, 0);
    assert_eq!(plan_set_priority(&ProcessGroup::new(7), 0).unwrap().which, 1);
    assert_eq!(plan_set_priority(&User::new(7), 0).unwrap().which, 2);
}

#[test]
fn realtime_policy_needs_realtime_priority() {
    let process = Process::new(42);
    // FIFO with priority 0 violates the [1, 99] range.
    assert_eq!(
        plan_set_scheduler(&process, SchedulingPolicy::Fifo, Parameters { realtime_priority: 0 }),
        Err(SchedError::InvalidArgument)
    );
    // FIFO with priority 50 is valid.
    let action = plan_set_scheduler(
        &process,
        SchedulingPolicy::Fifo,
        Parameters { realtime_priority: 50 },
    )
    .unwrap();
    assert_eq!(action.who, 42);
    assert_eq!(action.policy, SchedulingPolicy::Fifo);
    assert_eq!(action.params.realtime_priority, 50);

    assert!(plan_set_scheduler(
        &process,
        SchedulingPolicy::RoundRobin,
        Parameters { realtime_priority: 99 }
    )
    .is_ok());
    assert_eq!(
        plan_set_scheduler(
            &process,
            SchedulingPolicy::RoundRobin,
            Parameters { realtime_priority: 100 }
        ),
        Err(SchedError::InvalidArgument)
    );
}

#[test]
fn non_realtime_policy_needs_zero_priority() {
    let process = Process::new(42);
    assert!(plan_set_scheduler(&process, SchedulingPolicy::Normal, Parameters::default()).is_ok());
    assert!(plan_set_scheduler(&process, SchedulingPolicy::Batch, Parameters::default()).is_ok());
    assert!(plan_set_scheduler(&process, SchedulingPolicy::Idle, Parameters::default()).is_ok());
    assert_eq!(
        plan_set_scheduler(&process, SchedulingPolicy::Idle, Parameters { realtime_priority: 1 }),
        Err(SchedError::InvalidArgument)
    );
}

#[test]
fn policy_numbers_match_the_os_encoding() {
    assert_eq!(SchedulingPolicy::Normal.as_raw(), 0);
    assert_eq!(SchedulingPolicy::Fifo.as_raw(), 1);
    assert_eq!(SchedulingPolicy::RoundRobin.as_raw(), 2);
    assert_eq!(SchedulingPolicy::Batch.as_raw(), 3);
    assert_eq!(SchedulingPolicy::Idle.as_raw(), 5);
    for policy in [
        SchedulingPolicy::Normal,
        SchedulingPolicy::Fifo,
        SchedulingPolicy::RoundRobin,
        SchedulingPolicy::Batch,
        SchedulingPolicy::Idle,
    ] {
        assert_eq!(SchedulingPolicy::from_raw(policy.as_raw()), Some(policy));
    }
    assert_eq!(SchedulingPolicy::from_raw(4), None);
    assert_eq!(SchedulingPolicy::from_raw(-1), None);
}

#[test]
fn empty_affinity_mask_is_rejected() {
    let process = Process::new(9);
    let empty = CpuAffinity::from_bits(vec![false, false, false]);
    assert_eq!(plan_set_affinity(&process, &empty), Err(SchedError::InvalidArgument));

    let one = CpuAffinity::from_bits(vec![false, true]);
    assert_eq!(plan_set_affinity(&process, &one).unwrap().who, 9);
}

#[test]
fn num_cpus_counts_set_bits_and_defaults_to_zero() {
    let mask = CpuAffinity::from_bits(vec![true, false, true, true]);
    assert_eq!(mask.count_ones(), 3);
    assert!(mask.is_set(0));
    assert!(!mask.is_set(1));
    assert!(!mask.is_set(100));
    // num_cpus is the set-bit count of a successful affinity query...
    assert_eq!(num_cpus(Ok(CpuAffinity::from_bits(vec![true, false, true, true]))), 3);
    // ...and 0 on any failure, never an error.
    assert_eq!(num_cpus(Err(SchedError::PermissionDenied)), 0);
    assert_eq!(num_cpus(Err(SchedError::IoError)), 0);
}

#[test]
fn errno_mapping_covers_every_error_kind() {
    assert_eq!(error_from_errno(ERRNO_PERM), SchedError::PermissionDenied);
    assert_eq!(error_from_errno(ERRNO_ACCES), SchedError::PermissionDenied);
    assert_eq!(error_from_errno(ERRNO_SRCH), SchedError::NoSuchTarget);
    assert_eq!(error_from_errno(ERRNO_INVAL), SchedError::InvalidArgument);
    assert_eq!(error_from_errno(5), SchedError::IoError);
}

#[test]
fn identifiers_wrap_native_ids() {
    assert_eq!(Process::new(4242).as_raw(), 4242);
    assert_eq!(Process::current().as_raw(), 0);
    assert_eq!(ProcessGroup::current().as_raw(), 0);
    assert_eq!(User::new(1000).as_raw(), 1000);
    assert_eq!(Id::Process(Process::new(1)).as_raw(), 1);
    assert_eq!(Id::ProcessGroup(ProcessGroup::new(2)).as_raw(), 2);
    assert_eq!(Id::User(User::new(3)).as_raw(), 3);
    // Wrapping truncates to the native signed width.
    assert_eq!(Process::new(u64::MAX).as_raw(), -1);
}

#[test]
fn rule_plan_keeps_fields_independent() {
    let process = Process::new(8);
    let rule = Rule {
        match_name: "x".to_string(),
        owner: None,
        priority: Some(5),
        policy: None,
    };
    let plan = plan_apply_rule(&process, &rule);
    let action = plan.priority.unwrap().unwrap();
    assert_eq!(action.niceness, 5);
    assert!(plan.policy.is_none());

    // An invalid niceness fails its own field without touching the policy
    // field of the same rule.
    let rule = Rule {
        match_name: "x".to_string(),
        owner: None,
        priority: Some(99),
        policy: Some((SchedulingPolicy::Idle, Parameters::default())),
    };
    let plan = plan_apply_rule(&process, &rule);
    assert_eq!(plan.priority.unwrap(), Err(SchedError::InvalidArgument));
    let action = plan.policy.unwrap().unwrap();
    assert_eq!(action.policy, SchedulingPolicy::Idle);
}
