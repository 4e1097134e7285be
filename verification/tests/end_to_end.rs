use process_scheduler::{
    effective_settings, plan_apply_rule, Config, PidWatcher, Principal, Process, ProcessInfo,
    Rule, User,
};

#[test]
fn discovery_matching_and_application_compose() {
    // Configuration: one rule, name "stress", niceness 10.
    let config = Config {
        rules: vec![Rule {
            match_name: "stress".to_string(),
            owner: None,
            priority: Some(10),
            policy: None,
        }],
        mtime: None,
    };
    let snapshot = vec![Principal { uid: 1000, name: "alice".to_string() }];

    // Discovery reports the new pid 4242 exactly once.
    let mut watcher = PidWatcher::new();
    let fresh = watcher.scan(&vec![4242]);
    assert_eq!(fresh, vec![4242]);

    // The caller enriches it: executable name "stress", owner 1000.
    let info = ProcessInfo {
        pid: Process::new(fresh[0] as u64),
        owner: User::new(1000),
        name: Some("stress".to_string()),
    };

    // Matching yields the one rule.
    let matched = config.find_rules(info.name.as_ref().unwrap(), 1000, &snapshot);
    assert_eq!(matched.len(), 1);

    // Applying it sets the niceness to 10 and leaves the policy untouched.
    let settings = effective_settings(&matched);
    assert_eq!(settings.priority, Some(10));
    assert_eq!(settings.policy, None);

    let plan = plan_apply_rule(&info.pid, &matched[0]);
    let action = plan.priority.unwrap().unwrap();
    assert_eq!(action.which, 0);
    assert_eq!(action.who, 4242);
    assert_eq!(action.niceness, 10);
    assert!(plan.policy.is_none());

    // The same process is not reported again by the next scan.
    let fresh = watcher.scan(&vec![4242]);
    assert!(fresh.is_empty());
}
