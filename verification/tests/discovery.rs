use process_scheduler::PidWatcher;

#[test]
fn first_scan_reports_all_live_pids() {
    let mut watcher = PidWatcher::new();
    let fresh = watcher.scan(&vec![1, 2, 3]);
    assert_eq!(fresh, vec![1, 2, 3]);
}

#[test]
fn pid_reported_at_most_once_without_reset() {
    let mut watcher = PidWatcher::new();
    let fresh = watcher.scan(&vec![10, 20]);
    assert_eq!(fresh, vec![10, 20]);

    // Both pids stay live: neither is reported again.
    let fresh = watcher.scan(&vec![10, 20]);
    assert_eq!(fresh, Vec::<i32>::new());

    // A new pid appears: only it is reported, at its first scan.
    let fresh = watcher.scan(&vec![10, 20, 30]);
    assert_eq!(fresh, vec![30]);

    // Still nothing new on the next scan.
    let fresh = watcher.scan(&vec![10, 20, 30]);
    assert_eq!(fresh, Vec::<i32>::new());
}

#[test]
fn dead_pid_is_forgotten() {
    let mut watcher = PidWatcher::new();
    watcher.scan(&vec![10, 20]);

    // Pid 10 vanishes; nothing new.
    let fresh = watcher.scan(&vec![20]);
    assert_eq!(fresh, Vec::<i32>::new());

    // A pid with the same number appears again later: it was dropped from
    // the remembered set when it died, so it is reported anew.
    let fresh = watcher.scan(&vec![10, 20]);
    assert_eq!(fresh, vec![10]);
}

#[test]
fn reset_makes_next_scan_report_everything() {
    let mut watcher = PidWatcher::new();
    let fresh = watcher.scan(&vec![5, 6, 7]);
    assert_eq!(fresh, vec![5, 6, 7]);

    watcher.reset();

    // Every currently live pid is new again, despite prior observation.
    let fresh = watcher.scan(&vec![5, 6, 7]);
    assert_eq!(fresh, vec![5, 6, 7]);
}

#[test]
fn scan_of_empty_table_reports_nothing() {
    let mut watcher = PidWatcher::new();
    let fresh = watcher.scan(&Vec::new());
    assert_eq!(fresh, Vec::<i32>::new());
}
