use launcher_core::registry::ProcessRegistry;
use launcher_core::terminate::{begin_termination, finish_termination, push_decimal, KillOutcome};

fn outcome(pid: u32, succeeded: bool, detail: &str) -> KillOutcome {
    KillOutcome { pid, succeeded, detail: detail.to_string() }
}

#[test]
fn sweep_with_one_failure_reports_it_and_empties_registry() {
    let mut r = ProcessRegistry::new();
    r.insert(5);
    r.insert(9);
    let mut targets = begin_termination(&mut r, 9);
    targets.sort();
    assert_eq!(targets, vec![5, 9]);
    let outcomes = vec![outcome(9, true, "exit code: 0"), outcome(5, false, "exit code: 128")];
    let res = finish_termination(&mut r, &outcomes);
    assert_eq!(res, Err("Failed to terminate process with PID 5: exit code: 128\n".to_string()));
    assert!(r.snapshot().is_empty());
}

#[test]
fn sweep_includes_untracked_requested_identifier() {
    let mut r = ProcessRegistry::new();
    r.insert(3);
    let mut targets = begin_termination(&mut r, 400);
    targets.sort();
    assert_eq!(targets, vec![3, 400]);
}

#[test]
fn sweep_on_empty_registry_targets_requested_only() {
    let mut r = ProcessRegistry::new();
    assert_eq!(begin_termination(&mut r, 12), vec![12]);
}

#[test]
fn all_kills_succeeding_gives_ok() {
    let mut r = ProcessRegistry::new();
    r.insert(1);
    r.insert(2);
    let outcomes = vec![outcome(1, true, ""), outcome(2, true, "")];
    assert_eq!(finish_termination(&mut r, &outcomes), Ok(()));
    assert!(r.snapshot().is_empty());
}

#[test]
fn every_failure_gets_its_own_line_in_order() {
    let mut r = ProcessRegistry::new();
    r.insert(4294967295);
    let outcomes = vec![
        outcome(4294967295, false, "a"),
        outcome(0, true, "b"),
        outcome(10, false, "c"),
    ];
    assert_eq!(
        finish_termination(&mut r, &outcomes),
        Err("Failed to terminate process with PID 4294967295: a\nFailed to terminate process with PID 10: c\n"
            .to_string())
    );
    assert!(r.snapshot().is_empty());
}

#[test]
fn decimal_forms() {
    let mut s = String::from("pid=");
    push_decimal(&mut s, 0);
    push_decimal(&mut s, 907);
    assert_eq!(s, "pid=0907");
}
