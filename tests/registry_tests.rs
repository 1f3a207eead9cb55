use launcher_core::registry::{track_process, ProcessRegistry, RegistryOp};
use launcher_core::runner::{finish_dependency_install, record_spawn, DependencyError};

fn sorted(mut v: Vec<u32>) -> Vec<u32> {
    v.sort();
    v
}

#[test]
fn new_registry_is_empty() {
    let r = ProcessRegistry::new();
    assert!(r.snapshot().is_empty());
    assert!(!r.contains(1));
}

#[test]
fn insert_remove_clear() {
    let mut r = ProcessRegistry::new();
    assert!(r.insert(7));
    assert!(!r.insert(7));
    assert!(r.insert(3));
    assert_eq!(sorted(r.snapshot()), vec![3, 7]);
    assert!(r.remove(7));
    assert!(!r.remove(7));
    assert_eq!(r.snapshot(), vec![3]);
    r.clear();
    assert!(r.snapshot().is_empty());
}

#[test]
fn track_process_adds_identifier() {
    let mut r = ProcessRegistry::new();
    track_process(&mut r, 42);
    track_process(&mut r, 42);
    assert_eq!(r.snapshot(), vec![42]);
}

#[test]
fn serial_ops_keep_every_update() {
    let mut r = ProcessRegistry::new();
    let ops = vec![
        RegistryOp::Insert(1),
        RegistryOp::Insert(2),
        RegistryOp::Remove(1),
        RegistryOp::Clear,
        RegistryOp::Insert(4),
        RegistryOp::Insert(5),
        RegistryOp::Remove(9),
    ];
    for op in ops {
        r.apply(op);
    }
    assert_eq!(sorted(r.snapshot()), vec![4, 5]);
}

#[test]
fn snapshot_is_a_copy() {
    let mut r = ProcessRegistry::new();
    r.insert(10);
    let snap = r.snapshot();
    r.insert(11);
    assert_eq!(snap, vec![10]);
}

#[test]
fn spawned_identifier_is_in_next_snapshot() {
    let mut r = ProcessRegistry::new();
    assert_eq!(record_spawn(&mut r, Ok(1234)), Ok(1234));
    assert!(r.snapshot().contains(&1234));
}

#[test]
fn failed_spawn_registers_nothing() {
    let mut r = ProcessRegistry::new();
    r.insert(8);
    let e = record_spawn(&mut r, Err("program not found".to_string()));
    assert_eq!(e, Err("program not found".to_string()));
    assert_eq!(r.snapshot(), vec![8]);
}

#[test]
fn successful_dependency_install_untracks_child() {
    let mut r = ProcessRegistry::new();
    r.insert(8);
    r.insert(77);
    assert!(finish_dependency_install(&mut r, 77, Ok(true)).is_ok());
    assert_eq!(r.snapshot(), vec![8]);
}

#[test]
fn failed_dependency_install_untracks_child() {
    let mut r = ProcessRegistry::new();
    r.insert(77);
    r.insert(8);
    let e = finish_dependency_install(&mut r, 77, Ok(false)).unwrap_err();
    assert!(matches!(e, DependencyError::Failed));
    assert_eq!(e.message(), "Failed to install dependencies");
    assert_eq!(r.snapshot(), vec![8]);
}

#[test]
fn failed_wait_keeps_child_tracked() {
    let mut r = ProcessRegistry::new();
    r.insert(77);
    let e = finish_dependency_install(&mut r, 77, Err("wait failed".to_string())).unwrap_err();
    assert!(matches!(e, DependencyError::WaitFailed(ref m) if m == "wait failed"));
    assert_eq!(e.message(), "wait failed");
    assert_eq!(r.snapshot(), vec![77]);
}

#[test]
fn insert_after_sweep_clear_survives() {
    let mut r = ProcessRegistry::new();
    for op in vec![
        RegistryOp::Insert(3),
        RegistryOp::Insert(9),
        RegistryOp::Clear,
        RegistryOp::Insert(6),
    ] {
        r.apply(op);
    }
    assert_eq!(r.snapshot(), vec![6]);
}
