use tauri_plugin_libmpv::registry::{InsertOutcome, Registry};

fn outcome_name<E>(o: &InsertOutcome<E>) -> &'static str {
    match o {
        InsertOutcome::Inserted => "inserted",
        InsertOutcome::AlreadyPresent => "present",
        InsertOutcome::Failed(_) => "failed",
    }
}

#[test]
fn new_registry_is_empty() {
    let r: Registry<u32> = Registry::new();
    assert_eq!(r.len(), 0);
    assert!(!r.contains("main"));
    assert_eq!(r.get("main"), None);
}

#[test]
fn insert_then_get() {
    let mut r: Registry<u32> = Registry::new();
    assert_eq!(r.insert("main".to_string(), 1), None);
    assert_eq!(r.insert("other".to_string(), 2), None);
    assert_eq!(r.len(), 2);
    assert!(r.contains("main"));
    assert_eq!(r.get("main"), Some(&1));
    assert_eq!(r.get("other"), Some(&2));
    assert_eq!(r.get("Main"), None);
    assert_eq!(r.get(""), None);
}

#[test]
fn insert_under_a_taken_label_changes_nothing() {
    let mut r: Registry<u32> = Registry::new();
    assert_eq!(r.insert("w".to_string(), 1), None);
    assert_eq!(r.insert("w".to_string(), 2), Some(2));
    assert_eq!(r.len(), 1);
    assert_eq!(r.get("w"), Some(&1));
}

#[test]
fn registry_uniqueness_second_initialize_builds_nothing() {
    let mut r: Registry<u32> = Registry::new();
    let mut built = 0;
    let first = r.insert_if_absent("w".to_string(), || -> Result<u32, String> {
        built += 1;
        Ok(10)
    });
    assert_eq!(outcome_name(&first), "inserted");
    let second = r.insert_if_absent("w".to_string(), || -> Result<u32, String> {
        built += 1;
        Ok(20)
    });
    assert_eq!(outcome_name(&second), "present");
    assert_eq!(built, 1);
    assert_eq!(r.len(), 1);
    assert_eq!(r.get("w"), Some(&10));
}

#[test]
fn insert_if_absent_registers_nothing_when_building_fails() {
    let mut r: Registry<u32> = Registry::new();
    let outcome =
        r.insert_if_absent("w".to_string(), || -> Result<u32, String> { Err("no".to_string()) });
    match outcome {
        InsertOutcome::Failed(e) => assert_eq!(e, "no"),
        _ => panic!("building failed, so the outcome is the failure"),
    }
    assert!(!r.contains("w"));
    assert_eq!(r.len(), 0);
    let again = r.insert_if_absent("w".to_string(), || -> Result<u32, String> { Ok(3) });
    assert_eq!(outcome_name(&again), "inserted");
    assert_eq!(r.get("w"), Some(&3));
}

#[test]
fn remove_detaches_and_is_idempotent() {
    let mut r: Registry<u32> = Registry::new();
    r.insert("a".to_string(), 1);
    r.insert("b".to_string(), 2);
    r.insert("c".to_string(), 3);
    assert_eq!(r.remove("b"), Some(2));
    assert_eq!(r.remove("b"), None);
    assert_eq!(r.len(), 2);
    assert_eq!(r.get("a"), Some(&1));
    assert_eq!(r.get("c"), Some(&3));
    assert_eq!(r.remove("missing"), None);
    assert_eq!(r.remove("a"), Some(1));
    assert_eq!(r.remove("c"), Some(3));
    assert_eq!(r.len(), 0);
    assert_eq!(r.insert("b".to_string(), 9), None);
    assert_eq!(r.get("b"), Some(&9));
}
