use chat_relay::registry::{AdmitError, Registry};

fn with(names: &[&str]) -> Registry<u32> {
    let mut registry = Registry::new();
    for (sink, name) in names.iter().enumerate() {
        assert_eq!(registry.try_admit(name.to_string(), sink as u32), Ok(()));
    }
    registry
}

#[test]
fn a_new_registry_is_empty() {
    let registry: Registry<u32> = Registry::new();
    assert_eq!(registry.len(), 0);
    assert_eq!(registry.snapshot(), Vec::<String>::new());
    assert_eq!(registry.lookup("alice"), None);
    assert!(!registry.contains("alice"));
}

#[test]
fn of_two_attempts_under_one_identity_one_is_accepted() {
    let mut registry: Registry<u32> = Registry::new();
    assert_eq!(registry.try_admit("alice".to_string(), 1), Ok(()));
    assert_eq!(registry.try_admit("alice".to_string(), 2), Err(AdmitError::IdentityTaken));
    assert_eq!(registry.len(), 1);
    assert_eq!(registry.lookup("alice"), Some(&1));
}

#[test]
fn an_empty_identity_is_refused() {
    let mut registry: Registry<u32> = Registry::new();
    assert_eq!(registry.try_admit(String::new(), 1), Err(AdmitError::EmptyIdentity));
    assert_eq!(registry.len(), 0);
}

#[test]
fn lookup_finds_the_sink_of_each_identity() {
    let registry = with(&["alice", "bob", "carol"]);
    assert_eq!(registry.lookup("alice"), Some(&0));
    assert_eq!(registry.lookup("bob"), Some(&1));
    assert_eq!(registry.lookup("carol"), Some(&2));
    assert_eq!(registry.lookup("dave"), None);
    assert_eq!(registry.lookup("Alice"), None);
    assert_eq!(registry.lookup(""), None);
}

#[test]
fn snapshot_lists_the_identities_in_the_order_of_admission() {
    let registry = with(&["carol", "alice", "bob"]);
    assert_eq!(registry.snapshot(), vec!["carol".to_string(), "alice".to_string(), "bob".to_string()]);
}

#[test]
fn remove_takes_one_identity_out_and_keeps_the_others() {
    let mut registry = with(&["alice", "bob", "carol"]);
    assert!(registry.remove("bob"));
    assert_eq!(registry.snapshot(), vec!["alice".to_string(), "carol".to_string()]);
    assert_eq!(registry.lookup("bob"), None);
    assert_eq!(registry.lookup("alice"), Some(&0));
    assert_eq!(registry.lookup("carol"), Some(&2));
}

#[test]
fn removing_twice_is_removing_once() {
    let mut registry = with(&["alice", "bob"]);
    assert!(registry.remove("alice"));
    assert!(!registry.remove("alice"));
    assert!(!registry.remove("nobody"));
    assert_eq!(registry.snapshot(), vec!["bob".to_string()]);
}

#[test]
fn an_identity_that_left_can_be_admitted_again() {
    let mut registry = with(&["alice", "bob"]);
    assert!(registry.remove("alice"));
    assert_eq!(registry.try_admit("alice".to_string(), 7), Ok(()));
    assert_eq!(registry.lookup("alice"), Some(&7));
    assert_eq!(registry.snapshot(), vec!["bob".to_string(), "alice".to_string()]);
}
