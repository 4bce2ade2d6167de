use livedoc::protocol::{Command, Event};
use livedoc::registry::{Registry, RegistryError};

#[test]
fn new_registry_has_no_entries() {
    let registry = Registry::new();
    assert_eq!(registry.sessions("D1"), None);
    assert!(registry.is_unattached("D1"));
}

#[test]
fn increment_creates_the_entry_at_one() {
    let mut registry = Registry::new();
    assert_eq!(registry.increment("D1"), 1);
    assert_eq!(registry.sessions("D1"), Some(1));
    assert!(!registry.is_unattached("D1"));
}

#[test]
fn increment_adds_one_and_returns_the_new_count() {
    let mut registry = Registry::new();
    assert_eq!(registry.increment("D1"), 1);
    assert_eq!(registry.increment("D1"), 2);
    assert_eq!(registry.increment("D1"), 3);
    assert_eq!(registry.sessions("D1"), Some(3));
}

#[test]
fn documents_are_counted_apart() {
    let mut registry = Registry::new();
    registry.increment("D1");
    registry.increment("D1");
    assert_eq!(registry.increment("D2"), 1);
    assert_eq!(registry.sessions("D1"), Some(2));
    assert_eq!(registry.sessions("D2"), Some(1));
    assert_eq!(registry.decrement("D2"), Ok(0));
    assert_eq!(registry.sessions("D1"), Some(2));
}

#[test]
fn decrement_subtracts_one_and_returns_the_new_count() {
    let mut registry = Registry::new();
    registry.increment("D1");
    registry.increment("D1");
    assert_eq!(registry.decrement("D1"), Ok(1));
    assert_eq!(registry.sessions("D1"), Some(1));
    assert_eq!(registry.decrement("D1"), Ok(0));
    assert_eq!(registry.sessions("D1"), Some(0));
    assert!(registry.is_unattached("D1"));
}

#[test]
fn decrement_without_entry_is_reported() {
    let mut registry = Registry::new();
    assert_eq!(registry.decrement("D1"), Err(RegistryError::NotFound));
    assert_eq!(registry.sessions("D1"), None);
    registry.increment("D2");
    assert_eq!(registry.decrement("D1"), Err(RegistryError::NotFound));
    assert_eq!(registry.sessions("D2"), Some(1));
}

#[test]
fn decrement_at_zero_is_reported_and_leaves_the_count() {
    let mut registry = Registry::new();
    registry.increment("D1");
    assert_eq!(registry.decrement("D1"), Ok(0));
    assert_eq!(registry.decrement("D1"), Err(RegistryError::Underflow));
    assert_eq!(registry.sessions("D1"), Some(0));
}

#[test]
fn remove_drops_the_entry() {
    let mut registry = Registry::new();
    registry.increment("D1");
    registry.increment("D2");
    registry.remove("D1");
    assert_eq!(registry.sessions("D1"), None);
    assert_eq!(registry.sessions("D2"), Some(1));
    registry.remove("D1");
    assert_eq!(registry.sessions("D1"), None);
}

#[test]
fn entry_is_recreated_at_one_after_removal() {
    let mut registry = Registry::new();
    registry.increment("D1");
    registry.decrement("D1").unwrap();
    registry.remove("D1");
    assert_eq!(registry.increment("D1"), 1);
}

#[test]
fn n_joins_then_n_leaves_reach_zero_at_the_last_leave_only() {
    for n in 1..=20usize {
        let mut registry = Registry::new();
        for i in 1..=n {
            assert_eq!(registry.increment("D1"), i);
        }
        let mut zeros = 0;
        for i in 1..=n {
            let count = registry.decrement("D1").unwrap();
            assert_eq!(count, n - i);
            if count == 0 {
                zeros += 1;
                assert_eq!(i, n);
            }
        }
        assert_eq!(zeros, 1);
    }
}

#[test]
fn registry_answers_the_commands_that_act_on_it() {
    let mut registry = Registry::new();
    let attach = Command::Attach { document: "D1".to_string() };
    let detach = Command::Detach { document: "D1".to_string() };
    let count = Command::CountSessions { document: "D1".to_string() };
    let release = Command::Release { document: "D1".to_string() };
    assert_eq!(registry.answer(&count), Some(Event::SessionsCounted(None)));
    assert_eq!(registry.answer(&attach), Some(Event::Attached(1)));
    assert_eq!(registry.answer(&attach), Some(Event::Attached(2)));
    assert_eq!(registry.answer(&count), Some(Event::SessionsCounted(Some(2))));
    assert_eq!(registry.answer(&detach), Some(Event::Detached(1)));
    assert_eq!(registry.answer(&detach), Some(Event::Detached(0)));
    assert_eq!(registry.answer(&count), Some(Event::SessionsCounted(Some(0))));
    assert_eq!(registry.answer(&detach), Some(Event::DetachFailed(RegistryError::Underflow)));
    assert_eq!(registry.answer(&release), Some(Event::Released));
    assert_eq!(registry.sessions("D1"), None);
    assert_eq!(registry.answer(&detach), Some(Event::DetachFailed(RegistryError::NotFound)));
    assert_eq!(registry.answer(&release), Some(Event::Released));
}

#[test]
fn registry_does_not_answer_other_commands() {
    let mut registry = Registry::new();
    registry.increment("D1");
    for command in [
        Command::Done,
        Command::Idle,
        Command::Refuse,
        Command::ReadCache { key: "doc:D1".to_string() },
        Command::DeleteCache { key: "doc:D1".to_string() },
        Command::CancelIdleTimer { document: "D1".to_string() },
    ] {
        assert_eq!(registry.answer(&command), None);
        assert_eq!(registry.sessions("D1"), Some(1));
    }
}
