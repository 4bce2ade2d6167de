use livedoc::document_id::DocumentId;
use livedoc::flush::{
    flush_advance, flush_target, Eviction, Flush, FlushError, FlushOutcome, FlushStage,
};
use livedoc::protocol::{Command, Event};
use livedoc::sweep::{Sweep, SWEEP_INTERVAL_SECS};

const D1: &str = "507f1f77bcf86cd799439011";
const D2: &str = "0123456789abcdef01234567";

fn id(text: &str) -> DocumentId {
    DocumentId::parse(text).unwrap()
}

fn key(document: &str) -> String {
    format!("doc:{}", document)
}

#[test]
fn flush_target_is_the_document_of_the_key() {
    assert_eq!(flush_target(&key(D1)), Some(id(D1)));
    assert_eq!(
        flush_target("doc:507f1f77bcf86cd799439011"),
        Some(DocumentId {
            bytes: [0x50, 0x7f, 0x1f, 0x77, 0xbc, 0xf8, 0x6c, 0xd7, 0x99, 0x43, 0x90, 0x11]
        })
    );
    assert_eq!(flush_target(D1), None);
    assert_eq!(flush_target("doc:D1"), None);
    assert_eq!(flush_target("channel:507f1f77bcf86cd799439011"), None);
    assert_eq!(flush_target(""), None);
}

#[test]
fn flush_starts_by_reading_the_cache_entry() {
    let (flush, command) = Flush::start(D1, Eviction::Always);
    assert_eq!(command, Command::ReadCache { key: key(D1) });
    assert_eq!(flush.key, key(D1));
    assert_eq!(flush.policy, Eviction::Always);
    assert_eq!(flush.stage, FlushStage::Reading);
    assert_eq!(flush.outcome(), None);
}

#[test]
fn flush_writes_then_evicts() {
    let (mut flush, _) = Flush::start(D1, Eviction::Always);
    assert_eq!(
        flush.step(Event::CacheHit("hello world".to_string())),
        Command::WriteStore { id: id(D1), content: "hello world".to_string() }
    );
    assert_eq!(flush.stage, FlushStage::Writing);
    assert_eq!(flush.step(Event::StoreWritten), Command::DeleteCache { key: key(D1) });
    assert_eq!(flush.stage, FlushStage::Evicting);
    assert_eq!(flush.step(Event::CacheDeleted), Command::Done);
    assert_eq!(flush.outcome(), Some(FlushOutcome::Evicted));
}

#[test]
fn flush_of_a_missing_entry_fails_without_a_write() {
    let (mut flush, _) = Flush::start(D1, Eviction::Always);
    assert_eq!(flush.step(Event::CacheMiss), Command::Done);
    assert_eq!(flush.outcome(), Some(FlushOutcome::Failed(FlushError::CacheMiss)));
}

#[test]
fn flush_with_unreadable_cache_fails() {
    let (mut flush, _) = Flush::start(D1, Eviction::Always);
    assert_eq!(flush.step(Event::BackendFailed), Command::Done);
    assert_eq!(flush.outcome(), Some(FlushOutcome::Failed(FlushError::CacheUnavailable)));
}

#[test]
fn flush_of_a_malformed_identifier_fails_and_deletes_nothing() {
    let (mut flush, command) = Flush::start("D1", Eviction::Always);
    assert_eq!(command, Command::ReadCache { key: "doc:D1".to_string() });
    assert_eq!(flush.step(Event::CacheHit("text".to_string())), Command::Done);
    assert_eq!(flush.outcome(), Some(FlushOutcome::Failed(FlushError::MalformedId)));
}

#[test]
fn failed_store_write_leaves_the_cache_entry() {
    let (mut flush, _) = Flush::start(D1, Eviction::Always);
    flush.step(Event::CacheHit("text".to_string()));
    assert_eq!(flush.step(Event::BackendFailed), Command::Done);
    assert_eq!(flush.outcome(), Some(FlushOutcome::Failed(FlushError::StoreWrite)));
    assert_eq!(flush.step(Event::StoreWritten), Command::Idle);
    assert_eq!(flush.step(Event::CacheDeleted), Command::Idle);
    assert_eq!(flush.outcome(), Some(FlushOutcome::Failed(FlushError::StoreWrite)));
}

#[test]
fn failed_eviction_is_reported() {
    let (mut flush, _) = Flush::start(D1, Eviction::Always);
    flush.step(Event::CacheHit("text".to_string()));
    flush.step(Event::StoreWritten);
    assert_eq!(flush.step(Event::BackendFailed), Command::Done);
    assert_eq!(flush.outcome(), Some(FlushOutcome::Failed(FlushError::EvictFailed)));
}

#[test]
fn flush_passes_over_events_it_does_not_wait_for() {
    let (mut flush, _) = Flush::start(D1, Eviction::Always);
    assert_eq!(flush.step(Event::StoreWritten), Command::Idle);
    assert_eq!(flush.step(Event::CacheDeleted), Command::Idle);
    assert_eq!(flush.step(Event::ClientClosed), Command::Idle);
    assert_eq!(flush.stage, FlushStage::Reading);
    flush.step(Event::CacheHit("x".to_string()));
    assert_eq!(flush.step(Event::CacheHit("y".to_string())), Command::Idle);
    assert_eq!(flush.step(Event::CacheMiss), Command::Idle);
    assert_eq!(flush.stage, FlushStage::Writing);
}

#[test]
fn sweeping_flush_consults_the_registry_after_the_write() {
    let (mut flush, _) = Flush::start(D1, Eviction::IfUnattached);
    flush.step(Event::CacheHit("text".to_string()));
    assert_eq!(
        flush.step(Event::StoreWritten),
        Command::CountSessions { document: D1.to_string() }
    );
    assert_eq!(flush.stage, FlushStage::Counting);
}

#[test]
fn sweeping_flush_reclaims_a_missing_or_zero_entry() {
    for count in [None, Some(0)] {
        let (mut flush, _) = Flush::start(D1, Eviction::IfUnattached);
        flush.step(Event::CacheHit("text".to_string()));
        flush.step(Event::StoreWritten);
        assert_eq!(
            flush.step(Event::SessionsCounted(count)),
            Command::DeleteCache { key: key(D1) }
        );
        assert_eq!(flush.step(Event::CacheDeleted), Command::Done);
        assert_eq!(flush.outcome(), Some(FlushOutcome::Evicted));
    }
}

#[test]
fn sweeping_flush_retains_an_attached_entry() {
    for count in [1usize, 2, 17] {
        let (mut flush, _) = Flush::start(D1, Eviction::IfUnattached);
        flush.step(Event::CacheHit("text".to_string()));
        flush.step(Event::StoreWritten);
        assert_eq!(flush.step(Event::SessionsCounted(Some(count))), Command::Done);
        assert_eq!(flush.outcome(), Some(FlushOutcome::Retained));
    }
}

#[test]
fn flush_advance_handles_a_key_that_is_no_cache_key() {
    let (stage, command) = flush_advance(
        "stray",
        Eviction::IfUnattached,
        FlushStage::Reading,
        Event::CacheHit("x".to_string()),
    );
    assert_eq!(stage, FlushStage::Finished(FlushOutcome::Failed(FlushError::MalformedId)));
    assert_eq!(command, Command::Done);
    let (stage, command) =
        flush_advance("stray", Eviction::IfUnattached, FlushStage::Writing, Event::StoreWritten);
    assert_eq!(stage, FlushStage::Counting);
    assert_eq!(command, Command::CountSessions { document: "stray".to_string() });
}

#[test]
fn sweep_interval_is_ten_seconds() {
    assert_eq!(SWEEP_INTERVAL_SECS, 10);
}

#[test]
fn sweep_over_no_keys_is_done_at_once() {
    let (mut sweep, command) = Sweep::start(vec![]);
    assert_eq!(command, Command::Done);
    assert!(sweep.is_finished());
    assert_eq!(sweep.step(Event::CacheMiss), Command::Idle);
    assert!(sweep.outcomes.is_empty());
}

#[test]
fn sweep_reclaims_unattached_and_retains_attached() {
    let (mut sweep, command) = Sweep::start(vec![key(D1), key(D2)]);
    assert_eq!(command, Command::ReadCache { key: key(D1) });
    assert!(!sweep.is_finished());
    assert_eq!(
        sweep.step(Event::CacheHit("one".to_string())),
        Command::WriteStore { id: id(D1), content: "one".to_string() }
    );
    assert_eq!(
        sweep.step(Event::StoreWritten),
        Command::CountSessions { document: D1.to_string() }
    );
    assert_eq!(
        sweep.step(Event::SessionsCounted(None)),
        Command::DeleteCache { key: key(D1) }
    );
    assert_eq!(sweep.step(Event::CacheDeleted), Command::ReadCache { key: key(D2) });
    assert_eq!(sweep.outcomes, vec![FlushOutcome::Evicted]);
    assert_eq!(
        sweep.step(Event::CacheHit("two".to_string())),
        Command::WriteStore { id: id(D2), content: "two".to_string() }
    );
    assert_eq!(
        sweep.step(Event::StoreWritten),
        Command::CountSessions { document: D2.to_string() }
    );
    assert_eq!(sweep.step(Event::SessionsCounted(Some(1))), Command::Done);
    assert_eq!(sweep.outcomes, vec![FlushOutcome::Evicted, FlushOutcome::Retained]);
    assert!(sweep.is_finished());
    assert_eq!(sweep.step(Event::CacheDeleted), Command::Idle);
}

#[test]
fn sweep_goes_on_after_a_failed_store_write() {
    let (mut sweep, _) = Sweep::start(vec![key(D1), key(D2)]);
    sweep.step(Event::CacheHit("one".to_string()));
    assert_eq!(sweep.step(Event::BackendFailed), Command::ReadCache { key: key(D2) });
    assert_eq!(sweep.outcomes, vec![FlushOutcome::Failed(FlushError::StoreWrite)]);
    assert_eq!(
        sweep.step(Event::CacheHit("two".to_string())),
        Command::WriteStore { id: id(D2), content: "two".to_string() }
    );
    sweep.step(Event::StoreWritten);
    sweep.step(Event::SessionsCounted(Some(0)));
    assert_eq!(sweep.step(Event::CacheDeleted), Command::Done);
    assert_eq!(
        sweep.outcomes,
        vec![FlushOutcome::Failed(FlushError::StoreWrite), FlushOutcome::Evicted]
    );
}

#[test]
fn sweep_records_each_kind_of_failure_and_goes_on() {
    let keys = vec!["stray".to_string(), "doc:D1".to_string(), key(D1), key(D2), key(D1)];
    let (mut sweep, command) = Sweep::start(keys);
    assert_eq!(command, Command::ReadCache { key: "stray".to_string() });
    assert_eq!(
        sweep.step(Event::CacheHit("a".to_string())),
        Command::ReadCache { key: "doc:D1".to_string() }
    );
    assert_eq!(sweep.step(Event::CacheHit("b".to_string())), Command::ReadCache { key: key(D1) });
    assert_eq!(sweep.step(Event::CacheMiss), Command::ReadCache { key: key(D2) });
    assert_eq!(sweep.step(Event::BackendFailed), Command::ReadCache { key: key(D1) });
    sweep.step(Event::CacheHit("c".to_string()));
    sweep.step(Event::StoreWritten);
    sweep.step(Event::SessionsCounted(None));
    assert_eq!(sweep.step(Event::BackendFailed), Command::Done);
    assert_eq!(
        sweep.outcomes,
        vec![
            FlushOutcome::Failed(FlushError::MalformedId),
            FlushOutcome::Failed(FlushError::MalformedId),
            FlushOutcome::Failed(FlushError::CacheMiss),
            FlushOutcome::Failed(FlushError::CacheUnavailable),
            FlushOutcome::Failed(FlushError::EvictFailed),
        ]
    );
    assert!(sweep.is_finished());
}
