//! Reconciliation of one live cache entry into the durable store.
//!
//! A flush reads the cache entry, writes its content into the document's
//! record and then removes the entry, where that is safe. A failure at any
//! point ends the flush and leaves the cache entry in place, so that a later
//! pass can try again.

use crate::document_id::{document_id_of, id_view, DocumentId};
use crate::keys::{cache_key, cache_key_of, document_of_key, key_document};
use crate::protocol::{Command, CommandView, Event, EventView};
use vstd::prelude::*;

verus! {

/// Why a flush ended without having stored the content, or without having
/// removed the entry.
#[derive(Clone, Copy, Debug, PartialEq, Eq, Structural)]
pub enum FlushError {
    /// The live cache has no entry under the key.
    CacheMiss,
    /// The live cache could not be read.
    CacheUnavailable,
    /// The key names no document of the durable store.
    MalformedId,
    /// The durable store did not take the write.
    StoreWrite,
    /// The content is stored, but the cache entry could not be deleted.
    EvictFailed,
}

/// How a flush ended.
#[derive(Clone, Copy, Debug, PartialEq, Eq, Structural)]
pub enum FlushOutcome {
    /// The content is stored and the cache entry is gone.
    Evicted,
    /// The content is stored and the cache entry stays: sessions are
    /// attached to the document.
    Retained,
    /// The flush failed; the cache entry was not deleted.
    Failed(FlushError),
}

/// When a flush removes the cache entry after a successful write.
#[derive(Clone, Copy, Debug, PartialEq, Eq, Structural)]
pub enum Eviction {
    /// Always: the flush of a single document, on last disconnect or on idle
    /// timeout.
    Always,
    /// Only if the registry shows no attached session: the periodic sweep.
    IfUnattached,
}

/// How far a flush has come: the reply it waits for, or how it ended.
#[derive(Clone, Copy, Debug, PartialEq, Eq, Structural)]
pub enum FlushStage {
    /// Waiting for the content of the cache entry.
    Reading,
    /// Waiting for the durable store to take the content.
    Writing,
    /// Waiting for the registry entry of the document.
    Counting,
    /// Waiting for the cache entry to be deleted.
    Evicting,
    /// Ended.
    Finished(FlushOutcome),
}

/// The record of the durable store that a cache key is flushed to; `None`
/// where the key is no cache key or its document identifier is malformed.
pub open spec fn store_target(key: Seq<char>) -> Option<Seq<u8>> {
    match document_of_key(key) {
        Some(document) => document_id_of(document),
        None => None,
    }
}

/// The document whose registry entry decides over a cache key: the one the
/// key names, or the key itself where it has not the form of a cache key.
pub open spec fn counted_document(key: Seq<char>) -> Seq<char> {
    match document_of_key(key) {
        Some(document) => document,
        None => key,
    }
}

/// Whether a registry entry shows that no session is attached: it is missing
/// or stands at zero.
pub open spec fn shows_unattached(count: Option<nat>) -> bool {
    match count {
        Some(n) => n == 0,
        None => true,
    }
}

/// One step of a flush: the stage it moves to and what it asks for, given
/// the stage it is in and what is reported.
pub open spec fn flush_step(
    key: Seq<char>,
    policy: Eviction,
    stage: FlushStage,
    event: EventView,
) -> (FlushStage, CommandView) {
    match (stage, event) {
        (FlushStage::Reading, EventView::CacheHit(content)) => match store_target(key) {
            Some(id) => (FlushStage::Writing, CommandView::WriteStore { id, content }),
            None => (
                FlushStage::Finished(FlushOutcome::Failed(FlushError::MalformedId)),
                CommandView::Done,
            ),
        },
        (FlushStage::Reading, EventView::CacheMiss) => (
            FlushStage::Finished(FlushOutcome::Failed(FlushError::CacheMiss)),
            CommandView::Done,
        ),
        (FlushStage::Reading, EventView::BackendFailed) => (
            FlushStage::Finished(FlushOutcome::Failed(FlushError::CacheUnavailable)),
            CommandView::Done,
        ),
        (FlushStage::Writing, EventView::StoreWritten) => match policy {
            Eviction::Always => (FlushStage::Evicting, CommandView::DeleteCache { key }),
            Eviction::IfUnattached => (
                FlushStage::Counting,
                CommandView::CountSessions { document: counted_document(key) },
            ),
        },
        (FlushStage::Writing, EventView::BackendFailed) => (
            FlushStage::Finished(FlushOutcome::Failed(FlushError::StoreWrite)),
            CommandView::Done,
        ),
        (FlushStage::Counting, EventView::SessionsCounted(count)) => if shows_unattached(count) {
            (FlushStage::Evicting, CommandView::DeleteCache { key })
        } else {
            (FlushStage::Finished(FlushOutcome::Retained), CommandView::Done)
        },
        (FlushStage::Evicting, EventView::CacheDeleted) => (
            FlushStage::Finished(FlushOutcome::Evicted),
            CommandView::Done,
        ),
        (FlushStage::Evicting, EventView::BackendFailed) => (
            FlushStage::Finished(FlushOutcome::Failed(FlushError::EvictFailed)),
            CommandView::Done,
        ),
        _ => (stage, CommandView::Idle),
    }
}

/// The durable-store record that a cache key is flushed to.
pub fn flush_target(key: &str) -> (id: Option<DocumentId>)
    ensures
        id_view(id) == store_target(key@),
{
    match key_document(key) {
        Some(document) => DocumentId::parse(document.as_str()),
        None => None,
    }
}

/// Carries a flush one step further: takes what the caller reports and
/// returns the stage reached and the next command. An event that the stage
/// does not wait for changes nothing and is answered with `Idle`.
pub fn flush_advance(key: &str, policy: Eviction, stage: FlushStage, event: Event) -> (next: (
    FlushStage,
    Command,
))
    ensures
        (next.0, next.1@) == flush_step(key@, policy, stage, event@),
{
    match stage {
        FlushStage::Reading => match event {
            Event::CacheHit(content) => match flush_target(key) {
                Some(id) => (FlushStage::Writing, Command::WriteStore { id, content }),
                None => (
                    FlushStage::Finished(FlushOutcome::Failed(FlushError::MalformedId)),
                    Command::Done,
                ),
            },
            Event::CacheMiss => (
                FlushStage::Finished(FlushOutcome::Failed(FlushError::CacheMiss)),
                Command::Done,
            ),
            Event::BackendFailed => (
                FlushStage::Finished(FlushOutcome::Failed(FlushError::CacheUnavailable)),
                Command::Done,
            ),
            _ => (stage, Command::Idle),
        },
        FlushStage::Writing => match event {
            Event::StoreWritten => match policy {
                Eviction::Always => (
                    FlushStage::Evicting,
                    Command::DeleteCache { key: key.to_owned() },
                ),
                Eviction::IfUnattached => {
                    let document = match key_document(key) {
                        Some(document) => document,
                        None => key.to_owned(),
                    };
                    (FlushStage::Counting, Command::CountSessions { document })
                },
            },
            Event::BackendFailed => (
                FlushStage::Finished(FlushOutcome::Failed(FlushError::StoreWrite)),
                Command::Done,
            ),
            _ => (stage, Command::Idle),
        },
        FlushStage::Counting => match event {
            Event::SessionsCounted(count) => {
                let unattached = match count {
                    Some(n) => n == 0,
                    None => true,
                };
                if unattached {
                    (FlushStage::Evicting, Command::DeleteCache { key: key.to_owned() })
                } else {
                    (FlushStage::Finished(FlushOutcome::Retained), Command::Done)
                }
            },
            _ => (stage, Command::Idle),
        },
        FlushStage::Evicting => match event {
            Event::CacheDeleted => (FlushStage::Finished(FlushOutcome::Evicted), Command::Done),
            Event::BackendFailed => (
                FlushStage::Finished(FlushOutcome::Failed(FlushError::EvictFailed)),
                Command::Done,
            ),
            _ => (stage, Command::Idle),
        },
        FlushStage::Finished(_) => (stage, Command::Idle),
    }
}

/// The flush of one document, run on its own: by the idle timer of a
/// document, or by whoever wants one cache entry reconciled.
#[derive(Debug)]
pub struct Flush {
    /// The cache key being flushed.
    pub key: String,
    /// When the entry is removed.
    pub policy: Eviction,
    /// How far the flush has come.
    pub stage: FlushStage,
}

/// The mathematical content of a [`Flush`].
pub struct FlushView {
    pub key: Seq<char>,
    pub policy: Eviction,
    pub stage: FlushStage,
}

impl View for Flush {
    type V = FlushView;

    open spec fn view(&self) -> FlushView {
        FlushView { key: self.key@, policy: self.policy, stage: self.stage }
    }
}

impl Flush {
    /// Begins the flush of a document's cache entry. The first command reads
    /// the entry.
    pub fn start(document: &str, policy: Eviction) -> (begun: (Flush, Command))
        ensures
            begun.0@ == (FlushView {
                key: cache_key_of(document@),
                policy,
                stage: FlushStage::Reading,
            }),
            begun.1@ == (CommandView::ReadCache { key: cache_key_of(document@) }),
    {
        let flush = Flush { key: cache_key(document), policy, stage: FlushStage::Reading };
        let command = Command::ReadCache { key: cache_key(document) };
        (flush, command)
    }

    /// Takes what the caller reports and returns the next command; `Done`
    /// when the flush has just ended.
    pub fn step(&mut self, event: Event) -> (command: Command)
        ensures
            final(self)@.key == old(self)@.key,
            final(self)@.policy == old(self)@.policy,
            (final(self)@.stage, command@) == flush_step(
                old(self)@.key,
                old(self)@.policy,
                old(self)@.stage,
                event@,
            ),
    {
        let (stage, command) = flush_advance(self.key.as_str(), self.policy, self.stage, event);
        self.stage = stage;
        command
    }

    /// How the flush ended, once it has.
    pub fn outcome(&self) -> (outcome: Option<FlushOutcome>)
        ensures
            outcome == match self@.stage {
                FlushStage::Finished(o) => Some(o),
                _ => None,
            },
    {
        match self.stage {
            FlushStage::Finished(o) => Some(o),
            _ => None,
        }
    }
}

} // verus!
