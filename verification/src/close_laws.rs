//! What holds when sessions leave a document: who flushes, and when the
//! registry entry goes.

use crate::document_id::document_id_of;
use crate::flush::{FlushError, FlushOutcome, FlushStage};
use crate::keys::{cache_key_of, lemma_key_round_trip};
use crate::model::{
    close_each, lemma_run_unfolds, no_idle_entries, run_session, settle, store_update,
    timers_match_registry, World,
};
use crate::protocol::EventView;
use crate::registry::{attached_in, RegistryError};
use crate::session::{Ending, SessionView, Stage};
use vstd::prelude::*;

verus! {

/// A session that leaves while others are attached only lowers the count:
/// nothing is flushed and the cache entry stays.
pub proof fn lemma_leaving_with_others_attached(session: SessionView, world: World)
    requires
        session.stage == Stage::Streaming,
        attached_in(world.registry, session.document) >= 2,
    ensures
        settle(session, world, EventView::ClientClosed) == (
            session.at(Stage::Closed(Ending::Left)),
            World {
                registry: world.registry.insert(
                    session.document,
                    (attached_in(world.registry, session.document) - 1) as nat,
                ),
                ..world
            },
        ),
{
    reveal_with_fuel(run_session, 3);
}

/// The last session to leave removes the registry entry and flushes: the
/// cached content is written to the durable store and the cache entry is
/// deleted. Where the cache holds nothing for the document, or the
/// document's identifier is malformed, nothing is written and the cache is
/// left alone; the registry entry goes all the same.
pub proof fn lemma_last_one_out_flushes(session: SessionView, world: World)
    requires
        session.stage == Stage::Streaming,
        attached_in(world.registry, session.document) == 1,
    ensures
        ({
            let (after, w) = settle(session, world, EventView::ClientClosed);
            let key = session.key();
            &&& w.registry == world.registry.remove(session.document)
            &&& w.releases == world.releases + 1
            &&& w.timers == world.timers.remove(session.document)
            &&& w.published == world.published
            &&& w.delivered == world.delivered
            &&& match (world.cache.contains_key(key), document_id_of(session.document)) {
                (true, Some(id)) => {
                    &&& after == session.at(
                        Stage::Closed(Ending::Reconciled(FlushOutcome::Evicted)),
                    )
                    &&& w.store == store_update(world.store, id, world.cache[key])
                    &&& w.store_writes == world.store_writes + 1
                    &&& w.cache == world.cache.remove(key)
                },
                (true, None) => {
                    &&& after == session.at(
                        Stage::Closed(
                            Ending::Reconciled(FlushOutcome::Failed(FlushError::MalformedId)),
                        ),
                    )
                    &&& w.store == world.store
                    &&& w.store_writes == world.store_writes
                    &&& w.cache == world.cache
                },
                (false, _) => {
                    &&& after == session.at(
                        Stage::Closed(
                            Ending::Reconciled(FlushOutcome::Failed(FlushError::CacheMiss)),
                        ),
                    )
                    &&& w.store == world.store
                    &&& w.store_writes == world.store_writes
                    &&& w.cache == world.cache
                },
            }
        }),
{
    let document = session.document;
    let key = session.key();
    lemma_key_round_trip(document);

    lemma_run_unfolds(session, world, EventView::ClientClosed, 12);
    let s1 = session.at(Stage::Detaching);
    let w1 = World { registry: world.registry.insert(document, 0), ..world };

    lemma_run_unfolds(s1, w1, EventView::Detached(0), 11);
    let s2 = session.at(Stage::Cancelling);
    let w2 = World { timers: world.timers.remove(document), ..w1 };

    lemma_run_unfolds(s2, w2, EventView::TimerCancelled, 10);
    let s3 = session.at(Stage::Flushing(FlushStage::Reading));

    let released = World {
        registry: world.registry.remove(document),
        releases: world.releases + 1,
        ..w2
    };

    if world.cache.contains_key(key) {
        let content = world.cache[key];
        lemma_run_unfolds(s3, w2, EventView::CacheHit(content), 9);
        match document_id_of(document) {
            Some(id) => {
                let s4 = session.at(Stage::Flushing(FlushStage::Writing));
                let w4 = World {
                    store: store_update(world.store, id, content),
                    store_writes: world.store_writes + 1,
                    ..w2
                };
                lemma_run_unfolds(s4, w4, EventView::StoreWritten, 8);
                let s5 = session.at(Stage::Flushing(FlushStage::Evicting));
                let w5 = World { cache: world.cache.remove(key), ..w4 };
                lemma_run_unfolds(s5, w5, EventView::CacheDeleted, 7);
                let s6 = session.at(Stage::Releasing(FlushOutcome::Evicted));
                let w6 = World {
                    registry: world.registry.remove(document),
                    releases: world.releases + 1,
                    ..w5
                };
                lemma_run_unfolds(s6, w6, EventView::Released, 6);
            },
            None => {
                let s4 = session.at(
                    Stage::Releasing(FlushOutcome::Failed(FlushError::MalformedId)),
                );
                lemma_run_unfolds(s4, released, EventView::Released, 8);
            },
        }
    } else {
        lemma_run_unfolds(s3, w2, EventView::CacheMiss, 9);
        let s4 = session.at(Stage::Releasing(FlushOutcome::Failed(FlushError::CacheMiss)));
        lemma_run_unfolds(s4, released, EventView::Released, 8);
    }
}

/// A session that finds no registry entry for its document when it leaves
/// reports that and ends; nothing is flushed, and the registry is not made
/// to hold a count that was never there.
pub proof fn lemma_missing_entry_is_reported(session: SessionView, world: World)
    requires
        session.stage == Stage::Streaming,
        !world.registry.contains_key(session.document),
    ensures
        settle(session, world, EventView::ClientClosed) == (
            session.at(Stage::Closed(Ending::RegistryFault(RegistryError::NotFound))),
            world,
        ),
{
    reveal_with_fuel(run_session, 3);
}

/// The close of a session leaves no registry entry at zero: the entry that
/// the last one out brings to zero is removed before the close is over.
pub proof fn lemma_leaving_keeps_entries_positive(session: SessionView, world: World)
    requires
        session.stage == Stage::Streaming,
        no_idle_entries(world),
    ensures
        no_idle_entries(settle(session, world, EventView::ClientClosed).1),
{
    if !world.registry.contains_key(session.document) {
        lemma_missing_entry_is_reported(session, world);
    } else if world.registry[session.document] == 1 {
        lemma_last_one_out_flushes(session, world);
    } else {
        lemma_leaving_with_others_attached(session, world);
    }
}

/// The close of a session keeps the idle timers in step with the registry:
/// the timer of a document is stopped by the last session that leaves it,
/// and by no session before.
pub proof fn lemma_leaving_keeps_timers(session: SessionView, world: World)
    requires
        session.stage == Stage::Streaming,
        attached_in(world.registry, session.document) >= 1,
        timers_match_registry(world),
    ensures
        timers_match_registry(settle(session, world, EventView::ClientClosed).1),
{
    if attached_in(world.registry, session.document) == 1 {
        lemma_last_one_out_flushes(session, world);
    } else {
        lemma_leaving_with_others_attached(session, world);
    }
}

/// Closing a list of sessions is closing all but the last, then the last.
pub proof fn lemma_close_each_split(sessions: Seq<SessionView>, world: World)
    requires
        sessions.len() >= 1,
    ensures
        close_each(sessions, world) == settle(
            sessions[sessions.len() - 1],
            close_each(sessions.subrange(0, sessions.len() - 1), world),
            EventView::ClientClosed,
        ).1,
    decreases sessions.len(),
{
    let n = sessions.len() as int;
    if n == 1 {
        reveal_with_fuel(close_each, 2);
    } else {
        let rest = sessions.drop_first();
        let next = settle(sessions[0], world, EventView::ClientClosed).1;
        lemma_close_each_split(rest, next);
        let earlier = sessions.subrange(0, n - 1);
        assert(earlier.drop_first() =~= rest.subrange(0, n - 2));
    }
}

/// While more sessions are attached than leave, each close only lowers the
/// count: the registry entry stays, nothing is written to the store and the
/// cache is not touched.
pub proof fn lemma_earlier_disconnects_flush_nothing(
    sessions: Seq<SessionView>,
    world: World,
    document: Seq<char>,
)
    requires
        forall|i: int|
            0 <= i < sessions.len() ==> (#[trigger] sessions[i]).stage == Stage::Streaming
                && sessions[i].document == document,
        attached_in(world.registry, document) > sessions.len(),
    ensures
        close_each(sessions, world) == (World {
            registry: world.registry.insert(
                document,
                (attached_in(world.registry, document) - sessions.len()) as nat,
            ),
            ..world
        }),
    decreases sessions.len(),
{
    if sessions.len() == 0 {
        assert(world.registry.insert(document, attached_in(world.registry, document))
            =~= world.registry);
    } else {
        let first = sessions[0];
        let rest = sessions.drop_first();
        lemma_leaving_with_others_attached(first, world);
        let next = settle(first, world, EventView::ClientClosed).1;
        lemma_earlier_disconnects_flush_nothing(rest, next, document);
        assert(next.registry.insert(
            document,
            (attached_in(next.registry, document) - rest.len()) as nat,
        ) =~= world.registry.insert(
            document,
            (attached_in(world.registry, document) - sessions.len()) as nat,
        ));
    }
}

/// When as many sessions leave a document as are attached to it, in
/// whatever order, the registry entry is removed exactly once and the store
/// is written exactly once, with the cached content, after which the cache
/// entry is gone. The write needs a cache entry and a well-formed document
/// identifier; without them nothing is written, and the entry is removed
/// exactly once all the same.
pub proof fn lemma_refcount_reaches_zero_once(
    sessions: Seq<SessionView>,
    world: World,
    document: Seq<char>,
)
    requires
        sessions.len() >= 1,
        forall|i: int|
            0 <= i < sessions.len() ==> (#[trigger] sessions[i]).stage == Stage::Streaming
                && sessions[i].document == document,
        attached_in(world.registry, document) == sessions.len(),
    ensures
        ({
            let w = close_each(sessions, world);
            let key = cache_key_of(document);
            &&& w.registry == world.registry.remove(document)
            &&& w.releases == world.releases + 1
            &&& w.timers == world.timers.remove(document)
            &&& match (world.cache.contains_key(key), document_id_of(document)) {
                (true, Some(id)) => {
                    &&& w.store_writes == world.store_writes + 1
                    &&& w.store == store_update(world.store, id, world.cache[key])
                    &&& w.cache == world.cache.remove(key)
                },
                _ => {
                    &&& w.store_writes == world.store_writes
                    &&& w.store == world.store
                    &&& w.cache == world.cache
                },
            }
        }),
{
    let n = sessions.len() as int;
    let earlier = sessions.subrange(0, n - 1);
    let last = sessions[n - 1];
    lemma_close_each_split(sessions, world);
    lemma_earlier_disconnects_flush_nothing(earlier, world, document);
    let before_last = close_each(earlier, world);
    lemma_last_one_out_flushes(last, before_last);
}

} // verus!
