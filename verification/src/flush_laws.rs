//! What holds of a flush and of the sweep, whatever the input.

use crate::flush::{
    counted_document, flush_step, shows_unattached, store_target, Eviction, FlushError,
    FlushOutcome, FlushStage,
};
use crate::keys::document_of_key;
use crate::model::{
    lemma_sweep_run_unfolds, perform, store_update, sweep_one, sweep_rest, World,
};
use crate::protocol::{CommandView, EventView};
use crate::registry::{attached_in, lookup};
use crate::sweep::{sweep_step, SweepView};
use vstd::prelude::*;

verus! {

/// Writing the same content to the same record twice in a row leaves the
/// durable store as writing it once does.
pub proof fn lemma_store_write_is_idempotent(world: World, id: Seq<u8>, content: Seq<char>)
    ensures
        ({
            let once = perform(world, CommandView::WriteStore { id, content }).0;
            let twice = perform(once, CommandView::WriteStore { id, content }).0;
            twice.store == once.store
        }),
{
}

/// A flush asks for the cache entry to be deleted only once the durable
/// store has taken the content, and under the sweep only if, after that, the
/// registry shows no attached session. No failure leads to a deletion.
pub proof fn lemma_eviction_only_after_write(
    key: Seq<char>,
    policy: Eviction,
    stage: FlushStage,
    event: EventView,
)
    ensures
        flush_step(key, policy, stage, event).1 is DeleteCache ==> {
            ||| policy == Eviction::Always && stage == FlushStage::Writing && event
                == EventView::StoreWritten
            ||| stage == FlushStage::Counting && (event matches EventView::SessionsCounted(count)
                && shows_unattached(count))
        },
        flush_step(key, policy, stage, event).0 == FlushStage::Counting && stage
            != FlushStage::Counting ==> stage == FlushStage::Writing && event
            == EventView::StoreWritten,
        flush_step(key, policy, stage, event).0 matches FlushStage::Finished(
            FlushOutcome::Failed(_),
        ) ==> !(flush_step(key, policy, stage, event).1 is DeleteCache),
{
}

/// How the sweep's flush of a key ends in a world where nothing fails.
pub open spec fn swept_outcome(world: World, key: Seq<char>) -> FlushOutcome {
    if !world.cache.contains_key(key) {
        FlushOutcome::Failed(FlushError::CacheMiss)
    } else if store_target(key) is None {
        FlushOutcome::Failed(FlushError::MalformedId)
    } else if attached_in(world.registry, counted_document(key)) == 0 {
        FlushOutcome::Evicted
    } else {
        FlushOutcome::Retained
    }
}

/// The world after the sweep's flush of a key: the cached content is
/// written to the store unless the flush fails, and the cache entry is
/// deleted exactly if the flush ends with an eviction.
pub open spec fn swept_world(world: World, key: Seq<char>) -> World {
    match swept_outcome(world, key) {
        FlushOutcome::Evicted => World {
            store: store_update(world.store, store_target(key).unwrap(), world.cache[key]),
            store_writes: world.store_writes + 1,
            cache: world.cache.remove(key),
            ..world
        },
        FlushOutcome::Retained => World {
            store: store_update(world.store, store_target(key).unwrap(), world.cache[key]),
            store_writes: world.store_writes + 1,
            ..world
        },
        FlushOutcome::Failed(_) => world,
    }
}

/// Flushing a key twice in a row leaves the store, the cache and the
/// registry as flushing it once does: the second flush finds the same
/// content and writes it again, or finds the entry gone and does nothing.
pub proof fn lemma_flush_is_idempotent(world: World, key: Seq<char>)
    ensures
        ({
            let once = swept_world(world, key);
            let twice = swept_world(once, key);
            &&& twice.store == once.store
            &&& twice.cache == once.cache
            &&& twice.registry == once.registry
        }),
{
}

/// What the sweep does with its current key: the outcome is recorded, the
/// world is changed by the flush of that key alone, and the sweep stands at
/// the next key.
pub proof fn lemma_sweep_one_effect(sweep: SweepView, world: World)
    requires
        !sweep.finished(),
        sweep.stage == FlushStage::Reading,
    ensures
        sweep_one(sweep, world) == (
            SweepView {
                outcomes: sweep.outcomes.push(
                    swept_outcome(world, sweep.keys[sweep.outcomes.len() as int]),
                ),
                ..sweep
            },
            swept_world(world, sweep.keys[sweep.outcomes.len() as int]),
        ),
{
    let key = sweep.keys[sweep.outcomes.len() as int];
    let until = sweep.outcomes.len() + 1;
    if !world.cache.contains_key(key) {
        lemma_sweep_run_unfolds(sweep, world, EventView::CacheMiss, until, 12);
    } else {
        let content = world.cache[key];
        lemma_sweep_run_unfolds(sweep, world, EventView::CacheHit(content), until, 12);
        match store_target(key) {
            Some(id) => {
                let writing = SweepView { stage: FlushStage::Writing, ..sweep };
                let written = World {
                    store: store_update(world.store, id, content),
                    store_writes: world.store_writes + 1,
                    ..world
                };
                lemma_sweep_run_unfolds(writing, written, EventView::StoreWritten, until, 11);
                let counting = SweepView { stage: FlushStage::Counting, ..sweep };
                let count = lookup(world.registry, counted_document(key));
                lemma_sweep_run_unfolds(
                    counting,
                    written,
                    EventView::SessionsCounted(count),
                    until,
                    10,
                );
                if attached_in(world.registry, counted_document(key)) == 0 {
                    let evicting = SweepView { stage: FlushStage::Evicting, ..sweep };
                    let evicted = World { cache: world.cache.remove(key), ..written };
                    lemma_sweep_run_unfolds(evicting, evicted, EventView::CacheDeleted, until, 9);
                }
            },
            None => {},
        }
    }
}

/// The sweep flushes an entry and reclaims it exactly if no session is
/// attached to its document: the cached content is written to the store
/// either way; the entry is deleted where the registry has no entry for the
/// document or the entry stands at zero, and kept where it counts one
/// session or more.
pub proof fn lemma_sweep_reclaims_unattached(sweep: SweepView, world: World)
    requires
        !sweep.finished(),
        sweep.stage == FlushStage::Reading,
        world.cache.contains_key(sweep.keys[sweep.outcomes.len() as int]),
        store_target(sweep.keys[sweep.outcomes.len() as int]) is Some,
    ensures
        ({
            let key = sweep.keys[sweep.outcomes.len() as int];
            let document = document_of_key(key).unwrap();
            let (after, w) = sweep_one(sweep, world);
            &&& w.store == store_update(world.store, store_target(key).unwrap(), world.cache[key])
            &&& w.registry == world.registry
            &&& after.keys == sweep.keys
            &&& attached_in(world.registry, document) == 0 ==> {
                &&& w.cache == world.cache.remove(key)
                &&& after.outcomes == sweep.outcomes.push(FlushOutcome::Evicted)
            }
            &&& attached_in(world.registry, document) > 0 ==> {
                &&& w.cache == world.cache
                &&& after.outcomes == sweep.outcomes.push(FlushOutcome::Retained)
            }
        }),
{
    lemma_sweep_one_effect(sweep, world);
}

/// A failure on one key does not end the sweep: the failure is recorded for
/// that key, its cache entry is not asked to be deleted, and the sweep turns
/// to the next key, or is done where that was the last one.
pub proof fn lemma_sweep_goes_on_after_failure(sweep: SweepView)
    requires
        !sweep.finished(),
        sweep.stage == FlushStage::Writing,
    ensures
        ({
            let (after, command) = sweep_step(sweep, EventView::BackendFailed);
            &&& after.keys == sweep.keys
            &&& after.outcomes == sweep.outcomes.push(
                FlushOutcome::Failed(FlushError::StoreWrite),
            )
            &&& after.stage == FlushStage::Reading
            &&& command == after.opening()
            &&& !(command is DeleteCache)
        }),
{
}

/// Whether a key is among the keys of a list from a position on.
pub open spec fn among(keys: Seq<Seq<char>>, from: int, key: Seq<char>) -> bool {
    exists|i: int| from <= i < keys.len() && #[trigger] keys[i] == key
}

/// A whole pass of the sweep over keys that are all different deals with
/// every key, whatever becomes of the others: each key is judged as the
/// world stood when the pass began, the entries that end with an eviction
/// are gone afterwards, every other entry is there as it was, and the
/// registry is not touched.
pub proof fn lemma_sweep_pass(sweep: SweepView, world: World)
    requires
        sweep.stage == FlushStage::Reading,
        forall|i: int, j: int|
            sweep.outcomes.len() <= i < j < sweep.keys.len() ==> sweep.keys[i] != sweep.keys[j],
    ensures
        ({
            let (after, w) = sweep_rest(sweep, world);
            let done = sweep.outcomes.len() as int;
            &&& after.finished()
            &&& after.keys == sweep.keys
            &&& w.registry == world.registry
            &&& !sweep.finished() ==> after.outcomes.len() == sweep.keys.len()
            &&& forall|i: int| 0 <= i < done ==> after.outcomes[i] == sweep.outcomes[i]
            &&& forall|i: int|
                done <= i < sweep.keys.len() ==> after.outcomes[i] == swept_outcome(
                    world,
                    #[trigger] sweep.keys[i],
                )
            &&& forall|k: Seq<char>| #[trigger]
                w.cache.contains_key(k) <==> world.cache.contains_key(k) && !(among(
                    sweep.keys,
                    done,
                    k,
                ) && swept_outcome(world, k) == FlushOutcome::Evicted)
            &&& forall|k: Seq<char>| #[trigger]
                w.cache.contains_key(k) ==> w.cache[k] == world.cache[k]
        }),
    decreases sweep.keys.len() - sweep.outcomes.len(),
{
    if !sweep.finished() {
        lemma_sweep_one_effect(sweep, world);
        let (next, between) = sweep_one(sweep, world);
        lemma_sweep_pass(next, between);
    }
}

} // verus!
