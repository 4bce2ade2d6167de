//! A model of what surrounds the state machines: the live cache, the durable
//! store, the registry and the client, in a world where every command is
//! carried out without failure. The laws of this crate are stated over it.

use crate::flush::FlushStage;
use crate::protocol::{CommandView, EventView};
use crate::registry::{attached_in, registry_answer};
use crate::role::Role;
use crate::session::{session_step, SessionView, Stage};
use crate::sweep::{sweep_step, SweepView};
use vstd::prelude::*;

verus! {

/// The state of everything that commands act on.
pub struct World {
    /// The live cache: content by key.
    pub cache: Map<Seq<char>, Seq<char>>,
    /// The durable store: content by document identifier.
    pub store: Map<Seq<u8>, Seq<char>>,
    /// The registry: attached sessions by document.
    pub registry: Map<Seq<char>, nat>,
    /// What was published, oldest first: channel and content.
    pub published: Seq<(Seq<char>, Seq<char>)>,
    /// What was sent to the client, oldest first.
    pub delivered: Seq<Seq<char>>,
    /// The documents whose idle-flush timer runs.
    pub timers: Set<Seq<char>>,
    /// How many writes the durable store has been asked for.
    pub store_writes: nat,
    /// How many registry entries have been asked to be removed.
    pub releases: nat,
}

/// Whether the idle timers are in step with the registry: a timer runs for
/// a document exactly while sessions are attached to it, and so there is
/// never more than one for a document.
pub open spec fn timers_match_registry(world: World) -> bool {
    forall|document: Seq<char>| #[trigger]
        world.timers.contains(document) <==> attached_in(world.registry, document) > 0
}

/// Whether every entry of the registry counts at least one session: an
/// entry stands at zero only within a close, never before or after it.
pub open spec fn no_idle_entries(world: World) -> bool {
    forall|document: Seq<char>| #[trigger]
        world.registry.contains_key(document) ==> world.registry[document] > 0
}

/// The durable store after an update of one record's content. Only an
/// existing record is updated; the store holds no record that was not
/// created elsewhere.
pub open spec fn store_update(store: Map<Seq<u8>, Seq<char>>, id: Seq<u8>, content: Seq<char>) -> Map<
    Seq<u8>,
    Seq<char>,
> {
    if store.contains_key(id) {
        store.insert(id, content)
    } else {
        store
    }
}

/// Carries out one command: the world afterwards, and the event that is
/// reported back, if the command is one that is answered. The commands that
/// act on the registry are carried out as the registry answers them.
pub open spec fn perform(world: World, command: CommandView) -> (World, Option<EventView>) {
    match command {
        CommandView::ResolveRole { .. } => (world, None),
        CommandView::Refuse => (world, None),
        CommandView::Abort => (world, None),
        CommandView::ProbeCache { key } => (
            world,
            Some(
                if world.cache.contains_key(key) {
                    EventView::CachePresent
                } else {
                    EventView::CacheAbsent
                },
            ),
        ),
        CommandView::FetchDocument { id } => (
            world,
            Some(
                if world.store.contains_key(id) {
                    EventView::DocumentFound(world.store[id])
                } else {
                    EventView::DocumentMissing
                },
            ),
        ),
        CommandView::WriteCache { key, content } => (
            World { cache: world.cache.insert(key, content), ..world },
            Some(EventView::CacheWritten),
        ),
        CommandView::ReadCache { key } => (
            world,
            Some(
                if world.cache.contains_key(key) {
                    EventView::CacheHit(world.cache[key])
                } else {
                    EventView::CacheMiss
                },
            ),
        ),
        CommandView::SendInitial { content } => (
            World { delivered: world.delivered.push(content), ..world },
            Some(EventView::InitialSent),
        ),
        CommandView::Attach { .. } => (
            World { registry: registry_answer(world.registry, command).0, ..world },
            registry_answer(world.registry, command).1,
        ),
        CommandView::StartIdleTimer { document } => (
            World { timers: world.timers.insert(document), ..world },
            Some(EventView::TimerStarted),
        ),
        CommandView::Subscribe { .. } => (world, None),
        CommandView::StoreAndPublish { key, channel, content } => (
            World {
                cache: world.cache.insert(key, content),
                published: world.published.push((channel, content)),
                ..world
            },
            None,
        ),
        CommandView::Forward { content } => (
            World { delivered: world.delivered.push(content), ..world },
            None,
        ),
        CommandView::Publish { channel, content } => (
            World { published: world.published.push((channel, content)), ..world },
            None,
        ),
        CommandView::Detach { .. } => (
            World { registry: registry_answer(world.registry, command).0, ..world },
            registry_answer(world.registry, command).1,
        ),
        CommandView::CancelIdleTimer { document } => (
            World { timers: world.timers.remove(document), ..world },
            Some(EventView::TimerCancelled),
        ),
        CommandView::WriteStore { id, content } => (
            World {
                store: store_update(world.store, id, content),
                store_writes: world.store_writes + 1,
                ..world
            },
            Some(EventView::StoreWritten),
        ),
        CommandView::DeleteCache { key } => (
            World { cache: world.cache.remove(key), ..world },
            Some(EventView::CacheDeleted),
        ),
        CommandView::CountSessions { .. } => (world, registry_answer(world.registry, command).1),
        CommandView::Release { .. } => (
            World {
                registry: registry_answer(world.registry, command).0,
                releases: world.releases + 1,
                ..world
            },
            registry_answer(world.registry, command).1,
        ),
        CommandView::Done => (world, None),
        CommandView::Idle => (world, None),
    }
}

/// A session takes an event, its command is carried out, and so on with
/// each answer, for at most `patience` answers.
pub open spec fn run_session(session: SessionView, world: World, event: EventView, patience: nat) -> (
    SessionView,
    World,
)
    decreases patience,
{
    let (next, command) = session_step(session, event);
    let (after, answer) = perform(world, command);
    match answer {
        Some(reply) => if patience == 0 {
            (next, after)
        } else {
            run_session(next, after, reply, (patience - 1) as nat)
        },
        None => (next, after),
    }
}

/// More answers than any event of a session can set off.
pub open spec fn enough() -> nat {
    12
}

/// The most answers that an event can set off when it reaches a session at
/// the given stage.
pub open spec fn answers_ahead(stage: Stage) -> nat {
    match stage {
        Stage::Connecting => 0,
        Stage::Authorizing => 7,
        Stage::Probing => 6,
        Stage::Fetching => 5,
        Stage::Filling => 4,
        Stage::Reading => 3,
        Stage::Sending => 2,
        Stage::Joining => 1,
        Stage::Arming => 0,
        Stage::Streaming => 6,
        Stage::Detaching => 5,
        Stage::Cancelling => 4,
        Stage::Flushing(FlushStage::Reading) => 3,
        Stage::Flushing(FlushStage::Writing) => 2,
        Stage::Flushing(FlushStage::Counting) => 2,
        Stage::Flushing(FlushStage::Evicting) => 1,
        Stage::Flushing(FlushStage::Finished(_)) => 1,
        Stage::Releasing(_) => 0,
        Stage::Closed(_) => 0,
    }
}

/// A session takes an event and everything that follows from it is carried
/// out.
pub open spec fn settle(session: SessionView, world: World, event: EventView) -> (
    SessionView,
    World,
) {
    run_session(session, world, event, enough())
}

/// A sweep takes an event, its command is carried out, and so on with each
/// answer, until the sweep has dealt with `until` keys or `patience` answers
/// were given.
pub open spec fn run_sweep(
    sweep: SweepView,
    world: World,
    event: EventView,
    until: nat,
    patience: nat,
) -> (SweepView, World)
    decreases patience,
{
    let (next, command) = sweep_step(sweep, event);
    if next.outcomes.len() >= until {
        (next, world)
    } else {
        let (after, answer) = perform(world, command);
        match answer {
            Some(reply) => if patience == 0 {
                (next, after)
            } else {
                run_sweep(next, after, reply, until, (patience - 1) as nat)
            },
            None => (next, after),
        }
    }
}

/// The sweep deals with its current key: the key is read and everything
/// that follows is carried out, up to the point where the next key would be
/// read.
pub open spec fn sweep_one(sweep: SweepView, world: World) -> (SweepView, World) {
    let (_, answer) = perform(world, sweep.opening());
    match answer {
        Some(reply) => run_sweep(sweep, world, reply, sweep.outcomes.len() + 1, enough()),
        None => (sweep, world),
    }
}

/// The sweep deals with every key that is left, one after the other.
pub open spec fn sweep_rest(sweep: SweepView, world: World) -> (SweepView, World)
    decreases sweep.keys.len() - sweep.outcomes.len(),
{
    if sweep.finished() {
        (sweep, world)
    } else {
        let (next, after) = sweep_one(sweep, world);
        if next.keys == sweep.keys && next.outcomes.len() == sweep.outcomes.len() + 1 {
            sweep_rest(next, after)
        } else {
            (next, after)
        }
    }
}

/// The sessions are granted their roles one after the other, each admission
/// carried out whole before the next begins.
pub open spec fn admit_each(sessions: Seq<SessionView>, roles: Seq<Role>, world: World) -> World
    decreases sessions.len(),
{
    if sessions.len() == 0 {
        world
    } else {
        admit_each(
            sessions.drop_first(),
            roles.drop_first(),
            settle(sessions[0], world, EventView::RoleGranted(roles[0])).1,
        )
    }
}

/// The sessions close one after the other, each close carried out whole
/// before the next begins.
pub open spec fn close_each(sessions: Seq<SessionView>, world: World) -> World
    decreases sessions.len(),
{
    if sessions.len() == 0 {
        world
    } else {
        close_each(sessions.drop_first(), settle(sessions[0], world, EventView::ClientClosed).1)
    }
}

/// A run is its first step, followed by the run that the answer sets off.
pub proof fn lemma_run_unfolds(
    session: SessionView,
    world: World,
    event: EventView,
    patience: nat,
)
    ensures
        run_session(session, world, event, patience) == ({
            let (next, command) = session_step(session, event);
            let (after, answer) = perform(world, command);
            match answer {
                Some(reply) => if patience == 0 {
                    (next, after)
                } else {
                    run_session(next, after, reply, (patience - 1) as nat)
                },
                None => (next, after),
            }
        }),
{
}

/// No run of a session is cut short by want of patience: every run ends by
/// itself after the answers that its first stage allows for, and these are
/// fewer than `enough`. So `settle` carries out all that follows from an
/// event.
pub proof fn lemma_settle_is_complete(
    session: SessionView,
    world: World,
    event: EventView,
    patience: nat,
)
    requires
        patience >= answers_ahead(session.stage),
    ensures
        run_session(session, world, event, patience) == run_session(
            session,
            world,
            event,
            answers_ahead(session.stage),
        ),
        answers_ahead(session.stage) < enough(),
        patience >= enough() ==> run_session(session, world, event, patience) == settle(
            session,
            world,
            event,
        ),
    decreases answers_ahead(session.stage),
{
    let ahead = answers_ahead(session.stage);
    let (next, command) = session_step(session, event);
    let (after, answer) = perform(world, command);
    lemma_run_unfolds(session, world, event, patience);
    lemma_run_unfolds(session, world, event, ahead);
    lemma_run_unfolds(session, world, event, enough());
    match answer {
        Some(reply) => {
            lemma_settle_is_complete(next, after, reply, (patience - 1) as nat);
            lemma_settle_is_complete(next, after, reply, (ahead - 1) as nat);
            lemma_settle_is_complete(next, after, reply, (enough() - 1) as nat);
        },
        None => {},
    }
}

/// A run of a sweep is its first step, followed by the run that the answer
/// sets off, unless the step has dealt with enough keys.
pub proof fn lemma_sweep_run_unfolds(
    sweep: SweepView,
    world: World,
    event: EventView,
    until: nat,
    patience: nat,
)
    ensures
        run_sweep(sweep, world, event, until, patience) == ({
            let (next, command) = sweep_step(sweep, event);
            if next.outcomes.len() >= until {
                (next, world)
            } else {
                let (after, answer) = perform(world, command);
                match answer {
                    Some(reply) => if patience == 0 {
                        (next, after)
                    } else {
                        run_sweep(next, after, reply, until, (patience - 1) as nat)
                    },
                    None => (next, after),
                }
            }
        }),
{
}

} // verus!
