//! What holds of a session from its admission to the end of streaming,
//! whatever the input.

use crate::document_id::document_id_of;
use crate::keys::cache_key_of;
use crate::model::{
    admit_each, lemma_run_unfolds, no_idle_entries, run_session, settle, timers_match_registry,
    World,
};
use crate::permission::effective_role;
use crate::protocol::{CommandView, EventView};
use crate::registry::{after_increment, attached_in};
use crate::role::Role;
use crate::session::{session_step, Ending, Phase, SessionView, Stage};
use vstd::prelude::*;

verus! {

/// A session never returns to an earlier phase, and a closed session stays
/// as it is.
pub proof fn lemma_phase_never_goes_back(session: SessionView, event: EventView)
    ensures
        session_step(session, event).0.stage.phase().order() >= session.stage.phase().order(),
        session.stage.phase() == Phase::Closed ==> session_step(session, event) == (
            session,
            CommandView::Idle,
        ),
        session_step(session, event).0.user == session.user,
        session_step(session, event).0.document == session.document,
{
}

/// The registry is touched only by a session that has sent its first
/// message: a session asks to be counted only once that message has reached
/// the client, and asks to be discounted only when it streams. A session
/// that was counted cannot end without having asked to be discounted: from
/// joining on, the only way to the end leads through the decrement, and
/// where that reaches zero, through the removal of the entry.
pub proof fn lemma_registry_is_touched_in_order(session: SessionView, event: EventView)
    ensures
        session_step(session, event).1 is Attach ==> session.stage == Stage::Sending && event
            == EventView::InitialSent,
        session_step(session, event).1 is Detach ==> session.stage == Stage::Streaming,
        session_step(session, event).1 is Release ==> session.stage is Flushing,
        session_step(session, event).1 is StartIdleTimer ==> session.stage == Stage::Joining
            && event == EventView::Attached(1),
        session_step(session, event).1 is CancelIdleTimer ==> session.stage == Stage::Detaching
            && event == EventView::Detached(0),
        session_step(session, event).0.stage is Closed ==> {
            ||| session.stage is Closed
            ||| session.stage.phase().order() <= Phase::Authorized.order() && session.stage
                != Stage::Joining && session.stage != Stage::Arming
            ||| session.stage == Stage::Detaching && !(event matches EventView::Detached(count)
                && count == 0)
            ||| session.stage is Releasing && event == EventView::Released
        },
{
}

/// A user without any grant is refused: with no direct and no group-derived
/// grant the resolver finds no role, and on that report the session closes
/// at once, asks for the connection to be refused and no more, so that
/// neither the registry nor the cache is touched.
pub proof fn lemma_no_grant_is_refused(session: SessionView, world: World)
    requires
        session.stage == Stage::Authorizing,
    ensures
        effective_role(Seq::<Role>::empty(), Seq::<Role>::empty()) is None,
        session_step(session, EventView::RoleMissing) == (
            session.at(Stage::Closed(Ending::Refused)),
            CommandView::Refuse,
        ),
        settle(session, world, EventView::RoleMissing) == (
            session.at(Stage::Closed(Ending::Refused)),
            world,
        ),
{
    reveal_with_fuel(run_session, 2);
}

/// A session that may not write changes nothing by sending an edit: the
/// session stays as it is, no command is given, and so the cache holds what
/// it held and nothing is published.
pub proof fn lemma_reader_cannot_write(session: SessionView, world: World, content: Seq<char>)
    requires
        session.stage == Stage::Streaming,
        session.role == Some(Role::Reader) || session.role is None,
    ensures
        session_step(session, EventView::ClientText(content)) == (session, CommandView::Idle),
        settle(session, world, EventView::ClientText(content)) == (session, world),
{
    reveal_with_fuel(run_session, 2);
}

/// Whatever its stage and whatever is reported to it, a session asks for
/// content to be stored and published only when it streams, may write, and
/// the client has sent an edit; and it never publishes in any other way.
pub proof fn lemma_only_writers_publish(session: SessionView, event: EventView)
    ensures
        session_step(session, event).1 is StoreAndPublish ==> {
            &&& session.stage == Stage::Streaming
            &&& session.may_write()
            &&& event is ClientText
        },
        !(session_step(session, event).1 is Publish),
{
}

/// An edit of a session that may write replaces the cached content of its
/// document and is published on the document's channel, and nowhere else.
pub proof fn lemma_writer_edit_is_broadcast(session: SessionView, world: World, content: Seq<char>)
    requires
        session.stage == Stage::Streaming,
        session.may_write(),
    ensures
        settle(session, world, EventView::ClientText(content)) == (
            session,
            World {
                cache: world.cache.insert(session.key(), content),
                published: world.published.push((session.channel(), content)),
                ..world
            },
        ),
{
    reveal_with_fuel(run_session, 2);
}

/// The content that the durable store holds for a document: that of its
/// record, or nothing where the identifier is malformed or no record exists.
pub open spec fn stored_content(store: Map<Seq<u8>, Seq<char>>, document: Seq<char>) -> Seq<char> {
    match document_id_of(document) {
        Some(id) => if store.contains_key(id) {
            store[id]
        } else {
            Seq::<char>::empty()
        },
        None => Seq::<char>::empty(),
    }
}

/// The content that a session is sent first: what the cache holds for the
/// document, or, where it holds nothing, what the store holds.
pub open spec fn first_message(world: World, document: Seq<char>) -> Seq<char> {
    if world.cache.contains_key(cache_key_of(document)) {
        world.cache[cache_key_of(document)]
    } else {
        stored_content(world.store, document)
    }
}

/// The cache after the admission of a session: filled with the stored
/// content where it held nothing for the document and the store holds the
/// document, and as before otherwise.
pub open spec fn hydrated_cache(world: World, document: Seq<char>) -> Map<Seq<char>, Seq<char>> {
    let key = cache_key_of(document);
    if world.cache.contains_key(key) {
        world.cache
    } else {
        match document_id_of(document) {
            Some(id) => if world.store.contains_key(id) {
                world.cache.insert(key, world.store[id])
            } else {
                world.cache
            },
            None => world.cache,
        }
    }
}

/// The idle timers after a session has joined a document: the first one in
/// starts the timer of the document; with others attached the timers stay
/// as they are.
pub open spec fn armed_timers(world: World, document: Seq<char>) -> Set<Seq<char>> {
    if attached_in(world.registry, document) == 0 {
        world.timers.insert(document)
    } else {
        world.timers
    }
}

/// The end of every admission: the content read from the cache, or empty
/// content where the cache holds nothing, is sent as the first message;
/// then the session is counted, starts the idle timer if it is the first
/// one in, and streams.
pub proof fn lemma_send_and_join(
    session: SessionView,
    world: World,
    event: EventView,
    patience: nat,
)
    requires
        session.stage == Stage::Reading,
        event is CacheHit || event is CacheMiss,
        patience >= 4,
    ensures
        run_session(session, world, event, patience) == (
            session.at(Stage::Streaming),
            World {
                delivered: world.delivered.push(
                    match event {
                        EventView::CacheHit(content) => content,
                        _ => Seq::<char>::empty(),
                    },
                ),
                registry: after_increment(world.registry, session.document),
                timers: armed_timers(world, session.document),
                ..world
            },
        ),
{
    let content = match event {
        EventView::CacheHit(content) => content,
        _ => Seq::<char>::empty(),
    };
    lemma_run_unfolds(session, world, event, patience);
    let sent = World { delivered: world.delivered.push(content), ..world };
    lemma_run_unfolds(session.at(Stage::Sending), sent, EventView::InitialSent, (patience - 1) as nat);
    let joined = World { registry: after_increment(world.registry, session.document), ..sent };
    lemma_run_unfolds(
        session.at(Stage::Joining),
        joined,
        EventView::Attached(attached_in(world.registry, session.document) + 1),
        (patience - 2) as nat,
    );
    if attached_in(world.registry, session.document) == 0 {
        let armed = World { timers: world.timers.insert(session.document), ..joined };
        lemma_run_unfolds(
            session.at(Stage::Arming),
            armed,
            EventView::TimerStarted,
            (patience - 3) as nat,
        );
    }
}

/// What the admission of a session comes to, from the grant of the role to
/// the start of streaming: the cache is hydrated, the first message is
/// sent, and the session is counted.
pub proof fn lemma_admission_runs(session: SessionView, world: World, role: Role)
    requires
        session.stage == Stage::Authorizing,
    ensures
        settle(session, world, EventView::RoleGranted(role)) == (
            SessionView { role: Some(role), stage: Stage::Streaming, ..session },
            World {
                cache: hydrated_cache(world, session.document),
                delivered: world.delivered.push(first_message(world, session.document)),
                registry: after_increment(world.registry, session.document),
                timers: armed_timers(world, session.document),
                ..world
            },
        ),
{
    let document = session.document;
    let key = session.key();
    let admitted = SessionView { role: Some(role), ..session };
    lemma_run_unfolds(session, world, EventView::RoleGranted(role), 12);
    let probing = admitted.at(Stage::Probing);
    let reading = admitted.at(Stage::Reading);
    if world.cache.contains_key(key) {
        lemma_run_unfolds(probing, world, EventView::CachePresent, 11);
        lemma_send_and_join(reading, world, EventView::CacheHit(world.cache[key]), 10);
    } else {
        lemma_run_unfolds(probing, world, EventView::CacheAbsent, 11);
        match document_id_of(document) {
            Some(id) => {
                let fetching = admitted.at(Stage::Fetching);
                if world.store.contains_key(id) {
                    let content = world.store[id];
                    lemma_run_unfolds(fetching, world, EventView::DocumentFound(content), 10);
                    let filling = admitted.at(Stage::Filling);
                    let filled = World { cache: world.cache.insert(key, content), ..world };
                    lemma_run_unfolds(filling, filled, EventView::CacheWritten, 9);
                    lemma_send_and_join(reading, filled, EventView::CacheHit(content), 8);
                } else {
                    lemma_run_unfolds(fetching, world, EventView::DocumentMissing, 10);
                    lemma_send_and_join(reading, world, EventView::CacheMiss, 9);
                }
            },
            None => {
                lemma_send_and_join(reading, world, EventView::CacheMiss, 10);
            },
        }
    }
}

/// The first session on a document that the cache does not hold is sent the
/// content that the durable store holds for the document, and empty content
/// where the store holds none. It ends up streaming and counted once more in
/// the registry; the cache is filled exactly where there was content to fill
/// it with.
pub proof fn lemma_hydration_on_empty(session: SessionView, world: World, role: Role)
    requires
        session.stage == Stage::Authorizing,
        !world.cache.contains_key(session.key()),
    ensures
        ({
            let (after, w) = settle(session, world, EventView::RoleGranted(role));
            let found = document_id_of(session.document) matches Some(id) && world.store.contains_key(
                id,
            );
            &&& after == (SessionView { role: Some(role), stage: Stage::Streaming, ..session })
            &&& w.delivered == world.delivered.push(stored_content(world.store, session.document))
            &&& w.registry == after_increment(world.registry, session.document)
            &&& w.store == world.store
            &&& found ==> w.cache == world.cache.insert(
                session.key(),
                stored_content(world.store, session.document),
            )
            &&& !found ==> w.cache == world.cache
        }),
{
    lemma_admission_runs(session, world, role);
}

/// Whatever the cache and the store hold, a session that is granted a role
/// ends up streaming and is counted exactly once in the registry; the store
/// is only read.
pub proof fn lemma_admission_counts_the_session(session: SessionView, world: World, role: Role)
    requires
        session.stage == Stage::Authorizing,
    ensures
        ({
            let (after, w) = settle(session, world, EventView::RoleGranted(role));
            &&& after == (SessionView { role: Some(role), stage: Stage::Streaming, ..session })
            &&& w.registry == after_increment(world.registry, session.document)
            &&& w.store == world.store
            &&& w.store_writes == world.store_writes
            &&& w.releases == world.releases
            &&& w.published == world.published
            &&& world.cache.contains_key(session.key()) ==> w.cache == world.cache
                && w.delivered == world.delivered.push(world.cache[session.key()])
        }),
{
    lemma_admission_runs(session, world, role);
}

/// The admission of a session keeps the idle timers in step with the
/// registry: the first session on a document starts its timer, and no
/// later one starts another.
pub proof fn lemma_admission_keeps_timers(session: SessionView, world: World, role: Role)
    requires
        session.stage == Stage::Authorizing,
        timers_match_registry(world),
    ensures
        timers_match_registry(settle(session, world, EventView::RoleGranted(role)).1),
{
    lemma_admission_runs(session, world, role);
}

/// The admission of a session leaves no registry entry at zero.
pub proof fn lemma_admission_keeps_entries_positive(
    session: SessionView,
    world: World,
    role: Role,
)
    requires
        session.stage == Stage::Authorizing,
        no_idle_entries(world),
    ensures
        no_idle_entries(settle(session, world, EventView::RoleGranted(role)).1),
{
    lemma_admission_runs(session, world, role);
}

/// Sessions admitted one after the other to the same document are counted
/// one by one: the registry entry grows by their number, and nothing is
/// written to the store.
pub proof fn lemma_admissions_add_up(
    sessions: Seq<SessionView>,
    roles: Seq<Role>,
    world: World,
    document: Seq<char>,
)
    requires
        roles.len() == sessions.len(),
        forall|i: int|
            0 <= i < sessions.len() ==> (#[trigger] sessions[i]).stage == Stage::Authorizing
                && sessions[i].document == document,
    ensures
        ({
            let w = admit_each(sessions, roles, world);
            &&& attached_in(w.registry, document) == attached_in(world.registry, document)
                + sessions.len()
            &&& sessions.len() > 0 ==> w.registry == world.registry.insert(
                document,
                attached_in(world.registry, document) + sessions.len(),
            )
            &&& w.store == world.store
            &&& w.store_writes == world.store_writes
            &&& w.releases == world.releases
        }),
    decreases sessions.len(),
{
    if sessions.len() > 0 {
        let first = sessions[0];
        let rest = sessions.drop_first();
        lemma_admission_counts_the_session(first, world, roles[0]);
        let next = settle(first, world, EventView::RoleGranted(roles[0])).1;
        lemma_admissions_add_up(rest, roles.drop_first(), next, document);
    }
}

} // verus!
