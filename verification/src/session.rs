//! The session: the state machine of one client connection to one document.
//!
//! A session is admitted, fills the live cache from the durable store if
//! need be, sends the current content, joins the registry (the first one in
//! starts the idle timer of the document) and then streams: edits of the
//! client go to the cache and the channel, messages of the channel go to the
//! client. When the connection ends the session leaves the registry, and the
//! last one out reconciles the cache entry into the store.

use crate::document_id::{document_id_of, DocumentId};
use crate::flush::{flush_advance, flush_step, Eviction, FlushOutcome, FlushStage};
use crate::keys::{cache_key, cache_key_of, channel_name, channel_of};
use crate::protocol::{Command, CommandView, Event, EventView};
use crate::registry::RegistryError;
use crate::role::Role;
use vstd::prelude::*;
use vstd::string::*;

verus! {

/// Why a session is over.
#[derive(Clone, Copy, Debug, PartialEq, Eq, Structural)]
pub enum Ending {
    /// The user holds no role on the document.
    Refused,
    /// A backend failed during admission or hydration.
    BackendUnavailable,
    /// The connection ended before the session had joined the registry.
    ConnectionLost,
    /// The session left; other sessions are still attached.
    Left,
    /// The session was the last one out and ran the flush, which ended so.
    Reconciled(FlushOutcome),
    /// The registry could not be decremented: a bookkeeping defect.
    RegistryFault(RegistryError),
}

/// The six states of a session's life.
#[derive(Clone, Copy, Debug, PartialEq, Eq, Structural)]
pub enum Phase {
    Connecting,
    Authorizing,
    Authorized,
    Streaming,
    Closing,
    Closed,
}

/// Where exactly a session stands: its phase, and within a phase the reply
/// it waits for.
#[derive(Clone, Copy, Debug, PartialEq, Eq, Structural)]
pub enum Stage {
    /// Waiting for the connection to be accepted.
    Connecting,
    /// Waiting for the role of the user.
    Authorizing,
    /// Admitted; waiting to learn whether the cache holds the document.
    Probing,
    /// Admitted; waiting for the document from the durable store.
    Fetching,
    /// Admitted; waiting for the cache to take the fetched content.
    Filling,
    /// Admitted; waiting for the current content from the cache.
    Reading,
    /// Admitted; waiting for the first message to reach the client.
    Sending,
    /// Admitted; waiting for the registry to count the session.
    Joining,
    /// Admitted as the first one in; waiting for the idle timer to start.
    Arming,
    /// Both message flows run.
    Streaming,
    /// Closing; waiting for the registry to discount the session.
    Detaching,
    /// Closing as the last one out; waiting for the idle timer to stop.
    Cancelling,
    /// Closing as the last one out; the flush is under way.
    Flushing(FlushStage),
    /// Closing as the last one out; waiting for the registry entry to go.
    Releasing(FlushOutcome),
    /// Over.
    Closed(Ending),
}

impl Stage {
    /// The phase that a stage belongs to.
    pub open spec fn spec_phase(self) -> Phase {
        match self {
            Stage::Connecting => Phase::Connecting,
            Stage::Authorizing => Phase::Authorizing,
            Stage::Probing => Phase::Authorized,
            Stage::Fetching => Phase::Authorized,
            Stage::Filling => Phase::Authorized,
            Stage::Reading => Phase::Authorized,
            Stage::Sending => Phase::Authorized,
            Stage::Joining => Phase::Authorized,
            Stage::Arming => Phase::Authorized,
            Stage::Streaming => Phase::Streaming,
            Stage::Detaching => Phase::Closing,
            Stage::Cancelling => Phase::Closing,
            Stage::Flushing(_) => Phase::Closing,
            Stage::Releasing(_) => Phase::Closing,
            Stage::Closed(_) => Phase::Closed,
        }
    }

    /// The phase that a stage belongs to.
    #[verifier::when_used_as_spec(spec_phase)]
    pub fn phase(self) -> (phase: Phase)
        ensures
            phase == self.spec_phase(),
    {
        match self {
            Stage::Connecting => Phase::Connecting,
            Stage::Authorizing => Phase::Authorizing,
            Stage::Probing => Phase::Authorized,
            Stage::Fetching => Phase::Authorized,
            Stage::Filling => Phase::Authorized,
            Stage::Reading => Phase::Authorized,
            Stage::Sending => Phase::Authorized,
            Stage::Joining => Phase::Authorized,
            Stage::Arming => Phase::Authorized,
            Stage::Streaming => Phase::Streaming,
            Stage::Detaching => Phase::Closing,
            Stage::Cancelling => Phase::Closing,
            Stage::Flushing(_) => Phase::Closing,
            Stage::Releasing(_) => Phase::Closing,
            Stage::Closed(_) => Phase::Closed,
        }
    }
}

impl Phase {
    /// Position of a phase in the life of a session.
    pub open spec fn order(self) -> nat {
        match self {
            Phase::Connecting => 0,
            Phase::Authorizing => 1,
            Phase::Authorized => 2,
            Phase::Streaming => 3,
            Phase::Closing => 4,
            Phase::Closed => 5,
        }
    }
}

/// One client connection to one document.
#[derive(Debug)]
pub struct Session {
    /// Who connected.
    pub user: String,
    /// The identifier of the document connected to.
    pub document: String,
    /// The role resolved for the user, once it is.
    pub role: Option<Role>,
    /// Where the session stands.
    pub stage: Stage,
}

/// The mathematical content of a [`Session`].
pub struct SessionView {
    pub user: Seq<char>,
    pub document: Seq<char>,
    pub role: Option<Role>,
    pub stage: Stage,
}

impl View for Session {
    type V = SessionView;

    open spec fn view(&self) -> SessionView {
        SessionView {
            user: self.user@,
            document: self.document@,
            role: self.role,
            stage: self.stage,
        }
    }
}

impl SessionView {
    /// The same session at another stage.
    pub open spec fn at(self, stage: Stage) -> SessionView {
        SessionView { stage, ..self }
    }

    /// Whether the session may change the document: only with the role of an
    /// owner or an editor.
    pub open spec fn may_write(self) -> bool {
        match self.role {
            Some(role) => role.may_write(),
            None => false,
        }
    }

    /// The cache key of the session's document.
    pub open spec fn key(self) -> Seq<char> {
        cache_key_of(self.document)
    }

    /// The fan-out channel of the session's document.
    pub open spec fn channel(self) -> Seq<char> {
        channel_of(self.document)
    }
}

/// What a session that has not yet joined the registry does with an event
/// that its stage does not wait for: a backend failure is fatal to it, the
/// end of the connection ends it, anything else is passed over. The registry
/// and the cache are left untouched in each case.
pub open spec fn before_join(session: SessionView, event: EventView) -> (SessionView, CommandView) {
    match event {
        EventView::BackendFailed => (
            session.at(Stage::Closed(Ending::BackendUnavailable)),
            CommandView::Abort,
        ),
        EventView::ClientClosed => (
            session.at(Stage::Closed(Ending::ConnectionLost)),
            CommandView::Done,
        ),
        EventView::TransportFailed => (
            session.at(Stage::Closed(Ending::ConnectionLost)),
            CommandView::Done,
        ),
        _ => (session, CommandView::Idle),
    }
}

/// One step of a session: the session afterwards and what it asks for, given
/// the session before and what is reported.
pub open spec fn session_step(session: SessionView, event: EventView) -> (
    SessionView,
    CommandView,
) {
    match session.stage {
        Stage::Connecting => match event {
            EventView::Accepted => (
                session.at(Stage::Authorizing),
                CommandView::ResolveRole { user: session.user, document: session.document },
            ),
            _ => before_join(session, event),
        },
        Stage::Authorizing => match event {
            EventView::RoleGranted(role) => (
                SessionView { role: Some(role), stage: Stage::Probing, ..session },
                CommandView::ProbeCache { key: session.key() },
            ),
            EventView::RoleMissing => (
                session.at(Stage::Closed(Ending::Refused)),
                CommandView::Refuse,
            ),
            _ => before_join(session, event),
        },
        Stage::Probing => match event {
            EventView::CachePresent => (
                session.at(Stage::Reading),
                CommandView::ReadCache { key: session.key() },
            ),
            EventView::CacheAbsent => match document_id_of(session.document) {
                Some(id) => (session.at(Stage::Fetching), CommandView::FetchDocument { id }),
                None => (session.at(Stage::Reading), CommandView::ReadCache { key: session.key() }),
            },
            _ => before_join(session, event),
        },
        Stage::Fetching => match event {
            EventView::DocumentFound(content) => (
                session.at(Stage::Filling),
                CommandView::WriteCache { key: session.key(), content },
            ),
            EventView::DocumentMissing => (
                session.at(Stage::Reading),
                CommandView::ReadCache { key: session.key() },
            ),
            _ => before_join(session, event),
        },
        Stage::Filling => match event {
            EventView::CacheWritten => (
                session.at(Stage::Reading),
                CommandView::ReadCache { key: session.key() },
            ),
            _ => before_join(session, event),
        },
        Stage::Reading => match event {
            EventView::CacheHit(content) => (
                session.at(Stage::Sending),
                CommandView::SendInitial { content },
            ),
            EventView::CacheMiss => (
                session.at(Stage::Sending),
                CommandView::SendInitial { content: Seq::<char>::empty() },
            ),
            _ => before_join(session, event),
        },
        Stage::Sending => match event {
            EventView::InitialSent => (
                session.at(Stage::Joining),
                CommandView::Attach { document: session.document },
            ),
            _ => before_join(session, event),
        },
        Stage::Joining => match event {
            EventView::Attached(count) => if count == 1 {
                (
                    session.at(Stage::Arming),
                    CommandView::StartIdleTimer { document: session.document },
                )
            } else {
                (
                    session.at(Stage::Streaming),
                    CommandView::Subscribe { channel: session.channel() },
                )
            },
            _ => (session, CommandView::Idle),
        },
        Stage::Arming => match event {
            EventView::TimerStarted => (
                session.at(Stage::Streaming),
                CommandView::Subscribe { channel: session.channel() },
            ),
            _ => (session, CommandView::Idle),
        },
        Stage::Streaming => match event {
            EventView::ClientText(content) => if session.may_write() {
                (
                    session,
                    CommandView::StoreAndPublish {
                        key: session.key(),
                        channel: session.channel(),
                        content,
                    },
                )
            } else {
                (session, CommandView::Idle)
            },
            EventView::FanoutMessage(content) => (session, CommandView::Forward { content }),
            EventView::ClientClosed => (
                session.at(Stage::Detaching),
                CommandView::Detach { document: session.document },
            ),
            EventView::TransportFailed => (
                session.at(Stage::Detaching),
                CommandView::Detach { document: session.document },
            ),
            EventView::BackendFailed => (
                session.at(Stage::Detaching),
                CommandView::Detach { document: session.document },
            ),
            _ => (session, CommandView::Idle),
        },
        Stage::Detaching => match event {
            EventView::Detached(count) => if count == 0 {
                (
                    session.at(Stage::Cancelling),
                    CommandView::CancelIdleTimer { document: session.document },
                )
            } else {
                (session.at(Stage::Closed(Ending::Left)), CommandView::Done)
            },
            EventView::DetachFailed(error) => (
                session.at(Stage::Closed(Ending::RegistryFault(error))),
                CommandView::Done,
            ),
            _ => (session, CommandView::Idle),
        },
        Stage::Cancelling => match event {
            EventView::TimerCancelled => (
                session.at(Stage::Flushing(FlushStage::Reading)),
                CommandView::ReadCache { key: session.key() },
            ),
            _ => (session, CommandView::Idle),
        },
        Stage::Flushing(stage) => {
            let (next, command) = flush_step(session.key(), Eviction::Always, stage, event);
            match next {
                FlushStage::Finished(outcome) => (
                    session.at(Stage::Releasing(outcome)),
                    CommandView::Release { document: session.document },
                ),
                _ => (session.at(Stage::Flushing(next)), command),
            }
        },
        Stage::Releasing(outcome) => match event {
            EventView::Released => (
                session.at(Stage::Closed(Ending::Reconciled(outcome))),
                CommandView::Done,
            ),
            _ => (session, CommandView::Idle),
        },
        Stage::Closed(_) => (session, CommandView::Idle),
    }
}

impl Session {
    /// A session for a connection that has just come in.
    pub fn new(user: String, document: String) -> (session: Session)
        ensures
            session@ == (SessionView {
                user: user@,
                document: document@,
                role: None,
                stage: Stage::Connecting,
            }),
    {
        Session { user, document, role: None, stage: Stage::Connecting }
    }

    /// Whether the session is over.
    pub fn is_closed(&self) -> (closed: bool)
        ensures
            closed == (self@.stage.phase() == Phase::Closed),
    {
        match self.stage {
            Stage::Closed(_) => true,
            _ => false,
        }
    }

    /// Whether the session may change the document.
    pub fn can_write(&self) -> (allowed: bool)
        ensures
            allowed == self@.may_write(),
    {
        match self.role {
            Some(role) => role.can_write(),
            None => false,
        }
    }

    /// Handles an event that the stage does not wait for, before the session
    /// has joined the registry.
    fn leave_early(&mut self, event: Event) -> (command: Command)
        ensures
            (final(self)@, command@) == before_join(old(self)@, event@),
    {
        match event {
            Event::BackendFailed => {
                self.stage = Stage::Closed(Ending::BackendUnavailable);
                Command::Abort
            },
            Event::ClientClosed => {
                self.stage = Stage::Closed(Ending::ConnectionLost);
                Command::Done
            },
            Event::TransportFailed => {
                self.stage = Stage::Closed(Ending::ConnectionLost);
                Command::Done
            },
            _ => Command::Idle,
        }
    }

    /// Moves to the stage that waits for the cache content and asks for it.
    fn read_cache(&mut self) -> (command: Command)
        ensures
            final(self)@ == old(self)@.at(Stage::Reading),
            command@ == (CommandView::ReadCache { key: old(self)@.key() }),
    {
        self.stage = Stage::Reading;
        Command::ReadCache { key: cache_key(self.document.as_str()) }
    }

    /// Moves to the stage that waits for the registry and asks it to
    /// discount the session.
    fn detach(&mut self) -> (command: Command)
        ensures
            final(self)@ == old(self)@.at(Stage::Detaching),
            command@ == (CommandView::Detach { document: old(self)@.document }),
    {
        self.stage = Stage::Detaching;
        Command::Detach { document: self.document.clone() }
    }

    /// Takes what the caller reports and returns what to do next.
    ///
    /// An event that the stage does not wait for changes nothing and is
    /// answered with `Idle`, with two exceptions before the session has
    /// joined the registry: a backend failure and the end of the connection
    /// close the session at once.
    pub fn step(&mut self, event: Event) -> (command: Command)
        ensures
            (final(self)@, command@) == session_step(old(self)@, event@),
    {
        match self.stage {
            Stage::Connecting => match event {
                Event::Accepted => {
                    self.stage = Stage::Authorizing;
                    Command::ResolveRole {
                        user: self.user.clone(),
                        document: self.document.clone(),
                    }
                },
                other => self.leave_early(other),
            },
            Stage::Authorizing => match event {
                Event::RoleGranted(role) => {
                    self.role = Some(role);
                    self.stage = Stage::Probing;
                    Command::ProbeCache { key: cache_key(self.document.as_str()) }
                },
                Event::RoleMissing => {
                    self.stage = Stage::Closed(Ending::Refused);
                    Command::Refuse
                },
                other => self.leave_early(other),
            },
            Stage::Probing => match event {
                Event::CachePresent => self.read_cache(),
                Event::CacheAbsent => match DocumentId::parse(self.document.as_str()) {
                    Some(id) => {
                        self.stage = Stage::Fetching;
                        Command::FetchDocument { id }
                    },
                    None => self.read_cache(),
                },
                other => self.leave_early(other),
            },
            Stage::Fetching => match event {
                Event::DocumentFound(content) => {
                    self.stage = Stage::Filling;
                    Command::WriteCache { key: cache_key(self.document.as_str()), content }
                },
                Event::DocumentMissing => self.read_cache(),
                other => self.leave_early(other),
            },
            Stage::Filling => match event {
                Event::CacheWritten => self.read_cache(),
                other => self.leave_early(other),
            },
            Stage::Reading => match event {
                Event::CacheHit(content) => {
                    self.stage = Stage::Sending;
                    Command::SendInitial { content }
                },
                Event::CacheMiss => {
                    self.stage = Stage::Sending;
                    Command::SendInitial { content: String::new() }
                },
                other => self.leave_early(other),
            },
            Stage::Sending => match event {
                Event::InitialSent => {
                    self.stage = Stage::Joining;
                    Command::Attach { document: self.document.clone() }
                },
                other => self.leave_early(other),
            },
            Stage::Joining => match event {
                Event::Attached(count) => {
                    if count == 1 {
                        self.stage = Stage::Arming;
                        Command::StartIdleTimer { document: self.document.clone() }
                    } else {
                        self.stage = Stage::Streaming;
                        Command::Subscribe { channel: channel_name(self.document.as_str()) }
                    }
                },
                _ => Command::Idle,
            },
            Stage::Arming => match event {
                Event::TimerStarted => {
                    self.stage = Stage::Streaming;
                    Command::Subscribe { channel: channel_name(self.document.as_str()) }
                },
                _ => Command::Idle,
            },
            Stage::Streaming => match event {
                Event::ClientText(content) => {
                    if self.can_write() {
                        Command::StoreAndPublish {
                            key: cache_key(self.document.as_str()),
                            channel: channel_name(self.document.as_str()),
                            content,
                        }
                    } else {
                        Command::Idle
                    }
                },
                Event::FanoutMessage(content) => Command::Forward { content },
                Event::ClientClosed => self.detach(),
                Event::TransportFailed => self.detach(),
                Event::BackendFailed => self.detach(),
                _ => Command::Idle,
            },
            Stage::Detaching => match event {
                Event::Detached(count) => {
                    if count == 0 {
                        self.stage = Stage::Cancelling;
                        Command::CancelIdleTimer { document: self.document.clone() }
                    } else {
                        self.stage = Stage::Closed(Ending::Left);
                        Command::Done
                    }
                },
                Event::DetachFailed(error) => {
                    self.stage = Stage::Closed(Ending::RegistryFault(error));
                    Command::Done
                },
                _ => Command::Idle,
            },
            Stage::Cancelling => match event {
                Event::TimerCancelled => {
                    self.stage = Stage::Flushing(FlushStage::Reading);
                    Command::ReadCache { key: cache_key(self.document.as_str()) }
                },
                _ => Command::Idle,
            },
            Stage::Flushing(stage) => {
                let key = cache_key(self.document.as_str());
                let (next, command) = flush_advance(key.as_str(), Eviction::Always, stage, event);
                match next {
                    FlushStage::Finished(outcome) => {
                        self.stage = Stage::Releasing(outcome);
                        Command::Release { document: self.document.clone() }
                    },
                    _ => {
                        self.stage = Stage::Flushing(next);
                        command
                    },
                }
            },
            Stage::Releasing(outcome) => match event {
                Event::Released => {
                    self.stage = Stage::Closed(Ending::Reconciled(outcome));
                    Command::Done
                },
                _ => Command::Idle,
            },
            Stage::Closed(_) => Command::Idle,
        }
    }
}

} // verus!
