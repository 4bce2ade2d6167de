//! The vocabulary shared by the caller and the state machines of this crate:
//! what the caller is asked to do, and what it reports back.

use crate::document_id::DocumentId;
use crate::registry::RegistryError;
use crate::role::Role;
use vstd::prelude::*;

verus! {

/// What the caller reports to a state machine: the result of the command it
/// was last given, or something that happened on the connection.
#[derive(Debug, PartialEq, Eq)]
pub enum Event {
    /// The connection was accepted.
    Accepted,
    /// The permission query found this role for the user.
    RoleGranted(Role),
    /// The permission query found no grant in either relation.
    RoleMissing,
    /// The live cache holds an entry under the key asked for.
    CachePresent,
    /// The live cache holds no entry under the key asked for.
    CacheAbsent,
    /// The durable store holds the document, with this content.
    DocumentFound(String),
    /// The durable store holds no such document.
    DocumentMissing,
    /// The content was written to the live cache.
    CacheWritten,
    /// The live cache returned this content.
    CacheHit(String),
    /// The live cache has nothing under the key.
    CacheMiss,
    /// The first message reached the client.
    InitialSent,
    /// The registry was incremented; this is the new count.
    Attached(usize),
    /// The client sent a text message: the new full content.
    ClientText(String),
    /// The fan-out channel delivered a message.
    FanoutMessage(String),
    /// The client closed the connection, or its stream of messages ended.
    ClientClosed,
    /// Sending to or receiving from the client failed.
    TransportFailed,
    /// The cache, the channel or a store could not carry out the command.
    BackendFailed,
    /// The registry was decremented; this is the new count.
    Detached(usize),
    /// The registry could not be decremented.
    DetachFailed(RegistryError),
    /// The idle-flush timer of the document runs.
    TimerStarted,
    /// The idle-flush timer of the document is stopped, or there was none.
    TimerCancelled,
    /// The content was written to the durable store.
    StoreWritten,
    /// The cache entry was deleted.
    CacheDeleted,
    /// The registry entry of the document, if it has one.
    SessionsCounted(Option<usize>),
    /// The registry entry of the document was removed.
    Released,
}

/// The mathematical content of an [`Event`].
pub enum EventView {
    Accepted,
    RoleGranted(Role),
    RoleMissing,
    CachePresent,
    CacheAbsent,
    DocumentFound(Seq<char>),
    DocumentMissing,
    CacheWritten,
    CacheHit(Seq<char>),
    CacheMiss,
    InitialSent,
    Attached(nat),
    ClientText(Seq<char>),
    FanoutMessage(Seq<char>),
    ClientClosed,
    TransportFailed,
    BackendFailed,
    Detached(nat),
    DetachFailed(RegistryError),
    TimerStarted,
    TimerCancelled,
    StoreWritten,
    CacheDeleted,
    SessionsCounted(Option<nat>),
    Released,
}

impl View for Event {
    type V = EventView;

    open spec fn view(&self) -> EventView {
        match self {
            Event::Accepted => EventView::Accepted,
            Event::RoleGranted(role) => EventView::RoleGranted(*role),
            Event::RoleMissing => EventView::RoleMissing,
            Event::CachePresent => EventView::CachePresent,
            Event::CacheAbsent => EventView::CacheAbsent,
            Event::DocumentFound(content) => EventView::DocumentFound(content@),
            Event::DocumentMissing => EventView::DocumentMissing,
            Event::CacheWritten => EventView::CacheWritten,
            Event::CacheHit(content) => EventView::CacheHit(content@),
            Event::CacheMiss => EventView::CacheMiss,
            Event::InitialSent => EventView::InitialSent,
            Event::Attached(count) => EventView::Attached(*count as nat),
            Event::ClientText(content) => EventView::ClientText(content@),
            Event::FanoutMessage(content) => EventView::FanoutMessage(content@),
            Event::ClientClosed => EventView::ClientClosed,
            Event::TransportFailed => EventView::TransportFailed,
            Event::BackendFailed => EventView::BackendFailed,
            Event::Detached(count) => EventView::Detached(*count as nat),
            Event::DetachFailed(error) => EventView::DetachFailed(*error),
            Event::TimerStarted => EventView::TimerStarted,
            Event::TimerCancelled => EventView::TimerCancelled,
            Event::StoreWritten => EventView::StoreWritten,
            Event::CacheDeleted => EventView::CacheDeleted,
            Event::SessionsCounted(count) => EventView::SessionsCounted(
                match count {
                    Some(n) => Some(*n as nat),
                    None => None,
                },
            ),
            Event::Released => EventView::Released,
        }
    }
}

/// What a state machine asks the caller to do next.
#[derive(Debug, PartialEq, Eq)]
pub enum Command {
    /// Query both grant relations for the pair. Answer with `RoleGranted`,
    /// `RoleMissing` or `BackendFailed`.
    ResolveRole { user: String, document: String },
    /// Refuse the connection as unauthorized, before any message is
    /// exchanged.
    Refuse,
    /// Close the connection: a backend was unavailable.
    Abort,
    /// Ask the live cache whether the key exists. Answer with `CachePresent`,
    /// `CacheAbsent` or `BackendFailed`.
    ProbeCache { key: String },
    /// Fetch the document from the durable store. Answer with
    /// `DocumentFound`, `DocumentMissing` or `BackendFailed`.
    FetchDocument { id: DocumentId },
    /// Set the key in the live cache. Answer with `CacheWritten` or
    /// `BackendFailed`.
    WriteCache { key: String, content: String },
    /// Get the key from the live cache. Answer with `CacheHit`, `CacheMiss`
    /// or `BackendFailed`.
    ReadCache { key: String },
    /// Send the content to the client as the first message. Answer with
    /// `InitialSent` or `TransportFailed`.
    SendInitial { content: String },
    /// Increment the registry entry of the document. Answer with `Attached`.
    Attach { document: String },
    /// Start the idle-flush timer of the document, unless one runs. Answer
    /// with `TimerStarted`.
    StartIdleTimer { document: String },
    /// Subscribe to the channel and start both message flows. Nothing is
    /// answered; from now on report what arrives on either flow.
    Subscribe { channel: String },
    /// Set the key in the live cache, then publish the content on the
    /// channel. Report `BackendFailed` if either fails.
    StoreAndPublish { key: String, channel: String, content: String },
    /// Send the content to the client. Report `TransportFailed` if that
    /// fails.
    Forward { content: String },
    /// Publish the content on the channel. Report `BackendFailed` if that
    /// fails.
    Publish { channel: String, content: String },
    /// Stop both message flows, take exclusive access to the registry and
    /// decrement the entry of the document. Answer with `Detached` or
    /// `DetachFailed`. Exclusive access is kept until the machine asks for
    /// `Release` or says `Done`.
    Detach { document: String },
    /// Stop the idle-flush timer of the document if one runs. Answer with
    /// `TimerCancelled`.
    CancelIdleTimer { document: String },
    /// Write the content into the document's record in the durable store.
    /// Answer with `StoreWritten` or `BackendFailed`.
    WriteStore { id: DocumentId, content: String },
    /// Delete the key from the live cache. Answer with `CacheDeleted` or
    /// `BackendFailed`.
    DeleteCache { key: String },
    /// Look up the registry entry of the document, under exclusive access
    /// that is kept until the next `ReadCache` or `Done`. Answer with
    /// `SessionsCounted`.
    CountSessions { document: String },
    /// Remove the registry entry of the document, then give up exclusive
    /// access. Answer with `Released`.
    Release { document: String },
    /// The machine has finished; nothing is left to do.
    Done,
    /// Nothing to do for this event.
    Idle,
}

/// The mathematical content of a [`Command`].
pub enum CommandView {
    ResolveRole { user: Seq<char>, document: Seq<char> },
    Refuse,
    Abort,
    ProbeCache { key: Seq<char> },
    FetchDocument { id: Seq<u8> },
    WriteCache { key: Seq<char>, content: Seq<char> },
    ReadCache { key: Seq<char> },
    SendInitial { content: Seq<char> },
    Attach { document: Seq<char> },
    StartIdleTimer { document: Seq<char> },
    Subscribe { channel: Seq<char> },
    StoreAndPublish { key: Seq<char>, channel: Seq<char>, content: Seq<char> },
    Forward { content: Seq<char> },
    Publish { channel: Seq<char>, content: Seq<char> },
    Detach { document: Seq<char> },
    CancelIdleTimer { document: Seq<char> },
    WriteStore { id: Seq<u8>, content: Seq<char> },
    DeleteCache { key: Seq<char> },
    CountSessions { document: Seq<char> },
    Release { document: Seq<char> },
    Done,
    Idle,
}

impl View for Command {
    type V = CommandView;

    open spec fn view(&self) -> CommandView {
        match self {
            Command::ResolveRole { user, document } => CommandView::ResolveRole {
                user: user@,
                document: document@,
            },
            Command::Refuse => CommandView::Refuse,
            Command::Abort => CommandView::Abort,
            Command::ProbeCache { key } => CommandView::ProbeCache { key: key@ },
            Command::FetchDocument { id } => CommandView::FetchDocument { id: id@ },
            Command::WriteCache { key, content } => CommandView::WriteCache {
                key: key@,
                content: content@,
            },
            Command::ReadCache { key } => CommandView::ReadCache { key: key@ },
            Command::SendInitial { content } => CommandView::SendInitial { content: content@ },
            Command::Attach { document } => CommandView::Attach { document: document@ },
            Command::StartIdleTimer { document } => CommandView::StartIdleTimer {
                document: document@,
            },
            Command::Subscribe { channel } => CommandView::Subscribe { channel: channel@ },
            Command::StoreAndPublish { key, channel, content } => CommandView::StoreAndPublish {
                key: key@,
                channel: channel@,
                content: content@,
            },
            Command::Forward { content } => CommandView::Forward { content: content@ },
            Command::Publish { channel, content } => CommandView::Publish {
                channel: channel@,
                content: content@,
            },
            Command::Detach { document } => CommandView::Detach { document: document@ },
            Command::CancelIdleTimer { document } => CommandView::CancelIdleTimer {
                document: document@,
            },
            Command::WriteStore { id, content } => CommandView::WriteStore {
                id: id@,
                content: content@,
            },
            Command::DeleteCache { key } => CommandView::DeleteCache { key: key@ },
            Command::CountSessions { document } => CommandView::CountSessions {
                document: document@,
            },
            Command::Release { document } => CommandView::Release { document: document@ },
            Command::Done => CommandView::Done,
            Command::Idle => CommandView::Idle,
        }
    }
}

} // verus!
