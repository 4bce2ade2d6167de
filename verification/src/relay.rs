//! The relay: a connection that passes on what is published on one channel,
//! and publishes a document's stored content when the client names the
//! document.

use crate::document_id::{document_id_of, hex_text_of, DocumentId};
use crate::protocol::{Command, CommandView, Event, EventView};
use vstd::prelude::*;

verus! {

/// The text that `str::trim` returns for a text: the text without the white
/// space at its two ends.
pub uninterp spec fn trimmed(text: Seq<char>) -> Seq<char>;

/// Calls `str::trim` of the standard library.
///
/// Trusted: what is returned depends on the text alone; it goes by the name
/// `trimmed`, and nothing more is claimed of it.
#[verifier::external_body]
fn trim<'a>(text: &'a str) -> (inner: &'a str)
    ensures
        inner@ == trimmed(text@),
{
    text.trim()
}

/// What a relay waits for.
#[derive(Clone, Copy, Debug, PartialEq, Eq)]
pub enum RelayStage {
    /// For a request of the client or a message of the channel.
    Listening,
    /// For the document that the client asked for.
    Fetching(DocumentId),
    /// For nothing: the connection is over.
    Closed,
}

/// The mathematical content of a [`RelayStage`].
pub enum RelayStageView {
    Listening,
    Fetching(Seq<u8>),
    Closed,
}

impl View for RelayStage {
    type V = RelayStageView;

    open spec fn view(&self) -> RelayStageView {
        match self {
            RelayStage::Listening => RelayStageView::Listening,
            RelayStage::Fetching(id) => RelayStageView::Fetching(id@),
            RelayStage::Closed => RelayStageView::Closed,
        }
    }
}

/// What a listening relay does with a request, given the request without
/// the white space around it: a document key is fetched, anything else is
/// passed over.
pub open spec fn relay_request(request: Seq<char>) -> (RelayStageView, CommandView) {
    match document_id_of(request) {
        Some(id) => (RelayStageView::Fetching(id), CommandView::FetchDocument { id }),
        None => (RelayStageView::Listening, CommandView::Idle),
    }
}

/// One step of a relay: the stage it moves to and what it asks for.
pub open spec fn relay_step(stage: RelayStageView, event: EventView) -> (
    RelayStageView,
    CommandView,
) {
    match stage {
        RelayStageView::Listening => match event {
            EventView::ClientText(text) => relay_request(trimmed(text)),
            EventView::FanoutMessage(content) => (
                RelayStageView::Listening,
                CommandView::Forward { content },
            ),
            EventView::ClientClosed => (RelayStageView::Closed, CommandView::Done),
            EventView::TransportFailed => (RelayStageView::Closed, CommandView::Done),
            EventView::BackendFailed => (RelayStageView::Closed, CommandView::Done),
            _ => (stage, CommandView::Idle),
        },
        RelayStageView::Fetching(id) => match event {
            EventView::DocumentFound(content) => (
                RelayStageView::Listening,
                CommandView::Publish { channel: hex_text_of(id), content },
            ),
            EventView::DocumentMissing => (RelayStageView::Listening, CommandView::Idle),
            EventView::BackendFailed => (RelayStageView::Closed, CommandView::Done),
            _ => (stage, CommandView::Idle),
        },
        RelayStageView::Closed => (stage, CommandView::Idle),
    }
}

/// Decides over a request of the client, given the request without the
/// white space around it.
pub fn request(text: &str) -> (next: (RelayStage, Command))
    ensures
        (next.0@, next.1@) == relay_request(text@),
{
    match DocumentId::parse(text) {
        Some(id) => (RelayStage::Fetching(id), Command::FetchDocument { id }),
        None => (RelayStage::Listening, Command::Idle),
    }
}

/// One relay connection.
#[derive(Debug)]
pub struct Relay {
    /// What the relay waits for.
    pub stage: RelayStage,
}

impl Relay {
    /// A relay that listens.
    pub fn new() -> (relay: Relay)
        ensures
            relay.stage@ == RelayStageView::Listening,
    {
        Relay { stage: RelayStage::Listening }
    }

    /// Takes what the caller reports and returns what to do next. A found
    /// document is published on the channel that bears the textual form of
    /// its identifier.
    pub fn step(&mut self, event: Event) -> (command: Command)
        ensures
            (final(self).stage@, command@) == relay_step(old(self).stage@, event@),
    {
        match self.stage {
            RelayStage::Listening => match event {
                Event::ClientText(text) => {
                    let (stage, command) = request(trim(text.as_str()));
                    self.stage = stage;
                    command
                },
                Event::FanoutMessage(content) => Command::Forward { content },
                Event::ClientClosed => {
                    self.stage = RelayStage::Closed;
                    Command::Done
                },
                Event::TransportFailed => {
                    self.stage = RelayStage::Closed;
                    Command::Done
                },
                Event::BackendFailed => {
                    self.stage = RelayStage::Closed;
                    Command::Done
                },
                _ => Command::Idle,
            },
            RelayStage::Fetching(id) => match event {
                Event::DocumentFound(content) => {
                    self.stage = RelayStage::Listening;
                    Command::Publish { channel: id.to_hex(), content }
                },
                Event::DocumentMissing => {
                    self.stage = RelayStage::Listening;
                    Command::Idle
                },
                Event::BackendFailed => {
                    self.stage = RelayStage::Closed;
                    Command::Done
                },
                _ => Command::Idle,
            },
            RelayStage::Closed => Command::Idle,
        }
    }
}

} // verus!
