//! The session registry: how many sessions are attached to each document.

use crate::protocol::{Command, CommandView, Event, EventView};
use vstd::hash_map::StringHashMap;
use vstd::prelude::*;

verus! {

/// Why a decrement could not be carried out. Either one points at a
/// bookkeeping defect elsewhere and is to be reported.
#[derive(Clone, Copy, Debug, PartialEq, Eq, Structural)]
pub enum RegistryError {
    /// The registry has no entry for the document.
    NotFound,
    /// The entry already stands at zero.
    Underflow,
}

/// The number of sessions that a table of counts records for a document: the
/// entry's value, or zero where the table has no entry.
pub open spec fn attached_in(counts: Map<Seq<char>, nat>, document: Seq<char>) -> nat {
    if counts.contains_key(document) {
        counts[document]
    } else {
        0
    }
}

/// The table after one more session has attached to a document.
pub open spec fn after_increment(counts: Map<Seq<char>, nat>, document: Seq<char>) -> Map<
    Seq<char>,
    nat,
> {
    counts.insert(document, attached_in(counts, document) + 1)
}

/// What a decrement answers on a table of counts.
pub open spec fn decrement_outcome(counts: Map<Seq<char>, nat>, document: Seq<char>) -> Result<
    nat,
    RegistryError,
> {
    if !counts.contains_key(document) {
        Err(RegistryError::NotFound)
    } else if counts[document] == 0 {
        Err(RegistryError::Underflow)
    } else {
        Ok((counts[document] - 1) as nat)
    }
}

/// The table after a decrement: the entry is lowered by one where the
/// decrement succeeds, and the table is left alone where it fails.
pub open spec fn after_decrement(counts: Map<Seq<char>, nat>, document: Seq<char>) -> Map<
    Seq<char>,
    nat,
> {
    match decrement_outcome(counts, document) {
        Ok(count) => counts.insert(document, count),
        Err(_) => counts,
    }
}

/// What a lookup answers on a table of counts.
pub open spec fn lookup(counts: Map<Seq<char>, nat>, document: Seq<char>) -> Option<nat> {
    if counts.contains_key(document) {
        Some(counts[document])
    } else {
        None
    }
}

/// What a command does to a table of counts, and the event that answers it.
/// Four commands act on the registry; the others leave it alone and are not
/// answered by it.
pub open spec fn registry_answer(counts: Map<Seq<char>, nat>, command: CommandView) -> (
    Map<Seq<char>, nat>,
    Option<EventView>,
) {
    match command {
        CommandView::Attach { document } => (
            after_increment(counts, document),
            Some(EventView::Attached(attached_in(counts, document) + 1)),
        ),
        CommandView::Detach { document } => (
            after_decrement(counts, document),
            Some(
                match decrement_outcome(counts, document) {
                    Ok(count) => EventView::Detached(count),
                    Err(error) => EventView::DetachFailed(error),
                },
            ),
        ),
        CommandView::CountSessions { document } => (
            counts,
            Some(EventView::SessionsCounted(lookup(counts, document))),
        ),
        CommandView::Release { document } => (counts.remove(document), Some(EventView::Released)),
        _ => (counts, None),
    }
}

/// The mathematical content of an event that may be absent.
pub open spec fn answer_view(event: Option<Event>) -> Option<EventView> {
    match event {
        Some(e) => Some(e@),
        None => None,
    }
}

/// Count of attached sessions per document identifier.
///
/// The registry itself is single-threaded. Where sessions run concurrently,
/// the caller keeps it behind a lock and holds that lock over each compound
/// operation: from a decrement that reaches zero until the entry is removed.
pub struct Registry {
    counts: StringHashMap<usize>,
}

impl View for Registry {
    type V = Map<Seq<char>, nat>;

    closed spec fn view(&self) -> Map<Seq<char>, nat> {
        Map::new(
            |document: Seq<char>| self.counts@.contains_key(document),
            |document: Seq<char>| self.counts@[document] as nat,
        )
    }
}

impl Registry {
    /// The number of sessions attached to a document; zero where the
    /// registry has no entry for it.
    pub open spec fn attached(&self, document: Seq<char>) -> nat {
        attached_in(self@, document)
    }

    /// A registry without entries.
    pub fn new() -> (registry: Registry)
        ensures
            registry@ == Map::<Seq<char>, nat>::empty(),
    {
        let registry = Registry { counts: StringHashMap::new() };
        registry
    }

    /// The entry of a document, if it has one.
    pub fn sessions(&self, document: &str) -> (count: Option<usize>)
        ensures
            count is Some <==> self@.contains_key(document@),
            count matches Some(n) ==> n == self@[document@],
    {
        match self.counts.get(document) {
            Some(n) => Some(*n),
            None => None,
        }
    }

    /// Whether no session is attached to a document: its entry is missing or
    /// stands at zero. A cache entry of such a document may be reclaimed.
    pub fn is_unattached(&self, document: &str) -> (unattached: bool)
        ensures
            unattached == (self.attached(document@) == 0),
    {
        match self.counts.get(document) {
            Some(n) => *n == 0,
            None => true,
        }
    }

    /// Records one more session on a document: the entry is created at one if
    /// absent and raised by one otherwise. Returns the new count.
    pub fn increment(&mut self, document: &str) -> (count: usize)
        requires
            old(self).attached(document@) < usize::MAX,
        ensures
            count == old(self).attached(document@) + 1,
            final(self)@ == after_increment(old(self)@, document@),
    {
        let count: usize = match self.counts.get(document) {
            Some(n) => *n + 1,
            None => 1,
        };
        self.counts.insert(document.to_owned(), count);
        count
    }

    /// Records that a session has left a document: an existing entry above
    /// zero is lowered by one and the new count returned. A missing entry and
    /// an entry at zero are reported, and the registry is left as it was.
    pub fn decrement(&mut self, document: &str) -> (outcome: Result<usize, RegistryError>)
        ensures
            match outcome {
                Ok(count) => decrement_outcome(old(self)@, document@) == Ok::<
                    nat,
                    RegistryError,
                >(count as nat),
                Err(e) => decrement_outcome(old(self)@, document@) == Err::<nat, RegistryError>(e),
            },
            final(self)@ == after_decrement(old(self)@, document@),
    {
        let current: usize = match self.counts.get(document) {
            Some(n) => *n,
            None => {
                return Err(RegistryError::NotFound);
            },
        };
        if current == 0 {
            return Err(RegistryError::Underflow);
        }
        let count: usize = current - 1;
        self.counts.insert(document.to_owned(), count);
        Ok(count)
    }

    /// Drops the entry of a document, whatever its count.
    pub fn remove(&mut self, document: &str)
        ensures
            final(self)@ == old(self)@.remove(document@),
    {
        self.counts.remove(document);
    }

    /// Carries out a command that acts on the registry and returns the event
    /// that answers it; any other command changes nothing and gets `None`.
    /// The caller has exclusive access while this runs, and keeps it for as
    /// long as the command's description says.
    pub fn answer(&mut self, command: &Command) -> (event: Option<Event>)
        requires
            command matches Command::Attach { document } ==> old(self).attached(document@)
                < usize::MAX,
        ensures
            (final(self)@, answer_view(event)) == registry_answer(old(self)@, command@),
    {
        match command {
            Command::Attach { document } => {
                let count = self.increment(document.as_str());
                Some(Event::Attached(count))
            },
            Command::Detach { document } => match self.decrement(document.as_str()) {
                Ok(count) => Some(Event::Detached(count)),
                Err(error) => Some(Event::DetachFailed(error)),
            },
            Command::CountSessions { document } => {
                let count = self.sessions(document.as_str());
                Some(Event::SessionsCounted(count))
            },
            Command::Release { document } => {
                self.remove(document.as_str());
                Some(Event::Released)
            },
            _ => None,
        }
    }
}

} // verus!
