//! The periodic sweep: every live cache entry is flushed to the durable
//! store, and the entries that no session is attached to are reclaimed.
//!
//! The keys are taken in the order in which they were enumerated. However
//! the flush of one key ends, the sweep goes on to the next.

use crate::flush::{flush_advance, flush_step, Eviction, FlushOutcome, FlushStage};
use crate::protocol::{Command, CommandView, Event, EventView};
use vstd::prelude::*;

verus! {

/// The number of seconds between the end of one sweep and the start of the
/// next.
pub const SWEEP_INTERVAL_SECS: u64 = 10;

/// The texts of a list of strings, one for one.
pub open spec fn texts_of(strings: Seq<String>) -> Seq<Seq<char>> {
    Seq::new(strings.len(), |i: int| strings[i]@)
}

/// One pass over the keys of the live cache.
#[derive(Debug)]
pub struct Sweep {
    /// The keys as enumerated.
    pub keys: Vec<String>,
    /// How the flush of each key ended, for the keys done so far.
    pub outcomes: Vec<FlushOutcome>,
    /// How far the flush of the current key has come.
    pub stage: FlushStage,
}

/// The mathematical content of a [`Sweep`].
pub struct SweepView {
    pub keys: Seq<Seq<char>>,
    pub outcomes: Seq<FlushOutcome>,
    pub stage: FlushStage,
}

impl View for Sweep {
    type V = SweepView;

    open spec fn view(&self) -> SweepView {
        SweepView { keys: texts_of(self.keys@), outcomes: self.outcomes@, stage: self.stage }
    }
}

impl SweepView {
    /// Whether every key has been dealt with.
    pub open spec fn finished(self) -> bool {
        self.outcomes.len() >= self.keys.len()
    }

    /// The command that opens the flush of the key after the ones done:
    /// `Done` where none is left.
    pub open spec fn opening(self) -> CommandView {
        if self.finished() {
            CommandView::Done
        } else {
            CommandView::ReadCache { key: self.keys[self.outcomes.len() as int] }
        }
    }
}

/// One step of a sweep: the sweep afterwards and what it asks for, given the
/// sweep before and what is reported. When the flush of the current key
/// ends, however it ends, the outcome is recorded and the next key is begun.
pub open spec fn sweep_step(sweep: SweepView, event: EventView) -> (SweepView, CommandView) {
    if sweep.finished() {
        (sweep, CommandView::Idle)
    } else {
        let key = sweep.keys[sweep.outcomes.len() as int];
        let (next, command) = flush_step(key, Eviction::IfUnattached, sweep.stage, event);
        match next {
            FlushStage::Finished(outcome) => {
                let moved = SweepView {
                    outcomes: sweep.outcomes.push(outcome),
                    stage: FlushStage::Reading,
                    ..sweep
                };
                (moved, moved.opening())
            },
            _ => (SweepView { stage: next, ..sweep }, command),
        }
    }
}

impl Sweep {
    /// Begins a sweep over the enumerated keys. The first command reads the
    /// first key; with no keys the sweep is done at once.
    pub fn start(keys: Vec<String>) -> (begun: (Sweep, Command))
        ensures
            begun.0@ == (SweepView {
                keys: texts_of(keys@),
                outcomes: Seq::<FlushOutcome>::empty(),
                stage: FlushStage::Reading,
            }),
            begun.1@ == begun.0@.opening(),
    {
        let sweep = Sweep { keys, outcomes: Vec::new(), stage: FlushStage::Reading };
        let command = sweep.open_next();
        (sweep, command)
    }

    /// Whether every key has been dealt with.
    pub fn is_finished(&self) -> (finished: bool)
        ensures
            finished == self@.finished(),
    {
        self.outcomes.len() >= self.keys.len()
    }

    /// The command that opens the flush of the next key.
    fn open_next(&self) -> (command: Command)
        ensures
            command@ == self@.opening(),
    {
        let done: usize = self.outcomes.len();
        if done < self.keys.len() {
            Command::ReadCache { key: self.keys[done].clone() }
        } else {
            Command::Done
        }
    }

    /// Takes what the caller reports and returns what to do next; `Done`
    /// when the last key has just been dealt with.
    pub fn step(&mut self, event: Event) -> (command: Command)
        ensures
            (final(self)@, command@) == sweep_step(old(self)@, event@),
    {
        let done: usize = self.outcomes.len();
        if done >= self.keys.len() {
            return Command::Idle;
        }
        let (next, command) = flush_advance(
            self.keys[done].as_str(),
            Eviction::IfUnattached,
            self.stage,
            event,
        );
        match next {
            FlushStage::Finished(outcome) => {
                self.outcomes.push(outcome);
                self.stage = FlushStage::Reading;
                self.open_next()
            },
            _ => {
                self.stage = next;
                command
            },
        }
    }
}

} // verus!
