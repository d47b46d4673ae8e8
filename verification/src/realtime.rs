use vstd::prelude::*;
use crate::error::WiiBoardError;
use crate::reading::WiiBoardData;
use crate::reading::WiiBoardPoll;

verus! {

/// What the acquisition loop is to do next, or why it has stopped.
#[derive(Debug, Clone, Copy, PartialEq, Eq)]
pub enum Acquisition {
    /// Connect to a board, waiting up to `timeout_seconds` for one to show
    /// up; report how that went.
    Connect { timeout_seconds: u32 },
    /// Probe the board now; report what the probe gave.
    Poll,
    /// Sleep for `millis` milliseconds, then probe the board; report what
    /// the probe gave.
    SleepThenPoll { millis: u64 },
    /// The loop is over for good. Nothing is left to do but to end the
    /// worker.
    Stopped(WiiBoardError),
}

/// What the acquisition loop reports back after a step.
#[derive(Debug, Clone, Copy, PartialEq, Eq)]
pub enum WorkerEvent {
    /// How connecting went.
    Connected(Result<(), WiiBoardError>),
    /// What a probe of the board gave.
    Polled(Result<WiiBoardPoll, WiiBoardError>),
}

/// The state of a realtime board as contracts see it.
pub struct RealtimeState {
    /// How long the loop sleeps after a probe that found nothing.
    pub interval_ms: u64,
    /// What the loop is to do next.
    pub stage: Acquisition,
    /// The single slot: the most recent balance reading, if there is one.
    pub latest: Option<WiiBoardData>,
}

/// A board whose readings are acquired in the background.
///
/// The value is the whole of what worker and caller share: the stage of the
/// acquisition loop and a single slot with the latest reading. One worker
/// drives it with [`WiiBoardRealtime::handle`]; the caller samples it with
/// [`WiiBoardRealtime::poll`], which never touches the device. Whoever holds
/// it puts a lock around it.
#[derive(Debug)]
pub struct WiiBoardRealtime {
    interval_ms: u64,
    stage: Acquisition,
    latest: Option<WiiBoardData>,
}

impl Acquisition {
    /// Whether the loop is waiting for the result of a probe.
    pub open spec fn is_polling(self) -> bool {
        self is Poll || self is SleepThenPoll
    }
}

impl RealtimeState {
    /// A board that nothing has happened to yet: the loop is to connect, and
    /// the slot is empty.
    pub open spec fn start(timeout_s: u32, interval_ms: u64) -> RealtimeState {
        RealtimeState {
            interval_ms,
            stage: Acquisition::Connect { timeout_seconds: timeout_s },
            latest: None,
        }
    }

    /// The reading that `event` puts into the slot, if it puts one there:
    /// the balance reading of a probe that the loop was waiting for.
    pub open spec fn publication(self, event: WorkerEvent) -> Option<WiiBoardData> {
        match event {
            WorkerEvent::Polled(Ok(WiiBoardPoll::Balance(reading))) if self.stage.is_polling() => Some(
                reading,
            ),
            _ => None,
        }
    }

    /// The stage that follows `event`.
    ///
    /// A connection that came about starts the probing; one that did not
    /// stops the loop with the error. A probe that found nothing is followed
    /// by a sleep of the interval, any other probe that went through by the
    /// next probe at once, and a probe that failed stops the loop with the
    /// error. A report that does not answer the pending step changes
    /// nothing, and nothing changes once the loop has stopped.
    pub open spec fn next_stage(self, event: WorkerEvent) -> Acquisition {
        match (self.stage, event) {
            (Acquisition::Connect { .. }, WorkerEvent::Connected(Ok(_))) => Acquisition::Poll,
            (Acquisition::Connect { .. }, WorkerEvent::Connected(Err(error))) => Acquisition::Stopped(
                error,
            ),
            (Acquisition::Poll, WorkerEvent::Polled(found))
            | (Acquisition::SleepThenPoll { .. }, WorkerEvent::Polled(found)) => match found {
                Ok(WiiBoardPoll::Empty) => Acquisition::SleepThenPoll { millis: self.interval_ms },
                Ok(_) => Acquisition::Poll,
                Err(error) => Acquisition::Stopped(error),
            },
            _ => self.stage,
        }
    }

    /// The board after `event`: the stage moves on, and a published reading
    /// overwrites the slot; without one the slot keeps what it had.
    pub open spec fn handle(self, event: WorkerEvent) -> RealtimeState {
        RealtimeState {
            interval_ms: self.interval_ms,
            stage: self.next_stage(event),
            latest: match self.publication(event) {
                Some(reading) => Some(reading),
                None => self.latest,
            },
        }
    }

    /// The board after all of `events`, in order.
    pub open spec fn run(self, events: Seq<WorkerEvent>) -> RealtimeState
        decreases events.len(),
    {
        if events.len() == 0 {
            self
        } else {
            self.run(events.drop_last()).handle(events.last())
        }
    }

    /// The readings that `events` put into the slot, in order.
    pub open spec fn publications(self, events: Seq<WorkerEvent>) -> Seq<WiiBoardData>
        decreases events.len(),
    {
        if events.len() == 0 {
            Seq::empty()
        } else {
            let earlier = self.publications(events.drop_last());
            match self.run(events.drop_last()).publication(events.last()) {
                Some(reading) => earlier.push(reading),
                None => earlier,
            }
        }
    }
}

/// What a caller reads off a board that a lock guards: the slot as it is,
/// or `MutexPoisoned` where the lock gave nothing (`None`).
pub open spec fn sampled(locked: Option<RealtimeState>) -> Result<
    Option<WiiBoardData>,
    WiiBoardError,
> {
    match locked {
        Some(state) => Ok(state.latest),
        None => Err(WiiBoardError::MutexPoisoned),
    }
}

impl View for WiiBoardRealtime {
    type V = RealtimeState;

    closed spec fn view(&self) -> RealtimeState {
        RealtimeState { interval_ms: self.interval_ms, stage: self.stage, latest: self.latest }
    }
}

impl WiiBoardRealtime {
    /// A board that is yet to be connected: the first step of its loop is to
    /// connect with a discovery timeout of `timeout_s` seconds, each probe
    /// that finds nothing will be followed by a sleep of `interval_ms`
    /// milliseconds, and there is no reading yet.
    pub fn new(timeout_s: u32, interval_ms: u64) -> (board: WiiBoardRealtime)
        ensures
            board@ == RealtimeState::start(timeout_s, interval_ms),
    {
        WiiBoardRealtime {
            interval_ms,
            stage: Acquisition::Connect { timeout_seconds: timeout_s },
            latest: None,
        }
    }

    /// What the acquisition loop is to do next.
    pub fn stage(&self) -> (stage: Acquisition)
        ensures
            stage == self@.stage,
    {
        self.stage
    }

    /// Takes the loop's report on the step it carried out, publishes the
    /// reading if the report brings one, and gives the next step.
    pub fn handle(&mut self, event: WorkerEvent) -> (next: Acquisition)
        ensures
            final(self)@ == old(self)@.handle(event),
            next == final(self)@.stage,
    {
        match (self.stage, event) {
            (Acquisition::Connect { .. }, WorkerEvent::Connected(Ok(_))) => {
                self.stage = Acquisition::Poll;
            },
            (Acquisition::Connect { .. }, WorkerEvent::Connected(Err(error))) => {
                self.stage = Acquisition::Stopped(error);
            },
            (Acquisition::Poll, WorkerEvent::Polled(found))
            | (Acquisition::SleepThenPoll { .. }, WorkerEvent::Polled(found)) => {
                match found {
                    Ok(WiiBoardPoll::Empty) => {
                        self.stage = Acquisition::SleepThenPoll { millis: self.interval_ms };
                    },
                    Ok(WiiBoardPoll::Other) => {
                        self.stage = Acquisition::Poll;
                    },
                    Ok(WiiBoardPoll::Balance(reading)) => {
                        self.latest = Some(reading);
                        self.stage = Acquisition::Poll;
                    },
                    Err(error) => {
                        self.stage = Acquisition::Stopped(error);
                    },
                }
            },
            _ => {},
        }
        self.stage
    }

    /// Samples the board through the lock that guards it: `locked` is the
    /// board as the lock hands it out, `None` where the lock is poisoned.
    /// Gives the most recent reading, `None` while there is none yet, and
    /// fails with `MutexPoisoned` on a poisoned lock and on nothing else.
    pub fn poll(locked: Option<&WiiBoardRealtime>) -> (reading: Result<
        Option<WiiBoardData>,
        WiiBoardError,
    >)
        ensures
            reading == sampled(
                match locked {
                    Some(board) => Some(board@),
                    None => None,
                },
            ),
    {
        match locked {
            Some(board) => Ok(board.latest),
            None => Err(WiiBoardError::MutexPoisoned),
        }
    }
}

/// The slot always holds the latest publication: after any events, a board
/// that started out with an empty slot has no reading if none of them
/// published one, and otherwise has the reading published last. No
/// publication is lost and none is read a second time once a newer one has
/// landed.
pub proof fn lemma_slot_holds_last_publication(
    timeout_s: u32,
    interval_ms: u64,
    events: Seq<WorkerEvent>,
)
    ensures
        ({
            let start = RealtimeState::start(timeout_s, interval_ms);
            let published = start.publications(events);
            start.run(events).latest == if published.len() == 0 {
                None
            } else {
                Some(published.last())
            }
        }),
{
    RealtimeState::start(timeout_s, interval_ms).lemma_slot_after(events);
}

/// What a caller samples is never made up: a reading that comes out of a
/// board that started with an empty slot was published by one of the events
/// before.
pub proof fn lemma_sample_was_published(
    timeout_s: u32,
    interval_ms: u64,
    events: Seq<WorkerEvent>,
    reading: WiiBoardData,
)
    requires
        sampled(Some(RealtimeState::start(timeout_s, interval_ms).run(events))) == Ok::<
            Option<WiiBoardData>,
            WiiBoardError,
        >(Some(reading)),
    ensures
        RealtimeState::start(timeout_s, interval_ms).publications(events).contains(reading),
        exists|i: int|
            0 <= i < events.len() && events[i] == WorkerEvent::Polled(
                Ok(WiiBoardPoll::Balance(reading)),
            ),
{
    let start = RealtimeState::start(timeout_s, interval_ms);
    start.lemma_slot_after(events);
    let published = start.publications(events);
    assert(published[published.len() - 1] == reading);
    start.lemma_publications_are_polled(events, published.len() - 1);
}

impl RealtimeState {
    /// After any events the slot holds the last publication among them, or
    /// what it held before if there was none.
    pub proof fn lemma_slot_after(self, events: Seq<WorkerEvent>)
        ensures
            self.run(events).latest == if self.publications(events).len() == 0 {
                self.latest
            } else {
                Some(self.publications(events).last())
            },
            self.run(events).interval_ms == self.interval_ms,
        decreases events.len(),
    {
        if events.len() > 0 {
            self.lemma_slot_after(events.drop_last());
        }
    }

    /// Each publication is the balance reading of one of the events.
    pub proof fn lemma_publications_are_polled(self, events: Seq<WorkerEvent>, k: int)
        requires
            0 <= k < self.publications(events).len(),
        ensures
            exists|i: int|
                0 <= i < events.len() && events[i] == WorkerEvent::Polled(
                    Ok(WiiBoardPoll::Balance(self.publications(events)[k])),
                ),
        decreases events.len(),
    {
        let earlier = self.publications(events.drop_last());
        if k < earlier.len() {
            self.lemma_publications_are_polled(events.drop_last(), k);
            let i = choose|i: int|
                0 <= i < events.drop_last().len() && events.drop_last()[i] == WorkerEvent::Polled(
                    Ok(WiiBoardPoll::Balance(earlier[k])),
                );
            assert(events[i] == events.drop_last()[i]);
        } else {
            assert(events[events.len() - 1] == events.last());
        }
    }

    /// A loop that has stopped stays stopped, and the slot keeps its last
    /// reading for good: no event changes the board any more.
    pub proof fn lemma_stopped_is_final(self, events: Seq<WorkerEvent>)
        requires
            self.stage is Stopped,
        ensures
            self.run(events) == self,
        decreases events.len(),
    {
        if events.len() > 0 {
            self.lemma_stopped_is_final(events.drop_last());
        }
    }

    /// A probe that finds nothing while the loop is probing is followed by a
    /// sleep of exactly the interval; every other probe that goes through is
    /// followed by the next probe with no sleep between.
    pub proof fn lemma_sleeps_only_after_empty(self, found: WiiBoardPoll)
        requires
            self.stage.is_polling(),
        ensures
            self.handle(WorkerEvent::Polled(Ok(found))).stage == if found is Empty {
                Acquisition::SleepThenPoll { millis: self.interval_ms }
            } else {
                Acquisition::Poll
            },
    {
    }
}

} // verus!
