use vstd::prelude::*;
use crate::error::WiiBoardError;
use crate::reading::decode;
use crate::reading::BoardSample;
use crate::reading::WiiBoardData;
use crate::reading::WiiBoardPoll;

verus! {

/// The number of device slots a connection attempt sets the driver up with.
pub const BOARD_SLOTS: i32 = 1;

/// An established connection to one balance board.
///
/// A value of this type comes out of a connection attempt that went through
/// ([`Connect::Finished`]) and from nowhere else, and is bound to exactly one
/// device slot, the driver's first. The driver handle itself stays with the
/// caller.
#[derive(Debug, PartialEq, Eq)]
pub struct WiiBoard {
    slots: i32,
}

/// A connection attempt: what to ask of the driver next, or how it ended.
#[derive(Debug, PartialEq, Eq)]
pub enum Connect {
    /// Set the driver up with `slots` device slots and let it search for
    /// devices for up to `timeout` seconds, the number the caller gave;
    /// reply with the number found.
    Find { slots: i32, timeout: u32 },
    /// Have the driver connect the devices found in its `slots` slots; reply
    /// with the number connected.
    Handshake { slots: i32 },
    /// The attempt is over.
    Finished(Result<WiiBoard, WiiBoardError>),
}

/// Whether a pending event is the driver's generic device-state event.
#[derive(Debug, Clone, Copy, PartialEq, Eq)]
pub enum EventKind {
    /// The generic "something changed on the device" event.
    DeviceState,
    /// Any other event: a status report, a disconnect notice and the like.
    Other,
}

/// What is attached to the device, as far as the library cares.
#[derive(Debug, Clone, Copy, PartialEq, Eq)]
pub enum ExpansionKind {
    /// A balance board, which reports four corner pressures.
    BalanceBoard,
    /// Nothing, or any other attachment.
    Other,
}

/// The driver's answer to one request of a probe.
#[derive(Debug, Clone, Copy, PartialEq, Eq)]
pub enum DriverReply {
    /// Answers [`Poll::CheckConnection`]: whether the device is connected.
    Connected(bool),
    /// Answers [`Poll::PollDriver`]: what the driver's poll returned, the
    /// number of devices with an event pending.
    Pending(i32),
    /// Answers [`Poll::ReadEvent`]: the kind of the pending event.
    Event(EventKind),
    /// Answers [`Poll::ReadExpansion`]: the kind of the attachment.
    Expansion(ExpansionKind),
    /// Answers [`Poll::ReadBoard`]: the balance board's corner pressures.
    Board(BoardSample),
}

/// One probe of a connected board: what to ask of the driver next, or what
/// the probe found.
#[derive(Debug, Clone, Copy, PartialEq, Eq)]
pub enum Poll {
    /// Ask whether the device is still connected.
    CheckConnection { slots: i32 },
    /// Run the driver's non-blocking poll over its `slots` slots.
    PollDriver { slots: i32 },
    /// Read the kind of the event that the poll left in the device's record.
    ReadEvent,
    /// Read the kind of the device's attachment.
    ReadExpansion,
    /// Read the balance board's four corner pressures.
    ReadBoard,
    /// The probe is over.
    Finished(Result<WiiBoardPoll, WiiBoardError>),
}

impl WiiBoard {
    /// Every board there is is bound to exactly one device slot.
    #[verifier::type_invariant]
    spec fn one_slot(self) -> bool {
        self.slots == BOARD_SLOTS
    }

    /// The board of a connection over `slots` device slots.
    pub closed spec fn bound_to(slots: i32) -> WiiBoard {
        WiiBoard { slots }
    }

    /// The number of device slots of this connection.
    pub closed spec fn slots(&self) -> i32 {
        self.slots
    }

    /// The first request of a connection attempt that waits
    /// `timeout_seconds` for a board to show up.
    pub open spec fn new_spec(timeout_seconds: u32) -> Connect {
        Connect::Find { slots: BOARD_SLOTS, timeout: timeout_seconds }
    }

    /// The first request of a probe of this board.
    pub open spec fn poll_spec(&self) -> Poll {
        Poll::CheckConnection { slots: self.slots() }
    }

    /// A board is told by its slots alone: the board over `slots` slots has
    /// that many, and any board is the one over its own slots.
    pub proof fn lemma_board_by_slots(board: WiiBoard, slots: i32)
        ensures
            WiiBoard::bound_to(slots).slots() == slots,
            board == WiiBoard::bound_to(board.slots()),
    {
    }

    /// Starts a connection attempt that waits up to `timeout_seconds` for a
    /// board to show up. Nothing has been asked of the driver yet: the
    /// result is the first request to carry out, a search over one device
    /// slot for just that many seconds.
    #[verifier::when_used_as_spec(new_spec)]
    pub fn new(timeout_seconds: u32) -> (step: Connect)
        ensures
            step == (Connect::Find { slots: BOARD_SLOTS, timeout: timeout_seconds }),
    {
        Connect::Find { slots: BOARD_SLOTS, timeout: timeout_seconds }
    }

    /// Starts one probe of the board. Nothing has been asked of the driver
    /// yet: the result is the first request to carry out, the connection
    /// check, for a probe over the board's one slot.
    #[verifier::when_used_as_spec(poll_spec)]
    pub fn poll(&self) -> (step: Poll)
        ensures
            step == self.poll_spec(),
            step == (Poll::CheckConnection { slots: BOARD_SLOTS }),
    {
        proof {
            use_type_invariant(self);
        }
        Poll::CheckConnection { slots: self.slots }
    }

    /// The number of device slots of this connection: one.
    pub fn slot_count(&self) -> (slots: i32)
        ensures
            slots == self.slots(),
            slots == BOARD_SLOTS,
    {
        proof {
            use_type_invariant(self);
        }
        self.slots
    }
}

impl Connect {
    /// The attempt after the driver answered the pending request with
    /// `count`.
    ///
    /// A search that finds nothing ends the attempt with `NoBoardsFound`;
    /// otherwise the handshake is next, over the slots that were searched. A
    /// handshake that connects nothing ends it with `ConnectionFailed`;
    /// otherwise the board is there, bound to exactly one device slot
    /// whatever the handshake was over. An attempt that is over stays as it
    /// is.
    pub open spec fn reply_spec(self, count: i32) -> Connect {
        match self {
            Connect::Find { slots, timeout } => if count == 0 {
                Connect::Finished(Err(WiiBoardError::NoBoardsFound))
            } else {
                Connect::Handshake { slots }
            },
            Connect::Handshake { slots } => if count == 0 {
                Connect::Finished(Err(WiiBoardError::ConnectionFailed))
            } else {
                Connect::Finished(Ok(WiiBoard::bound_to(BOARD_SLOTS)))
            },
            Connect::Finished(end) => Connect::Finished(end),
        }
    }

    /// Takes the driver's answer to the pending request, a count of devices,
    /// and gives the attempt's next state.
    pub fn reply(self, count: i32) -> (next: Connect)
        ensures
            next == self.reply_spec(count),
    {
        match self {
            Connect::Find { slots, timeout } => {
                if count == 0 {
                    Connect::Finished(Err(WiiBoardError::NoBoardsFound))
                } else {
                    Connect::Handshake { slots }
                }
            },
            Connect::Handshake { slots } => {
                if count == 0 {
                    Connect::Finished(Err(WiiBoardError::ConnectionFailed))
                } else {
                    Connect::Finished(Ok(WiiBoard { slots: BOARD_SLOTS }))
                }
            },
            Connect::Finished(end) => Connect::Finished(end),
        }
    }
}

impl Poll {
    /// The probe after the driver gave `reply`.
    ///
    /// Each request has one kind of answer. The connection is checked first,
    /// and a device that is gone ends the probe with `ConnectionDropped`
    /// before anything else is asked. A poll that reports nothing ends it
    /// with `Empty`. An event that is no device-state event ends it with
    /// `Other`. A device-state event from anything but a balance board ends
    /// it with `NotABoard`, and only a balance board is asked for its
    /// pressures, which end the probe as a `Balance` reading. An answer of
    /// another kind than the one asked for changes nothing, and neither does
    /// any answer once the probe is over.
    pub open spec fn reply_spec(self, reply: DriverReply) -> Poll {
        match (self, reply) {
            (Poll::CheckConnection { slots }, DriverReply::Connected(connected)) => if connected {
                Poll::PollDriver { slots }
            } else {
                Poll::Finished(Err(WiiBoardError::ConnectionDropped))
            },
            (Poll::PollDriver { slots }, DriverReply::Pending(pending)) => if pending == 0 {
                Poll::Finished(Ok(WiiBoardPoll::Empty))
            } else {
                Poll::ReadEvent
            },
            (Poll::ReadEvent, DriverReply::Event(kind)) => match kind {
                EventKind::DeviceState => Poll::ReadExpansion,
                EventKind::Other => Poll::Finished(Ok(WiiBoardPoll::Other)),
            },
            (Poll::ReadExpansion, DriverReply::Expansion(kind)) => match kind {
                ExpansionKind::BalanceBoard => Poll::ReadBoard,
                ExpansionKind::Other => Poll::Finished(Err(WiiBoardError::NotABoard)),
            },
            (Poll::ReadBoard, DriverReply::Board(sample)) => Poll::Finished(
                Ok(WiiBoardPoll::Balance(decode(sample))),
            ),
            _ => self,
        }
    }

    /// Takes the driver's answer to the pending request and gives the
    /// probe's next state.
    pub fn reply(self, reply: DriverReply) -> (next: Poll)
        ensures
            next == self.reply_spec(reply),
    {
        match (self, reply) {
            (Poll::CheckConnection { slots }, DriverReply::Connected(connected)) => {
                if connected {
                    Poll::PollDriver { slots }
                } else {
                    Poll::Finished(Err(WiiBoardError::ConnectionDropped))
                }
            },
            (Poll::PollDriver { slots }, DriverReply::Pending(pending)) => {
                if pending == 0 {
                    Poll::Finished(Ok(WiiBoardPoll::Empty))
                } else {
                    Poll::ReadEvent
                }
            },
            (Poll::ReadEvent, DriverReply::Event(kind)) => match kind {
                EventKind::DeviceState => Poll::ReadExpansion,
                EventKind::Other => Poll::Finished(Ok(WiiBoardPoll::Other)),
            },
            (Poll::ReadExpansion, DriverReply::Expansion(kind)) => match kind {
                ExpansionKind::BalanceBoard => Poll::ReadBoard,
                ExpansionKind::Other => Poll::Finished(Err(WiiBoardError::NotABoard)),
            },
            (Poll::ReadBoard, DriverReply::Board(sample)) => Poll::Finished(
                Ok(WiiBoardPoll::Balance(WiiBoardData::from(sample))),
            ),
            (step, _) => step,
        }
    }
}

/// A device as one probe meets it: what the driver would answer to each
/// request, were it asked.
pub struct Observation {
    /// Whether the device is connected.
    pub connected: bool,
    /// What the driver's poll would return.
    pub pending: i32,
    /// The kind of the event it would leave in the record.
    pub event: EventKind,
    /// The kind of the attachment.
    pub expansion: ExpansionKind,
    /// The corner pressures in the record.
    pub board: BoardSample,
}

impl Observation {
    /// The device's answer to the request that `step` stands for. A probe
    /// that is over asks nothing, and what is answered then does not matter.
    pub open spec fn answer(self, step: Poll) -> DriverReply {
        match step {
            Poll::CheckConnection { .. } => DriverReply::Connected(self.connected),
            Poll::PollDriver { .. } => DriverReply::Pending(self.pending),
            Poll::ReadEvent => DriverReply::Event(self.event),
            Poll::ReadExpansion => DriverReply::Expansion(self.expansion),
            Poll::ReadBoard => DriverReply::Board(self.board),
            Poll::Finished(_) => DriverReply::Connected(self.connected),
        }
    }

    /// What a probe of this device must find.
    pub open spec fn outcome(self) -> Result<WiiBoardPoll, WiiBoardError> {
        if !self.connected {
            Err(WiiBoardError::ConnectionDropped)
        } else if self.pending == 0 {
            Ok(WiiBoardPoll::Empty)
        } else if self.event is Other {
            Ok(WiiBoardPoll::Other)
        } else if self.expansion is Other {
            Err(WiiBoardError::NotABoard)
        } else {
            Ok(WiiBoardPoll::Balance(decode(self.board)))
        }
    }
}

impl Poll {
    /// The probe after `device` answered `requests` requests in a row,
    /// starting with the one pending in `self`.
    pub open spec fn run(self, device: Observation, requests: nat) -> Poll
        decreases requests,
    {
        if requests == 0 {
            self
        } else {
            self.reply_spec(device.answer(self)).run(device, (requests - 1) as nat)
        }
    }

    /// A probe that is over stays over, whatever is answered and however
    /// often.
    pub proof fn lemma_finished_is_final(self, device: Observation, requests: nat)
        requires
            self is Finished,
        ensures
            self.run(device, requests) == self,
        decreases requests,
    {
        if requests > 0 {
            self.lemma_finished_is_final(device, (requests - 1) as nat);
        }
    }
}

/// No attempt hands out a board over more or fewer slots than one: whatever
/// state an answer is given to, a board that the answer brings about is the
/// board over exactly one device slot.
pub proof fn lemma_every_board_has_one_slot(attempt: Connect, count: i32)
    requires
        !(attempt is Finished),
    ensures
        attempt.reply_spec(count) matches Connect::Finished(Ok(board)) ==> board
            == WiiBoard::bound_to(BOARD_SLOTS) && board.slots() == 1 && board.poll_spec() == (
        Poll::CheckConnection { slots: 1 }),
{
}

/// How a whole connection attempt ends: with `NoBoardsFound` where the
/// search finds nothing, however long it was to last, and then the handshake
/// is never asked for; with `ConnectionFailed` where something was found but
/// the handshake connects nothing; and otherwise with a board, which is
/// bound to exactly one device slot.
pub proof fn lemma_connect_outcome(timeout_seconds: u32, found: i32, connected: i32)
    ensures
        WiiBoard::new_spec(timeout_seconds).reply_spec(found).reply_spec(connected)
            == Connect::Finished(
            if found == 0 {
                Err(WiiBoardError::NoBoardsFound)
            } else if connected == 0 {
                Err(WiiBoardError::ConnectionFailed)
            } else {
                Ok(WiiBoard::bound_to(BOARD_SLOTS))
            },
        ),
        found == 0 ==> WiiBoard::new_spec(timeout_seconds).reply_spec(found) == Connect::Finished(
            Err(WiiBoardError::NoBoardsFound),
        ),
        found != 0 ==> WiiBoard::new_spec(timeout_seconds).reply_spec(found)
            == (Connect::Handshake { slots: BOARD_SLOTS }),
        WiiBoard::bound_to(BOARD_SLOTS).slots() == 1,
        WiiBoard::bound_to(BOARD_SLOTS).poll_spec() == (Poll::CheckConnection { slots: 1 }),
{
}

/// Answering `first + rest` requests is answering `first` and then `rest`.
proof fn lemma_run_splits(step: Poll, device: Observation, first: nat, rest: nat)
    ensures
        step.run(device, first + rest) == step.run(device, first).run(device, rest),
    decreases first,
{
    if first > 0 {
        lemma_run_splits(
            step.reply_spec(device.answer(step)),
            device,
            (first - 1) as nat,
            rest,
        );
    }
}

/// Every probe classifies its device, and does so by the rules: against any
/// device, a probe of any board is over after at most five answers, and what
/// it found is the device's [`Observation::outcome`]. It stays there however
/// many more answers follow. A probe carries nothing over from the one
/// before, so this holds of each probe in any sequence of them.
pub proof fn lemma_poll_classifies(board: WiiBoard, device: Observation, requests: nat)
    ensures
        requests >= 5 ==> board.poll_spec().run(device, requests) == Poll::Finished(
            device.outcome(),
        ),
{
    if requests >= 5 {
        let start = board.poll_spec();
        reveal_with_fuel(Poll::run, 6);
        assert(start.run(device, 5) == Poll::Finished(device.outcome()));
        lemma_run_splits(start, device, 5, (requests - 5) as nat);
        start.run(device, 5).lemma_finished_is_final(device, (requests - 5) as nat);
    }
}

/// What a probe finds is one of exactly five things, each with its own
/// condition on the device; the conditions exclude one another and leave no
/// device out.
pub proof fn lemma_outcome_cases(device: Observation)
    ensures
        device.outcome() == Err::<WiiBoardPoll, WiiBoardError>(WiiBoardError::ConnectionDropped)
            <==> !device.connected,
        device.outcome() == Ok::<WiiBoardPoll, WiiBoardError>(WiiBoardPoll::Empty)
            <==> device.connected && device.pending == 0,
        device.outcome() == Ok::<WiiBoardPoll, WiiBoardError>(WiiBoardPoll::Other)
            <==> device.connected && device.pending != 0 && device.event is Other,
        device.outcome() == Err::<WiiBoardPoll, WiiBoardError>(WiiBoardError::NotABoard)
            <==> device.connected && device.pending != 0 && device.event is DeviceState
            && device.expansion is Other,
        device.outcome() == Ok::<WiiBoardPoll, WiiBoardError>(
            WiiBoardPoll::Balance(decode(device.board)),
        ) <==> device.connected && device.pending != 0 && device.event is DeviceState
            && device.expansion is BalanceBoard,
        device.outcome() matches Ok(found) ==> found is Empty || found is Other || found
            == WiiBoardPoll::Balance(decode(device.board)),
        device.outcome() matches Err(error) ==> error == WiiBoardError::ConnectionDropped
            || error == WiiBoardError::NotABoard,
{
}

/// A device that is not connected fails the probe with `ConnectionDropped`
/// at the first answer, whatever else is pending on it: nothing further is
/// asked of the driver.
pub proof fn lemma_dropped_connection_ends_probe(
    board: WiiBoard,
    device: Observation,
    requests: nat,
)
    requires
        !device.connected,
    ensures
        requests >= 1 ==> board.poll_spec().run(device, requests) == Poll::Finished(
            Err(WiiBoardError::ConnectionDropped),
        ),
{
    if requests >= 1 {
        let start = board.poll_spec();
        reveal_with_fuel(Poll::run, 2);
        lemma_run_splits(start, device, 1, (requests - 1) as nat);
        start.run(device, 1).lemma_finished_is_final(device, (requests - 1) as nat);
    }
}

/// A device-state event from a device that carries no balance board fails
/// the probe with `NotABoard`, and the corner pressures are never read: no
/// state of the probe asks for them.
pub proof fn lemma_foreign_device_is_not_read(board: WiiBoard, device: Observation, requests: nat)
    requires
        device.connected,
        device.pending != 0,
        device.event is DeviceState,
        device.expansion is Other,
    ensures
        !(board.poll_spec().run(device, requests) is ReadBoard),
        requests >= 4 ==> board.poll_spec().run(device, requests) == Poll::Finished(
            Err(WiiBoardError::NotABoard),
        ),
{
    let start = board.poll_spec();
    reveal_with_fuel(Poll::run, 5);
    if requests >= 4 {
        lemma_run_splits(start, device, 4, (requests - 4) as nat);
        start.run(device, 4).lemma_finished_is_final(device, (requests - 4) as nat);
    }
}

/// The pressures are asked for only of a connected balance board with a
/// device-state event pending, and only as the last request of the probe.
pub proof fn lemma_board_read_only_from_board(board: WiiBoard, device: Observation, requests: nat)
    requires
        board.poll_spec().run(device, requests) is ReadBoard,
    ensures
        requests == 4,
        device.connected,
        device.pending != 0,
        device.event is DeviceState,
        device.expansion is BalanceBoard,
{
    reveal_with_fuel(Poll::run, 6);
    lemma_poll_classifies(board, device, requests);
}

} // verus!
