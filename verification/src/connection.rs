//! The handler of one connection, as a state machine.
//!
//! A handler starts with an accepted stream. It asks for the peer's address,
//! upgrades the stream, and then serves: it reads frame after frame, decodes
//! each and logs what it found. A frame that gives no record is logged and
//! skipped. The handler ends when the peer closes the connection, or when one
//! of the other steps fails. The caller does the work that each state waits
//! for and reports how it went; `step` says where the handler stands after
//! that, and what to log.

use vstd::prelude::*;
use vstd::utf8::{decode_utf8, valid_utf8};
use crate::decode::{decode, decoded_text, DecodeErrorView};
use crate::frame::{payload_text, Frame, FrameView};
use crate::log::{log_views, LogLine, LogLineView};
use crate::record::RecordView;

verus! {

/// Where a handler stands.
#[derive(Clone, Debug, PartialEq, Eq)]
pub enum State {
    /// The stream is accepted; the peer's address is not known yet.
    Accepted,
    /// The peer's address is known, and held; the stream is not upgraded yet.
    Upgrading(String),
    /// The stream is upgraded; frames are read.
    Serving,
    /// The handler is done, and the stream released.
    Closed,
}

/// A state, as plain values.
pub enum StateView {
    Accepted,
    Upgrading(Seq<char>),
    Serving,
    Closed,
}

impl View for State {
    type V = StateView;

    open spec fn view(&self) -> StateView {
        match self {
            State::Accepted => StateView::Accepted,
            State::Upgrading(peer) => StateView::Upgrading(peer@),
            State::Serving => StateView::Serving,
            State::Closed => StateView::Closed,
        }
    }
}

/// The work that a state waits for.
#[derive(Clone, Copy, Debug, PartialEq, Eq, Structural)]
pub enum Operation {
    /// Ask the stream for the peer's address.
    ResolvePeer,
    /// Upgrade the stream.
    Upgrade,
    /// Read the next frame.
    ReadFrame,
    /// Release the stream; nothing is read or written any more.
    Release,
}

/// How the work that a state waited for went. A failure carries its cause as
/// text.
#[derive(Clone, Debug, PartialEq, Eq)]
pub enum Event {
    /// The peer's address, as text.
    PeerResolved(String),
    /// The peer's address could not be told.
    PeerUnresolved(String),
    /// The upgrade succeeded.
    Upgraded,
    /// The upgrade failed.
    UpgradeFailed(String),
    /// A read gave a frame.
    FrameRead(Frame),
    /// A read found that the peer has closed the connection in due form.
    PeerClosed,
    /// A read failed in any other way.
    ReadFailed(String),
}

/// An event, as plain values.
pub enum EventView {
    PeerResolved(Seq<char>),
    PeerUnresolved(Seq<char>),
    Upgraded,
    UpgradeFailed(Seq<char>),
    FrameRead(FrameView),
    PeerClosed,
    ReadFailed(Seq<char>),
}

impl View for Event {
    type V = EventView;

    open spec fn view(&self) -> EventView {
        match self {
            Event::PeerResolved(peer) => EventView::PeerResolved(peer@),
            Event::PeerUnresolved(cause) => EventView::PeerUnresolved(cause@),
            Event::Upgraded => EventView::Upgraded,
            Event::UpgradeFailed(cause) => EventView::UpgradeFailed(cause@),
            Event::FrameRead(frame) => EventView::FrameRead(frame@),
            Event::PeerClosed => EventView::PeerClosed,
            Event::ReadFailed(cause) => EventView::ReadFailed(cause@),
        }
    }
}

/// Where a handler stands after an event, and what it logs for it.
#[derive(Clone, Debug, PartialEq, Eq)]
pub struct Step {
    pub next: State,
    pub log: Vec<LogLine>,
}

/// A step, as plain values.
pub struct StepView {
    pub next: StateView,
    pub log: Seq<LogLineView>,
}

impl View for Step {
    type V = StepView;

    open spec fn view(&self) -> StepView {
        StepView { next: self.next@, log: log_views(self.log@) }
    }
}

impl StateView {
    /// The work that the state waits for.
    pub open spec fn awaits(self) -> Operation {
        match self {
            StateView::Accepted => Operation::ResolvePeer,
            StateView::Upgrading(_) => Operation::Upgrade,
            StateView::Serving => Operation::ReadFrame,
            StateView::Closed => Operation::Release,
        }
    }
}

/// What a serving handler logs for the outcome of a decoding: the two fields
/// of the record, the timestamp first, or why there is none.
pub open spec fn decode_log(outcome: Result<RecordView, DecodeErrorView>) -> Seq<LogLineView> {
    match outcome {
        Ok(record) => seq![
            LogLineView::CurrentTime(record.current_time),
            LogLineView::PlaylistContents(record.playlist_contents),
        ],
        Err(error) => seq![LogLineView::DecodeFailed(error)],
    }
}

/// What a serving handler logs for a frame: nothing for a close frame; for
/// any other what the decoding of the frame's text gives.
pub open spec fn frame_log(frame: FrameView) -> Seq<LogLineView> {
    match payload_text(frame) {
        None => Seq::empty(),
        Some(text) => decode_log(decoded_text(text)),
    }
}

/// Where a handler in `state` stands after `event`, and what it logs. An event
/// that the state does not wait for changes nothing and logs nothing.
pub open spec fn stepped(state: StateView, event: EventView) -> StepView {
    match (state, event) {
        (StateView::Accepted, EventView::PeerResolved(peer)) => StepView {
            next: StateView::Upgrading(peer),
            log: Seq::empty(),
        },
        (StateView::Accepted, EventView::PeerUnresolved(cause)) => StepView {
            next: StateView::Closed,
            log: seq![LogLineView::PeerUnresolved(cause)],
        },
        (StateView::Upgrading(peer), EventView::Upgraded) => StepView {
            next: StateView::Serving,
            log: seq![LogLineView::PeerConnected(peer)],
        },
        (StateView::Upgrading(_), EventView::UpgradeFailed(cause)) => StepView {
            next: StateView::Closed,
            log: seq![LogLineView::UpgradeFailed(cause)],
        },
        (StateView::Serving, EventView::FrameRead(frame)) => StepView {
            next: StateView::Serving,
            log: frame_log(frame),
        },
        (StateView::Serving, EventView::PeerClosed) => StepView {
            next: StateView::Closed,
            log: Seq::empty(),
        },
        (StateView::Serving, EventView::ReadFailed(cause)) => StepView {
            next: StateView::Closed,
            log: seq![LogLineView::ReadFailed(cause)],
        },
        _ => StepView { next: state, log: Seq::empty() },
    }
}

impl State {
    /// The state of a handler that was just given its stream.
    pub fn new() -> (state: State)
        ensures
            state@ == StateView::Accepted,
    {
        State::Accepted
    }

    /// The work that the state waits for.
    pub fn awaits(&self) -> (operation: Operation)
        ensures
            operation == self@.awaits(),
    {
        match self {
            State::Accepted => Operation::ResolvePeer,
            State::Upgrading(_) => Operation::Upgrade,
            State::Serving => Operation::ReadFrame,
            State::Closed => Operation::Release,
        }
    }
}

/// What a serving handler logs for a frame.
pub fn log_frame(frame: &Frame) -> (log: Vec<LogLine>)
    ensures
        log_views(log@) == frame_log(frame@),
{
    let mut log: Vec<LogLine> = Vec::new();
    match frame.payload() {
        None => {},
        Some(text) => match decode(text.as_str()) {
            Ok(record) => {
                log.push(LogLine::CurrentTime(record.current_time));
                log.push(LogLine::PlaylistContents(record.playlist_contents));
            },
            Err(error) => {
                log.push(LogLine::DecodeFailed(error));
            },
        },
    }
    assert(log_views(log@) =~= frame_log(frame@));
    log
}

/// Takes a handler in `state` through `event`: says where it stands after it
/// and what it logs.
pub fn step(state: State, event: Event) -> (step: Step)
    ensures
        step@ == stepped(state@, event@),
{
    let mut log: Vec<LogLine> = Vec::new();
    let next = match (state, event) {
        (State::Accepted, Event::PeerResolved(peer)) => State::Upgrading(peer),
        (State::Accepted, Event::PeerUnresolved(cause)) => {
            log.push(LogLine::PeerUnresolved(cause));
            State::Closed
        },
        (State::Upgrading(peer), Event::Upgraded) => {
            log.push(LogLine::PeerConnected(peer));
            State::Serving
        },
        (State::Upgrading(_), Event::UpgradeFailed(cause)) => {
            log.push(LogLine::UpgradeFailed(cause));
            State::Closed
        },
        (State::Serving, Event::FrameRead(frame)) => {
            log = log_frame(&frame);
            State::Serving
        },
        (State::Serving, Event::PeerClosed) => State::Closed,
        (State::Serving, Event::ReadFailed(cause)) => {
            log.push(LogLine::ReadFailed(cause));
            State::Closed
        },
        (state, _) => state,
    };
    assert(log_views(log@) =~= stepped(state@, event@).log);
    Step { next, log }
}

/// Where a handler stands after one more event, and all it has logged by then.
pub open spec fn advanced(progress: StepView, event: EventView) -> StepView {
    let step = stepped(progress.next, event);
    StepView { next: step.next, log: progress.log + step.log }
}

/// Where a handler stands after a run of events, taken in order, and all it
/// has logged by then.
pub open spec fn ran(start: StepView, events: Seq<EventView>) -> StepView
    decreases events.len(),
{
    if events.len() == 0 {
        start
    } else {
        advanced(ran(start, events.drop_last()), events.last())
    }
}

/// An event that reaches a listener's handlers: the client whose handler it
/// is for, and the event.
pub struct Arrival {
    pub client: nat,
    pub event: EventView,
}

/// The events among `arrivals` that are for `client`, in order.
pub open spec fn own_events(arrivals: Seq<Arrival>, client: nat) -> Seq<EventView>
    decreases arrivals.len(),
{
    if arrivals.len() == 0 {
        Seq::empty()
    } else if arrivals.last().client == client {
        own_events(arrivals.drop_last(), client).push(arrivals.last().event)
    } else {
        own_events(arrivals.drop_last(), client)
    }
}

/// The handlers of a listener after an arrival: the handler of the client
/// named takes the event, the others stay as they are.
pub open spec fn delivered(handlers: Map<nat, StepView>, arrival: Arrival) -> Map<nat, StepView> {
    if handlers.dom().contains(arrival.client) {
        handlers.insert(arrival.client, advanced(handlers[arrival.client], arrival.event))
    } else {
        handlers
    }
}

/// The handlers of a listener after a run of arrivals, in the order in which
/// they came.
pub open spec fn served(handlers: Map<nat, StepView>, arrivals: Seq<Arrival>) -> Map<nat, StepView>
    decreases arrivals.len(),
{
    if arrivals.len() == 0 {
        handlers
    } else {
        delivered(served(handlers, arrivals.drop_last()), arrivals.last())
    }
}

/// A serving handler goes on serving after every frame, whatever the frame
/// holds: it waits for the next read.
pub proof fn law_frame_keeps_serving(frame: FrameView)
    ensures
        stepped(StateView::Serving, EventView::FrameRead(frame)).next == StateView::Serving,
        stepped(StateView::Serving, EventView::FrameRead(frame)).next.awaits()
            == Operation::ReadFrame,
{
}

/// A frame whose text decodes to a record is logged in two lines, the
/// timestamp and then the playlist, neither of them a failure.
pub proof fn law_record_is_logged(frame: FrameView, text: Seq<char>, record: RecordView)
    requires
        payload_text(frame) == Some(text),
        decoded_text(text) == Ok::<RecordView, DecodeErrorView>(record),
    ensures
        stepped(StateView::Serving, EventView::FrameRead(frame)).log == seq![
            LogLineView::CurrentTime(record.current_time),
            LogLineView::PlaylistContents(record.playlist_contents),
        ],
        !LogLineView::CurrentTime(record.current_time).is_failure(),
        !LogLineView::PlaylistContents(record.playlist_contents).is_failure(),
{
}

/// A frame whose text decodes to no record is logged in one line, a failure
/// that carries the cause, and is then skipped: the handler takes what comes
/// next as if the frame had not come.
pub proof fn law_undecodable_frame_is_skipped(
    frame: FrameView,
    text: Seq<char>,
    error: DecodeErrorView,
    then: EventView,
)
    requires
        payload_text(frame) == Some(text),
        decoded_text(text) == Err::<RecordView, DecodeErrorView>(error),
    ensures
        stepped(StateView::Serving, EventView::FrameRead(frame)).log == seq![
            LogLineView::DecodeFailed(error),
        ],
        LogLineView::DecodeFailed(error).is_failure(),
        LogLineView::DecodeFailed(error).text() == "Unable to parse incoming message: "@
            + error.text(),
        stepped(stepped(StateView::Serving, EventView::FrameRead(frame)).next, then) == stepped(
            StateView::Serving,
            then,
        ),
{
}

/// A text frame is decoded as the text it holds, and a close frame is not
/// decoded at all: nothing is logged for it, and the handler reads on until
/// the close is complete.
pub proof fn law_text_and_close_frames(text: Seq<char>)
    ensures
        frame_log(FrameView::Text(text)) == decode_log(decoded_text(text)),
        stepped(StateView::Serving, EventView::FrameRead(FrameView::Close)) == (StepView {
            next: StateView::Serving,
            log: Seq::empty(),
        }),
{
}

/// A binary, ping or pong frame whose bytes are valid UTF-8 is handled as
/// the text frame that holds the text they encode.
pub proof fn law_utf8_data_is_handled_as_text(frame: FrameView, data: Seq<u8>)
    requires
        frame.data() == Some(data),
        valid_utf8(data),
    ensures
        stepped(StateView::Serving, EventView::FrameRead(frame)) == stepped(
            StateView::Serving,
            EventView::FrameRead(FrameView::Text(decode_utf8(data))),
        ),
{
}

/// The peer's clean close ends a serving handler, and nothing is logged for
/// it: the handler waits for nothing but the release of the stream.
pub proof fn law_clean_close_is_silent()
    ensures
        stepped(StateView::Serving, EventView::PeerClosed).next == StateView::Closed,
        stepped(StateView::Serving, EventView::PeerClosed).log == Seq::<LogLineView>::empty(),
        stepped(StateView::Serving, EventView::PeerClosed).next.awaits() == Operation::Release,
{
}

/// A read that fails otherwise ends a serving handler with exactly one line,
/// a failure that cites the cause.
pub proof fn law_read_failure_is_logged_once(cause: Seq<char>)
    ensures
        stepped(StateView::Serving, EventView::ReadFailed(cause)).next == StateView::Closed,
        stepped(StateView::Serving, EventView::ReadFailed(cause)).log == seq![
            LogLineView::ReadFailed(cause),
        ],
        LogLineView::ReadFailed(cause).is_failure(),
        LogLineView::ReadFailed(cause).text() == "Error when receiving the message: "@ + cause,
{
}

/// Without the peer's address there is no upgrade: the handler ends at once,
/// with one line that cites the cause.
pub proof fn law_unresolved_peer_ends_handler(cause: Seq<char>)
    ensures
        stepped(StateView::Accepted, EventView::PeerUnresolved(cause)) == (StepView {
            next: StateView::Closed,
            log: seq![LogLineView::PeerUnresolved(cause)],
        }),
{
}

/// How far a handler has come: each state counts one more than the one before.
pub open spec fn stage(state: StateView) -> nat {
    match state {
        StateView::Accepted => 0,
        StateView::Upgrading(_) => 1,
        StateView::Serving => 2,
        StateView::Closed => 3,
    }
}

/// A handler never goes back: an event leaves it where it is, takes it to the
/// next state, or closes it.
pub proof fn law_states_only_advance(state: StateView, event: EventView)
    ensures
        stage(stepped(state, event).next) == stage(state) || stage(stepped(state, event).next)
            == stage(state) + 1 || stepped(state, event).next == StateView::Closed,
        stage(stepped(state, event).next) == stage(state) && !(state is Serving) ==> stepped(
            state,
            event,
        ) == (StepView { next: state, log: Seq::empty() }),
{
}

/// A handler closes for one of two reasons. Either the peer closed the
/// connection in due form while the handler served: then nothing is logged.
/// Or a step failed: then exactly one line is logged, a failure that cites
/// the cause. A frame that cannot be decoded is neither: it never closes.
pub proof fn law_handler_closes_with_cause(state: StateView, event: EventView)
    requires
        !(state is Closed),
        stepped(state, event).next is Closed,
    ensures
        event is PeerClosed ==> state is Serving && stepped(state, event).log
            == Seq::<LogLineView>::empty(),
        !(event is PeerClosed) ==> stepped(state, event).log.len() == 1 && stepped(
            state,
            event,
        ).log[0].is_failure() && !(stepped(state, event).log[0] is DecodeFailed),
        event matches EventView::PeerUnresolved(cause) ==> stepped(state, event).log[0]
            == LogLineView::PeerUnresolved(cause),
        event matches EventView::UpgradeFailed(cause) ==> stepped(state, event).log[0]
            == LogLineView::UpgradeFailed(cause),
        event matches EventView::ReadFailed(cause) ==> stepped(state, event).log[0]
            == LogLineView::ReadFailed(cause),
{
}

/// A handler that stays open logs no failure but that of a decoding, and
/// that only while it serves.
pub proof fn law_open_handler_logs_no_fatal_failure(state: StateView, event: EventView, at: int)
    requires
        !(stepped(state, event).next is Closed),
        0 <= at < stepped(state, event).log.len(),
        stepped(state, event).log[at].is_failure(),
    ensures
        state is Serving,
        event is FrameRead,
        stepped(state, event).log == seq![stepped(state, event).log[at]],
        stepped(state, event).log[at] is DecodeFailed,
{
}

/// A closed handler stays closed and logs nothing, whatever is reported to it.
pub proof fn law_closed_is_final(events: Seq<EventView>, logged: Seq<LogLineView>)
    ensures
        ran(StepView { next: StateView::Closed, log: logged }, events) == (StepView {
            next: StateView::Closed,
            log: logged,
        }),
    decreases events.len(),
{
    if events.len() > 0 {
        law_closed_is_final(events.drop_last(), logged);
        assert(logged + Seq::<LogLineView>::empty() == logged);
    }
}

/// Every line that a handler logs stays: a run of events only adds to the log.
pub proof fn law_log_only_grows(start: StepView, events: Seq<EventView>)
    ensures
        start.log.is_prefix_of(ran(start, events).log),
    decreases events.len(),
{
    if events.len() > 0 {
        law_log_only_grows(start, events.drop_last());
    }
}

/// The handlers of a listener do not touch each other: however the events
/// of several clients are interleaved, each handler ends where its own events
/// alone would have taken it, with the log that they alone would have given.
pub proof fn law_handlers_are_independent(
    handlers: Map<nat, StepView>,
    arrivals: Seq<Arrival>,
    client: nat,
)
    requires
        handlers.dom().contains(client),
    ensures
        served(handlers, arrivals).dom() == handlers.dom(),
        served(handlers, arrivals)[client] == ran(handlers[client], own_events(arrivals, client)),
    decreases arrivals.len(),
{
    if arrivals.len() > 0 {
        let earlier = arrivals.drop_last();
        law_handlers_are_independent(handlers, earlier, client);
        let before = served(handlers, earlier);
        let last = arrivals.last();
        assert(delivered(before, last).dom() =~= before.dom());
        if last.client == client {
            let own = own_events(arrivals, client);
            assert(own.drop_last() == own_events(earlier, client));
            assert(own.last() == last.event);
        }
    }
}

/// A frame that one client's handler cannot decode leaves no trace on
/// another's: the frame that the other client sends next is handled as if the
/// first had never come.
pub proof fn law_foreign_frame_leaves_no_trace(
    handlers: Map<nat, StepView>,
    sender: nat,
    other: nat,
    bad: FrameView,
    good: FrameView,
)
    requires
        sender != other,
        handlers.dom().contains(sender),
        handlers.dom().contains(other),
    ensures
        served(
            handlers,
            seq![
                Arrival { client: sender, event: EventView::FrameRead(bad) },
                Arrival { client: other, event: EventView::FrameRead(good) },
            ],
        )[other] == advanced(handlers[other], EventView::FrameRead(good)),
{
    let first = Arrival { client: sender, event: EventView::FrameRead(bad) };
    let second = Arrival { client: other, event: EventView::FrameRead(good) };
    let both = seq![first, second];
    assert(both.drop_last() == seq![first]);
    assert(seq![first].drop_last() == Seq::<Arrival>::empty());
    assert(served(handlers, seq![first]) == delivered(handlers, first)) by {
        reveal_with_fuel(served, 2);
    }
    assert(served(handlers, both) == delivered(delivered(handlers, first), second));
}

} // verus!
