//! One request and its response, as a state machine without I/O.
//!
//! An exchange starts idle, sends its frame, awaits the response and ends in
//! one of five ways. The machine decides; the caller acts. Each step takes
//! what the transport just reported and tells what to do next: write these
//! bytes, read into this buffer, or stop with this result. Nothing is
//! retried, and nothing outlives the exchange.

use crate::command::Command;
use crate::status::decode_status;
use crate::status::outcome_of;
use crate::status::status_word;
use crate::status::Outcome;
use crate::status::STATUS_LEN;
use vstd::prelude::*;

verus! {

/// Time that a response may take, in milliseconds.
pub const READ_TIMEOUT_MS: i32 = 200;

/// How the transport failed.
#[derive(Clone, Copy, Debug, PartialEq, Eq, Structural)]
pub enum TransportError {
    /// The device could not be opened or reached.
    Unavailable,
    /// A write or a read failed.
    Io,
}

/// Why an operation failed.
#[derive(Clone, Copy, Debug, PartialEq, Eq, Structural)]
pub enum ProtocolError {
    /// The device could not be opened or reached.
    TransportUnavailable,
    /// A write or a read failed at the transport.
    TransportIo,
    /// No response came within the time limit.
    Timeout,
    /// The firmware rejected the command code.
    InvalidCommand,
    /// The firmware computed another checksum than the frame carried.
    ChecksumMismatch,
}

/// Where an exchange stands.
#[derive(Clone, Copy, Debug, PartialEq, Eq, Structural)]
pub enum State {
    /// Nothing was sent yet.
    Idle,
    /// The frame of `command` was handed to the transport.
    FrameSent { command: Command },
    /// The frame is out and the read is under way.
    AwaitingResponse,
    /// The controller carried the command out.
    Success,
    /// The controller rejected the command code.
    InvalidCommand,
    /// The controller found the checksum wrong.
    ChecksumMismatch,
    /// No response came in time.
    TimedOut,
    /// The transport failed.
    TransportError(TransportError),
}

/// What the caller reports to the machine.
#[derive(Debug, PartialEq, Eq)]
pub enum Event {
    /// An operation was asked for.
    Request(Command),
    /// The write ended.
    Written(Result<(), TransportError>),
    /// The read ended. On success `outcome` holds the number of bytes that
    /// arrived in `buffer` within the time limit.
    Read { buffer: Vec<u8>, outcome: Result<usize, TransportError> },
}

/// What the machine asks the caller to do.
#[derive(Debug, PartialEq, Eq)]
pub enum Action {
    /// Write these bytes, then report `Event::Written`.
    Write(Vec<u8>),
    /// Read into `buffer`, waiting `timeout_ms` milliseconds at most, then
    /// report `Event::Read`.
    Read { buffer: Vec<u8>, timeout_ms: i32 },
    /// Stop: the operation ended with this result.
    Finish(Result<(), ProtocolError>),
}

/// A step of the machine: the state it leads to, and what to do there.
#[derive(Debug, PartialEq, Eq)]
pub struct Transition {
    pub state: State,
    pub action: Action,
}

/// An event, with its buffer as a sequence.
pub enum EventView {
    Request(Command),
    Written(Result<(), TransportError>),
    Read { buffer: Seq<u8>, outcome: Result<usize, TransportError> },
}

/// An action, with its bytes as a sequence.
pub enum ActionView {
    Write(Seq<u8>),
    Read { buffer: Seq<u8>, timeout_ms: i32 },
    Finish(Result<(), ProtocolError>),
}

/// A transition, with its action's bytes as a sequence.
pub struct TransitionView {
    pub state: State,
    pub action: ActionView,
}

impl View for Event {
    type V = EventView;

    open spec fn view(&self) -> EventView {
        match *self {
            Event::Request(command) => EventView::Request(command),
            Event::Written(outcome) => EventView::Written(outcome),
            Event::Read { buffer, outcome } => EventView::Read { buffer: buffer@, outcome },
        }
    }
}

impl View for Action {
    type V = ActionView;

    open spec fn view(&self) -> ActionView {
        match *self {
            Action::Write(frame) => ActionView::Write(frame@),
            Action::Read { buffer, timeout_ms } => ActionView::Read { buffer: buffer@, timeout_ms },
            Action::Finish(result) => ActionView::Finish(result),
        }
    }
}

impl View for Transition {
    type V = TransitionView;

    open spec fn view(&self) -> TransitionView {
        TransitionView { state: self.state, action: self.action@ }
    }
}

impl TransportError {
    /// The error that the caller of an operation sees for this failure.
    pub open spec fn spec_protocol_error(self) -> ProtocolError {
        match self {
            TransportError::Unavailable => ProtocolError::TransportUnavailable,
            TransportError::Io => ProtocolError::TransportIo,
        }
    }

    /// The error that the caller of an operation sees for this failure.
    #[verifier::when_used_as_spec(spec_protocol_error)]
    pub fn protocol_error(self) -> (error: ProtocolError)
        ensures
            error == self.spec_protocol_error(),
    {
        match self {
            TransportError::Unavailable => ProtocolError::TransportUnavailable,
            TransportError::Io => ProtocolError::TransportIo,
        }
    }
}

impl Outcome {
    /// The result of the operation that got this answer: only `Success` is
    /// no error.
    pub open spec fn spec_result(self) -> Result<(), ProtocolError> {
        match self {
            Outcome::Success => Ok(()),
            Outcome::InvalidCommand => Err(ProtocolError::InvalidCommand),
            Outcome::ChecksumMismatch => Err(ProtocolError::ChecksumMismatch),
        }
    }

    /// The result of the operation that got this answer: only `Success` is
    /// no error.
    #[verifier::when_used_as_spec(spec_result)]
    pub fn result(self) -> (result: Result<(), ProtocolError>)
        ensures
            result == self.spec_result(),
    {
        match self {
            Outcome::Success => Ok(()),
            Outcome::InvalidCommand => Err(ProtocolError::InvalidCommand),
            Outcome::ChecksumMismatch => Err(ProtocolError::ChecksumMismatch),
        }
    }
}

impl State {
    /// The state in which an exchange with this result ends.
    pub open spec fn spec_ended(result: Result<(), ProtocolError>) -> State {
        match result {
            Ok(_) => State::Success,
            Err(ProtocolError::InvalidCommand) => State::InvalidCommand,
            Err(ProtocolError::ChecksumMismatch) => State::ChecksumMismatch,
            Err(ProtocolError::Timeout) => State::TimedOut,
            Err(ProtocolError::TransportUnavailable) => State::TransportError(
                TransportError::Unavailable,
            ),
            Err(ProtocolError::TransportIo) => State::TransportError(TransportError::Io),
        }
    }

    /// The result of the operation, once the exchange has ended.
    pub open spec fn spec_result(self) -> Option<Result<(), ProtocolError>> {
        match self {
            State::Idle | State::FrameSent { .. } | State::AwaitingResponse => None,
            State::Success => Some(Ok(())),
            State::InvalidCommand => Some(Err(ProtocolError::InvalidCommand)),
            State::ChecksumMismatch => Some(Err(ProtocolError::ChecksumMismatch)),
            State::TimedOut => Some(Err(ProtocolError::Timeout)),
            State::TransportError(error) => Some(Err(error.spec_protocol_error())),
        }
    }

    /// Whether the exchange has ended.
    pub open spec fn is_terminal(self) -> bool {
        self.spec_result() is Some
    }

    /// The state in which an exchange with this result ends.
    #[verifier::when_used_as_spec(spec_ended)]
    pub fn ended(result: Result<(), ProtocolError>) -> (state: State)
        ensures
            state == State::spec_ended(result),
            state.spec_result() == Some(result),
    {
        proof {
            lemma_ended_has_its_result(result);
        }
        match result {
            Ok(_) => State::Success,
            Err(ProtocolError::InvalidCommand) => State::InvalidCommand,
            Err(ProtocolError::ChecksumMismatch) => State::ChecksumMismatch,
            Err(ProtocolError::Timeout) => State::TimedOut,
            Err(ProtocolError::TransportUnavailable) => State::TransportError(
                TransportError::Unavailable,
            ),
            Err(ProtocolError::TransportIo) => State::TransportError(TransportError::Io),
        }
    }

    /// The result of the operation, once the exchange has ended.
    #[verifier::when_used_as_spec(spec_result)]
    pub fn result(self) -> (result: Option<Result<(), ProtocolError>>)
        ensures
            result == self.spec_result(),
    {
        match self {
            State::Idle | State::FrameSent { .. } | State::AwaitingResponse => None,
            State::Success => Some(Ok(())),
            State::InvalidCommand => Some(Err(ProtocolError::InvalidCommand)),
            State::ChecksumMismatch => Some(Err(ProtocolError::ChecksumMismatch)),
            State::TimedOut => Some(Err(ProtocolError::Timeout)),
            State::TransportError(error) => Some(Err(error.protocol_error())),
        }
    }
}

/// A buffer of `len` zero bytes.
pub open spec fn zeroed(len: nat) -> Seq<u8> {
    Seq::new(len, |i: int| 0u8)
}

/// The result of an operation whose read ended with `outcome` and left
/// `buffer`.
///
/// A read that failed is a transport error. A read that brought no byte
/// within the time limit is a timeout. Otherwise the status word at the
/// start of the buffer decides; a buffer too short to hold one counts as a
/// failed read.
pub open spec fn read_result(buffer: Seq<u8>, outcome: Result<usize, TransportError>) -> Result<
    (),
    ProtocolError,
> {
    match outcome {
        Err(error) => Err(error.spec_protocol_error()),
        Ok(count) => if count == 0 {
            Err(ProtocolError::Timeout)
        } else if buffer.len() < STATUS_LEN {
            Err(ProtocolError::TransportIo)
        } else {
            outcome_of(status_word(buffer)).spec_result()
        },
    }
}

/// The transition that ends an exchange with `result`.
pub open spec fn finish_with(result: Result<(), ProtocolError>) -> TransitionView {
    TransitionView { state: State::spec_ended(result), action: ActionView::Finish(result) }
}

/// The step that `event` causes in `state`, or `None` where the state does
/// not wait for such an event.
pub open spec fn step_spec(state: State, event: EventView) -> Option<TransitionView> {
    match (state, event) {
        (State::Idle, EventView::Request(command)) => Some(
            TransitionView {
                state: State::FrameSent { command },
                action: ActionView::Write(command.frame()),
            },
        ),
        (State::FrameSent { command }, EventView::Written(Ok(_))) => Some(
            TransitionView {
                state: State::AwaitingResponse,
                action: ActionView::Read {
                    buffer: zeroed(command.spec_response_len() as nat),
                    timeout_ms: READ_TIMEOUT_MS,
                },
            },
        ),
        (State::FrameSent { .. }, EventView::Written(Err(error))) => Some(
            finish_with(Err(error.spec_protocol_error())),
        ),
        (State::AwaitingResponse, EventView::Read { buffer, outcome }) => Some(
            finish_with(read_result(buffer, outcome)),
        ),
        _ => None,
    }
}

/// An exchange runs in order and ends: a request leads to the write, the
/// write to the read or to a transport error, the read to the end. The
/// action is `Finish` exactly where the exchange has ended, and it carries
/// the result of the state that was reached.
pub proof fn lemma_step_moves_forward(state: State, event: EventView)
    requires
        step_spec(state, event) is Some,
    ensures
        ({
            let next = step_spec(state, event)->0;
            &&& !state.is_terminal()
            &&& state is Idle ==> next.state is FrameSent && next.action is Write
            &&& state is FrameSent ==> (next.state is AwaitingResponse && next.action is Read)
                || (next.state is TransportError && next.action is Finish)
            &&& state is AwaitingResponse ==> next.state.is_terminal()
            &&& next.action is Finish <==> next.state.is_terminal()
            &&& next.action matches ActionView::Finish(result) ==> next.state.spec_result()
                == Some(result)
        }),
{
    if let (State::FrameSent { .. }, EventView::Written(Err(error))) = (state, event) {
        lemma_ended_has_its_result(Err(error.spec_protocol_error()));
    }
    if let (State::AwaitingResponse, EventView::Read { buffer, outcome }) = (state, event) {
        lemma_ended_has_its_result(read_result(buffer, outcome));
    }
}

/// The state in which an exchange ends tells the result with which it
/// ended, and every ended state is the end of its own result.
pub proof fn lemma_ended_has_its_result(result: Result<(), ProtocolError>)
    ensures
        State::spec_ended(result).is_terminal(),
        State::spec_ended(result).spec_result() == Some(result),
{
    if let Ok(unit) = result {
        assert(unit == ());
    }
}

/// No response within the time limit is a timeout and nothing else,
/// whatever the buffer holds.
pub proof fn lemma_silence_is_a_timeout(buffer: Seq<u8>)
    ensures
        read_result(buffer, Ok(0)) == Err::<(), ProtocolError>(ProtocolError::Timeout),
        step_spec(State::AwaitingResponse, EventView::Read { buffer, outcome: Ok(0) }) == Some(
            TransitionView {
                state: State::TimedOut,
                action: ActionView::Finish(Err(ProtocolError::Timeout)),
            },
        ),
{
}

/// Tells how an operation ended from what its read reported.
pub fn conclude_read(buffer: &[u8], outcome: Result<usize, TransportError>) -> (result: Result<
    (),
    ProtocolError,
>)
    ensures
        result == read_result(buffer@, outcome),
{
    match outcome {
        Err(error) => Err(error.protocol_error()),
        Ok(count) => {
            if count == 0 {
                Err(ProtocolError::Timeout)
            } else {
                match decode_status(buffer) {
                    Ok(answer) => answer.result(),
                    Err(_) => Err(ProtocolError::TransportIo),
                }
            }
        },
    }
}

/// The transition that ends an exchange with `result`.
fn finish(result: Result<(), ProtocolError>) -> (transition: Transition)
    ensures
        transition@ == finish_with(result),
{
    Transition { state: State::ended(result), action: Action::Finish(result) }
}

/// A new buffer of `len` zero bytes.
fn zeroed_buffer(len: usize) -> (buffer: Vec<u8>)
    ensures
        buffer@ == zeroed(len as nat),
{
    let buffer = vec![0u8; len];
    assert(buffer@ =~= zeroed(len as nat));
    buffer
}

/// Takes one step of an exchange.
///
/// The machine accepts a request when idle, the end of the write once the
/// frame is sent, and the end of the read while it awaits the response. Any
/// other event is refused with `None`: an exchange that has ended accepts
/// nothing more.
pub fn step(state: State, event: Event) -> (next: Option<Transition>)
    ensures
        next is Some <==> step_spec(state, event@) is Some,
        next matches Some(transition) ==> Some(transition@) == step_spec(state, event@),
        state.is_terminal() ==> next is None,
{
    match state {
        State::Idle => match event {
            Event::Request(command) => Some(
                Transition {
                    state: State::FrameSent { command },
                    action: Action::Write(command.encode()),
                },
            ),
            _ => None,
        },
        State::FrameSent { command } => match event {
            Event::Written(Ok(_)) => Some(
                Transition {
                    state: State::AwaitingResponse,
                    action: Action::Read {
                        buffer: zeroed_buffer(command.response_len()),
                        timeout_ms: READ_TIMEOUT_MS,
                    },
                },
            ),
            Event::Written(Err(error)) => Some(finish(Err(error.protocol_error()))),
            _ => None,
        },
        State::AwaitingResponse => match event {
            Event::Read { buffer, outcome } => Some(
                finish(conclude_read(buffer.as_slice(), outcome)),
            ),
            _ => None,
        },
        _ => None,
    }
}

} // verus!
