//! One chat exchange as a state machine.
//!
//! The host does the outside work and reports it as an `Event`; the relay
//! answers with the `Command` to carry out next, or with the exchange's
//! outcome. A relay that has finished no longer exists, so nothing can be
//! consumed after the end.

use vstd::prelude::*;
use crate::cancel::CancelFlag;
use crate::message::{
    assistant_payload, split_conversation, Message, MessageView, Payload, PayloadView, Role,
};

verus! {

/// Why an exchange gave no response.
#[derive(Clone, Copy, Debug, PartialEq, Eq, Structural)]
pub enum ChatError {
    /// The caller asked for the exchange to stop.
    Cancelled,
    /// The conversation held no turn to respond to.
    EmptyConversation,
    /// The stream could not be established.
    SetupFailed,
    /// The stream broke, or an item of it could not be decoded.
    StreamFailed,
}

/// What the host reports to the relay.
#[derive(Debug, PartialEq, Eq)]
pub enum Event {
    /// The backend accepted the request and the stream is open.
    StreamOpened,
    /// The backend could not be reached or rejected the request.
    SetupFailed,
    /// The stream delivered a chunk with this text.
    Chunk(String),
    /// The stream delivered an item that could not be decoded, or broke.
    ChunkFailed,
    /// The stream ended.
    StreamEnded,
    /// The listener has been sent the notification of the last chunk.
    Forwarded,
}

/// What an `Event` holds.
pub ghost enum EventView {
    StreamOpened,
    SetupFailed,
    Chunk(Seq<char>),
    ChunkFailed,
    StreamEnded,
    Forwarded,
}

impl View for Event {
    type V = EventView;

    open spec fn view(&self) -> EventView {
        match self {
            Event::StreamOpened => EventView::StreamOpened,
            Event::SetupFailed => EventView::SetupFailed,
            Event::Chunk(text) => EventView::Chunk(text@),
            Event::ChunkFailed => EventView::ChunkFailed,
            Event::StreamEnded => EventView::StreamEnded,
            Event::Forwarded => EventView::Forwarded,
        }
    }
}

/// What the relay asks the host to do next.
#[derive(Debug, PartialEq, Eq)]
pub enum Command {
    /// Submit the request to the backend's streaming endpoint, then report
    /// `StreamOpened` or `SetupFailed`.
    OpenStream { history: Vec<Message>, current_turn: Message, model: String },
    /// Await the next item of the stream, then report `Chunk`, `ChunkFailed`
    /// or `StreamEnded`.
    AwaitChunk,
    /// Send the notification to the listener, then report `Forwarded`.
    Forward(Payload),
}

/// What a `Command` holds.
pub ghost enum CommandView {
    OpenStream { history: Seq<MessageView>, current_turn: MessageView, model: Seq<char> },
    AwaitChunk,
    Forward(PayloadView),
}

impl View for Command {
    type V = CommandView;

    open spec fn view(&self) -> CommandView {
        match self {
            Command::OpenStream { history, current_turn, model } => CommandView::OpenStream {
                history: history.deep_view(),
                current_turn: current_turn@,
                model: model@,
            },
            Command::AwaitChunk => CommandView::AwaitChunk,
            Command::Forward(payload) => CommandView::Forward(payload@),
        }
    }
}

/// What the relay is waiting for.
#[derive(Clone, Copy, Debug, PartialEq, Eq, Structural)]
pub enum Phase {
    /// For the stream to be opened.
    Connecting,
    /// For the next item of the stream.
    Receiving,
    /// For the listener to have been notified of the last chunk.
    Forwarding,
}

/// An exchange in flight.
#[derive(Debug)]
pub struct Relay {
    phase: Phase,
    response: String,
}

/// What a `Relay` holds: its phase and the text received so far.
pub ghost struct RelayView {
    pub phase: Phase,
    pub response: Seq<char>,
}

impl View for Relay {
    type V = RelayView;

    closed spec fn view(&self) -> RelayView {
        RelayView { phase: self.phase, response: self.response@ }
    }
}

/// How an exchange ended: with the whole response, or without one.
pub type Outcome = Result<String, ChatError>;

/// What an `Outcome` holds.
pub type OutcomeView = Result<Seq<char>, ChatError>;

/// What an `Outcome` holds.
pub open spec fn outcome_view(outcome: Outcome) -> OutcomeView {
    match outcome {
        Ok(text) => Ok(text@),
        Err(error) => Err(error),
    }
}

/// The relay's answer to an event.
#[derive(Debug)]
pub enum Step {
    /// The exchange goes on: carry out the command and report back.
    Continue(Relay, Command),
    /// The exchange is over.
    Finished(Outcome),
}

/// What a `Step` holds.
pub ghost enum StepView {
    Continue(RelayView, CommandView),
    Finished(OutcomeView),
}

impl View for Step {
    type V = StepView;

    open spec fn view(&self) -> StepView {
        match self {
            Step::Continue(relay, command) => StepView::Continue(relay@, command@),
            Step::Finished(outcome) => StepView::Finished(outcome_view(*outcome)),
        }
    }
}

/// How an exchange begins. An empty conversation is turned away before
/// anything is asked of the backend; otherwise the last turn is submitted as
/// the one to respond to, with the turns before it as history.
pub open spec fn begin(conversation: Seq<MessageView>, model: Seq<char>) -> Result<
    (RelayView, CommandView),
    ChatError,
> {
    if conversation.len() == 0 {
        Err(ChatError::EmptyConversation)
    } else {
        Ok(
            (
                RelayView { phase: Phase::Connecting, response: Seq::empty() },
                CommandView::OpenStream {
                    history: conversation.drop_last(),
                    current_turn: conversation.last(),
                    model,
                },
            ),
        )
    }
}

/// What a started exchange holds.
pub open spec fn started_view(started: Result<(Relay, Command), ChatError>) -> Result<
    (RelayView, CommandView),
    ChatError,
> {
    match started {
        Ok((relay, command)) => Ok((relay@, command@)),
        Err(error) => Err(error),
    }
}

/// The step taken on `event` by `relay`, with the cancellation flag reading
/// `cancel`.
///
/// While connecting, the relay awaits the stream: once it is open the first
/// chunk is awaited, and anything else is a failure to set up. While
/// receiving, a chunk is added to the response and forwarded; at the end of
/// the stream the exchange ends with the whole response, unless cancellation
/// is requested. While forwarding, the confirmation is the point at which the
/// flag is looked at: if it is set the exchange ends as cancelled, and
/// whatever was received is given up; if not, the next chunk is awaited. An
/// event that the phase does not await fails the exchange.
pub open spec fn next_step(relay: RelayView, event: EventView, cancel: bool) -> StepView {
    match relay.phase {
        Phase::Connecting => match event {
            EventView::StreamOpened => StepView::Continue(
                RelayView { phase: Phase::Receiving, response: relay.response },
                CommandView::AwaitChunk,
            ),
            _ => StepView::Finished(Err(ChatError::SetupFailed)),
        },
        Phase::Receiving => match event {
            EventView::Chunk(text) => StepView::Continue(
                RelayView { phase: Phase::Forwarding, response: relay.response + text },
                CommandView::Forward(assistant_payload(text)),
            ),
            EventView::StreamEnded => if cancel {
                StepView::Finished(Err(ChatError::Cancelled))
            } else {
                StepView::Finished(Ok(relay.response))
            },
            _ => StepView::Finished(Err(ChatError::StreamFailed)),
        },
        Phase::Forwarding => match event {
            EventView::Forwarded => if cancel {
                StepView::Finished(Err(ChatError::Cancelled))
            } else {
                StepView::Continue(
                    RelayView { phase: Phase::Receiving, response: relay.response },
                    CommandView::AwaitChunk,
                )
            },
            _ => StepView::Finished(Err(ChatError::StreamFailed)),
        },
    }
}

/// Whether the step taken on `event` by `relay` looks at the cancellation
/// flag: it does where the notification of a chunk is confirmed, and where
/// the stream ends.
pub open spec fn is_check_point(relay: RelayView, event: EventView) -> bool {
    ||| relay.phase == Phase::Forwarding && event is Forwarded
    ||| relay.phase == Phase::Receiving && event is StreamEnded
}

/// The cancellation flag after the step taken on `event` by `relay`: a step
/// that looks at the flag leaves it unset, any other leaves it as it is.
pub open spec fn flag_after(relay: RelayView, event: EventView, cancel: bool) -> bool {
    cancel && !is_check_point(relay, event)
}

impl Relay {
    /// Begins an exchange on `conversation` with the model named `model`:
    /// the relay and its first command, or the reason why there is none.
    pub fn start(conversation: Vec<Message>, model: String) -> (started: Result<
        (Relay, Command),
        ChatError,
    >)
        ensures
            started is Ok <==> conversation@.len() > 0,
            started_view(started) == begin(conversation.deep_view(), model@),
    {
        match split_conversation(conversation) {
            None => Err(ChatError::EmptyConversation),
            Some((history, current_turn)) => Ok(
                (
                    Relay { phase: Phase::Connecting, response: String::new() },
                    Command::OpenStream { history, current_turn, model },
                ),
            ),
        }
    }

    /// What the relay is waiting for.
    pub fn phase(&self) -> (phase: Phase)
        ensures
            phase == self@.phase,
    {
        self.phase
    }

    /// The text received so far.
    pub fn response(&self) -> (text: &str)
        ensures
            text@ == self@.response,
    {
        self.response.as_str()
    }

    /// Takes the step that `event` calls for.
    pub fn step(self, event: Event, flag: &mut CancelFlag) -> (step: Step)
        ensures
            step@ == next_step(self@, event@, old(flag).is_set()),
            final(flag).is_set() == flag_after(self@, event@, old(flag).is_set()),
    {
        let Relay { phase, response } = self;
        match phase {
            Phase::Connecting => match event {
                Event::StreamOpened => Step::Continue(
                    Relay { phase: Phase::Receiving, response },
                    Command::AwaitChunk,
                ),
                _ => Step::Finished(Err(ChatError::SetupFailed)),
            },
            Phase::Receiving => match event {
                Event::Chunk(text) => {
                    let mut response = response;
                    response.append(text.as_str());
                    Step::Continue(
                        Relay { phase: Phase::Forwarding, response },
                        Command::Forward(Payload { role: Role::Assistant, content: text }),
                    )
                },
                Event::StreamEnded => {
                    if flag.take() {
                        Step::Finished(Err(ChatError::Cancelled))
                    } else {
                        Step::Finished(Ok(response))
                    }
                },
                _ => Step::Finished(Err(ChatError::StreamFailed)),
            },
            Phase::Forwarding => match event {
                Event::Forwarded => {
                    if flag.take() {
                        Step::Finished(Err(ChatError::Cancelled))
                    } else {
                        Step::Continue(
                            Relay { phase: Phase::Receiving, response },
                            Command::AwaitChunk,
                        )
                    }
                },
                _ => Step::Finished(Err(ChatError::StreamFailed)),
            },
        }
    }
}

} // verus!
