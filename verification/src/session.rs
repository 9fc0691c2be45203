//! The state that all chat exchanges of a process share: the cancellation
//! flag and the one exchange that may be in flight.

use vstd::prelude::*;
use crate::cancel::CancelFlag;
use crate::relay::{
    begin, flag_after, next_step, outcome_view, ChatError, Command, CommandView, Event, EventView,
    Outcome, OutcomeView, Relay, RelayView, Step, StepView,
};
use crate::message::{Message, MessageView};

verus! {

/// The shared state of a process: the cancellation flag, and the exchange in
/// flight if there is one.
#[derive(Debug)]
pub struct SessionState {
    flag: CancelFlag,
    exchange: Option<Relay>,
}

/// What a `SessionState` holds.
pub ghost struct SessionView {
    pub cancel: bool,
    pub exchange: Option<RelayView>,
}

/// The session's answer to a request to start an exchange.
#[derive(Debug, PartialEq, Eq)]
pub enum Admission {
    /// The exchange is in flight: carry out the command and report back.
    Admitted(Command),
    /// Another exchange is in flight. The request is handed back, to be made
    /// again once that exchange is over.
    Deferred { conversation: Vec<Message>, model: String },
    /// The request is turned away.
    Rejected(ChatError),
}

/// What an `Admission` holds.
pub ghost enum AdmissionView {
    Admitted(CommandView),
    Deferred { conversation: Seq<MessageView>, model: Seq<char> },
    Rejected(ChatError),
}

impl View for Admission {
    type V = AdmissionView;

    open spec fn view(&self) -> AdmissionView {
        match self {
            Admission::Admitted(command) => AdmissionView::Admitted(command@),
            Admission::Deferred { conversation, model } => AdmissionView::Deferred {
                conversation: conversation.deep_view(),
                model: model@,
            },
            Admission::Rejected(error) => AdmissionView::Rejected(*error),
        }
    }
}

/// The session's answer to an event.
#[derive(Debug, PartialEq, Eq)]
pub enum Reply {
    /// The exchange goes on: carry out the command and report back.
    Next(Command),
    /// The exchange is over, and the session is free for the next one.
    Finished(Outcome),
    /// No exchange is in flight: the event was dropped.
    Idle,
}

/// What a `Reply` holds.
pub ghost enum ReplyView {
    Next(CommandView),
    Finished(OutcomeView),
    Idle,
}

impl View for Reply {
    type V = ReplyView;

    open spec fn view(&self) -> ReplyView {
        match self {
            Reply::Next(command) => ReplyView::Next(command@),
            Reply::Finished(outcome) => ReplyView::Finished(outcome_view(*outcome)),
            Reply::Idle => ReplyView::Idle,
        }
    }
}

impl SessionView {
    /// The session of a process that has just started.
    pub open spec fn fresh() -> SessionView {
        SessionView { cancel: false, exchange: None }
    }

    /// Whether an exchange is in flight.
    pub open spec fn in_flight(self) -> bool {
        self.exchange is Some
    }

    /// The session after the flag is written.
    pub open spec fn request_cancel(self, flag: bool) -> SessionView {
        SessionView { cancel: flag, exchange: self.exchange }
    }

    /// The session after a request to start an exchange, and its answer. An
    /// empty conversation is turned away. While an exchange is in flight any
    /// other waits, and the session stays as it is.
    pub open spec fn start_chat(self, conversation: Seq<MessageView>, model: Seq<char>) -> (
        SessionView,
        AdmissionView,
    ) {
        match begin(conversation, model) {
            Err(error) => (self, AdmissionView::Rejected(error)),
            Ok((relay, command)) => if self.in_flight() {
                (self, AdmissionView::Deferred { conversation, model })
            } else {
                (
                    SessionView { cancel: self.cancel, exchange: Some(relay) },
                    AdmissionView::Admitted(command),
                )
            },
        }
    }

    /// The session after an event, and its answer. The event goes to the
    /// exchange in flight; without one it is dropped.
    pub open spec fn deliver(self, event: EventView) -> (SessionView, ReplyView) {
        match self.exchange {
            None => (self, ReplyView::Idle),
            Some(relay) => {
                let cancel = flag_after(relay, event, self.cancel);
                match next_step(relay, event, self.cancel) {
                    StepView::Continue(next, command) => (
                        SessionView { cancel, exchange: Some(next) },
                        ReplyView::Next(command),
                    ),
                    StepView::Finished(outcome) => (
                        SessionView { cancel, exchange: None },
                        ReplyView::Finished(outcome),
                    ),
                }
            },
        }
    }
}

impl View for SessionState {
    type V = SessionView;

    closed spec fn view(&self) -> SessionView {
        SessionView {
            cancel: self.flag.is_set(),
            exchange: match self.exchange {
                Some(relay) => Some(relay@),
                None => None,
            },
        }
    }
}

impl SessionState {
    /// The session of a process that has just started: the flag is not set
    /// and no exchange is in flight.
    pub fn new() -> (session: SessionState)
        ensures
            session@ == SessionView::fresh(),
    {
        SessionState { flag: CancelFlag::new(), exchange: None }
    }

    /// Writes the cancellation flag and echoes the value written. The
    /// exchange in flight sees it when the next notification is confirmed.
    pub fn request_cancel(&mut self, flag: bool) -> (written: bool)
        ensures
            written == flag,
            final(self)@ == old(self)@.request_cancel(flag),
    {
        self.flag.request_cancel(flag)
    }

    /// Reads the cancellation flag.
    pub fn cancel_requested(&self) -> (set: bool)
        ensures
            set == self@.cancel,
    {
        self.flag.is_requested()
    }

    /// Whether an exchange is in flight.
    pub fn in_flight(&self) -> (busy: bool)
        ensures
            busy == self@.in_flight(),
    {
        self.exchange.is_some()
    }

    /// Asks to start an exchange on `conversation` with the model named
    /// `model`.
    pub fn start_chat(&mut self, conversation: Vec<Message>, model: String) -> (admission:
        Admission)
        ensures
            (final(self)@, admission@) == old(self)@.start_chat(conversation.deep_view(), model@),
    {
        if conversation.len() > 0 && self.exchange.is_some() {
            return Admission::Deferred { conversation, model };
        }
        match Relay::start(conversation, model) {
            Ok((relay, command)) => {
                self.exchange = Some(relay);
                Admission::Admitted(command)
            },
            Err(error) => Admission::Rejected(error),
        }
    }

    /// Reports `event` to the exchange in flight.
    pub fn deliver(&mut self, event: Event) -> (reply: Reply)
        ensures
            (final(self)@, reply@) == old(self)@.deliver(event@),
    {
        match self.exchange.take() {
            None => Reply::Idle,
            Some(relay) => match relay.step(event, &mut self.flag) {
                Step::Continue(next, command) => {
                    self.exchange = Some(next);
                    Reply::Next(command)
                },
                Step::Finished(outcome) => Reply::Finished(outcome),
            },
        }
    }
}

} // verus!
