//! Whole exchanges, driven against a scripted backend and a recording
//! listener.

use chat_relay::message::{Message, Payload, Role};
use chat_relay::relay::{ChatError, Command, Event};
use chat_relay::session::{Admission, Reply, SessionState};

/// What the scripted stream delivers.
#[derive(Clone, Debug)]
enum Item {
    Chunk(&'static str),
    Broken,
}

/// A backend that opens its stream or not, and then delivers `items`.
struct Backend {
    opens: bool,
    items: Vec<Item>,
    /// Request cancellation once this many notifications have been sent,
    /// before the last of them is confirmed.
    cancel_after: Option<usize>,
}

impl Backend {
    fn streaming(chunks: &[&'static str]) -> Backend {
        Backend {
            opens: true,
            items: chunks.iter().map(|text| Item::Chunk(text)).collect(),
            cancel_after: None,
        }
    }
}

/// What the backend and the listener saw of one exchange.
#[derive(Default)]
struct Seen {
    submissions: Vec<(Vec<Message>, Message, String)>,
    notifications: Vec<Payload>,
    items_taken: usize,
}

fn message(role: Role, content: &str) -> Message {
    Message { role, content: content.to_string() }
}

fn notification(content: &str) -> Payload {
    Payload { role: Role::Assistant, content: content.to_string() }
}

fn run_chat(
    session: &mut SessionState,
    conversation: Vec<Message>,
    model: &str,
    backend: &Backend,
    seen: &mut Seen,
) -> Result<String, ChatError> {
    let mut command = match session.start_chat(conversation, model.to_string()) {
        Admission::Admitted(command) => command,
        Admission::Rejected(error) => return Err(error),
        Admission::Deferred { .. } => panic!("another exchange is in flight"),
    };
    loop {
        let event = match command {
            Command::OpenStream { history, current_turn, model } => {
                seen.submissions.push((history, current_turn, model));
                if backend.opens {
                    Event::StreamOpened
                } else {
                    Event::SetupFailed
                }
            }
            Command::AwaitChunk => {
                let item = backend.items.get(seen.items_taken).cloned();
                if item.is_some() {
                    seen.items_taken += 1;
                }
                match item {
                    Some(Item::Chunk(text)) => Event::Chunk(text.to_string()),
                    Some(Item::Broken) => Event::ChunkFailed,
                    None => Event::StreamEnded,
                }
            }
            Command::Forward(payload) => {
                seen.notifications.push(payload);
                if backend.cancel_after == Some(seen.notifications.len()) {
                    assert!(session.request_cancel(true));
                }
                Event::Forwarded
            }
        };
        match session.deliver(event) {
            Reply::Next(next) => command = next,
            Reply::Finished(outcome) => return outcome,
            Reply::Idle => panic!("the exchange vanished"),
        }
    }
}

#[test]
fn two_chunks_are_forwarded_and_joined() {
    let mut session = SessionState::new();
    let mut seen = Seen::default();
    let backend = Backend::streaming(&["He", "llo"]);
    let outcome = run_chat(&mut session, vec![message(Role::User, "hi")], "m1", &backend, &mut seen);
    assert_eq!(outcome, Ok("Hello".to_string()));
    assert_eq!(seen.notifications, vec![notification("He"), notification("llo")]);
    assert_eq!(
        seen.submissions,
        vec![(vec![], message(Role::User, "hi"), "m1".to_string())]
    );
    assert!(!session.in_flight());
    assert!(!session.cancel_requested());
}

#[test]
fn cancel_after_first_chunk_ends_the_exchange() {
    let mut session = SessionState::new();
    let mut seen = Seen::default();
    let mut backend = Backend::streaming(&["He", "llo"]);
    backend.cancel_after = Some(1);
    let outcome = run_chat(&mut session, vec![message(Role::User, "hi")], "m1", &backend, &mut seen);
    assert_eq!(outcome, Err(ChatError::Cancelled));
    assert!(!session.cancel_requested());
    assert!(!session.in_flight());
    assert_eq!(seen.notifications, vec![notification("He")]);
    assert_eq!(seen.items_taken, 1);
}

#[test]
fn empty_conversation_is_rejected_before_the_backend_is_asked() {
    let mut session = SessionState::new();
    let mut seen = Seen::default();
    let backend = Backend::streaming(&["He", "llo"]);
    let outcome = run_chat(&mut session, vec![], "m1", &backend, &mut seen);
    assert_eq!(outcome, Err(ChatError::EmptyConversation));
    assert!(seen.submissions.is_empty());
    assert!(seen.notifications.is_empty());
    assert_eq!(seen.items_taken, 0);
    assert!(!session.in_flight());
}

#[test]
fn setup_failure_is_an_error_without_notifications() {
    let mut session = SessionState::new();
    let mut seen = Seen::default();
    let backend = Backend { opens: false, items: vec![Item::Chunk("He")], cancel_after: None };
    let outcome = run_chat(&mut session, vec![message(Role::User, "hi")], "m1", &backend, &mut seen);
    assert_eq!(outcome, Err(ChatError::SetupFailed));
    assert_eq!(seen.submissions.len(), 1);
    assert!(seen.notifications.is_empty());
    assert_eq!(seen.items_taken, 0);
    assert!(!session.in_flight());
}

#[test]
fn notifications_keep_order_and_content() {
    let streams: Vec<Vec<&'static str>> = vec![
        vec![],
        vec!["only"],
        vec!["a", "", "b", "a", " c\n", "\u{e9}t\u{e9}"],
    ];
    for chunks in streams {
        let mut session = SessionState::new();
        let mut seen = Seen::default();
        let backend = Backend::streaming(&chunks);
        let outcome =
            run_chat(&mut session, vec![message(Role::User, "hi")], "m1", &backend, &mut seen);
        let expected: Vec<Payload> = chunks.iter().map(|text| notification(text)).collect();
        assert_eq!(seen.notifications, expected);
        assert_eq!(outcome, Ok(chunks.concat()));
        assert_eq!(seen.items_taken, chunks.len());
    }
}

#[test]
fn response_is_the_chunks_joined_in_order() {
    let mut session = SessionState::new();
    let mut seen = Seen::default();
    let backend = Backend::streaming(&["ab", "", "c", "ab", "d"]);
    let outcome = run_chat(&mut session, vec![message(Role::User, "hi")], "m1", &backend, &mut seen);
    assert_eq!(outcome, Ok("abcabd".to_string()));
}

#[test]
fn stream_without_chunks_gives_an_empty_response() {
    let mut session = SessionState::new();
    let mut seen = Seen::default();
    let backend = Backend::streaming(&[]);
    let outcome = run_chat(&mut session, vec![message(Role::User, "hi")], "m1", &backend, &mut seen);
    assert_eq!(outcome, Ok(String::new()));
    assert!(seen.notifications.is_empty());
}

#[test]
fn cancel_at_each_chunk_discards_the_text_and_resets_the_flag() {
    let chunks = ["a", "b", "c", "d"];
    for k in 1..=chunks.len() {
        let mut session = SessionState::new();
        let mut seen = Seen::default();
        let mut backend = Backend::streaming(&chunks);
        backend.cancel_after = Some(k);
        let outcome =
            run_chat(&mut session, vec![message(Role::User, "hi")], "m1", &backend, &mut seen);
        assert_eq!(outcome, Err(ChatError::Cancelled));
        assert_eq!(seen.notifications.len(), k);
        assert_eq!(seen.items_taken, k);
        assert!(!session.cancel_requested());
        assert!(!session.in_flight());
    }
}

#[test]
fn exchange_after_a_cancelled_one_runs_to_its_end() {
    let mut session = SessionState::new();
    let mut seen = Seen::default();
    let mut backend = Backend::streaming(&["He", "llo"]);
    backend.cancel_after = Some(2);
    let first = run_chat(&mut session, vec![message(Role::User, "hi")], "m1", &backend, &mut seen);
    assert_eq!(first, Err(ChatError::Cancelled));
    let mut seen = Seen::default();
    let backend = Backend::streaming(&["He", "llo"]);
    let second = run_chat(&mut session, vec![message(Role::User, "hi")], "m1", &backend, &mut seen);
    assert_eq!(second, Ok("Hello".to_string()));
    assert_eq!(seen.notifications.len(), 2);
}

#[test]
fn cancel_requested_before_the_exchange_is_seen_at_the_first_chunk() {
    let mut session = SessionState::new();
    assert!(session.request_cancel(true));
    let mut seen = Seen::default();
    let backend = Backend::streaming(&["He", "llo"]);
    let outcome = run_chat(&mut session, vec![message(Role::User, "hi")], "m1", &backend, &mut seen);
    assert_eq!(outcome, Err(ChatError::Cancelled));
    assert_eq!(seen.notifications, vec![notification("He")]);
    assert!(!session.cancel_requested());
}

#[test]
fn pending_cancel_is_seen_when_a_stream_without_chunks_ends() {
    let mut session = SessionState::new();
    assert!(session.request_cancel(true));
    let mut seen = Seen::default();
    let backend = Backend::streaming(&[]);
    let outcome = run_chat(&mut session, vec![message(Role::User, "hi")], "m1", &backend, &mut seen);
    assert_eq!(outcome, Err(ChatError::Cancelled));
    assert!(seen.notifications.is_empty());
    assert!(!session.cancel_requested());
    assert!(!session.in_flight());
}

#[test]
fn broken_chunk_fails_the_exchange_without_a_partial_response() {
    let mut session = SessionState::new();
    let mut seen = Seen::default();
    let backend = Backend {
        opens: true,
        items: vec![Item::Chunk("He"), Item::Broken, Item::Chunk("llo")],
        cancel_after: None,
    };
    let outcome = run_chat(&mut session, vec![message(Role::User, "hi")], "m1", &backend, &mut seen);
    assert_eq!(outcome, Err(ChatError::StreamFailed));
    assert_eq!(seen.notifications, vec![notification("He")]);
    assert_eq!(seen.items_taken, 2);
    assert!(!session.in_flight());
}

#[test]
fn history_is_every_turn_but_the_last_in_order() {
    let mut session = SessionState::new();
    let mut seen = Seen::default();
    let backend = Backend::streaming(&["ok"]);
    let conversation = vec![
        message(Role::System, "be brief"),
        message(Role::User, "hi"),
        message(Role::Assistant, "hello"),
        message(Role::User, "and now?"),
    ];
    let outcome = run_chat(&mut session, conversation, "m2", &backend, &mut seen);
    assert_eq!(outcome, Ok("ok".to_string()));
    assert_eq!(
        seen.submissions,
        vec![(
            vec![
                message(Role::System, "be brief"),
                message(Role::User, "hi"),
                message(Role::Assistant, "hello"),
            ],
            message(Role::User, "and now?"),
            "m2".to_string(),
        )]
    );
}
