//! Courses of a session: what it has become, and what the backend and the
//! listener have seen of it, after a sequence of inputs.

use vstd::prelude::*;
use crate::message::{assistant_payload, MessageView, PayloadView};
use crate::relay::{ChatError, CommandView, EventView, OutcomeView, Phase, RelayView};
use crate::session::{AdmissionView, ReplyView, SessionView};

verus! {

/// What can happen to a session.
pub ghost enum Input {
    /// A caller asks for an exchange.
    Start { conversation: Seq<MessageView>, model: Seq<char> },
    /// The host reports an event.
    Deliver(EventView),
    /// A caller writes the cancellation flag.
    Cancel(bool),
}

/// What is seen of a session from outside.
pub ghost enum Mark {
    /// A request went to the backend.
    Submitted { history: Seq<MessageView>, current_turn: MessageView, model: Seq<char> },
    /// A notification went to the listener.
    Forwarded(PayloadView),
    /// An exchange ended.
    Finished(OutcomeView),
}

/// What carrying out `command` shows outside.
pub open spec fn marks_of(command: CommandView) -> Seq<Mark> {
    match command {
        CommandView::OpenStream { history, current_turn, model } => seq![
            Mark::Submitted { history, current_turn, model },
        ],
        CommandView::AwaitChunk => Seq::empty(),
        CommandView::Forward(payload) => seq![Mark::Forwarded(payload)],
    }
}

/// The session after `input`.
pub open spec fn session_after(session: SessionView, input: Input) -> SessionView {
    match input {
        Input::Start { conversation, model } => session.start_chat(conversation, model).0,
        Input::Deliver(event) => session.deliver(event).0,
        Input::Cancel(flag) => session.request_cancel(flag),
    }
}

/// What `input` to `session` shows outside: the request that goes to the
/// backend where an exchange is admitted, the notification where a chunk is
/// forwarded, the end where the exchange is over; otherwise nothing.
pub open spec fn shown(session: SessionView, input: Input) -> Seq<Mark> {
    match input {
        Input::Start { conversation, model } => match session.start_chat(conversation, model).1 {
            AdmissionView::Admitted(command) => marks_of(command),
            _ => Seq::empty(),
        },
        Input::Deliver(event) => match session.deliver(event).1 {
            ReplyView::Next(command) => marks_of(command),
            ReplyView::Finished(outcome) => seq![Mark::Finished(outcome)],
            ReplyView::Idle => Seq::empty(),
        },
        Input::Cancel(_) => Seq::empty(),
    }
}

/// A session together with all that has been seen of it so far.
pub ghost struct Course {
    pub session: SessionView,
    pub marks: Seq<Mark>,
}

impl Course {
    /// Where every course begins: a fresh session, of which nothing has been
    /// seen.
    pub open spec fn fresh() -> Course {
        Course { session: SessionView::fresh(), marks: Seq::empty() }
    }

    /// The course of `session` of which `marks` have been seen.
    pub open spec fn of(session: SessionView, marks: Seq<Mark>) -> Course {
        Course { session, marks }
    }

    /// The course after one more input.
    pub open spec fn after(self, input: Input) -> Course {
        Course {
            session: session_after(self.session, input),
            marks: self.marks + shown(self.session, input),
        }
    }

    /// The course after `inputs`, one after the other.
    pub open spec fn run(self, inputs: Seq<Input>) -> Course
        decreases inputs.len(),
    {
        if inputs.len() == 0 {
            self
        } else {
            self.run(inputs.drop_last()).after(inputs.last())
        }
    }
}

/// Running `first` and then `second` is running the two in a row.
pub proof fn run_in_a_row(course: Course, first: Seq<Input>, second: Seq<Input>)
    ensures
        course.run(first + second) == course.run(first).run(second),
    decreases second.len(),
{
    if second.len() == 0 {
        assert(first + second =~= first);
    } else {
        assert((first + second).drop_last() =~= first + second.drop_last());
        run_in_a_row(course, first, second.drop_last());
    }
}

/// Running a single input is taking one step.
pub proof fn run_one(course: Course, input: Input)
    ensures
        course.run(seq![input]) == course.after(input),
{
    assert(seq![input].drop_last() =~= Seq::<Input>::empty());
    assert(course.run(seq![input].drop_last()) == course);
}

/// What the host reports while the stream delivers `chunks` and each
/// notification is confirmed: for each chunk its arrival, then the
/// confirmation.
pub open spec fn chunk_script(chunks: Seq<Seq<char>>) -> Seq<Input>
    decreases chunks.len(),
{
    if chunks.len() == 0 {
        Seq::empty()
    } else {
        chunk_script(chunks.drop_last()) + seq![
            Input::Deliver(EventView::Chunk(chunks.last())),
            Input::Deliver(EventView::Forwarded),
        ]
    }
}

/// The notifications of `chunks`, one for each, in their order.
pub open spec fn notifications(chunks: Seq<Seq<char>>) -> Seq<Mark> {
    chunks.map_values(|text: Seq<char>| Mark::Forwarded(assistant_payload(text)))
}

/// A session whose exchange awaits the next chunk, having received
/// `response`, with the flag not set.
pub open spec fn receiving(response: Seq<char>) -> SessionView {
    SessionView {
        cancel: false,
        exchange: Some(RelayView { phase: Phase::Receiving, response }),
    }
}

/// While the flag stays unset, an exchange that awaits a chunk forwards each
/// chunk that arrives, in order, and adds its text to the response.
pub proof fn chunks_are_forwarded_in_order(
    marks: Seq<Mark>,
    response: Seq<char>,
    chunks: Seq<Seq<char>>,
)
    ensures
        Course::of(receiving(response), marks).run(chunk_script(chunks)) == Course::of(
            receiving(response + chunks.flatten()),
            marks + notifications(chunks),
        ),
    decreases chunks.len(),
{
    let course = Course::of(receiving(response), marks);
    if chunks.len() == 0 {
        assert(response + chunks.flatten() =~= response);
        assert(marks + notifications(chunks) =~= marks);
    } else {
        let earlier = chunks.drop_last();
        let text = chunks.last();
        let arrival = Input::Deliver(EventView::Chunk(text));
        let confirmation = Input::Deliver(EventView::Forwarded);
        chunks_are_forwarded_in_order(marks, response, earlier);
        let before = course.run(chunk_script(earlier));
        run_in_a_row(course, chunk_script(earlier), seq![arrival, confirmation]);
        assert(seq![arrival, confirmation] =~= seq![arrival] + seq![confirmation]);
        run_in_a_row(before, seq![arrival], seq![confirmation]);
        run_one(before, arrival);
        run_one(before.after(arrival), confirmation);
        assert(chunks =~= earlier.push(text));
        earlier.lemma_flatten_push(text);
        assert((response + earlier.flatten()) + text =~= response + chunks.flatten());
        assert(marks + notifications(earlier) + seq![Mark::Forwarded(assistant_payload(text))]
            + Seq::<Mark>::empty() =~= marks + notifications(chunks));
    }
}

/// What the backend sees of an exchange on `conversation` with `model`: the
/// last turn submitted, with the turns before it as history.
pub open spec fn submission(conversation: Seq<MessageView>, model: Seq<char>) -> Mark {
    Mark::Submitted {
        history: conversation.drop_last(),
        current_turn: conversation.last(),
        model,
    }
}

/// The request for an exchange and the report that its stream is open.
pub open spec fn opening(conversation: Seq<MessageView>, model: Seq<char>) -> Seq<Input> {
    seq![Input::Start { conversation, model }, Input::Deliver(EventView::StreamOpened)]
}

/// A whole exchange that nobody cancels: the request, the stream opened,
/// `chunks` delivered and each notification confirmed, the stream ended.
pub open spec fn exchange_script(
    conversation: Seq<MessageView>,
    model: Seq<char>,
    chunks: Seq<Seq<char>>,
) -> Seq<Input> {
    opening(conversation, model) + chunk_script(chunks) + seq![
        Input::Deliver(EventView::StreamEnded),
    ]
}

/// Opening an exchange on a session at rest submits the request and leaves
/// the exchange awaiting its first chunk.
pub proof fn opening_submits_the_request(
    marks: Seq<Mark>,
    conversation: Seq<MessageView>,
    model: Seq<char>,
)
    requires
        conversation.len() > 0,
    ensures
        Course::of(SessionView::fresh(), marks).run(opening(conversation, model)) == Course::of(
            receiving(Seq::empty()),
            marks + seq![submission(conversation, model)],
        ),
{
    let course = Course::of(SessionView::fresh(), marks);
    let request = Input::Start { conversation, model };
    let opened = Input::Deliver(EventView::StreamOpened);
    assert(opening(conversation, model) =~= seq![request] + seq![opened]);
    run_in_a_row(course, seq![request], seq![opened]);
    run_one(course, request);
    run_one(course.after(request), opened);
    assert(marks + seq![submission(conversation, model)] + Seq::<Mark>::empty() =~= marks
        + seq![submission(conversation, model)]);
}

/// An exchange that nobody cancels notifies the listener of every chunk, in
/// the order of arrival and with the chunk's own text, and ends with the
/// chunks' texts joined in that order as its response. This holds for any
/// number of chunks, none included. Afterwards the session is at rest again.
pub proof fn uncancelled_exchange_relays_every_chunk(
    marks: Seq<Mark>,
    conversation: Seq<MessageView>,
    model: Seq<char>,
    chunks: Seq<Seq<char>>,
)
    requires
        conversation.len() > 0,
    ensures
        Course::of(SessionView::fresh(), marks).run(exchange_script(conversation, model, chunks))
            == Course::of(
            SessionView::fresh(),
            marks + seq![submission(conversation, model)] + notifications(chunks) + seq![
                Mark::Finished(Ok(chunks.flatten())),
            ],
        ),
{
    let course = Course::of(SessionView::fresh(), marks);
    let ended = Input::Deliver(EventView::StreamEnded);
    let opened_marks = marks + seq![submission(conversation, model)];
    opening_submits_the_request(marks, conversation, model);
    chunks_are_forwarded_in_order(opened_marks, Seq::empty(), chunks);
    run_in_a_row(course, opening(conversation, model), chunk_script(chunks));
    run_in_a_row(course, opening(conversation, model) + chunk_script(chunks), seq![ended]);
    let streamed = course.run(opening(conversation, model) + chunk_script(chunks));
    run_one(streamed, ended);
    assert(Seq::<char>::empty() + chunks.flatten() =~= chunks.flatten());
}

/// Whether every input of `inputs` is an event that the host reports.
pub open spec fn only_events(inputs: Seq<Input>) -> bool {
    forall|i: int| 0 <= i < inputs.len() ==> inputs[i] is Deliver
}

/// A session without an exchange in flight consumes no event: whatever the
/// host reports is dropped, and nothing is seen of it.
pub proof fn session_at_rest_consumes_nothing(course: Course, events: Seq<Input>)
    requires
        !course.session.in_flight(),
        only_events(events),
    ensures
        course.run(events) == course,
    decreases events.len(),
{
    if events.len() > 0 {
        session_at_rest_consumes_nothing(course, events.drop_last());
        assert(events.last() is Deliver);
        assert(course.marks + Seq::<Mark>::empty() =~= course.marks);
    }
}

/// The round of the chunk at which a cancellation is seen: the request to
/// cancel comes before the chunk arrives (`early`) or between its arrival and
/// the confirmation of its notification.
pub open spec fn cancelled_round(text: Seq<char>, early: bool) -> Seq<Input> {
    if early {
        seq![
            Input::Cancel(true),
            Input::Deliver(EventView::Chunk(text)),
            Input::Deliver(EventView::Forwarded),
        ]
    } else {
        seq![
            Input::Deliver(EventView::Chunk(text)),
            Input::Cancel(true),
            Input::Deliver(EventView::Forwarded),
        ]
    }
}

/// An exchange that is cancelled in the round of the last chunk of `chunks`,
/// followed by whatever the host reports afterwards.
pub open spec fn cancelled_script(
    conversation: Seq<MessageView>,
    model: Seq<char>,
    chunks: Seq<Seq<char>>,
    early: bool,
    afterwards: Seq<Input>,
) -> Seq<Input> {
    opening(conversation, model) + chunk_script(chunks.drop_last()) + cancelled_round(
        chunks.last(),
        early,
    ) + afterwards
}

/// A cancellation that is requested after the check of one chunk and before
/// the check of the next is seen at that next check: the exchange ends as
/// cancelled and without a response, the listener has been notified of the
/// chunks up to that one and of no other, the flag is unset again, and the
/// session is at rest, so that nothing the stream delivers afterwards is
/// consumed.
pub proof fn cancellation_ends_the_exchange_at_the_next_check(
    marks: Seq<Mark>,
    conversation: Seq<MessageView>,
    model: Seq<char>,
    chunks: Seq<Seq<char>>,
    early: bool,
    afterwards: Seq<Input>,
)
    requires
        conversation.len() > 0,
        chunks.len() > 0,
        only_events(afterwards),
    ensures
        Course::of(SessionView::fresh(), marks).run(
            cancelled_script(conversation, model, chunks, early, afterwards),
        ) == Course::of(
            SessionView::fresh(),
            marks + seq![submission(conversation, model)] + notifications(chunks) + seq![
                Mark::Finished(Err(ChatError::Cancelled)),
            ],
        ),
{
    let course = Course::of(SessionView::fresh(), marks);
    let earlier = chunks.drop_last();
    let text = chunks.last();
    let round = cancelled_round(text, early);
    let opened_marks = marks + seq![submission(conversation, model)];
    let prefix = opening(conversation, model) + chunk_script(earlier);
    opening_submits_the_request(marks, conversation, model);
    chunks_are_forwarded_in_order(opened_marks, Seq::empty(), earlier);
    run_in_a_row(course, opening(conversation, model), chunk_script(earlier));
    let streamed = course.run(prefix);
    assert(streamed == Course::of(
        receiving(Seq::<char>::empty() + earlier.flatten()),
        opened_marks + notifications(earlier),
    ));
    run_in_a_row(course, prefix, round);
    let first = round[0];
    let second = round[1];
    let third = round[2];
    assert(round =~= seq![first] + seq![second] + seq![third]);
    run_in_a_row(streamed, seq![first] + seq![second], seq![third]);
    run_in_a_row(streamed, seq![first], seq![second]);
    run_one(streamed, first);
    run_one(streamed.after(first), second);
    run_one(streamed.after(first).after(second), third);
    let cancelled = streamed.run(round);
    assert(chunks =~= earlier.push(text));
    assert(cancelled.marks =~= opened_marks + notifications(chunks) + seq![
        Mark::Finished(Err(ChatError::Cancelled)),
    ]);
    assert(cancelled.session == SessionView::fresh());
    run_in_a_row(course, prefix + round, afterwards);
    session_at_rest_consumes_nothing(cancelled, afterwards);
}

/// An exchange whose stream ends after `chunks` while a cancellation is
/// pending: the request to cancel comes after the check of the last chunk.
pub open spec fn cancelled_at_the_end_script(
    conversation: Seq<MessageView>,
    model: Seq<char>,
    chunks: Seq<Seq<char>>,
    afterwards: Seq<Input>,
) -> Seq<Input> {
    opening(conversation, model) + chunk_script(chunks) + seq![
        Input::Cancel(true),
        Input::Deliver(EventView::StreamEnded),
    ] + afterwards
}

/// A cancellation that is requested after the check of the last chunk is seen
/// when the stream ends: the exchange ends as cancelled and without a
/// response, although every chunk has been forwarded; the flag is unset
/// again, and the session is at rest.
pub proof fn cancellation_ends_the_exchange_at_the_end_of_the_stream(
    marks: Seq<Mark>,
    conversation: Seq<MessageView>,
    model: Seq<char>,
    chunks: Seq<Seq<char>>,
    afterwards: Seq<Input>,
)
    requires
        conversation.len() > 0,
        only_events(afterwards),
    ensures
        Course::of(SessionView::fresh(), marks).run(
            cancelled_at_the_end_script(conversation, model, chunks, afterwards),
        ) == Course::of(
            SessionView::fresh(),
            marks + seq![submission(conversation, model)] + notifications(chunks) + seq![
                Mark::Finished(Err(ChatError::Cancelled)),
            ],
        ),
{
    let course = Course::of(SessionView::fresh(), marks);
    let request = Input::Cancel(true);
    let ended = Input::Deliver(EventView::StreamEnded);
    let opened_marks = marks + seq![submission(conversation, model)];
    let prefix = opening(conversation, model) + chunk_script(chunks);
    opening_submits_the_request(marks, conversation, model);
    chunks_are_forwarded_in_order(opened_marks, Seq::empty(), chunks);
    run_in_a_row(course, opening(conversation, model), chunk_script(chunks));
    let streamed = course.run(prefix);
    run_in_a_row(course, prefix, seq![request, ended]);
    assert(seq![request, ended] =~= seq![request] + seq![ended]);
    run_in_a_row(streamed, seq![request], seq![ended]);
    run_one(streamed, request);
    run_one(streamed.after(request), ended);
    let cancelled = streamed.run(seq![request, ended]);
    assert(cancelled.marks =~= opened_marks + notifications(chunks) + seq![
        Mark::Finished(Err(ChatError::Cancelled)),
    ]);
    assert(cancelled.session == SessionView::fresh());
    run_in_a_row(course, prefix + seq![request, ended], afterwards);
    session_at_rest_consumes_nothing(cancelled, afterwards);
}

/// Writing `false` to the flag twice in a row is writing it once, and the
/// flag is unset after the first write as after the second.
pub proof fn clearing_twice_is_clearing_once(course: Course)
    ensures
        course.run(seq![Input::Cancel(false), Input::Cancel(false)]) == course.run(
            seq![Input::Cancel(false)],
        ),
        !course.run(seq![Input::Cancel(false)]).session.cancel,
        !course.run(seq![Input::Cancel(false), Input::Cancel(false)]).session.cancel,
{
    let clear = Input::Cancel(false);
    assert(seq![clear, clear] =~= seq![clear] + seq![clear]);
    run_in_a_row(course, seq![clear], seq![clear]);
    run_one(course, clear);
    run_one(course.after(clear), clear);
}

/// Whether `marks` is a row of exchanges, each whole before the next begins:
/// a request goes to the backend only at the very beginning or after the end
/// of an exchange, and every notification and every end follows the request
/// or a notification of the same exchange.
pub open spec fn serial(marks: Seq<Mark>) -> bool {
    forall|i: int|
        0 <= i < marks.len() ==> if #[trigger] marks[i] is Submitted {
            i == 0 || marks[i - 1] is Finished
        } else {
            i > 0 && !(marks[i - 1] is Finished)
        }
}

/// Whether `course` is a row of whole exchanges, the last of which is still
/// open exactly if the session has an exchange in flight.
pub open spec fn orderly(course: Course) -> bool {
    &&& serial(course.marks)
    &&& course.session.in_flight() <==> course.marks.len() > 0 && !(course.marks.last()
        is Finished)
}

/// One input shows at most one thing. A request goes to the backend only
/// from a session at rest, which then has an exchange in flight; a
/// notification only from an exchange in flight, which goes on; an end only
/// from an exchange in flight, which leaves the session at rest. An input that
/// shows nothing leaves the session at rest or in flight as it was.
pub proof fn one_input_shows_one_thing_at_most(session: SessionView, input: Input)
    ensures
        shown(session, input).len() <= 1,
        shown(session, input).len() == 0 ==> (session_after(session, input).in_flight()
            <==> session.in_flight()),
        shown(session, input).len() == 1 ==> match shown(session, input)[0] {
            Mark::Submitted { .. } => !session.in_flight() && session_after(
                session,
                input,
            ).in_flight(),
            Mark::Forwarded(_) => session.in_flight() && session_after(session, input).in_flight(),
            Mark::Finished(_) => session.in_flight() && !session_after(session, input).in_flight(),
        },
{
    match input {
        Input::Start { conversation, model } => {
            let (_, admission) = session.start_chat(conversation, model);
            match admission {
                AdmissionView::Admitted(command) => {
                    assert(command is OpenStream);
                },
                _ => {},
            }
        },
        Input::Deliver(event) => {
            let (_, reply) = session.deliver(event);
            match reply {
                ReplyView::Next(command) => {
                    assert(!(command is OpenStream));
                },
                _ => {},
            }
        },
        Input::Cancel(_) => {},
    }
}

/// One more input keeps an orderly course orderly. A request that arrives
/// while an exchange is in flight waits, and shows nothing.
pub proof fn orderly_stays_orderly(course: Course, input: Input)
    requires
        orderly(course),
    ensures
        orderly(course.after(input)),
        input is Start && course.session.in_flight() ==> course.after(input) == course,
{
    let next = course.after(input);
    let seen = shown(course.session, input);
    one_input_shows_one_thing_at_most(course.session, input);
    if seen.len() == 0 {
        assert(next.marks =~= course.marks);
    } else {
        assert(next.marks =~= course.marks.push(seen[0]));
        assert forall|i: int| 0 <= i < next.marks.len() implies if #[trigger] next.marks[i]
            is Submitted {
            i == 0 || next.marks[i - 1] is Finished
        } else {
            i > 0 && !(next.marks[i - 1] is Finished)
        } by {
            if i < course.marks.len() {
                assert(next.marks[i] == course.marks[i]);
                if i > 0 {
                    assert(next.marks[i - 1] == course.marks[i - 1]);
                }
            } else {
                assert(next.marks[i] == seen[0]);
                if i > 0 {
                    assert(next.marks[i - 1] == course.marks.last());
                }
            }
        }
    }
}

/// Exchanges never interleave: whatever is asked of a session and reported to
/// it, and in whatever order, what the backend and the listener see is a row
/// of exchanges, each with all its notifications and its end before the
/// request of the next.
pub proof fn exchanges_never_interleave(inputs: Seq<Input>)
    ensures
        serial(Course::fresh().run(inputs).marks),
        orderly(Course::fresh().run(inputs)),
    decreases inputs.len(),
{
    if inputs.len() > 0 {
        exchanges_never_interleave(inputs.drop_last());
        orderly_stays_orderly(Course::fresh().run(inputs.drop_last()), inputs.last());
    }
}

/// The texts of the notifications that `marks` ends with, joined in their
/// order: what the exchange that is open at the end of `marks` has forwarded.
pub open spec fn forwarded_text(marks: Seq<Mark>) -> Seq<char>
    decreases marks.len(),
{
    if marks.len() == 0 {
        Seq::empty()
    } else {
        match marks.last() {
            Mark::Forwarded(payload) => forwarded_text(marks.drop_last()) + payload.content,
            _ => Seq::empty(),
        }
    }
}

/// Whether every response in `marks` is the text that its exchange had
/// forwarded until then.
pub open spec fn responses_are_what_was_forwarded(marks: Seq<Mark>) -> bool {
    forall|i: int|
        0 <= i < marks.len() ==> match #[trigger] marks[i] {
            Mark::Finished(Ok(text)) => text == forwarded_text(marks.take(i)),
            _ => true,
        }
}

/// Whether `course` has kept faith with its listener: every response given so
/// far is what had been forwarded, and the exchange in flight holds exactly
/// what it has forwarded.
pub open spec fn faithful(course: Course) -> bool {
    &&& responses_are_what_was_forwarded(course.marks)
    &&& course.session.exchange matches Some(relay) ==> relay.response == forwarded_text(
        course.marks,
    )
}

/// One more input keeps a faithful course faithful.
pub proof fn faithful_stays_faithful(course: Course, input: Input)
    requires
        faithful(course),
    ensures
        faithful(course.after(input)),
{
    let next = course.after(input);
    let seen = shown(course.session, input);
    one_input_shows_one_thing_at_most(course.session, input);
    if seen.len() == 0 {
        assert(next.marks =~= course.marks);
    } else {
        assert(next.marks =~= course.marks.push(seen[0]));
        assert(next.marks.drop_last() =~= course.marks);
        assert forall|i: int| 0 <= i < next.marks.len() implies match #[trigger] next.marks[i] {
            Mark::Finished(Ok(text)) => text == forwarded_text(next.marks.take(i)),
            _ => true,
        } by {
            assert(next.marks.take(i) =~= course.marks.take(i));
            if i < course.marks.len() {
                assert(next.marks[i] == course.marks[i]);
            } else {
                assert(next.marks[i] == seen[0]);
                assert(course.marks.take(i) =~= course.marks);
            }
        }
    }
}

/// Whatever is asked of a session and reported to it, a response that it
/// gives is the texts of the chunks that its exchange forwarded, joined in the
/// order in which they were forwarded.
pub proof fn every_response_is_what_was_forwarded(inputs: Seq<Input>)
    ensures
        faithful(Course::fresh().run(inputs)),
        responses_are_what_was_forwarded(Course::fresh().run(inputs).marks),
    decreases inputs.len(),
{
    if inputs.len() > 0 {
        every_response_is_what_was_forwarded(inputs.drop_last());
        faithful_stays_faithful(Course::fresh().run(inputs.drop_last()), inputs.last());
    }
}

} // verus!
