//! What follows from the rules: the laws of a single session, and the laws
//! of the state that holds the sessions of all users.

use vstd::prelude::*;
use crate::messages::{Action, Effect, Event, Resume, SessionAction};
use crate::primitives::{ActorId, MessageId};
use crate::program::GameSession;
use crate::session::{
    Session, SessionError, SessionInput, SessionOutput, SessionResult, SessionStatus,
};
use crate::state::{reply_input, sent_input, GameSessionView};
use crate::word::is_valid_word;

verus! {

/// A well-formed session is well formed after every step: it keeps message
/// ids exactly while its status is `StartGameSent` or `CheckWordSent`, its
/// count of guesses stays within [`crate::session::MAX_CHECK_COUNT`], and while a round is
/// open its result is `Ongoing`.
pub proof fn lemma_step_keeps_wf(session: Session, input: SessionInput, delay: u32)
    requires
        session.wf(),
    ensures
        session.transition(input, delay).0.wf(),
{
}

/// An input that is turned down leaves the session as it was.
pub proof fn lemma_rejected_input_changes_nothing(
    session: Session,
    input: SessionInput,
    delay: u32,
)
    requires
        session.transition(input, delay).1 is Err,
    ensures
        session.transition(input, delay).0 == session,
{
}

/// A reply is taken once. After a reply to some message was taken, a second
/// reply to the same message is turned down and changes nothing, whatever it
/// says and whenever it comes.
pub proof fn lemma_duplicate_reply_changes_nothing(
    session: Session,
    first: SessionInput,
    second: SessionInput,
    delay: u32,
)
    requires
        first.reply_to() is Some,
        second.reply_to() == first.reply_to(),
        session.transition(first, delay).1 is Ok,
    ensures
        ({
            let after = session.transition(first, delay).0;
            after.transition(second, delay) == (
                after,
                Err::<SessionOutput, _>(SessionError::ReplyMismatch),
            )
        }),
{
}

/// A reply to a message that the session does not wait for is turned down
/// and changes nothing.
pub proof fn lemma_unawaited_reply_changes_nothing(
    session: Session,
    reply: SessionInput,
    delay: u32,
)
    requires
        reply.reply_to() matches Some(id) && session.waiting_for(id) is None,
    ensures
        session.transition(reply, delay) == (
            session,
            Err::<SessionOutput, _>(SessionError::ReplyMismatch),
        ),
{
}

/// A session comes to wait for the reply to a message only when a request
/// goes out under that message's id.
pub proof fn lemma_waits_only_for_what_was_sent(
    session: Session,
    input: SessionInput,
    id: MessageId,
    delay: u32,
)
    requires
        session.waiting_for(id) is None,
        input.sent_as() != Some(id),
    ensures
        session.transition(input, delay).0.waiting_for(id) is None,
{
}

/// A session has one request with the Wordle program at most: while it
/// waits for a reply, it takes no request for a new round and no guess, and
/// no report that one went out.
pub proof fn lemma_one_request_at_a_time(session: Session, input: SessionInput, delay: u32)
    requires
        session.awaits_reply(),
        input is StartGame || input is StartGameSent || input is CheckWord
            || input is CheckWordSent,
    ensures
        session.transition(input, delay) == (
            session,
            Err::<SessionOutput, _>(SessionError::WrongStatus),
        ),
{
}

/// The watchdog leaves a round alone that is won or lost: a tick that comes
/// late, or twice, does nothing.
pub proof fn lemma_watchdog_leaves_finished_round(session: Session, now: u32, delay: u32)
    requires
        session.result != SessionResult::Ongoing,
    ensures
        session.transition(SessionInput::CheckGameStatus { now }, delay) == (
            session,
            Ok::<_, SessionError>(SessionOutput::Idle),
        ),
{
}

/// The count of guesses never goes down, except when a round starts: the
/// reply that opens a round sets it to zero. It goes up by one guess at a
/// time, and only when a guess of the user is passed on in an open round.
pub proof fn lemma_check_count_is_monotonic(session: Session, input: SessionInput, delay: u32)
    ensures
        ({
            let (after, output) = session.transition(input, delay);
            let round_starts = input is GameStarted && output is Ok;
            &&& round_starts ==> after.check_count == 0
            &&& !round_starts ==> after.check_count >= session.check_count
            &&& after.check_count > session.check_count ==> {
                &&& input is CheckWord
                &&& session.status == SessionStatus::CheckWordWaiting
                &&& output == Ok::<_, SessionError>(SessionOutput::Forward)
                &&& after.check_count == session.check_count + 1
            }
        }),
{
}

/// A round gets its result only when it ends: a step that changes the
/// result to `Win` or `Lose` leaves no round open.
pub proof fn lemma_result_is_final_at_round_end(
    session: Session,
    input: SessionInput,
    delay: u32,
)
    ensures
        ({
            let after = session.transition(input, delay).0;
            after.result != session.result && after.result != SessionResult::Ongoing
                ==> after.status == SessionStatus::StartGameWaiting
        }),
{
}

/// Whatever happens to a session that started fresh, it is well formed: at
/// any point it keeps message ids if and only if its status is
/// `StartGameSent` or `CheckWordSent`.
pub proof fn lemma_session_is_always_wf(inputs: Seq<SessionInput>, delay: u32)
    ensures
        Session::fresh().after_all(inputs, delay).wf(),
    decreases inputs.len(),
{
    if inputs.len() > 0 {
        lemma_session_is_always_wf(inputs.drop_last(), delay);
        lemma_step_keeps_wf(
            Session::fresh().after_all(inputs.drop_last(), delay),
            inputs.last(),
            delay,
        );
    }
}

/// A reply is taken once, however late its double comes. After a reply to
/// some message was taken, and whatever happened since, short of a new
/// request going out under the id of that same message, a second reply to
/// the message is turned down and changes nothing.
pub proof fn lemma_late_duplicate_reply_changes_nothing(
    session: Session,
    first: SessionInput,
    between: Seq<SessionInput>,
    second: SessionInput,
    delay: u32,
)
    requires
        first.reply_to() is Some,
        second.reply_to() == first.reply_to(),
        session.transition(first, delay).1 is Ok,
        forall|i: int|
            0 <= i < between.len() ==> (#[trigger] between[i]).sent_as() != first.reply_to(),
    ensures
        ({
            let later = session.transition(first, delay).0.after_all(between, delay);
            later.transition(second, delay) == (
                later,
                Err::<SessionOutput, _>(SessionError::ReplyMismatch),
            )
        }),
{
    let id = first.reply_to()->0;
    let taken = session.transition(first, delay).0;
    lemma_stays_not_waiting(taken, between, id, delay);
}

/// A session that does not wait for the reply to a message does not come to
/// wait for it as long as no request goes out under that message's id.
pub proof fn lemma_stays_not_waiting(
    session: Session,
    inputs: Seq<SessionInput>,
    id: MessageId,
    delay: u32,
)
    requires
        session.waiting_for(id) is None,
        forall|i: int| 0 <= i < inputs.len() ==> (#[trigger] inputs[i]).sent_as() != Some(id),
    ensures
        session.after_all(inputs, delay).waiting_for(id) is None,
    decreases inputs.len(),
{
    if inputs.len() > 0 {
        lemma_stays_not_waiting(session, inputs.drop_last(), id, delay);
        lemma_waits_only_for_what_was_sent(
            session.after_all(inputs.drop_last(), delay),
            inputs.last(),
            id,
            delay,
        );
    }
}

/// As long as no round starts, the count of guesses never goes down.
pub proof fn lemma_check_count_grows_within_a_round(
    session: Session,
    inputs: Seq<SessionInput>,
    delay: u32,
)
    requires
        forall|i: int| 0 <= i < inputs.len() ==> !((#[trigger] inputs[i]) is GameStarted),
    ensures
        session.after_all(inputs, delay).check_count >= session.check_count,
    decreases inputs.len(),
{
    if inputs.len() > 0 {
        lemma_check_count_grows_within_a_round(session, inputs.drop_last(), delay);
        lemma_check_count_is_monotonic(
            session.after_all(inputs.drop_last(), delay),
            inputs.last(),
            delay,
        );
    }
}

/// Whoever asks for a round for the first time gets a fresh session, and the
/// request is passed on: no round is open in that session, its result is
/// `Ongoing`, no guess is counted, and no reply is waited for.
pub proof fn lemma_new_user_gets_fresh_session(state: GameSessionView, user: ActorId)
    requires
        !state.user_to_session.contains_key(user),
    ensures
        ({
            let (after, effect) = state.handle_start_game(user);
            let session = after.user_to_session[user];
            &&& after.user_to_session == state.user_to_session.insert(user, Session::fresh())
            &&& effect == Ok::<_, SessionError>(
                Effect::Forward { action: Action::StartGame { user } },
            )
            &&& session.status == SessionStatus::StartGameWaiting
            &&& session.result == SessionResult::Ongoing
            &&& session.check_count == 0
            &&& session.msg_ids is None
        }),
{
}

/// Whatever input the session of a user takes, all sessions stay well
/// formed: each keeps message ids exactly while a request of its user is
/// with the Wordle program.
pub proof fn lemma_after_keeps_wf(state: GameSessionView, user: ActorId, input: SessionInput)
    requires
        state.wf(),
    ensures
        state.after(user, input).wf(),
{
    lemma_step_keeps_wf(state.session(user), input, state.check_game_status_delay);
}

/// What happens to the session of one user leaves the sessions of all other
/// users as they are.
pub proof fn lemma_after_keeps_other_sessions(
    state: GameSessionView,
    user: ActorId,
    input: SessionInput,
    other: ActorId,
)
    requires
        other != user,
    ensures
        state.after(user, input).user_to_session.contains_key(other)
            == state.user_to_session.contains_key(other),
        state.after(user, input).session(other) == state.session(other),
{
}

/// Where the session that a user has turns an input down, nothing changes
/// at all.
pub proof fn lemma_rejected_input_keeps_state(
    state: GameSessionView,
    user: ActorId,
    input: SessionInput,
)
    requires
        state.user_to_session.contains_key(user),
        state.output(user, input) is Err,
    ensures
        state.after(user, input) == state,
{
    assert(state.after(user, input).user_to_session =~= state.user_to_session);
}

/// A message of a user, or a tick of the watchdog, that is turned down
/// changes nothing.
pub proof fn lemma_rejected_action_keeps_state(
    state: GameSessionView,
    source: ActorId,
    action: SessionAction,
    now: u32,
)
    requires
        state.handle(source, action, now).1 is Err,
    ensures
        state.handle(source, action, now).0 == state,
{
    match action {
        SessionAction::StartGame => {
            lemma_rejected_input_keeps_state(state, source, SessionInput::StartGame);
        },
        SessionAction::CheckWord { word } => {
            if state.user_to_session.contains_key(source) {
                lemma_rejected_input_keeps_state(
                    state,
                    source,
                    SessionInput::CheckWord { valid: is_valid_word(word@), now },
                );
            }
        },
        SessionAction::CheckGameStatus { user } => {
            if state.user_to_session.contains_key(user) {
                lemma_rejected_input_keeps_state(
                    state,
                    user,
                    SessionInput::CheckGameStatus { now },
                );
            }
        },
    }
}

/// The report that a request went out, if it is turned down, changes
/// nothing.
pub proof fn lemma_rejected_report_keeps_state(
    state: GameSessionView,
    action: Action,
    sent: MessageId,
    original: MessageId,
)
    requires
        state.handle_sent(action, sent, original).1 is Err,
    ensures
        state.handle_sent(action, sent, original).0 == state,
{
    if state.user_to_session.contains_key(action.user()) {
        lemma_rejected_input_keeps_state(
            state,
            action.user(),
            sent_input(action, sent, original),
        );
    }
}

/// A reply of the Wordle program that is turned down changes nothing: the
/// session goes on waiting for the reply that it waits for.
pub proof fn lemma_rejected_reply_keeps_state(
    state: GameSessionView,
    reply_to: MessageId,
    event: Event,
    now: u32,
)
    requires
        state.handle_reply(reply_to, event, now).1 is Err,
    ensures
        state.handle_reply(reply_to, event, now).0 == state,
{
    if state.user_to_session.contains_key(event.user()) {
        lemma_rejected_input_keeps_state(state, event.user(), reply_input(reply_to, event, now));
    }
}

/// A request that is passed on and then reported as sent leaves the session
/// of its user waiting for the reply: the session keeps the id of the
/// message that carries the request together with the id of the user's own
/// message, in the status `StartGameSent` for a new round and
/// `CheckWordSent` for a guess.
pub proof fn lemma_request_passed_on_waits_for_reply(
    state: GameSessionView,
    source: ActorId,
    action: SessionAction,
    now: u32,
    sent: MessageId,
    original: MessageId,
)
    requires
        state.handle(source, action, now).1 matches Ok(Effect::Forward { .. }),
    ensures
        ({
            let (asked, effect) = state.handle(source, action, now);
            let (waiting, done) = asked.handle_sent(effect->Ok_0->action, sent, original);
            let session = waiting.session(source);
            &&& done == Ok::<_, SessionError>(())
            &&& session.msg_ids == Some((sent, original))
            &&& session.waiting_for(sent) == Some(original)
            &&& action is StartGame ==> session.status == SessionStatus::StartGameSent
                && session.check_count == state.session(source).check_count
            &&& action is CheckWord ==> session.status == SessionStatus::CheckWordSent
                && session.check_count == state.session(source).check_count + 1
        }),
{
}

/// A reply is taken once. After a reply to some message was taken for a
/// user, a second reply to the same message leaves the session of that user
/// as it is, whatever it says and whenever it comes; if it names the same
/// user, it is turned down and changes nothing at all.
pub proof fn lemma_duplicate_reply_keeps_state(
    state: GameSessionView,
    reply_to: MessageId,
    first: Event,
    first_now: u32,
    second: Event,
    second_now: u32,
)
    requires
        state.handle_reply(reply_to, first, first_now).1 is Ok,
    ensures
        ({
            let after = state.handle_reply(reply_to, first, first_now).0;
            let (again, resume) = after.handle_reply(reply_to, second, second_now);
            &&& again.session(first.user()) == after.session(first.user())
            &&& second.user() == first.user() ==> again == after && resume == Err::<Resume, _>(
                SessionError::ReplyMismatch,
            )
        }),
{
    let after = state.handle_reply(reply_to, first, first_now).0;
    if second.user() == first.user() {
        lemma_rejected_input_keeps_state(
            after,
            second.user(),
            reply_input(reply_to, second, second_now),
        );
    }
}

/// Anything that the program can be given once it is set up.
pub ghost enum Message {
    /// A message of a user, or a tick of the watchdog.
    Handle { source: ActorId, action: SessionAction, now: u32 },
    /// The report that a request went out to the Wordle program.
    Sent { action: Action, sent: MessageId, original: MessageId },
    /// A reply of the Wordle program.
    Reply { reply_to: MessageId, event: Event, now: u32 },
}

impl GameSessionView {
    /// The state after `message`.
    pub open spec fn receive(self, message: Message) -> GameSessionView {
        match message {
            Message::Handle { source, action, now } => self.handle(source, action, now).0,
            Message::Sent { action, sent, original } => self.handle_sent(action, sent, original).0,
            Message::Reply { reply_to, event, now } => self.handle_reply(reply_to, event, now).0,
        }
    }

    /// The state after all of `messages`, taken one after the other.
    pub open spec fn receive_all(self, messages: Seq<Message>) -> GameSessionView
        decreases messages.len(),
    {
        if messages.len() == 0 {
            self
        } else {
            self.receive_all(messages.drop_last()).receive(messages.last())
        }
    }
}

/// Whatever the program is given, all sessions stay well formed.
pub proof fn lemma_receive_keeps_wf(state: GameSessionView, message: Message)
    requires
        state.wf(),
    ensures
        state.receive(message).wf(),
{
    match message {
        Message::Handle { source, action, now } => {
            match action {
                SessionAction::StartGame => {
                    lemma_after_keeps_wf(state, source, SessionInput::StartGame);
                },
                SessionAction::CheckWord { word } => {
                    lemma_after_keeps_wf(
                        state,
                        source,
                        SessionInput::CheckWord { valid: is_valid_word(word@), now },
                    );
                },
                SessionAction::CheckGameStatus { user } => {
                    lemma_after_keeps_wf(state, user, SessionInput::CheckGameStatus { now });
                },
            }
        },
        Message::Sent { action, sent, original } => {
            lemma_after_keeps_wf(state, action.user(), sent_input(action, sent, original));
        },
        Message::Reply { reply_to, event, now } => {
            lemma_after_keeps_wf(state, event.user(), reply_input(reply_to, event, now));
        },
    }
}

/// At any point in the life of the program, whatever it has been given since
/// it was set up, every session is well formed: it keeps message ids if and
/// only if its status is `StartGameSent` or `CheckWordSent`.
pub proof fn lemma_program_is_always_wf(
    wordle_program: ActorId,
    delay: u32,
    messages: Seq<Message>,
)
    ensures
        GameSession::initial(wordle_program, delay).receive_all(messages).wf(),
    decreases messages.len(),
{
    if messages.len() > 0 {
        lemma_program_is_always_wf(wordle_program, delay, messages.drop_last());
        lemma_receive_keeps_wf(
            GameSession::initial(wordle_program, delay).receive_all(messages.drop_last()),
            messages.last(),
        );
    }
}

} // verus!
