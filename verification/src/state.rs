//! The state of the program: the Wordle program that it talks to, and the
//! sessions of its users.
//!
//! Each handler takes one message as the host has received it, moves the
//! session of the user concerned by [`Session::step`], and tells the host
//! what to do next. What a handler does is written down once, as a function
//! on [`GameSessionView`]; the handler itself is proved to do just that.

use vstd::prelude::*;
use crate::messages::{
    Action, DelayedAction, Effect, Event, Resume, SessionAction, SessionEvent, StateQuery,
    StateReply,
};
use crate::primitives::{ActorId, MessageId};
use crate::laws::{lemma_after_keeps_wf, lemma_rejected_input_keeps_state};
use crate::session::{
    Session, SessionError, SessionInput, SessionOutput, SessionResult, CHECK_GAME_STATUS_DELAY,
};
use crate::store::SessionTable;
use crate::word::{is_valid_word, valid_word};

verus! {

/// The state of the program.
pub struct GameSessionState {
    wordle_program: ActorId,
    check_game_status_delay: u32,
    user_to_session: SessionTable,
}

/// What a [`GameSessionState`] holds.
pub ghost struct GameSessionView {
    /// The program that starts rounds and scores guesses.
    pub wordle_program: ActorId,
    /// The number of blocks that a round may last.
    pub check_game_status_delay: u32,
    /// The sessions, by user.
    pub user_to_session: Map<ActorId, Session>,
}

/// Everything that the program holds, for those who watch it.
#[derive(Clone, Debug, PartialEq, Eq)]
pub struct State {
    pub wordle_program: ActorId,
    pub user_sessions: Vec<(ActorId, Session)>,
}

/// The notice that `action` went out as message `sent` on behalf of the
/// user's message `original`, as the session of the user sees it.
pub open spec fn sent_input(action: Action, sent: MessageId, original: MessageId) -> SessionInput {
    match action {
        Action::StartGame { .. } => SessionInput::StartGameSent { sent, original },
        Action::CheckWord { .. } => SessionInput::CheckWordSent { sent, original },
    }
}

/// The reply `event` to message `reply_to` in block `now`, as the session of
/// the user sees it. Of a scored guess the session sees the number of
/// letters that are in their place.
pub open spec fn reply_input(reply_to: MessageId, event: Event, now: u32) -> SessionInput {
    match event {
        Event::GameStarted { .. } => SessionInput::GameStarted { reply_to, now },
        Event::WordChecked { correct_positions, .. } => SessionInput::WordChecked {
            reply_to,
            correct: correct_positions@.len() as usize,
        },
    }
}

/// What the user is told when the reply `event` was taken and left the
/// round at `result`: that the round has started; or, of a guess, that the
/// round is won or lost, or else how the guess was scored.
pub open spec fn reply_event(event: Event, result: SessionResult) -> SessionEvent {
    match event {
        Event::GameStarted { .. } => SessionEvent::GameStarted,
        Event::WordChecked { correct_positions, contained_in_word, .. } => match result {
            SessionResult::Ongoing => SessionEvent::WordChecked {
                correct_positions,
                contained_in_word,
            },
            _ => SessionEvent::GameOver { result },
        },
    }
}

/// The message that the program sends to itself when the reply `event` was
/// taken: for a round that has started, the check of that round, due `delay`
/// blocks later.
pub open spec fn reply_watchdog(event: Event, delay: u32) -> Option<DelayedAction> {
    match event {
        Event::GameStarted { user } => Some(
            DelayedAction { action: SessionAction::CheckGameStatus { user }, delay },
        ),
        Event::WordChecked { .. } => None,
    }
}

impl GameSessionView {
    /// The session of `user`; that of a user without one is fresh.
    pub open spec fn session(self, user: ActorId) -> Session {
        if self.user_to_session.contains_key(user) {
            self.user_to_session[user]
        } else {
            Session::fresh()
        }
    }

    /// The state after the session of `user` has taken `input`.
    pub open spec fn after(self, user: ActorId, input: SessionInput) -> GameSessionView {
        GameSessionView {
            user_to_session: self.user_to_session.insert(
                user,
                self.session(user).transition(input, self.check_game_status_delay).0,
            ),
            ..self
        }
    }

    /// What the session of `user` says to `input`.
    pub open spec fn output(self, user: ActorId, input: SessionInput) -> Result<
        SessionOutput,
        SessionError,
    > {
        self.session(user).transition(input, self.check_game_status_delay).1
    }

    /// Every session is well formed.
    pub open spec fn wf(self) -> bool {
        forall|user: ActorId| #[trigger]
            self.user_to_session.contains_key(user) ==> self.user_to_session[user].wf()
    }

    /// A user asks for a new round. A user who comes for the first time gets
    /// a fresh session. Where the session allows a new round, the request is
    /// to be passed on to the Wordle program.
    pub open spec fn handle_start_game(self, user: ActorId) -> (
        GameSessionView,
        Result<Effect, SessionError>,
    ) {
        (
            self.after(user, SessionInput::StartGame),
            match self.output(user, SessionInput::StartGame) {
                Ok(_) => Ok(Effect::Forward { action: Action::StartGame { user } }),
                Err(error) => Err(error),
            },
        )
    }

    /// A user guesses `word` in block `now`. The guess of a user without a
    /// session is turned down, and so is a guess that the session does not
    /// take. A guess that ends the round is answered at once: the round is
    /// lost. Any other guess is to be passed on to the Wordle program.
    pub open spec fn handle_check_word(self, user: ActorId, word: String, now: u32) -> (
        GameSessionView,
        Result<Effect, SessionError>,
    ) {
        let input = SessionInput::CheckWord { valid: is_valid_word(word@), now };
        if !self.user_to_session.contains_key(user) {
            (self, Err(SessionError::UnknownUser))
        } else {
            (
                self.after(user, input),
                match self.output(user, input) {
                    Ok(SessionOutput::GameOver) => Ok(
                        Effect::Reply {
                            event: SessionEvent::GameOver { result: SessionResult::Lose },
                        },
                    ),
                    Ok(_) => Ok(Effect::Forward { action: Action::CheckWord { user, word } }),
                    Err(error) => Err(error),
                },
            )
        }
    }

    /// The watchdog looks at the session of `user` in block `now`. A tick
    /// for a user without a session is turned down. A round that the tick
    /// ends is lost, and the user is told; otherwise nothing happens.
    pub open spec fn handle_check_game_status(self, user: ActorId, now: u32) -> (
        GameSessionView,
        Result<Effect, SessionError>,
    ) {
        let input = SessionInput::CheckGameStatus { now };
        if !self.user_to_session.contains_key(user) {
            (self, Err(SessionError::UnknownUser))
        } else {
            (
                self.after(user, input),
                match self.output(user, input) {
                    Ok(SessionOutput::GameOver) => Ok(
                        Effect::Notify {
                            user,
                            event: SessionEvent::GameOver { result: SessionResult::Lose },
                        },
                    ),
                    Ok(_) => Ok(Effect::Nothing),
                    Err(error) => Err(error),
                },
            )
        }
    }

    /// The message `action` of `source` comes in, in block `now`.
    pub open spec fn handle(self, source: ActorId, action: SessionAction, now: u32) -> (
        GameSessionView,
        Result<Effect, SessionError>,
    ) {
        match action {
            SessionAction::StartGame => self.handle_start_game(source),
            SessionAction::CheckWord { word } => self.handle_check_word(source, word, now),
            SessionAction::CheckGameStatus { user } => self.handle_check_game_status(user, now),
        }
    }

    /// The host reports that `action` went out to the Wordle program as
    /// message `sent`, on behalf of the user's message `original`. The
    /// report is turned down for a user without a session, and where the
    /// session does not allow the request.
    pub open spec fn handle_sent(self, action: Action, sent: MessageId, original: MessageId) -> (
        GameSessionView,
        Result<(), SessionError>,
    ) {
        let input = sent_input(action, sent, original);
        if !self.user_to_session.contains_key(action.user()) {
            (self, Err(SessionError::UnknownUser))
        } else {
            (
                self.after(action.user(), input),
                match self.output(action.user(), input) {
                    Ok(_) => Ok(()),
                    Err(error) => Err(error),
                },
            )
        }
    }

    /// The Wordle program answers message `reply_to` with `event`, in block
    /// `now`. The reply is turned down where the user that it names has no
    /// session, and where the session does not take it. A reply that is
    /// taken wakes the user's message that has waited for it.
    pub open spec fn handle_reply(self, reply_to: MessageId, event: Event, now: u32) -> (
        GameSessionView,
        Result<Resume, SessionError>,
    ) {
        let input = reply_input(reply_to, event, now);
        if !self.user_to_session.contains_key(event.user()) {
            (self, Err(SessionError::UnknownUser))
        } else {
            (
                self.after(event.user(), input),
                match self.output(event.user(), input) {
                    Ok(output) => Ok(
                        Resume {
                            original: output->original,
                            reply: reply_event(event, output->result),
                            watchdog: reply_watchdog(event, self.check_game_status_delay),
                        },
                    ),
                    Err(error) => Err(error),
                },
            )
        }
    }
}

impl State {
    /// The snapshot shows `state`: the same Wordle program, and every user
    /// with that user's session, each once, in no particular order.
    pub open spec fn shows(self, state: GameSessionView) -> bool {
        &&& self.wordle_program == state.wordle_program
        &&& SessionTable::lists(state.user_to_session, self.user_sessions@)
    }
}

impl StateQuery {
    /// The answer that `state` gives to the query.
    pub open spec fn answer(self, state: GameSessionView) -> StateReply {
        match self {
            StateQuery::WordleProgram => StateReply::WordleProgram {
                program: state.wordle_program,
            },
            StateQuery::UserSession { user } => StateReply::UserSession {
                session: if state.user_to_session.contains_key(user) {
                    Some(state.user_to_session[user])
                } else {
                    None
                },
            },
        }
    }
}

impl View for GameSessionState {
    type V = GameSessionView;

    closed spec fn view(&self) -> GameSessionView {
        GameSessionView {
            wordle_program: self.wordle_program,
            check_game_status_delay: self.check_game_status_delay,
            user_to_session: self.user_to_session@,
        }
    }
}

impl GameSessionState {
    /// The state of a program that talks to `wordle_program` and has no
    /// sessions yet. A round may last [`CHECK_GAME_STATUS_DELAY`] blocks.
    pub fn new(wordle_program: ActorId) -> (state: GameSessionState)
        ensures
            state@ == (GameSessionView {
                wordle_program,
                check_game_status_delay: CHECK_GAME_STATUS_DELAY,
                user_to_session: Map::empty(),
            }),
            state@.wf(),
    {
        GameSessionState::with_delay(wordle_program, CHECK_GAME_STATUS_DELAY)
    }

    /// The state of a program that talks to `wordle_program` and has no
    /// sessions yet. A round may last `check_game_status_delay` blocks.
    pub fn with_delay(wordle_program: ActorId, check_game_status_delay: u32) -> (state:
        GameSessionState)
        ensures
            state@ == (GameSessionView {
                wordle_program,
                check_game_status_delay,
                user_to_session: Map::empty(),
            }),
            state@.wf(),
    {
        GameSessionState {
            wordle_program,
            check_game_status_delay,
            user_to_session: SessionTable::new(),
        }
    }

    /// The program that starts rounds and scores guesses.
    pub fn wordle_program(&self) -> (program: ActorId)
        ensures
            program == self@.wordle_program,
    {
        self.wordle_program
    }

    /// The number of blocks that a round may last.
    pub fn check_game_status_delay(&self) -> (delay: u32)
        ensures
            delay == self@.check_game_status_delay,
    {
        self.check_game_status_delay
    }

    /// The session of `user`, if there is one.
    pub fn get(&self, user: &ActorId) -> (found: Option<&Session>)
        ensures
            found is Some <==> self@.user_to_session.contains_key(*user),
            found matches Some(session) ==> *session == self@.user_to_session[*user],
    {
        self.user_to_session.get(user)
    }

    /// A snapshot of the state. The state stays as it is.
    pub fn state(&self) -> (snapshot: State)
        ensures
            snapshot.shows(self@),
    {
        State { wordle_program: self.wordle_program, user_sessions: self.user_to_session.all() }
    }

    /// The answer to `query`. The state stays as it is.
    pub fn query(&self, query: &StateQuery) -> (reply: StateReply)
        ensures
            reply == query.answer(self@),
    {
        match query {
            StateQuery::WordleProgram => StateReply::WordleProgram { program: self.wordle_program },
            StateQuery::UserSession { user } => StateReply::UserSession {
                session: match self.user_to_session.get(user) {
                    Some(session) => Some(*session),
                    None => None,
                },
            },
        }
    }

    /// Moves the session of `user` by `input`. A user without a session gets
    /// a fresh one first.
    fn step(&mut self, user: ActorId, input: SessionInput) -> (output: Result<
        SessionOutput,
        SessionError,
    >)
        ensures
            final(self)@ == old(self)@.after(user, input),
            output == old(self)@.output(user, input),
            old(self)@.wf() ==> final(self)@.wf(),
            output is Err && old(self)@.user_to_session.contains_key(user) ==> final(self)@ == old(
                self,
            )@,
    {
        proof {
            if old(self)@.wf() {
                lemma_after_keeps_wf(old(self)@, user, input);
            }
            if old(self)@.user_to_session.contains_key(user) && old(self)@.output(user, input) is Err {
                lemma_rejected_input_keeps_state(old(self)@, user, input);
            }
        }
        let delay = self.check_game_status_delay;
        let session = self.user_to_session.get_or_create(user);
        session.step(input, delay)
    }

    /// Handles the request of `user` for a new round, as
    /// [`GameSessionView::handle_start_game`] says. The session itself moves
    /// only when [`GameSessionState::handle_sent`] reports the message that
    /// carries the request.
    pub fn handle_start_game(&mut self, user: ActorId) -> (effect: Result<Effect, SessionError>)
        ensures
            (final(self)@, effect) == old(self)@.handle_start_game(user),
            old(self)@.wf() ==> final(self)@.wf(),
            effect is Err ==> final(self)@ == old(self)@,
    {
        match self.step(user, SessionInput::StartGame) {
            Ok(_) => Ok(Effect::Forward { action: Action::StartGame { user } }),
            Err(error) => Err(error),
        }
    }

    /// Handles the guess `word` of `user` in block `now`, as
    /// [`GameSessionView::handle_check_word`] says. A guess that is to be
    /// passed on is counted at once; the session waits for its score only
    /// when [`GameSessionState::handle_sent`] reports the message that
    /// carries the guess.
    pub fn handle_check_word(&mut self, user: ActorId, word: String, now: u32) -> (effect: Result<
        Effect,
        SessionError,
    >)
        ensures
            (final(self)@, effect) == old(self)@.handle_check_word(user, word, now),
            old(self)@.wf() ==> final(self)@.wf(),
            effect is Err ==> final(self)@ == old(self)@,
    {
        if self.user_to_session.get(&user).is_none() {
            return Err(SessionError::UnknownUser);
        }
        let input = SessionInput::CheckWord { valid: valid_word(word.as_str()), now };
        match self.step(user, input) {
            Ok(SessionOutput::GameOver) => Ok(
                Effect::Reply { event: SessionEvent::GameOver { result: SessionResult::Lose } },
            ),
            Ok(_) => Ok(Effect::Forward { action: Action::CheckWord { user, word } }),
            Err(error) => Err(error),
        }
    }

    /// Handles a tick of the watchdog for `user` in block `now`, as
    /// [`GameSessionView::handle_check_game_status`] says.
    pub fn handle_check_game_status(&mut self, user: &ActorId, now: u32) -> (effect: Result<
        Effect,
        SessionError,
    >)
        ensures
            (final(self)@, effect) == old(self)@.handle_check_game_status(*user, now),
            old(self)@.wf() ==> final(self)@.wf(),
            effect is Err ==> final(self)@ == old(self)@,
    {
        if self.user_to_session.get(user).is_none() {
            return Err(SessionError::UnknownUser);
        }
        match self.step(*user, SessionInput::CheckGameStatus { now }) {
            Ok(SessionOutput::GameOver) => Ok(
                Effect::Notify {
                    user: *user,
                    event: SessionEvent::GameOver { result: SessionResult::Lose },
                },
            ),
            Ok(_) => Ok(Effect::Nothing),
            Err(error) => Err(error),
        }
    }

    /// Handles the message `action` of `source` in block `now`, as
    /// [`GameSessionView::handle`] says: at most one request goes to the
    /// Wordle program, or at most one answer to the user, never both.
    pub fn handle(&mut self, source: ActorId, action: SessionAction, now: u32) -> (effect: Result<
        Effect,
        SessionError,
    >)
        ensures
            (final(self)@, effect) == old(self)@.handle(source, action, now),
            old(self)@.wf() ==> final(self)@.wf(),
            effect is Err ==> final(self)@ == old(self)@,
    {
        match action {
            SessionAction::StartGame => self.handle_start_game(source),
            SessionAction::CheckWord { word } => self.handle_check_word(source, word, now),
            SessionAction::CheckGameStatus { user } => self.handle_check_game_status(&user, now),
        }
    }

    /// Takes the report that `action` went out as message `sent` on behalf
    /// of the user's message `original`, as
    /// [`GameSessionView::handle_sent`] says. After `Ok` the session waits
    /// for the reply to `sent`, and the user's message is to be suspended.
    pub fn handle_sent(&mut self, action: &Action, sent: MessageId, original: MessageId) -> (done:
        Result<(), SessionError>)
        ensures
            (final(self)@, done) == old(self)@.handle_sent(*action, sent, original),
            old(self)@.wf() ==> final(self)@.wf(),
            done is Err ==> final(self)@ == old(self)@,
    {
        let user = action.user();
        if self.user_to_session.get(&user).is_none() {
            return Err(SessionError::UnknownUser);
        }
        let input = match action {
            Action::StartGame { .. } => SessionInput::StartGameSent { sent, original },
            Action::CheckWord { .. } => SessionInput::CheckWordSent { sent, original },
        };
        match self.step(user, input) {
            Ok(_) => Ok(()),
            Err(error) => Err(error),
        }
    }

    /// Takes the reply `event` of the Wordle program to message `reply_to`
    /// in block `now`, as [`GameSessionView::handle_reply`] says. After `Ok`
    /// the session waits no longer: the user's message is to be woken and
    /// answered, and the watchdog of a round that has started is to be sent.
    pub fn handle_reply(&mut self, reply_to: MessageId, event: Event, now: u32) -> (resume: Result<
        Resume,
        SessionError,
    >)
        ensures
            (final(self)@, resume) == old(self)@.handle_reply(reply_to, event, now),
            old(self)@.wf() ==> final(self)@.wf(),
            resume is Err ==> final(self)@ == old(self)@,
    {
        let user = event.user();
        if self.user_to_session.get(&user).is_none() {
            return Err(SessionError::UnknownUser);
        }
        let input = match &event {
            Event::GameStarted { .. } => SessionInput::GameStarted { reply_to, now },
            Event::WordChecked { correct_positions, .. } => SessionInput::WordChecked {
                reply_to,
                correct: correct_positions.len(),
            },
        };
        let delay = self.check_game_status_delay;
        match self.step(user, input) {
            Ok(SessionOutput::Resume { original, result }) => {
                let (reply, watchdog) = match event {
                    Event::GameStarted { user } => (
                        SessionEvent::GameStarted,
                        Some(
                            DelayedAction { action: SessionAction::CheckGameStatus { user }, delay },
                        ),
                    ),
                    Event::WordChecked {
                        correct_positions,
                        contained_in_word,
                        ..
                    } => match result {
                        SessionResult::Ongoing => (
                            SessionEvent::WordChecked { correct_positions, contained_in_word },
                            None,
                        ),
                        _ => (SessionEvent::GameOver { result }, None),
                    },
                };
                Ok(Resume { original, reply, watchdog })
            },
            // A session answers a reply with `Resume` or turns it down.
            Ok(_) => Err(SessionError::WrongStatus),
            Err(error) => Err(error),
        }
    }
}

impl From<GameSessionState> for State {
    /// The snapshot of a state that is given up for it.
    fn from(state: GameSessionState) -> (snapshot: State)
        ensures
            snapshot.shows(state@),
    {
        state.state()
    }
}

/// The order of the sessions in a snapshot is not told, so the snapshot is
/// no function of the state.
impl vstd::std_specs::convert::FromSpecImpl<GameSessionState> for State {
    open spec fn obeys_from_spec() -> bool {
        false
    }

    open spec fn from_spec(state: GameSessionState) -> State {
        arbitrary()
    }
}

} // verus!
