//! The program as its host sees it: set up once, then fed one message after
//! the other.

use vstd::prelude::*;
use crate::messages::{
    Action, Effect, Event, Resume, SessionAction, SessionEvent, StateQuery, StateReply,
};
use crate::primitives::{ActorId, MessageId};
use crate::session::{SessionError, CHECK_GAME_STATUS_DELAY};
use crate::state::{GameSessionState, GameSessionView, State};

verus! {

/// The game session program. It has no state until [`GameSession::init`]
/// has given it one; until then every message is turned down.
pub struct GameSession {
    check_game_status_delay: u32,
    state: Option<GameSessionState>,
}

impl View for GameSession {
    type V = Option<GameSessionView>;

    /// The state of the program, once it is set up.
    closed spec fn view(&self) -> Option<GameSessionView> {
        match self.state {
            Some(state) => Some(state@),
            None => None,
        }
    }
}

impl GameSession {
    /// The number of blocks that a round will last.
    pub closed spec fn delay(&self) -> u32 {
        self.check_game_status_delay
    }

    /// Every session is well formed.
    pub open spec fn wf(&self) -> bool {
        self@ matches Some(state) ==> state.wf()
    }

    /// The state that [`GameSession::init`] sets up.
    pub open spec fn initial(wordle_program: ActorId, delay: u32) -> GameSessionView {
        GameSessionView {
            wordle_program,
            check_game_status_delay: delay,
            user_to_session: Map::empty(),
        }
    }

    /// A program that is not set up yet. Its rounds will last
    /// [`CHECK_GAME_STATUS_DELAY`] blocks.
    pub fn new() -> (program: GameSession)
        ensures
            program@ is None,
            program.delay() == CHECK_GAME_STATUS_DELAY,
    {
        GameSession { check_game_status_delay: CHECK_GAME_STATUS_DELAY, state: None }
    }

    /// A program that is not set up yet. Its rounds will last
    /// `check_game_status_delay` blocks.
    pub fn with_delay(check_game_status_delay: u32) -> (program: GameSession)
        ensures
            program@ is None,
            program.delay() == check_game_status_delay,
    {
        GameSession { check_game_status_delay, state: None }
    }

    /// Sets the program up to talk to `wordle_program`, with no sessions.
    /// This is done once: a program that is set up turns a second attempt
    /// down and stays as it is.
    pub fn init(&mut self, wordle_program: ActorId) -> (event: Result<SessionEvent, SessionError>)
        ensures
            final(self).delay() == old(self).delay(),
            old(self)@ is None ==> {
                &&& event == Ok::<_, SessionError>(SessionEvent::Initialized)
                &&& final(self)@ == Some(GameSession::initial(wordle_program, old(self).delay()))
            },
            old(self)@ is Some ==> {
                &&& event == Err::<SessionEvent, _>(SessionError::AlreadyInitialized)
                &&& final(self)@ == old(self)@
            },
            old(self).wf() ==> final(self).wf(),
    {
        if self.state.is_some() {
            return Err(SessionError::AlreadyInitialized);
        }
        let state = GameSessionState::with_delay(wordle_program, self.check_game_status_delay);
        self.state = Some(state);
        Ok(SessionEvent::Initialized)
    }

    /// Handles the message `action` of `source` in block `now`, as
    /// [`GameSessionView::handle`] says. A program that is not set up turns
    /// the message down.
    pub fn handle(&mut self, source: ActorId, action: SessionAction, now: u32) -> (effect: Result<
        Effect,
        SessionError,
    >)
        ensures
            final(self).delay() == old(self).delay(),
            old(self)@ is None ==> {
                &&& effect == Err::<Effect, _>(SessionError::NotInitialized)
                &&& final(self)@ is None
            },
            old(self)@ matches Some(state) ==> {
                &&& effect == state.handle(source, action, now).1
                &&& final(self)@ == Some(state.handle(source, action, now).0)
            },
            old(self).wf() ==> final(self).wf(),
            effect is Err ==> final(self)@ == old(self)@,
    {
        match &mut self.state {
            Some(state) => state.handle(source, action, now),
            None => Err(SessionError::NotInitialized),
        }
    }

    /// Takes the report that `action` went out to the Wordle program as
    /// message `sent`, on behalf of the user's message `original`, as
    /// [`GameSessionView::handle_sent`] says. A program that is not set up
    /// turns the report down.
    pub fn handle_sent(&mut self, action: &Action, sent: MessageId, original: MessageId) -> (done:
        Result<(), SessionError>)
        ensures
            final(self).delay() == old(self).delay(),
            old(self)@ is None ==> {
                &&& done == Err::<(), _>(SessionError::NotInitialized)
                &&& final(self)@ is None
            },
            old(self)@ matches Some(state) ==> {
                &&& done == state.handle_sent(*action, sent, original).1
                &&& final(self)@ == Some(state.handle_sent(*action, sent, original).0)
            },
            old(self).wf() ==> final(self).wf(),
            done is Err ==> final(self)@ == old(self)@,
    {
        match &mut self.state {
            Some(state) => state.handle_sent(action, sent, original),
            None => Err(SessionError::NotInitialized),
        }
    }

    /// Takes the reply `event` of the Wordle program to message `reply_to`
    /// in block `now`, as [`GameSessionView::handle_reply`] says. A program
    /// that is not set up turns the reply down.
    pub fn handle_reply(&mut self, reply_to: MessageId, event: Event, now: u32) -> (resume: Result<
        Resume,
        SessionError,
    >)
        ensures
            final(self).delay() == old(self).delay(),
            old(self)@ is None ==> {
                &&& resume == Err::<Resume, _>(SessionError::NotInitialized)
                &&& final(self)@ is None
            },
            old(self)@ matches Some(state) ==> {
                &&& resume == state.handle_reply(reply_to, event, now).1
                &&& final(self)@ == Some(state.handle_reply(reply_to, event, now).0)
            },
            old(self).wf() ==> final(self).wf(),
            resume is Err ==> final(self)@ == old(self)@,
    {
        match &mut self.state {
            Some(state) => state.handle_reply(reply_to, event, now),
            None => Err(SessionError::NotInitialized),
        }
    }

    /// The program that starts rounds and scores guesses, once this program
    /// is set up.
    pub fn wordle_program(&self) -> (program: Result<ActorId, SessionError>)
        ensures
            self@ is None ==> program == Err::<ActorId, _>(SessionError::NotInitialized),
            self@ matches Some(state) ==> program == Ok::<_, SessionError>(state.wordle_program),
    {
        match &self.state {
            Some(state) => Ok(state.wordle_program()),
            None => Err(SessionError::NotInitialized),
        }
    }

    /// A snapshot of the state of the program, which stays as it is. A
    /// program that is not set up has none.
    pub fn state(&self) -> (snapshot: Result<State, SessionError>)
        ensures
            self@ is None ==> snapshot == Err::<State, _>(SessionError::NotInitialized),
            self@ matches Some(state) ==> snapshot matches Ok(shown) && shown.shows(state),
    {
        match &self.state {
            Some(state) => Ok(state.state()),
            None => Err(SessionError::NotInitialized),
        }
    }

    /// The answer to `query`. The program stays as it is. A program that is
    /// not set up has no answer.
    pub fn query(&self, query: &StateQuery) -> (reply: Result<StateReply, SessionError>)
        ensures
            self@ is None ==> reply == Err::<StateReply, _>(SessionError::NotInitialized),
            self@ matches Some(state) ==> reply == Ok::<_, SessionError>(query.answer(state)),
    {
        match &self.state {
            Some(state) => Ok(state.query(query)),
            None => Err(SessionError::NotInitialized),
        }
    }
}

} // verus!
