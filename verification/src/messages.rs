//! The messages that a game session receives and gives.

use vstd::prelude::*;
use crate::primitives::{ActorId, MessageId};
use crate::session::{Session, SessionResult};

verus! {

/// What a user, or the program itself after a delay, asks of the game
/// session.
#[derive(Clone, Debug, PartialEq, Eq)]
pub enum SessionAction {
    /// Start a round.
    StartGame,
    /// Guess `word`.
    CheckWord { word: String },
    /// Look whether the round of `user` has run out of time.
    CheckGameStatus { user: ActorId },
}

/// What the game session tells a user.
#[derive(Clone, Debug, PartialEq, Eq)]
pub enum SessionEvent {
    Initialized,
    GameStarted,
    /// The guess was scored: the places where its letters are right, and
    /// the places of its letters that occur elsewhere in the word.
    WordChecked { correct_positions: Vec<u8>, contained_in_word: Vec<u8> },
    GameOver { result: SessionResult },
}

/// What the game session asks of the Wordle program.
#[derive(Clone, Debug, PartialEq, Eq)]
pub enum Action {
    StartGame { user: ActorId },
    CheckWord { user: ActorId, word: String },
}

/// What the Wordle program answers.
#[derive(Clone, Debug, PartialEq, Eq)]
pub enum Event {
    GameStarted { user: ActorId },
    WordChecked { user: ActorId, correct_positions: Vec<u8>, contained_in_word: Vec<u8> },
}

/// What can be asked about the state of the program.
#[derive(Clone, Copy, Debug, PartialEq, Eq)]
pub enum StateQuery {
    /// Which program is the Wordle program?
    WordleProgram,
    /// How does the session of `user` stand?
    UserSession { user: ActorId },
}

/// The answer to a [`StateQuery`].
#[derive(Clone, Copy, Debug, PartialEq, Eq)]
pub enum StateReply {
    WordleProgram { program: ActorId },
    /// The session of the user, if the user has one.
    UserSession { session: Option<Session> },
}

/// What the host has to do once a message of a user, or a tick of the
/// watchdog, was handled.
#[derive(Clone, Debug, PartialEq, Eq)]
pub enum Effect {
    /// Send `action` to the Wordle program, then report the id of the
    /// message that carries it.
    Forward { action: Action },
    /// Answer the message with `event`.
    Reply { event: SessionEvent },
    /// Send `event` to `user`, who gets it without having asked.
    Notify { user: ActorId, event: SessionEvent },
    /// Nothing.
    Nothing,
}

/// An action that the program sends to itself, to be delivered `delay`
/// blocks later.
#[derive(Clone, Debug, PartialEq, Eq)]
pub struct DelayedAction {
    pub action: SessionAction,
    pub delay: u32,
}

/// What the host has to do once a reply of the Wordle program was taken:
/// wake the user's message `original`, answer it with `reply`, and send
/// `watchdog`, if there is one.
#[derive(Clone, Debug, PartialEq, Eq)]
pub struct Resume {
    pub original: MessageId,
    pub reply: SessionEvent,
    pub watchdog: Option<DelayedAction>,
}

impl Event {
    /// The user whose request the event answers.
    pub open spec fn spec_user(&self) -> ActorId {
        match *self {
            Event::GameStarted { user } => user,
            Event::WordChecked { user, .. } => user,
        }
    }

    /// The user whose request the event answers.
    #[verifier::when_used_as_spec(spec_user)]
    pub fn user(&self) -> (user: ActorId)
        ensures
            user == self.spec_user(),
    {
        match self {
            Event::GameStarted { user } => *user,
            Event::WordChecked { user, .. } => *user,
        }
    }
}

impl Action {
    /// The user on whose behalf the action is sent.
    pub open spec fn spec_user(&self) -> ActorId {
        match *self {
            Action::StartGame { user } => user,
            Action::CheckWord { user, .. } => user,
        }
    }

    /// The user on whose behalf the action is sent.
    #[verifier::when_used_as_spec(spec_user)]
    pub fn user(&self) -> (user: ActorId)
        ensures
            user == self.spec_user(),
    {
        match self {
            Action::StartGame { user } => *user,
            Action::CheckWord { user, .. } => *user,
        }
    }
}

} // verus!
