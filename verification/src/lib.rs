//! Game sessions between users and a Wordle program.
//!
//! Every user owns one [`Session`]. A request of a user is forwarded to the
//! Wordle program under a message id of its own; the request stays suspended
//! until the reply that carries that id comes back. A round ends when the
//! word is found, when the guesses are used up, or when its deadline has
//! passed.
//!
//! The crate holds the decisions only. Each entry point takes what the host
//! has received, changes the sessions, and returns what the host has to do
//! next: send, wait, wake, reply.

pub mod laws;
pub mod messages;
pub mod primitives;
pub mod program;
pub mod session;
pub mod state;
pub mod store;
pub mod word;

pub use messages::{
    Action, DelayedAction, Effect, Event, Resume, SessionAction, SessionEvent, StateQuery,
    StateReply,
};
pub use primitives::{ActorId, MessageId};
pub use program::GameSession;
pub use state::{GameSessionState, State};
pub use store::SessionTable;
pub use session::{
    Session, SessionError, SessionInput, SessionOutput, SessionResult, SessionStatus,
    CHECK_GAME_STATUS_DELAY, MAX_CHECK_COUNT, WORD_LENGTH,
};
