//! One user's session and the rules by which it moves.
//!
//! A session is a small state machine. [`Session::step`] takes one input (a
//! request of the user, the notice that a request went out to the Wordle
//! program, a reply of that program, or a tick of the watchdog) and gives
//! the session after it, with what has to happen next. It never touches the
//! host: the same input on the same session always gives the same result.

use vstd::prelude::*;
use crate::primitives::MessageId;

verus! {

/// The largest number of guesses in one round.
pub const MAX_CHECK_COUNT: u8 = 6;

/// The number of blocks after which a round is lost, when nothing else is
/// configured.
pub const CHECK_GAME_STATUS_DELAY: u32 = 200;

/// The number of letters in a word.
pub const WORD_LENGTH: usize = 5;

/// How the latest round of a session stands.
#[derive(Clone, Copy, Debug, PartialEq, Eq, Structural)]
pub enum SessionResult {
    Ongoing,
    Win,
    Lose,
}

/// Where a session stands in its dialogue with the Wordle program.
#[derive(Clone, Copy, Debug, PartialEq, Eq, Structural)]
pub enum SessionStatus {
    /// No round is open: the user may start one.
    StartGameWaiting,
    /// The request to start a round is with the Wordle program.
    StartGameSent,
    /// A round is open: the user may guess, or start over.
    CheckWordWaiting,
    /// A guess is with the Wordle program.
    CheckWordSent,
}

/// Why an input was turned down. A session that turns an input down stays
/// as it was.
#[derive(Clone, Copy, Debug, PartialEq, Eq, Structural)]
pub enum SessionError {
    /// The program has been initialized before.
    AlreadyInitialized,
    /// The program has not been initialized yet.
    NotInitialized,
    /// The user has no session.
    UnknownUser,
    /// The session is in a status that does not take this input.
    WrongStatus,
    /// The guess is not a well-formed word.
    InvalidWord,
    /// The reply answers a message that the session is not waiting for.
    ReplyMismatch,
}

/// One user's session.
#[derive(Clone, Copy, Debug, PartialEq, Eq)]
pub struct Session {
    /// The block in which the latest round started.
    pub start_block: u32,
    /// The number of guesses made in the latest round.
    pub check_count: u8,
    /// While a request is with the Wordle program: the id of the message
    /// that carried it there, and the id of the user's message that waits
    /// for the answer.
    pub msg_ids: Option<(MessageId, MessageId)>,
    pub status: SessionStatus,
    pub result: SessionResult,
}

/// What can happen to a session.
#[derive(Clone, Copy, Debug)]
pub enum SessionInput {
    /// The user asks for a new round.
    StartGame,
    /// The request for a new round went out as message `sent`, on behalf of
    /// the user's message `original`.
    StartGameSent { sent: MessageId, original: MessageId },
    /// The user makes a guess in block `now`; `valid` tells whether its text
    /// is a well-formed word.
    CheckWord { valid: bool, now: u32 },
    /// The guess went out as message `sent`, on behalf of the user's
    /// message `original`.
    CheckWordSent { sent: MessageId, original: MessageId },
    /// The Wordle program answers message `reply_to` in block `now`: the
    /// round has started.
    GameStarted { reply_to: MessageId, now: u32 },
    /// The Wordle program answers message `reply_to`: the guess has
    /// `correct` letters in their place.
    WordChecked { reply_to: MessageId, correct: usize },
    /// The watchdog looks at the session in block `now`.
    CheckGameStatus { now: u32 },
}

/// What has to happen after an input was taken.
#[derive(Clone, Copy, Debug, PartialEq, Eq)]
pub enum SessionOutput {
    /// The request goes to the Wordle program.
    Forward,
    /// The user's message is suspended until the reply comes.
    Wait,
    /// The user's message `original` is woken and answered; `result` tells
    /// how the round stands now.
    Resume { original: MessageId, result: SessionResult },
    /// The round is lost, and the user is told so.
    GameOver,
    /// Nothing.
    Idle,
}

impl Session {
    /// The session of a user who has not played yet.
    pub open spec fn fresh() -> Session {
        Session {
            start_block: 0,
            check_count: 0,
            msg_ids: None,
            status: SessionStatus::StartGameWaiting,
            result: SessionResult::Ongoing,
        }
    }

    /// A request is with the Wordle program.
    pub open spec fn awaits_reply(self) -> bool {
        self.status == SessionStatus::StartGameSent || self.status == SessionStatus::CheckWordSent
    }

    /// A round is open.
    pub open spec fn in_round(self) -> bool {
        self.status == SessionStatus::CheckWordWaiting
            || self.status == SessionStatus::CheckWordSent
    }

    /// What holds of every session that started fresh and moved by
    /// [`Session::step`] only: message ids are kept exactly while a request
    /// is with the Wordle program, no round has more than
    /// [`MAX_CHECK_COUNT`] guesses, and an open round is ongoing.
    pub open spec fn wf(self) -> bool {
        &&& self.msg_ids is Some <==> self.awaits_reply()
        &&& self.check_count <= MAX_CHECK_COUNT
        &&& self.in_round() ==> self.result == SessionResult::Ongoing
    }

    /// A new round may be asked for.
    pub open spec fn accepts_start_game(self) -> bool {
        self.status == SessionStatus::StartGameWaiting
            || self.status == SessionStatus::CheckWordWaiting
    }

    /// In block `now` the latest round is older than `delay` blocks.
    pub open spec fn deadline_passed(self, now: u32, delay: u32) -> bool {
        now > self.start_block + delay
    }

    /// The user's message that waits for the reply to `reply_to`, if the
    /// session waits for that reply.
    pub open spec fn waiting_for(self, reply_to: MessageId) -> Option<MessageId> {
        match self.msg_ids {
            Some((sent, original)) => if sent == reply_to {
                Some(original)
            } else {
                None
            },
            None => None,
        }
    }

    /// The session after `input`, with what has to happen next or the
    /// reason why the input was turned down. `delay` is the number of blocks
    /// that a round may last.
    pub open spec fn transition(self, input: SessionInput, delay: u32) -> (
        Session,
        Result<SessionOutput, SessionError>,
    ) {
        match input {
            SessionInput::StartGame => if self.accepts_start_game() {
                (self, Ok(SessionOutput::Forward))
            } else {
                (self, Err(SessionError::WrongStatus))
            },
            SessionInput::StartGameSent { sent, original } => if self.accepts_start_game() {
                (
                    Session {
                        msg_ids: Some((sent, original)),
                        status: SessionStatus::StartGameSent,
                        ..self
                    },
                    Ok(SessionOutput::Wait),
                )
            } else {
                (self, Err(SessionError::WrongStatus))
            },
            SessionInput::CheckWord { valid, now } => if self.status
                != SessionStatus::CheckWordWaiting {
                (self, Err(SessionError::WrongStatus))
            } else if !valid {
                (self, Err(SessionError::InvalidWord))
            } else if self.check_count >= MAX_CHECK_COUNT || self.deadline_passed(now, delay) {
                (
                    Session {
                        status: SessionStatus::StartGameWaiting,
                        result: SessionResult::Lose,
                        ..self
                    },
                    Ok(SessionOutput::GameOver),
                )
            } else {
                (
                    Session { check_count: (self.check_count + 1) as u8, ..self },
                    Ok(SessionOutput::Forward),
                )
            },
            SessionInput::CheckWordSent { sent, original } => if self.status
                == SessionStatus::CheckWordWaiting {
                (
                    Session {
                        msg_ids: Some((sent, original)),
                        status: SessionStatus::CheckWordSent,
                        ..self
                    },
                    Ok(SessionOutput::Wait),
                )
            } else {
                (self, Err(SessionError::WrongStatus))
            },
            SessionInput::GameStarted { reply_to, now } => match self.waiting_for(reply_to) {
                None => (self, Err(SessionError::ReplyMismatch)),
                Some(original) => if self.status == SessionStatus::StartGameSent {
                    (
                        Session {
                            start_block: now,
                            check_count: 0,
                            msg_ids: None,
                            status: SessionStatus::CheckWordWaiting,
                            result: SessionResult::Ongoing,
                        },
                        Ok(SessionOutput::Resume { original, result: SessionResult::Ongoing }),
                    )
                } else {
                    (self, Err(SessionError::WrongStatus))
                },
            },
            SessionInput::WordChecked { reply_to, correct } => match self.waiting_for(reply_to) {
                None => (self, Err(SessionError::ReplyMismatch)),
                Some(original) => if self.status != SessionStatus::CheckWordSent {
                    (self, Err(SessionError::WrongStatus))
                } else if correct == WORD_LENGTH {
                    (
                        Session {
                            msg_ids: None,
                            status: SessionStatus::StartGameWaiting,
                            result: SessionResult::Win,
                            ..self
                        },
                        Ok(SessionOutput::Resume { original, result: SessionResult::Win }),
                    )
                } else if self.check_count >= MAX_CHECK_COUNT {
                    (
                        Session {
                            msg_ids: None,
                            status: SessionStatus::StartGameWaiting,
                            result: SessionResult::Lose,
                            ..self
                        },
                        Ok(SessionOutput::Resume { original, result: SessionResult::Lose }),
                    )
                } else {
                    (
                        Session {
                            msg_ids: None,
                            status: SessionStatus::CheckWordWaiting,
                            result: SessionResult::Ongoing,
                            ..self
                        },
                        Ok(SessionOutput::Resume { original, result: SessionResult::Ongoing }),
                    )
                },
            },
            SessionInput::CheckGameStatus { now } => if self.deadline_passed(now, delay)
                && self.result == SessionResult::Ongoing {
                (
                    Session {
                        msg_ids: None,
                        status: SessionStatus::StartGameWaiting,
                        result: SessionResult::Lose,
                        ..self
                    },
                    Ok(SessionOutput::GameOver),
                )
            } else {
                (self, Ok(SessionOutput::Idle))
            },
        }
    }

    /// The session after all of `inputs`, taken one after the other.
    pub open spec fn after_all(self, inputs: Seq<SessionInput>, delay: u32) -> Session
        decreases inputs.len(),
    {
        if inputs.len() == 0 {
            self
        } else {
            self.after_all(inputs.drop_last(), delay).transition(inputs.last(), delay).0
        }
    }

    /// The session of a user who has not played yet: no round is open, no
    /// guess is made, and nothing is with the Wordle program.
    pub fn new() -> (session: Session)
        ensures
            session == Session::fresh(),
            session.status == SessionStatus::StartGameWaiting,
            session.result == SessionResult::Ongoing,
            session.check_count == 0,
            session.msg_ids is None,
            session.wf(),
    {
        Session {
            start_block: 0,
            check_count: 0,
            msg_ids: None,
            status: SessionStatus::StartGameWaiting,
            result: SessionResult::Ongoing,
        }
    }

    /// Tells whether the latest round is older than `delay` blocks in block
    /// `now`.
    pub fn is_deadline_passed(&self, now: u32, delay: u32) -> (passed: bool)
        ensures
            passed == self.deadline_passed(now, delay),
    {
        now as u64 > self.start_block as u64 + delay as u64
    }

    /// The user's message that waits for the reply to `reply_to`, if the
    /// session waits for that reply.
    pub fn waiting(&self, reply_to: &MessageId) -> (original: Option<MessageId>)
        ensures
            original == self.waiting_for(*reply_to),
    {
        match self.msg_ids {
            Some((sent, original)) => if sent == *reply_to {
                Some(original)
            } else {
                None
            },
            None => None,
        }
    }

    /// Moves the session by one input, as [`Session::transition`] says.
    pub fn step(&mut self, input: SessionInput, delay: u32) -> (output: Result<
        SessionOutput,
        SessionError,
    >)
        ensures
            (*final(self), output) == old(self).transition(input, delay),
    {
        match input {
            SessionInput::StartGame => {
                match self.status {
                    SessionStatus::StartGameWaiting | SessionStatus::CheckWordWaiting => Ok(
                        SessionOutput::Forward,
                    ),
                    _ => Err(SessionError::WrongStatus),
                }
            },
            SessionInput::StartGameSent { sent, original } => {
                match self.status {
                    SessionStatus::StartGameWaiting | SessionStatus::CheckWordWaiting => {
                        self.msg_ids = Some((sent, original));
                        self.status = SessionStatus::StartGameSent;
                        Ok(SessionOutput::Wait)
                    },
                    _ => Err(SessionError::WrongStatus),
                }
            },
            SessionInput::CheckWord { valid, now } => {
                match self.status {
                    SessionStatus::CheckWordWaiting => {
                        if !valid {
                            Err(SessionError::InvalidWord)
                        } else if self.check_count >= MAX_CHECK_COUNT || self.is_deadline_passed(
                            now,
                            delay,
                        ) {
                            self.status = SessionStatus::StartGameWaiting;
                            self.result = SessionResult::Lose;
                            Ok(SessionOutput::GameOver)
                        } else {
                            self.check_count = self.check_count + 1;
                            Ok(SessionOutput::Forward)
                        }
                    },
                    _ => Err(SessionError::WrongStatus),
                }
            },
            SessionInput::CheckWordSent { sent, original } => {
                match self.status {
                    SessionStatus::CheckWordWaiting => {
                        self.msg_ids = Some((sent, original));
                        self.status = SessionStatus::CheckWordSent;
                        Ok(SessionOutput::Wait)
                    },
                    _ => Err(SessionError::WrongStatus),
                }
            },
            SessionInput::GameStarted { reply_to, now } => {
                match self.waiting(&reply_to) {
                    Some(original) => {
                        match self.status {
                            SessionStatus::StartGameSent => {
                                self.start_block = now;
                                self.check_count = 0;
                                self.msg_ids = None;
                                self.status = SessionStatus::CheckWordWaiting;
                                self.result = SessionResult::Ongoing;
                                Ok(SessionOutput::Resume { original, result: self.result })
                            },
                            _ => Err(SessionError::WrongStatus),
                        }
                    },
                    None => Err(SessionError::ReplyMismatch),
                }
            },
            SessionInput::WordChecked { reply_to, correct } => {
                match self.waiting(&reply_to) {
                    Some(original) => {
                        match self.status {
                            SessionStatus::CheckWordSent => {
                                self.msg_ids = None;
                                if correct == WORD_LENGTH {
                                    self.status = SessionStatus::StartGameWaiting;
                                    self.result = SessionResult::Win;
                                } else if self.check_count >= MAX_CHECK_COUNT {
                                    self.status = SessionStatus::StartGameWaiting;
                                    self.result = SessionResult::Lose;
                                } else {
                                    self.status = SessionStatus::CheckWordWaiting;
                                    self.result = SessionResult::Ongoing;
                                }
                                Ok(SessionOutput::Resume { original, result: self.result })
                            },
                            _ => Err(SessionError::WrongStatus),
                        }
                    },
                    None => Err(SessionError::ReplyMismatch),
                }
            },
            SessionInput::CheckGameStatus { now } => {
                if self.is_deadline_passed(now, delay) && self.result == SessionResult::Ongoing {
                    self.msg_ids = None;
                    self.status = SessionStatus::StartGameWaiting;
                    self.result = SessionResult::Lose;
                    Ok(SessionOutput::GameOver)
                } else {
                    Ok(SessionOutput::Idle)
                }
            },
        }
    }
}

impl SessionInput {
    /// The message that a reply of the Wordle program answers; `None` for
    /// every other input.
    pub open spec fn reply_to(self) -> Option<MessageId> {
        match self {
            SessionInput::GameStarted { reply_to, .. } => Some(reply_to),
            SessionInput::WordChecked { reply_to, .. } => Some(reply_to),
            _ => None,
        }
    }

    /// The id under which a request went out to the Wordle program; `None`
    /// for every other input.
    pub open spec fn sent_as(self) -> Option<MessageId> {
        match self {
            SessionInput::StartGameSent { sent, .. } => Some(sent),
            SessionInput::CheckWordSent { sent, .. } => Some(sent),
            _ => None,
        }
    }
}


} // verus!
