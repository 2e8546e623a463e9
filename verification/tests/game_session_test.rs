// Whole rounds, played against a host that is simulated here: it keeps the
// clock, hands out message ids, plays the Wordle program, and delivers the
// delayed message of the watchdog.

use game_session::{
    Action, ActorId, DelayedAction, Effect, Event, GameSession, MessageId, Resume, SessionAction,
    SessionError, SessionEvent, SessionResult, SessionStatus, State,
};

const WORDLE_ID: u64 = 1;
const USER1: u64 = 10;
const USER2: u64 = 11;

/// The delay of the watchdog in these tests.
const DELAY: u32 = 10;

fn actor(id: u64) -> ActorId {
    ActorId::new(gstd::ActorId::from(id).into_bytes())
}

fn message(id: u64) -> MessageId {
    MessageId::new(gstd::MessageId::from(id).into_bytes())
}

/// The letters of `word` that are in their place in "house", and the places
/// of its other letters that occur in "house".
fn score(word: &str) -> (Vec<u8>, Vec<u8>) {
    let secret: Vec<char> = "house".chars().collect();
    let mut correct = Vec::new();
    let mut contained = Vec::new();
    for (i, c) in word.chars().enumerate() {
        if secret[i] == c {
            correct.push(i as u8);
        } else if secret.contains(&c) {
            contained.push(i as u8);
        }
    }
    (correct, contained)
}

struct Sys {
    program: GameSession,
    block: u32,
    messages: u64,
    /// What went to the Wordle program, oldest first.
    to_wordle: Vec<Action>,
    /// What the users were told: in answer to a message, or unasked.
    to_users: Vec<(ActorId, SessionEvent)>,
    /// The watchdogs that are under way, with the block in which each is due.
    delayed: Vec<(u32, SessionAction)>,
}

impl Sys {
    fn new() -> Sys {
        Sys {
            program: GameSession::with_delay(DELAY),
            block: 0,
            messages: 100,
            to_wordle: Vec::new(),
            to_users: Vec::new(),
            delayed: Vec::new(),
        }
    }

    fn next_message(&mut self) -> MessageId {
        self.messages += 1;
        message(self.messages)
    }

    /// The Wordle program answers `action`.
    fn wordle(action: &Action) -> Event {
        match action {
            Action::StartGame { user } => Event::GameStarted { user: *user },
            Action::CheckWord { user, word } => {
                let (correct_positions, contained_in_word) = score(word);
                Event::WordChecked { user: *user, correct_positions, contained_in_word }
            }
        }
    }

    /// A user sends `action` in a block of its own. The request that is
    /// passed on is answered by the Wordle program in the same block.
    fn send(&mut self, user: ActorId, action: SessionAction) -> Result<(), SessionError> {
        self.block += 1;
        let original = self.next_message();
        match self.program.handle(user, action, self.block)? {
            Effect::Forward { action } => {
                let sent = self.next_message();
                self.program.handle_sent(&action, sent, original)?;
                let event = Sys::wordle(&action);
                self.to_wordle.push(action);
                let resume = self.program.handle_reply(sent, event, self.block)?;
                self.resume(user, original, resume);
            }
            Effect::Reply { event } => self.to_users.push((user, event)),
            Effect::Notify { user, event } => self.to_users.push((user, event)),
            Effect::Nothing => {}
        }
        Ok(())
    }

    fn resume(&mut self, user: ActorId, original: MessageId, resume: Resume) {
        assert_eq!(resume.original, original);
        self.to_users.push((user, resume.reply));
        if let Some(DelayedAction { action, delay }) = resume.watchdog {
            self.delayed.push((self.block + delay, action));
        }
    }

    /// Time goes by. A watchdog is delivered in the first block after the one
    /// in which it is due.
    fn spend_blocks(&mut self, blocks: u32) {
        for _ in 0..blocks {
            self.block += 1;
            let block = self.block;
            let due: Vec<SessionAction> = self
                .delayed
                .iter()
                .filter(|(at, _)| *at < block)
                .map(|(_, action)| action.clone())
                .collect();
            self.delayed.retain(|(at, _)| *at >= block);
            let program = actor(2);
            for action in due {
                match self.program.handle(program, action, block) {
                    Ok(Effect::Notify { user, event }) => self.to_users.push((user, event)),
                    Ok(Effect::Nothing) => {}
                    other => panic!("the watchdog gave {:?}", other),
                }
            }
        }
    }

    fn state(&self) -> State {
        self.program.state().unwrap()
    }
}

fn setup() -> Sys {
    let mut sys = Sys::new();
    assert_eq!(sys.program.init(actor(WORDLE_ID)), Ok(SessionEvent::Initialized));
    assert_eq!(sys.state().wordle_program, actor(WORDLE_ID));
    sys
}

fn check_word(word: &str) -> SessionAction {
    SessionAction::CheckWord { word: word.to_string() }
}

#[test]
fn test_lose_with_timeout() {
    let mut sys = setup();

    let user = actor(USER1);
    assert!(sys.send(user, SessionAction::StartGame).is_ok());
    assert!(sys.send(user, check_word("human")).is_ok());

    sys.spend_blocks(10);

    let state: State = sys.state();
    assert_eq!(state.user_sessions[0].0, user);
    assert_eq!(state.user_sessions[0].1.result, SessionResult::Lose);
}

#[test]
fn timeout_needs_no_message_of_the_user() {
    let mut sys = setup();
    let user = actor(USER1);
    sys.send(user, SessionAction::StartGame).unwrap();
    sys.send(user, check_word("human")).unwrap();
    let told_before = sys.to_users.len();

    sys.spend_blocks(10);

    let state = sys.state();
    assert_eq!(state.user_sessions.len(), 1);
    let session = state.user_sessions[0].1;
    assert_eq!(session.result, SessionResult::Lose);
    assert_eq!(session.status, SessionStatus::StartGameWaiting);
    assert_eq!(session.check_count, 1);
    assert_eq!(session.msg_ids, None);
    assert_eq!(sys.to_users.len(), told_before + 1);
    assert_eq!(
        sys.to_users[told_before],
        (user, SessionEvent::GameOver { result: SessionResult::Lose })
    );
    // Nothing more went to the Wordle program: a start and one guess.
    assert_eq!(sys.to_wordle.len(), 2);
}

#[test]
fn watchdog_before_the_deadline_does_nothing() {
    let mut sys = setup();
    let user = actor(USER1);
    sys.send(user, SessionAction::StartGame).unwrap();
    sys.send(user, check_word("human")).unwrap();

    // The round started in block 1 and may last 10 blocks: in block 11 it is
    // not over yet.
    sys.spend_blocks(9);
    assert_eq!(sys.block, 11);
    let session = sys.state().user_sessions[0].1;
    assert_eq!(session.result, SessionResult::Ongoing);
    assert_eq!(session.status, SessionStatus::CheckWordWaiting);

    sys.spend_blocks(1);
    let session = sys.state().user_sessions[0].1;
    assert_eq!(session.result, SessionResult::Lose);
}

#[test]
fn test_win() {
    let mut sys = setup();
    let user1 = actor(USER1);
    assert!(sys.send(user1, SessionAction::StartGame).is_ok());
    assert!(sys.send(user1, check_word("human")).is_ok());
    assert!(sys.send(user1, check_word("house")).is_ok());

    let state: State = sys.state();
    assert_eq!(state.user_sessions[0].1.result, SessionResult::Win);
    assert_eq!(state.user_sessions[0].1.check_count, 2);
    assert_eq!(state.user_sessions[0].1.status, SessionStatus::StartGameWaiting);
    assert_eq!(state.user_sessions[0].1.msg_ids, None);

    assert_eq!(
        sys.to_wordle,
        vec![
            Action::StartGame { user: user1 },
            Action::CheckWord { user: user1, word: "human".to_string() },
            Action::CheckWord { user: user1, word: "house".to_string() },
        ]
    );
    assert_eq!(
        sys.to_users,
        vec![
            (user1, SessionEvent::GameStarted),
            (
                user1,
                SessionEvent::WordChecked { correct_positions: vec![0], contained_in_word: vec![1] }
            ),
            (user1, SessionEvent::GameOver { result: SessionResult::Win }),
        ]
    );
}

#[test]
fn win_after_the_round_is_not_lost_by_the_watchdog() {
    let mut sys = setup();
    let user = actor(USER1);
    sys.send(user, SessionAction::StartGame).unwrap();
    sys.send(user, check_word("house")).unwrap();
    let told = sys.to_users.len();

    sys.spend_blocks(20);

    let session = sys.state().user_sessions[0].1;
    assert_eq!(session.result, SessionResult::Win);
    assert_eq!(session.status, SessionStatus::StartGameWaiting);
    assert_eq!(sys.to_users.len(), told);
}

#[test]
fn test_lose_with_too_many_check() {
    let mut sys = setup();
    let user = actor(USER1);
    assert!(sys.send(user, SessionAction::StartGame).is_ok());
    assert!(sys.send(user, check_word("jknkj")).is_ok());
    assert!(sys.send(user, check_word("abcdf")).is_ok());
    assert!(sys.send(user, check_word("hyuiy")).is_ok());
    assert!(sys.send(user, check_word("ppppp")).is_ok());
    assert!(sys.send(user, check_word("lllll")).is_ok());

    let session = sys.state().user_sessions[0].1;
    assert_eq!(session.check_count, 5);
    assert_eq!(session.result, SessionResult::Ongoing);
    assert_eq!(session.status, SessionStatus::CheckWordWaiting);

    assert!(sys.send(user, check_word("ggggg")).is_ok());

    let state: State = sys.state();
    assert_eq!(state.user_sessions[0].1.check_count, 6);
    assert_eq!(state.user_sessions[0].1.result, SessionResult::Lose);
    assert_eq!(state.user_sessions[0].1.status, SessionStatus::StartGameWaiting);
    assert_eq!(
        sys.to_users.last(),
        Some(&(user, SessionEvent::GameOver { result: SessionResult::Lose }))
    );
    assert_eq!(sys.to_wordle.len(), 7);

    // The round is over: a seventh guess is turned down and counts nothing.
    assert_eq!(sys.send(user, check_word("house")), Err(SessionError::WrongStatus));
    assert_eq!(sys.state().user_sessions[0].1.check_count, 6);
    assert_eq!(sys.to_wordle.len(), 7);
}

#[test]
fn malformed_guess_is_rejected() {
    let mut sys = setup();
    let user = actor(USER1);
    sys.send(user, SessionAction::StartGame).unwrap();
    let before = sys.state();
    let sent_before = sys.to_wordle.len();
    let told_before = sys.to_users.len();

    assert_eq!(sys.send(user, check_word("AB")), Err(SessionError::InvalidWord));
    // Four characters are no word either, though they take five bytes.
    assert_eq!(sys.send(user, check_word("éabc")), Err(SessionError::InvalidWord));

    let after = sys.state();
    assert_eq!(after, before);
    assert_eq!(after.user_sessions[0].1.status, SessionStatus::CheckWordWaiting);
    assert_eq!(after.user_sessions[0].1.check_count, 0);
    assert_eq!(sys.to_wordle.len(), sent_before);
    assert_eq!(sys.to_users.len(), told_before);
}

fn session_of(state: &State, user: ActorId) -> game_session::Session {
    let found: Vec<_> = state.user_sessions.iter().filter(|(u, _)| *u == user).collect();
    assert_eq!(found.len(), 1);
    found[0].1
}

#[test]
fn two_users_do_not_disturb_each_other() {
    let mut sys = setup();
    let user1 = actor(USER1);
    let user2 = actor(USER2);

    sys.send(user1, SessionAction::StartGame).unwrap();
    sys.send(user2, SessionAction::StartGame).unwrap();
    sys.send(user1, check_word("human")).unwrap();
    sys.send(user2, check_word("horse")).unwrap();
    sys.send(user1, check_word("mouse")).unwrap();

    let state = sys.state();
    assert_eq!(state.user_sessions.len(), 2);
    assert_eq!(session_of(&state, user1).check_count, 2);
    assert_eq!(session_of(&state, user1).result, SessionResult::Ongoing);
    assert_eq!(session_of(&state, user2).check_count, 1);
    assert_eq!(session_of(&state, user2).result, SessionResult::Ongoing);

    // The second user wins; the first goes on.
    let first_before = session_of(&state, user1);
    sys.send(user2, check_word("house")).unwrap();
    let state = sys.state();
    assert_eq!(session_of(&state, user2).check_count, 2);
    assert_eq!(session_of(&state, user2).result, SessionResult::Win);
    assert_eq!(session_of(&state, user2).status, SessionStatus::StartGameWaiting);
    assert_eq!(session_of(&state, user1), first_before);

    // A guess of the first user that is turned down leaves both as they are.
    let before = sys.state();
    assert_eq!(sys.send(user1, check_word("Mouse")), Err(SessionError::InvalidWord));
    let state = sys.state();
    assert_eq!(session_of(&state, user1), session_of(&before, user1));
    assert_eq!(session_of(&state, user2), session_of(&before, user2));
}

#[test]
fn a_new_round_may_be_started_in_the_middle_of_a_round() {
    let mut sys = setup();
    let user = actor(USER1);
    sys.send(user, SessionAction::StartGame).unwrap();
    sys.send(user, check_word("human")).unwrap();
    sys.send(user, check_word("mouse")).unwrap();
    assert_eq!(sys.state().user_sessions[0].1.check_count, 2);

    sys.send(user, SessionAction::StartGame).unwrap();

    let session = sys.state().user_sessions[0].1;
    assert_eq!(session.check_count, 0);
    assert_eq!(session.start_block, 4);
    assert_eq!(session.status, SessionStatus::CheckWordWaiting);
    assert_eq!(session.result, SessionResult::Ongoing);
}

#[test]
fn a_new_round_after_a_lost_one_starts_from_zero() {
    let mut sys = setup();
    let user = actor(USER1);
    sys.send(user, SessionAction::StartGame).unwrap();
    sys.send(user, check_word("human")).unwrap();
    sys.spend_blocks(10);
    assert_eq!(sys.state().user_sessions[0].1.result, SessionResult::Lose);

    sys.send(user, SessionAction::StartGame).unwrap();

    let session = sys.state().user_sessions[0].1;
    assert_eq!(session.result, SessionResult::Ongoing);
    assert_eq!(session.check_count, 0);
    assert_eq!(session.start_block, sys.block);
    assert_eq!(session.status, SessionStatus::CheckWordWaiting);
}

#[test]
fn late_guess_loses_the_round_without_the_wordle_program() {
    let mut sys = setup();
    let user = actor(USER1);
    sys.send(user, SessionAction::StartGame).unwrap();
    // The watchdog is lost on its way: only the guess itself can tell.
    sys.delayed.clear();
    sys.spend_blocks(10);
    assert_eq!(sys.state().user_sessions[0].1.result, SessionResult::Ongoing);
    let sent_before = sys.to_wordle.len();

    // Block 12: the round started in block 1 and may last 10 blocks.
    assert!(sys.send(user, check_word("house")).is_ok());

    let session = sys.state().user_sessions[0].1;
    assert_eq!(session.result, SessionResult::Lose);
    assert_eq!(session.status, SessionStatus::StartGameWaiting);
    assert_eq!(session.check_count, 0);
    assert_eq!(sys.to_wordle.len(), sent_before);
    assert_eq!(
        sys.to_users.last(),
        Some(&(user, SessionEvent::GameOver { result: SessionResult::Lose }))
    );
}
