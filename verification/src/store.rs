//! The sessions of all users, kept by user in a hash map.
//!
//! The map is trusted: each `table_*` function makes one call into it and
//! says in its contract what that call is taken to do. Everything else here
//! is proved from those contracts.

use vstd::prelude::*;
use vstd::pervasive::unreached;
use gstd::collections::HashMap;
use crate::primitives::ActorId;
use crate::session::Session;

verus! {

/// The sessions, one for a user at most. They are kept in the hash map of
/// `hashbrown`, as `gstd::collections` offers it, under the bytes of the
/// users' ids. Nothing is proved of the map itself: what is known of it is
/// what the functions `table_*` below claim, and [`table_sessions`] is the
/// name for what it holds.
#[verifier::external_body]
pub struct SessionTable {
    map: HashMap<[u8; 32], Session>,
}

/// The sessions that a table holds, by user: for each key of the hash map,
/// the user with these bytes and the value under the key.
pub uninterp spec fn table_sessions(table: SessionTable) -> Map<ActorId, Session>;

/// Calls `HashMap::new`. Claimed of it: the new map holds nothing.
#[verifier::external_body]
fn table_new() -> (table: SessionTable)
    ensures
        table_sessions(table) == SessionTable::empty(),
{
    SessionTable { map: HashMap::new() }
}

/// Calls `HashMap::contains_key`. Claimed of it: it tells whether the map
/// holds a value under the key.
#[verifier::external_body]
fn table_contains_key(table: &SessionTable, user: &ActorId) -> (found: bool)
    ensures
        found == table_sessions(*table).contains_key(*user),
{
    table.map.contains_key(&user.into_bytes())
}

/// Calls `HashMap::insert`. Claimed of it: afterwards the map holds the
/// value under the key, in place of what it held there before, if anything;
/// what it holds under other keys stays.
#[verifier::external_body]
fn table_insert(table: &mut SessionTable, user: ActorId, session: Session)
    ensures
        table_sessions(*final(table)) == table_sessions(*old(table)).insert(user, session),
{
    table.map.insert(user.into_bytes(), session);
}

/// Calls `HashMap::get`. Claimed of it: it gives the value that the map
/// holds under the key, and `None` if it holds none.
#[verifier::external_body]
fn table_get<'a>(table: &'a SessionTable, user: &ActorId) -> (found: Option<&'a Session>)
    ensures
        found is Some <==> table_sessions(*table).contains_key(*user),
        found matches Some(session) ==> *session == table_sessions(*table)[*user],
{
    table.map.get(&user.into_bytes())
}

/// Calls `HashMap::get_mut`. Claimed of it: it gives a reference to the
/// value that the map holds under the key, and `None` if it holds none. What
/// is written through the reference is what the map holds under the key
/// afterwards; what it holds under other keys stays.
#[verifier::external_body]
fn table_get_mut<'a>(table: &'a mut SessionTable, user: &ActorId) -> (found: Option<
    &'a mut Session,
>)
    ensures
        found is Some <==> table_sessions(*old(table)).contains_key(*user),
        found matches Some(session) ==> *session == table_sessions(*old(table))[*user],
        found matches Some(session) ==> table_sessions(*final(table)) == table_sessions(
            *old(table),
        ).insert(*user, *final(session)),
        found is None ==> table_sessions(*final(table)) == table_sessions(*old(table)),
{
    table.map.get_mut(&user.into_bytes())
}

/// Calls `HashMap::iter` and collects what it yields. Claimed of it: it
/// yields every pair of the map, each once. Nothing is claimed of the order.
#[verifier::external_body]
fn table_pairs(table: &SessionTable) -> (pairs: Vec<(ActorId, Session)>)
    ensures
        SessionTable::lists(table_sessions(*table), pairs@),
{
    table.map.iter().map(|(user, session)| (ActorId::new(*user), *session)).collect()
}

impl View for SessionTable {
    type V = Map<ActorId, Session>;

    open spec fn view(&self) -> Map<ActorId, Session> {
        table_sessions(*self)
    }
}

impl SessionTable {
    /// No sessions.
    pub open spec fn empty() -> Map<ActorId, Session> {
        Map::empty()
    }

    /// `pairs` lists the sessions of `sessions`: each pair of it is a user
    /// with that user's session, no user comes twice, and no user is left
    /// out.
    pub open spec fn lists(
        sessions: Map<ActorId, Session>,
        pairs: Seq<(ActorId, Session)>,
    ) -> bool {
        &&& forall|i: int|
            0 <= i < pairs.len() ==> sessions.contains_pair((#[trigger] pairs[i]).0, pairs[i].1)
        &&& forall|i: int, j: int|
            0 <= i < j < pairs.len() ==> (#[trigger] pairs[i]).0 != (#[trigger] pairs[j]).0
        &&& forall|user: ActorId| #[trigger]
            sessions.contains_key(user) ==> exists|i: int|
                0 <= i < pairs.len() && (#[trigger] pairs[i]).0 == user
    }

    /// A table without sessions.
    pub fn new() -> (table: SessionTable)
        ensures
            table@ == SessionTable::empty(),
    {
        table_new()
    }

    /// The session of `user`. A user who has none gets a fresh one first.
    /// What the caller writes to the session is what the table holds for the
    /// user afterwards; the sessions of other users stay as they are.
    pub fn get_or_create(&mut self, user: ActorId) -> (session: &mut Session)
        ensures
            old(self)@.contains_key(user) ==> *session == old(self)@[user],
            !old(self)@.contains_key(user) ==> *session == Session::fresh(),
            final(self)@ == old(self)@.insert(user, *final(session)),
    {
        if !table_contains_key(self, &user) {
            table_insert(self, user, Session::new());
        }
        match table_get_mut(self, &user) {
            Some(session) => session,
            None => unreached(),
        }
    }

    /// The session of `user`, if there is one.
    pub fn get(&self, user: &ActorId) -> (found: Option<&Session>)
        ensures
            found is Some <==> self@.contains_key(*user),
            found matches Some(session) ==> *session == self@[*user],
    {
        table_get(self, user)
    }

    /// All users with their sessions, in no particular order.
    pub fn all(&self) -> (pairs: Vec<(ActorId, Session)>)
        ensures
            SessionTable::lists(self@, pairs@),
    {
        table_pairs(self)
    }
}

} // verus!
