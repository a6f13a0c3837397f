//! The server connections, and which of them is active.

use vstd::prelude::*;

use crate::collections::{first_from, first_where, first_where_is_first};
use crate::ids::{unknown_server, unknown_server_error, ServerId};
use crate::state::session::SharedState;
use crate::state::types::ConnectionStatus;
use crate::text::same_text;

verus! {

/// A connection under its identity.
pub struct Session {
    /// The identity.
    pub id: ServerId,
    /// The connection.
    pub state: SharedState,
}

/// Every connection, in the order in which they were registered.
pub struct Registry {
    /// The connections.
    pub sessions: Vec<Session>,
    /// The active one.
    pub active: Option<ServerId>,
}

/// Where a connection stands among others.
pub open spec fn position(sessions: Seq<Session>, id: ServerId) -> Option<int> {
    first_where(sessions, |s: Session| s.id == id)
}

/// Whether a connection is there.
pub open spec fn is_known(sessions: Seq<Session>, id: ServerId) -> bool {
    position(sessions, id) is Some
}

/// The connection of an identity.
pub open spec fn state_of(sessions: Seq<Session>, id: ServerId) -> SharedState {
    sessions[position(sessions, id)->0].state
}

/// No identity stands for two connections.
pub open spec fn ids_distinct(sessions: Seq<Session>) -> bool {
    forall|i: int, j: int|
        0 <= i < sessions.len() && 0 <= j < sessions.len() && i != j
            ==> #[trigger] sessions[i].id != #[trigger] sessions[j].id
}

/// The connections after one was registered: in its place where it was there,
/// else at the end.
pub open spec fn with_session(sessions: Seq<Session>, s: Session) -> Seq<Session> {
    match position(sessions, s.id) {
        Some(i) => sessions.update(i, s),
        None => sessions.push(s),
    }
}

/// The connections after one was removed.
pub open spec fn without_session(sessions: Seq<Session>, id: ServerId) -> Seq<Session> {
    match position(sessions, id) {
        Some(i) => sessions.remove(i),
        None => sessions,
    }
}

/// The one registered last.
pub open spec fn latest(sessions: Seq<Session>) -> Option<ServerId> {
    if sessions.len() == 0 {
        None
    } else {
        Some(sessions.last().id)
    }
}

/// A connection that is up or being set up, other than this one.
pub open spec fn is_live_other(s: Session, id: ServerId) -> bool {
    s.id != id && s.state.conn.status != ConnectionStatus::Disconnected
}

/// A connection that has ended, to this server under this name.
pub open spec fn is_reusable(
    s: Session,
    host: Seq<char>,
    port: u16,
    username: Seq<char>,
) -> bool {
    &&& s.state.conn.status == ConnectionStatus::Disconnected
    &&& s.state.server.host@ == host
    &&& s.state.server.port == port
    &&& s.state.conn.own_name@ == username
}

/// The first connection that has ended, to this server under this name.
pub open spec fn reusable(
    sessions: Seq<Session>,
    host: Seq<char>,
    port: u16,
    username: Seq<char>,
) -> Option<int> {
    first_where(sessions, |s: Session| is_reusable(s, host, port, username))
}

/// The connection that takes over from one that has failed.
pub open spec fn fallback(sessions: Seq<Session>, failed: ServerId) -> Option<int> {
    first_where(sessions, |s: Session| is_live_other(s, failed))
}

/// A connection is there exactly where one has its identity, and stands where
/// that one does.
pub proof fn lemma_position(sessions: Seq<Session>, id: ServerId)
    ensures
        match position(sessions, id) {
            Some(i) => 0 <= i < sessions.len() && sessions[i].id == id,
            None => forall|j: int| 0 <= j < sessions.len() ==> #[trigger] sessions[j].id != id,
        },
{
    first_where_is_first(sessions, |s: Session| s.id == id);
}

/// Where identities are distinct, the one that has an identity is the one that
/// is found for it.
pub proof fn lemma_found(sessions: Seq<Session>, i: int)
    requires
        ids_distinct(sessions),
        0 <= i < sessions.len(),
    ensures
        position(sessions, sessions[i].id) == Some(i),
{
    lemma_position(sessions, sessions[i].id);
    assert(sessions[i].id == sessions[i].id);
}

/// Changing what one connection holds moves none.
pub proof fn lemma_update(sessions: Seq<Session>, i: int, s: Session, id: ServerId)
    requires
        ids_distinct(sessions),
        0 <= i < sessions.len(),
        s.id == sessions[i].id,
    ensures
        ids_distinct(sessions.update(i, s)),
        position(sessions.update(i, s), id) == position(sessions, id),
{
    let new = sessions.update(i, s);
    assert(ids_distinct(new));
    lemma_position(sessions, id);
    lemma_position(new, id);
    match position(sessions, id) {
        Some(k) => {
            assert(new[k].id == id);
            lemma_found(new, k);
        },
        None => {
            if let Some(k) = position(new, id) {
                assert(sessions[k].id == id);
            }
        },
    }
}

/// A removed connection is gone, and the others are as they were.
pub proof fn removing_leaves_the_others(sessions: Seq<Session>, id: ServerId, other: ServerId)
    requires
        ids_distinct(sessions),
        id != other,
    ensures
        ids_distinct(without_session(sessions, id)),
        !is_known(without_session(sessions, id), id),
        is_known(without_session(sessions, id), other) == is_known(sessions, other),
        is_known(sessions, other) ==> state_of(without_session(sessions, id), other) == state_of(
            sessions,
            other,
        ),
{
    let new = without_session(sessions, id);
    lemma_position(sessions, id);
    lemma_position(sessions, other);
    lemma_position(new, id);
    lemma_position(new, other);
    if let Some(i) = position(sessions, id) {
        assert forall|a: int, b: int|
            0 <= a < new.len() && 0 <= b < new.len() && a != b implies #[trigger] new[a].id
            != #[trigger] new[b].id by {
            let a0 = if a < i {
                a
            } else {
                a + 1
            };
            let b0 = if b < i {
                b
            } else {
                b + 1
            };
            assert(new[a] == sessions[a0] && new[b] == sessions[b0]);
        }
        if let Some(k) = position(new, id) {
            let k0 = if k < i {
                k
            } else {
                k + 1
            };
            assert(sessions[k0].id == id);
            assert(sessions[i].id == id);
        }
        if let Some(k) = position(sessions, other) {
            let k1 = if k < i {
                k
            } else {
                k - 1
            };
            assert(new[k1].id == other);
            lemma_found(new, k1);
        } else if let Some(k) = position(new, other) {
            let k0 = if k < i {
                k
            } else {
                k + 1
            };
            assert(sessions[k0].id == other);
        }
    }
}

/// A registered connection is there, and the others are as they were.
pub proof fn registering_leaves_the_others(sessions: Seq<Session>, s: Session, other: ServerId)
    requires
        ids_distinct(sessions),
        s.id != other,
    ensures
        ids_distinct(with_session(sessions, s)),
        is_known(with_session(sessions, s), s.id),
        state_of(with_session(sessions, s), s.id) == s.state,
        is_known(with_session(sessions, s), other) == is_known(sessions, other),
        is_known(sessions, other) ==> state_of(with_session(sessions, s), other) == state_of(
            sessions,
            other,
        ),
{
    let new = with_session(sessions, s);
    lemma_position(sessions, s.id);
    lemma_position(sessions, other);
    lemma_position(new, other);
    match position(sessions, s.id) {
        Some(i) => {
            lemma_update(sessions, i, s, s.id);
            lemma_update(sessions, i, s, other);
        },
        None => {
            assert(ids_distinct(new));
            assert(new[sessions.len() as int].id == s.id);
            lemma_found(new, sessions.len() as int);
            if let Some(k) = position(sessions, other) {
                assert(new[k].id == other);
                lemma_found(new, k);
            } else if let Some(k) = position(new, other) {
                if k < sessions.len() {
                    assert(sessions[k].id == other);
                }
            }
        },
    }
}

impl Registry {
    /// Identities are distinct, and the active connection is there.
    pub open spec fn wf(self) -> bool {
        &&& ids_distinct(self.sessions@)
        &&& match self.active {
            Some(id) => is_known(self.sessions@, id),
            None => true,
        }
    }

    /// No connections.
    pub fn new() -> (r: Self)
        ensures
            r.wf(),
            r.sessions@ == Seq::<Session>::empty(),
            r.active is None,
    {
        Registry { sessions: Vec::new(), active: None }
    }

    /// Where a connection stands.
    pub fn index_of(&self, id: ServerId) -> (r: Option<usize>)
        ensures
            match r {
                Some(i) => position(self.sessions@, id) == Some(i as int) && i
                    < self.sessions@.len() && self.sessions@[i as int].id == id,
                None => position(self.sessions@, id) is None,
            },
    {
        let ghost p = |s: Session| s.id == id;
        let mut i: usize = 0;
        while i < self.sessions.len()
            invariant
                i <= self.sessions.len(),
                p == (|s: Session| s.id == id),
                first_where(self.sessions@, p) == first_from(self.sessions@, p, i as int),
            decreases self.sessions.len() - i,
        {
            if self.sessions[i].id == id {
                return Some(i);
            }
            i += 1;
        }
        None
    }

    /// A connection.
    pub fn session(&self, id: ServerId) -> (r: Option<&SharedState>)
        ensures
            r == if is_known(self.sessions@, id) {
                Some(&state_of(self.sessions@, id))
            } else {
                None
            },
    {
        match self.index_of(id) {
            Some(i) => Some(&self.sessions[i].state),
            None => None,
        }
    }

    /// The active connection.
    pub fn active_id(&self) -> (r: Option<ServerId>)
        ensures
            r == self.active,
    {
        self.active
    }

    /// Register a connection, or put another in its place, and make it active.
    pub fn register_active(&mut self, id: ServerId, state: SharedState)
        requires
            old(self).wf(),
        ensures
            final(self).wf(),
            final(self).sessions@ == with_session(old(self).sessions@, (Session { id, state })),
            final(self).active == Some(id),
    {
        let ghost before = self.sessions@;
        proof {
            let other = ServerId(
                if id.0 == 0 {
                    1u128
                } else {
                    0u128
                },
            );
            registering_leaves_the_others(before, Session { id, state }, other);
        }
        match self.index_of(id) {
            Some(i) => {
                self.sessions.set(i, Session { id, state });
            },
            None => {
                self.sessions.push(Session { id, state });
            },
        }
        self.active = Some(id);
    }

    /// Remove a connection and hand it out.  Where it was the active one, the
    /// one registered last takes over.
    pub fn remove(&mut self, id: ServerId) -> (r: Option<SharedState>)
        requires
            old(self).wf(),
        ensures
            final(self).wf(),
            final(self).sessions@ == without_session(old(self).sessions@, id),
            final(self).active == if old(self).active == Some(id) {
                latest(without_session(old(self).sessions@, id))
            } else {
                old(self).active
            },
            r == if is_known(old(self).sessions@, id) {
                Some(state_of(old(self).sessions@, id))
            } else {
                None
            },
    {
        let ghost before = self.sessions@;
        proof {
            let other = match self.active {
                Some(active) if active != id => active,
                _ => ServerId(
                    if id.0 == 0 {
                        1u128
                    } else {
                        0u128
                    },
                ),
            };
            removing_leaves_the_others(before, id, other);
        }
        let found = match self.index_of(id) {
            Some(i) => Some(self.sessions.remove(i).state),
            None => None,
        };
        let was_active = match self.active {
            Some(active) => active == id,
            None => false,
        };
        if was_active {
            let count: usize = self.sessions.len();
            if count == 0 {
                self.active = None;
            } else {
                self.active = Some(self.sessions[count - 1].id);
                proof {
                    lemma_found(self.sessions@, count - 1);
                }
            }
        }
        found
    }

    /// Make a connection active.
    pub fn set_active(&mut self, id: ServerId) -> (r: Result<(), String>)
        requires
            old(self).wf(),
        ensures
            final(self).wf(),
            final(self).sessions == old(self).sessions,
            if is_known(old(self).sessions@, id) {
                r is Ok && final(self).active == Some(id)
            } else {
                r is Err && r->Err_0@ == unknown_server(id) && final(self).active
                    == old(self).active
            },
    {
        match self.index_of(id) {
            Some(_) => {
                self.active = Some(id);
                Ok(())
            },
            None => Err(unknown_server_error(id)),
        }
    }

    /// Switch away from a connection that has failed, where it is the active
    /// one and another is up or being set up.
    pub fn activate_fallback(&mut self, failed: ServerId) -> (r: bool)
        requires
            old(self).wf(),
        ensures
            final(self).wf(),
            final(self).sessions == old(self).sessions,
            r == (old(self).active == Some(failed) && fallback(old(self).sessions@, failed)
                is Some),
            final(self).active == if r {
                Some(old(self).sessions@[fallback(old(self).sessions@, failed)->0].id)
            } else {
                old(self).active
            },
    {
        let is_active = match self.active {
            Some(active) => active == failed,
            None => false,
        };
        if !is_active {
            return false;
        }
        let ghost p = |s: Session| is_live_other(s, failed);
        let mut i: usize = 0;
        while i < self.sessions.len()
            invariant
                *self == *old(self),
                self.wf(),
                i <= self.sessions.len(),
                self.active == Some(failed),
                p == (|s: Session| is_live_other(s, failed)),
                first_where(self.sessions@, p) == first_from(self.sessions@, p, i as int),
            decreases self.sessions.len() - i,
        {
            if self.sessions[i].id != failed && self.sessions[i].state.conn.status
                != ConnectionStatus::Disconnected {
                self.active = Some(self.sessions[i].id);
                proof {
                    lemma_found(self.sessions@, i as int);
                }
                return true;
            }
            i += 1;
        }
        false
    }

    /// The first connection that has ended, to this server under this name.
    pub fn reusable_for(&self, host: &str, port: u16, username: &str) -> (r: Option<usize>)
        ensures
            match r {
                Some(i) => reusable(self.sessions@, host@, port, username@) == Some(i as int) && i
                    < self.sessions@.len(),
                None => reusable(self.sessions@, host@, port, username@) is None,
            },
    {
        let ghost p = |s: Session| is_reusable(s, host@, port, username@);
        let mut i: usize = 0;
        while i < self.sessions.len()
            invariant
                i <= self.sessions.len(),
                p == (|s: Session| is_reusable(s, host@, port, username@)),
                first_where(self.sessions@, p) == first_from(self.sessions@, p, i as int),
            decreases self.sessions.len() - i,
        {
            let state = &self.sessions[i].state;
            if state.conn.status == ConnectionStatus::Disconnected && state.server.port == port
                && same_text(state.server.host.as_str(), host) && same_text(
                state.conn.own_name.as_str(),
                username,
            ) {
                return Some(i);
            }
            i += 1;
        }
        None
    }
}

/// Where the active connection is removed, the youngest of the others takes
/// over: the one registered last, or the one before it where that is the one
/// that goes.
pub proof fn the_youngest_takes_over(sessions: Seq<Session>, id: ServerId)
    requires
        ids_distinct(sessions),
        is_known(sessions, id),
    ensures
        sessions.len() == 1 ==> latest(without_session(sessions, id)) is None,
        sessions.len() > 1 && sessions.last().id != id ==> latest(without_session(sessions, id))
            == Some(sessions.last().id),
        sessions.len() > 1 && sessions.last().id == id ==> latest(without_session(sessions, id))
            == Some(sessions[sessions.len() - 2].id),
{
    lemma_position(sessions, id);
    let i = position(sessions, id)->0;
    if sessions.last().id == id {
        lemma_found(sessions, sessions.len() - 1);
    }
}

/// What takes over from a failed connection is the first other that is up or
/// being set up; where every other has ended, nothing does.
pub proof fn the_first_live_one_takes_over(sessions: Seq<Session>, failed: ServerId, k: int)
    requires
        0 <= k < sessions.len(),
    ensures
        sessions[k].id != failed && sessions[k].state.conn.status
            != ConnectionStatus::Disconnected && (forall|j: int|
            0 <= j < k ==> (#[trigger] sessions[j]).id == failed || sessions[j].state.conn.status
                == ConnectionStatus::Disconnected) ==> fallback(sessions, failed) == Some(k),
        (forall|j: int|
            0 <= j < sessions.len() ==> (#[trigger] sessions[j]).id == failed
                || sessions[j].state.conn.status == ConnectionStatus::Disconnected) ==> fallback(
            sessions,
            failed,
        ) is None,
{
    let p = |s: Session| is_live_other(s, failed);
    first_where_is_first(sessions, p);
    match fallback(sessions, failed) {
        Some(i) => {
            assert(p(sessions[i]));
            if k < i {
                assert(!p(sessions[k]));
            }
        },
        None => {
            assert(!p(sessions[k]));
        },
    }
}

/// A connection is reused only where it has ended and was to just that host and
/// port under just that name, the first of them; where there is none, none is.
pub proof fn only_an_ended_one_to_the_same_place_is_reused(
    sessions: Seq<Session>,
    host: Seq<char>,
    port: u16,
    username: Seq<char>,
    k: int,
)
    requires
        0 <= k < sessions.len(),
    ensures
        match reusable(sessions, host, port, username) {
            Some(i) => {
                &&& 0 <= i < sessions.len()
                &&& sessions[i].state.conn.status == ConnectionStatus::Disconnected
                &&& sessions[i].state.server.host@ == host
                &&& sessions[i].state.server.port == port
                &&& sessions[i].state.conn.own_name@ == username
                &&& k < i ==> !(sessions[k].state.conn.status == ConnectionStatus::Disconnected
                    && sessions[k].state.server.host@ == host && sessions[k].state.server.port
                    == port && sessions[k].state.conn.own_name@ == username)
            },
            None => !(sessions[k].state.conn.status == ConnectionStatus::Disconnected
                && sessions[k].state.server.host@ == host && sessions[k].state.server.port == port
                && sessions[k].state.conn.own_name@ == username),
        },
{
    let p = |s: Session| is_reusable(s, host, port, username);
    first_where_is_first(sessions, p);
    match reusable(sessions, host, port, username) {
        Some(i) => {
            assert(p(sessions[i]));
            if k < i {
                assert(!p(sessions[k]));
            }
        },
        None => {
            assert(!p(sessions[k]));
        },
    }
}

} // verus!
