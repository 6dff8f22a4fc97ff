//! The bounded table of sessions: lookup by the addressing of a packet,
//! duplicate detection, and the choice of the session to evict.

use vstd::prelude::*;
use crate::error::ErrorCode;
use crate::mrp::RxCtrState;
use crate::packet::{Address, Header};
use crate::search::{first, first_from, lemma_first};

verus! {

/// Number of sessions that the table holds at most.
pub const MAX_SESSIONS: usize = 16;

/// What identifies a session: its id, the peer's address and node id, and
/// whether it is encrypted.
#[derive(Clone, Copy, Debug, PartialEq, Eq)]
pub struct SessionId {
    pub id: u16,
    pub peer_addr: Address,
    pub peer_nodeid: Option<u64>,
    pub is_encrypted: bool,
}

impl SessionId {
    /// The session that the packet `rx` travels on.
    pub open spec fn spec_load(rx: Header) -> SessionId {
        SessionId {
            id: rx.sess_id,
            peer_addr: rx.peer,
            peer_nodeid: rx.src_nodeid,
            is_encrypted: rx.encrypted,
        }
    }

    /// The session that the packet `rx` travels on.
    pub fn load(rx: &Header) -> (id: SessionId)
        ensures
            id == SessionId::spec_load(*rx),
    {
        SessionId {
            id: rx.sess_id,
            peer_addr: rx.peer,
            peer_nodeid: rx.src_nodeid,
            is_encrypted: rx.encrypted,
        }
    }

    /// Whether the two ids are equal.
    pub fn same(&self, other: &SessionId) -> (equal: bool)
        ensures
            equal == (*self == *other),
    {
        let nodeid_equal = match (self.peer_nodeid, other.peer_nodeid) {
            (Some(a), Some(b)) => a == b,
            (None, None) => true,
            _ => false,
        };
        self.id == other.id && self.peer_addr == other.peer_addr && nodeid_equal
            && self.is_encrypted == other.is_encrypted
    }
}

/// One session: who it is with, when it was last active, and which message
/// counters arrived on it.
#[derive(Clone, Copy, Debug, PartialEq, Eq)]
pub struct Session {
    pub id: SessionId,
    /// Time, in milliseconds, of the last packet that arrived on the session.
    pub last_use: u64,
    pub rx_ctr: RxCtrState,
}

/// The property of being the session with the id `id`.
pub open spec fn session_is(id: SessionId) -> spec_fn(Session) -> bool {
    |s: Session| s.id == id
}

/// Index of the least recently used of the first `n` sessions; of several
/// that were last used at the same time, the first.
pub open spec fn lru_upto(sessions: Seq<Session>, n: int) -> int
    decreases n,
{
    if n <= 1 {
        0
    } else {
        let best = lru_upto(sessions, n - 1);
        if sessions[n - 1].last_use < sessions[best].last_use {
            n - 1
        } else {
            best
        }
    }
}

/// Index of the least recently used session.
pub open spec fn lru(sessions: Seq<Session>) -> int {
    lru_upto(sessions, sessions.len() as int)
}

/// `lru_upto` names a session that none of the first `n` is older than, and
/// that every session before it is younger than.
pub proof fn lemma_lru_upto(sessions: Seq<Session>, n: int)
    requires
        1 <= n <= sessions.len(),
    ensures
        0 <= lru_upto(sessions, n) < n,
        forall|j: int| 0 <= j < n ==> sessions[lru_upto(sessions, n)].last_use <= (#[trigger] sessions[j]).last_use,
        forall|j: int|
            0 <= j < lru_upto(sessions, n) ==> sessions[lru_upto(sessions, n)].last_use < (#[trigger] sessions[j]).last_use,
    decreases n,
{
    if n > 1 {
        lemma_lru_upto(sessions, n - 1);
    }
}

/// The session that the packet `rx` travels on, as `post_recv` finds or makes
/// it at time `now`, and the table afterwards. A known session is marked as
/// used. An unknown one is added if the peer is the initiator and the table
/// has room; it is `NoSpaceSessions` if the table is full, and `NoExchange`
/// if the peer is not the initiator. On an error the table is unchanged.
pub open spec fn post_received(sessions: Seq<Session>, rx: Header, now: u64) -> (
    Seq<Session>,
    Result<int, ErrorCode>,
) {
    let id = SessionId::spec_load(rx);
    match first(sessions, session_is(id)) {
        Some(i) => (sessions.update(i, Session { last_use: now, ..sessions[i] }), Ok(i)),
        None => if !rx.initiator {
            (sessions, Err(ErrorCode::NoExchange))
        } else if sessions.len() >= MAX_SESSIONS {
            (sessions, Err(ErrorCode::NoSpaceSessions))
        } else {
            (
                sessions.push(Session { id, last_use: now, rx_ctr: RxCtrState { started: false, max_ctr: 0, bitmap: 0 } }),
                Ok(sessions.len() as int),
            )
        },
    }
}

/// The table after the session at `index` took in the message counter `ctr`.
pub open spec fn counter_received(sessions: Seq<Session>, index: int, ctr: u32) -> Seq<Session> {
    sessions.update(index, Session { rx_ctr: sessions[index].rx_ctr.received(ctr), ..sessions[index] })
}

/// The session to evict: the least recently used one, if the table is full.
pub open spec fn eviction_candidate(sessions: Seq<Session>) -> Option<int> {
    if sessions.len() >= MAX_SESSIONS {
        Some(lru(sessions))
    } else {
        None
    }
}

/// Whether the message counter `ctr` was received on the session `id`.
pub open spec fn counter_seen(sessions: Seq<Session>, id: SessionId, ctr: u32) -> bool {
    first(sessions, session_is(id)) matches Some(i) && sessions[i].rx_ctr.seen(ctr)
}

/// The table of sessions.
pub struct SessionMgr {
    sessions: Vec<Session>,
}

impl View for SessionMgr {
    type V = Seq<Session>;

    closed spec fn view(&self) -> Seq<Session> {
        self.sessions@
    }
}

impl SessionMgr {
    /// The table holds no more sessions than it may.
    pub open spec fn wf(&self) -> bool {
        self@.len() <= MAX_SESSIONS
    }

    /// An empty table.
    pub fn new() -> (mgr: SessionMgr)
        ensures
            mgr@ == Seq::<Session>::empty(),
            mgr.wf(),
    {
        SessionMgr { sessions: Vec::new() }
    }

    /// Forgets every session.
    pub fn reset(&mut self)
        ensures
            final(self)@ == Seq::<Session>::empty(),
            final(self).wf(),
    {
        self.sessions.clear();
    }

    /// Number of sessions.
    pub fn len(&self) -> (n: usize)
        ensures
            n == self@.len(),
    {
        self.sessions.len()
    }

    /// The session at `index`, if there is one.
    pub fn get(&self, index: usize) -> (session: Option<Session>)
        ensures
            index < self@.len() ==> session == Some(self@[index as int]),
            index >= self@.len() ==> session is None,
    {
        if index < self.sessions.len() {
            Some(self.sessions[index])
        } else {
            None
        }
    }

    /// Index of the session with the id `id`, if the table holds it.
    pub fn find(&self, id: &SessionId) -> (found: Option<usize>)
        ensures
            found is Some <==> first(self@, session_is(*id)) is Some,
            found matches Some(i) ==> first(self@, session_is(*id)) == Some(i as int),
    {
        let mut i: usize = 0;
        while i < self.sessions.len()
            invariant
                i <= self.sessions@.len(),
                first(self@, session_is(*id)) == first_from(self@, session_is(*id), i as int),
            decreases self.sessions@.len() - i,
        {
            if self.sessions[i].id.same(id) {
                return Some(i);
            }
            i += 1;
        }
        None
    }

    /// Finds the session that the packet `rx` travels on, or makes it, at
    /// time `now`.
    pub fn post_recv(&mut self, rx: &Header, now: u64) -> (res: Result<usize, ErrorCode>)
        requires
            old(self).wf(),
        ensures
            final(self).wf(),
            final(self)@ == post_received(old(self)@, *rx, now).0,
            res matches Ok(i) ==> post_received(old(self)@, *rx, now).1 == Ok::<int, ErrorCode>(i as int)
                && i < final(self)@.len(),
            res matches Err(e) ==> post_received(old(self)@, *rx, now).1 == Err::<int, ErrorCode>(e),
    {
        let id = SessionId::load(rx);
        proof {
            lemma_first(self@, session_is(id));
        }
        match self.find(&id) {
            Some(i) => {
                let mut session = self.sessions[i];
                session.last_use = now;
                self.sessions[i] = session;
                Ok(i)
            },
            None => {
                if !rx.initiator {
                    Err(ErrorCode::NoExchange)
                } else if self.sessions.len() >= MAX_SESSIONS {
                    Err(ErrorCode::NoSpaceSessions)
                } else {
                    self.sessions.push(Session { id, last_use: now, rx_ctr: RxCtrState::new() });
                    Ok(self.sessions.len() - 1)
                }
            },
        }
    }

    /// Takes in the message counter `ctr` on the session at `index` and says
    /// whether it is a duplicate. An index outside the table is `NoSpace`.
    pub fn recv(&mut self, index: usize, ctr: u32) -> (res: Result<bool, ErrorCode>)
        ensures
            index < old(self)@.len() ==> res == Ok::<bool, ErrorCode>(old(self)@[index as int].rx_ctr.seen(ctr))
                && final(self)@ == counter_received(old(self)@, index as int, ctr),
            index >= old(self)@.len() ==> res == Err::<bool, ErrorCode>(ErrorCode::NoSpace)
                && final(self)@ == old(self)@,
    {
        if index >= self.sessions.len() {
            return Err(ErrorCode::NoSpace);
        }
        let mut session = self.sessions[index];
        let duplicate = session.rx_ctr.recv(ctr);
        self.sessions[index] = session;
        Ok(duplicate)
    }

    /// The session to evict, if the table is full: the least recently used
    /// one.
    pub fn get_session_for_eviction(&self) -> (candidate: Option<usize>)
        requires
            self.wf(),
        ensures
            candidate is Some <==> eviction_candidate(self@) is Some,
            candidate matches Some(i) ==> eviction_candidate(self@) == Some(i as int) && i < self@.len(),
    {
        let n = self.sessions.len();
        if n < MAX_SESSIONS {
            return None;
        }
        let mut best: usize = 0;
        let mut i: usize = 1;
        while i < n
            invariant
                n == self.sessions@.len(),
                1 <= i <= n,
                best == lru_upto(self@, i as int),
                best < i,
            decreases n - i,
        {
            if self.sessions[i].last_use < self.sessions[best].last_use {
                best = i;
            }
            i += 1;
        }
        Some(best)
    }

    /// Takes the session at `index` out of the table and hands it back; the
    /// sessions behind it move up. There is nothing to hand back if the table
    /// has no such session.
    pub fn remove(&mut self, index: usize) -> (removed: Option<Session>)
        requires
            old(self).wf(),
        ensures
            final(self).wf(),
            index < old(self)@.len() ==> removed == Some(old(self)@[index as int])
                && final(self)@ == old(self)@.remove(index as int),
            index >= old(self)@.len() ==> removed is None && final(self)@ == old(self)@,
    {
        if index < self.sessions.len() {
            Some(self.sessions.remove(index))
        } else {
            None
        }
    }
}

} // verus!
