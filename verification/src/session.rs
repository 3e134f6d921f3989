//! In-memory registry of chat sessions: create, look up, track the active
//! session, list by recency, delete.
//!
//! The registry holds each session once — ids are unique — and the active
//! session, when set, always refers to a session that is present. Lookups are
//! by the session's id string.

use vstd::prelude::*;

use crate::models::ChatSession;

verus! {

/// Character-for-character string equality.
fn str_eq(a: &str, b: &str) -> (r: bool)
    ensures
        r == (a@ == b@),
{
    let n: usize = a.unicode_len();
    let m: usize = b.unicode_len();
    if n != m {
        return false;
    }
    let mut i: usize = 0;
    while i < n
        invariant
            0 <= i <= n,
            n == a@.len(),
            n == b@.len(),
            forall|j: int| 0 <= j < i ==> a@[j] == b@[j],
        decreases n - i,
    {
        if a.get_char(i) != b.get_char(i) {
            return false;
        }
        i += 1;
    }
    proof {
        assert(a@ =~= b@);
    }
    true
}

/// No two sessions share an id.
pub open spec fn unique_ids(ss: Seq<ChatSession>) -> bool {
    forall|i: int, j: int|
        0 <= i < ss.len() && 0 <= j < ss.len() && i != j ==> (#[trigger] ss[i].id@) != (
        #[trigger] ss[j].id@)
}

/// The registry of sessions and the currently active one.
pub struct SessionManager {
    sessions: Vec<ChatSession>,
    active_session_id: Option<String>,
}

impl SessionManager {
    /// The sessions the registry holds, in insertion order.
    pub closed spec fn sessions_seq(self) -> Seq<ChatSession> {
        self.sessions@
    }

    /// The id of the active session, if one is set.
    pub closed spec fn active_id(self) -> Option<String> {
        self.active_session_id
    }

    /// Whether a session with the given id is present.
    pub open spec fn has_session(self, id: Seq<char>) -> bool {
        exists|i: int| 0 <= i < self.sessions_seq().len() && self.sessions_seq()[i].id@ == id
    }

    /// The index of the session with the given id; meaningful when the id is
    /// present and ids are unique.
    pub open spec fn session_index(self, id: Seq<char>) -> int {
        choose|i: int| 0 <= i < self.sessions_seq().len() && self.sessions_seq()[i].id@ == id
    }

    /// The session with the given id.
    pub open spec fn spec_get(self, id: Seq<char>) -> ChatSession {
        self.sessions_seq()[self.session_index(id)]
    }

    /// The registry's invariant: ids unique, and the active id, when set,
    /// names a session that is present.
    pub open spec fn wf(self) -> bool {
        &&& unique_ids(self.sessions_seq())
        &&& (self.active_id() is Some ==> self.has_session(self.active_id().unwrap()@))
    }

    /// An empty registry with no active session.
    pub fn new() -> (r: SessionManager)
        ensures
            r.wf(),
            r.sessions_seq() == Seq::<ChatSession>::empty(),
            r.active_id() is None,
    {
        SessionManager { sessions: Vec::new(), active_session_id: None }
    }

    /// The index of the session with the given id, if present.
    fn find_index(&self, id: &str) -> (r: Option<usize>)
        requires
            self.wf(),
        ensures
            r is Some <==> self.has_session(id@),
            r is Some ==> r.unwrap() == self.session_index(id@) && 0 <= r.unwrap()
                < self.sessions_seq().len() && self.sessions_seq()[r.unwrap() as int].id@ == id@,
    {
        let n: usize = self.sessions.len();
        let mut i: usize = 0;
        while i < n
            invariant
                0 <= i <= n,
                n == self.sessions@.len(),
                self.wf(),
                forall|j: int| 0 <= j < i ==> (#[trigger] self.sessions@[j].id@) != id@,
            decreases n - i,
        {
            if str_eq(self.sessions[i].id.as_str(), id) {
                proof {
                    assert(self.has_session(id@));
                    let ci = self.session_index(id@);
                    assert(0 <= ci < self.sessions_seq().len() && self.sessions_seq()[ci].id@
                        == id@);
                    assert(ci == i as int);
                }
                return Some(i);
            }
            i += 1;
        }
        proof {
            assert(!self.has_session(id@));
        }
        None
    }

    /// Creates a fresh, empty session with the given title, stores it, and
    /// makes it the active session; its generated id is returned. In the
    /// vanishingly unlikely case that the generated id is already present,
    /// the stored session replaces the old one.
    pub fn create_session(&mut self, title: &str) -> (id: String)
        requires
            old(self).wf(),
        ensures
            final(self).wf(),
            id@.len() == 36,
            final(self).has_session(id@),
            final(self).active_id() is Some && final(self).active_id().unwrap()@ == id@,
            ({
                let s = final(self).spec_get(id@);
                &&& s.id@ == id@
                &&& s.title@ == title@
                &&& s.messages@ == Seq::<crate::models::Message>::empty()
                &&& s.preview is None
                &&& s.is_archived == false
            }),
            !old(self).has_session(id@) ==> final(self).sessions_seq()
                == old(self).sessions_seq().push(final(self).spec_get(id@)),
            old(self).has_session(id@) ==> final(self).sessions_seq()
                == old(self).sessions_seq().update(old(self).session_index(id@), final(self).spec_get(id@)),
    {
        let session = ChatSession::new(title);
        let id = session.id.clone();
        match self.find_index(id.as_str()) {
            Some(k) => {
                self.sessions.set(k, session);
                proof {
                    let ghost kk = k as int;
                    assert(self.sessions@[kk].id@ == id@);
                    assert(unique_ids(self.sessions@)) by {
                        assert(forall|i: int, j: int|
                            0 <= i < self.sessions@.len() && 0 <= j < self.sessions@.len() && i != j
                                ==> (#[trigger] self.sessions@[i].id@) != (
                            #[trigger] self.sessions@[j].id@)) by {
                            assert(forall|i: int|
                                0 <= i < self.sessions@.len() && i != kk ==> self.sessions@[i]
                                    == old(self).sessions@[i]);
                        }
                    }
                    assert(self.has_session(id@));
                    assert(self.session_index(id@) == kk);
                }
            },
            None => {
                self.sessions.push(session);
                proof {
                    let ghost kk = self.sessions@.len() - 1;
                    assert(self.sessions@[kk].id@ == id@);
                    assert(forall|i: int|
                        0 <= i < kk ==> self.sessions@[i] == old(self).sessions@[i]);
                    assert(unique_ids(self.sessions@));
                    assert(self.has_session(id@));
                    assert(self.session_index(id@) == kk);
                }
            },
        }
        self.active_session_id = Some(id.clone());
        id
    }

    /// Looks a session up by id.
    pub fn get_session(&self, id: &str) -> (r: Option<&ChatSession>)
        requires
            self.wf(),
        ensures
            r is Some <==> self.has_session(id@),
            r is Some ==> *r.unwrap() == self.spec_get(id@),
    {
        match self.find_index(id) {
            Some(i) => Some(&self.sessions[i]),
            None => None,
        }
    }

    /// Looks a session up by id for mutation. The registry afterwards holds
    /// whatever the caller wrote through the returned reference, in the
    /// session's old place; everything else is untouched.
    pub fn get_session_mut(&mut self, id: &str) -> (r: Option<&mut ChatSession>)
        requires
            old(self).wf(),
        ensures
            r is Some <==> old(self).has_session(id@),
            r is None ==> *final(self) == *old(self),
            r is Some ==> *r.unwrap() == old(self).spec_get(id@) && final(self).sessions_seq()
                == old(self).sessions_seq().update(
                old(self).session_index(id@),
                *final(r.unwrap()),
            ) && final(self).active_id() == old(self).active_id(),
    {
        match self.find_index(id) {
            Some(i) => Some(&mut self.sessions[i]),
            None => None,
        }
    }

    /// Makes the session with the given id active; with an unknown id the
    /// registry is left unchanged.
    pub fn set_active_session(&mut self, id: String)
        requires
            old(self).wf(),
        ensures
            final(self).wf(),
            final(self).sessions_seq() == old(self).sessions_seq(),
            old(self).has_session(id@) ==> final(self).active_id() is Some
                && final(self).active_id().unwrap()@ == id@,
            !old(self).has_session(id@) ==> *final(self) == *old(self),
    {
        if self.find_index(id.as_str()).is_some() {
            self.active_session_id = Some(id);
        }
    }

    /// The active session, if one is set.
    pub fn get_active_session(&self) -> (r: Option<&ChatSession>)
        requires
            self.wf(),
        ensures
            r is Some <==> self.active_id() is Some,
            r is Some ==> *r.unwrap() == self.spec_get(self.active_id().unwrap()@),
    {
        match &self.active_session_id {
            Some(id) => self.get_session(id.as_str()),
            None => None,
        }
    }

    /// The active session, if one is set, for mutation; as with
    /// [`Self::get_session_mut`], the registry afterwards holds what the
    /// caller wrote through the reference.
    pub fn get_active_session_mut(&mut self) -> (r: Option<&mut ChatSession>)
        requires
            old(self).wf(),
        ensures
            r is Some <==> old(self).active_id() is Some,
            r is None ==> *final(self) == *old(self),
            r is Some ==> *r.unwrap() == old(self).spec_get(old(self).active_id().unwrap()@)
                && final(self).sessions_seq() == old(self).sessions_seq().update(
                old(self).session_index(old(self).active_id().unwrap()@),
                *final(r.unwrap()),
            ) && final(self).active_id() == old(self).active_id(),
    {
        if self.active_session_id.is_none() {
            return None;
        }
        let id = self.active_session_id.as_ref().unwrap().clone();
        self.get_session_mut(id.as_str())
    }

    /// All sessions, most recently updated first.
    pub fn list_sessions(&self) -> (r: Vec<&ChatSession>)
        requires
            self.wf(),
        ensures
            r@.len() == self.sessions_seq().len(),
            forall|i: int, j: int|
                0 <= i <= j < r@.len() ==> (#[trigger] r@[i]).updated_at >= (
                #[trigger] r@[j]).updated_at,
            derefs(r@).to_multiset() == self.sessions_seq().to_multiset(),
    {
        let n: usize = self.sessions.len();
        let mut out: Vec<&ChatSession> = Vec::new();
        let mut i: usize = 0;
        proof {
            assert(self.sessions@.take(0) =~= Seq::<ChatSession>::empty());
            assert(derefs(out@) =~= Seq::<ChatSession>::empty());
        }
        while i < n
            invariant
                0 <= i <= n,
                n == self.sessions@.len(),
                out@.len() == i,
                forall|p: int, q: int|
                    0 <= p <= q < out@.len() ==> (#[trigger] out@[p]).updated_at >= (
                    #[trigger] out@[q]).updated_at,
                derefs(out@).to_multiset() == self.sessions@.take(i as int).to_multiset(),
            decreases n - i,
        {
            let s: &ChatSession = &self.sessions[i];
            let mut pos: usize = 0;
            while pos < out.len() && out[pos].updated_at >= s.updated_at
                invariant
                    0 <= pos <= out@.len(),
                    forall|k: int| 0 <= k < pos ==> (#[trigger] out@[k]).updated_at >= s.updated_at,
                decreases out@.len() - pos,
            {
                pos += 1;
            }
            proof {
                lemma_derefs_insert(out@, pos as int, s);
                vstd::seq_lib::to_multiset_insert(derefs(out@), pos as int, *s);
                assert(self.sessions@.take(i as int + 1) =~= self.sessions@.take(i as int).push(
                    self.sessions@[i as int],
                ));
                vstd::seq_lib::to_multiset_build(self.sessions@.take(i as int), self.sessions@[i as int]);
            }
            out.insert(pos, s);
            i += 1;
        }
        proof {
            assert(self.sessions@.take(n as int) =~= self.sessions@);
        }
        out
    }

    /// Removes the session with the given id, reporting whether it was
    /// present; when it was the active session, no session is active
    /// afterwards.
    pub fn delete_session(&mut self, id: &str) -> (r: bool)
        requires
            old(self).wf(),
        ensures
            final(self).wf(),
            r <==> old(self).has_session(id@),
            r ==> final(self).sessions_seq() == old(self).sessions_seq().remove(
                old(self).session_index(id@),
            ),
            !r ==> final(self).sessions_seq() == old(self).sessions_seq(),
            (old(self).active_id() is Some && old(self).active_id().unwrap()@ == id@)
                ==> final(self).active_id() is None,
            !(old(self).active_id() is Some && old(self).active_id().unwrap()@ == id@)
                ==> final(self).active_id() == old(self).active_id(),
    {
        let active_matches: bool = match &self.active_session_id {
            Some(active) => str_eq(active.as_str(), id),
            None => false,
        };
        if active_matches {
            self.active_session_id = None;
        }
        match self.find_index(id) {
            Some(k) => {
                proof {
                    let ghost kk = k as int;
                    if self.active_session_id is Some {
                        let aid = self.active_session_id.unwrap()@;
                        assert(aid != id@);
                        let ai = old(self).session_index(aid);
                        assert(0 <= ai < old(self).sessions_seq().len() && old(
                            self,
                        ).sessions_seq()[ai].id@ == aid);
                        assert(ai != kk);
                    }
                }
                self.sessions.remove(k);
                proof {
                    let ghost kk = k as int;
                    let ghost olds = old(self).sessions@;
                    assert(forall|i: int|
                        0 <= i < kk ==> self.sessions@[i] == olds[i]);
                    assert(forall|i: int|
                        kk <= i < self.sessions@.len() ==> self.sessions@[i] == olds[i + 1]);
                    assert(unique_ids(self.sessions@));
                    if self.active_session_id is Some {
                        let aid = self.active_session_id.unwrap()@;
                        let ai = old(self).session_index(aid);
                        if ai < kk {
                            assert(self.sessions@[ai].id@ == aid);
                        } else {
                            assert(self.sessions@[ai - 1].id@ == aid);
                        }
                        assert(self.has_session(aid));
                    }
                }
                true
            },
            None => false,
        }
    }
}

/// Writing a session back into its own place keeps the registry
/// well-formed, as long as the session's id was not changed. Callers of
/// [`SessionManager::get_session_mut`] use this to restore the invariant
/// after mutating through the returned reference.
pub proof fn lemma_update_in_place_preserves_wf(
    pre: SessionManager,
    post: SessionManager,
    id: Seq<char>,
    s: ChatSession,
)
    requires
        pre.wf(),
        pre.has_session(id),
        s.id@ == id,
        post.sessions_seq() == pre.sessions_seq().update(pre.session_index(id), s),
        post.active_id() == pre.active_id(),
    ensures
        post.wf(),
{
    let k = pre.session_index(id);
    assert(0 <= k < pre.sessions_seq().len() && pre.sessions_seq()[k].id@ == id);
    assert(forall|i: int|
        0 <= i < post.sessions_seq().len() && i != k ==> post.sessions_seq()[i] == pre.sessions_seq()[i]);
    assert(unique_ids(post.sessions_seq()));
    if post.active_id() is Some {
        let aid = post.active_id().unwrap()@;
        let ai = pre.session_index(aid);
        assert(0 <= ai < pre.sessions_seq().len() && pre.sessions_seq()[ai].id@ == aid);
        if ai == k {
            assert(post.sessions_seq()[k].id@ == id);
            assert(aid == id);
        } else {
            assert(post.sessions_seq()[ai].id@ == aid);
        }
        assert(post.has_session(aid));
    }
}

/// The sessions a sequence of references points at.
pub open spec fn derefs(s: Seq<&ChatSession>) -> Seq<ChatSession> {
    s.map_values(|x: &ChatSession| *x)
}

/// Mapping references to their sessions commutes with inserting one.
proof fn lemma_derefs_insert(s: Seq<&ChatSession>, i: int, x: &ChatSession)
    requires
        0 <= i <= s.len(),
    ensures
        derefs(s.insert(i, x)) == derefs(s).insert(i, *x),
{
    assert(derefs(s.insert(i, x)) =~= derefs(s).insert(i, *x));
}

impl Default for SessionManager {
    /// The same empty registry as [`SessionManager::new`].
    fn default() -> (r: SessionManager)
        ensures
            r.wf(),
            r.sessions_seq() == Seq::<ChatSession>::empty(),
            r.active_id() is None,
    {
        SessionManager::new()
    }
}

} // verus!
