use vstd::prelude::*;
use std::collections::HashMap;
use crate::encoding::{lossy_text, lossy_utf8};
use crate::error::TerminalError;

verus! {

broadcast use vstd::std_specs::hash::group_hash_axioms;

/// The open sessions, each under the identifier its consumer chose. An
/// identifier in the table always stands for a live session; absence means
/// there is no such session.
pub struct SessionRegistry<S> {
    entries: HashMap<u64, S>,
}

impl<S> View for SessionRegistry<S> {
    type V = Map<u64, S>;

    closed spec fn view(&self) -> Map<u64, S> {
        self.entries@
    }
}

impl<S> SessionRegistry<S> {
    pub fn new() -> (r: Self)
        ensures
            r@ == Map::<u64, S>::empty(),
    {
        SessionRegistry { entries: HashMap::new() }
    }

    pub fn contains(&self, id: u64) -> (r: bool)
        ensures
            r == self@.contains_key(id),
    {
        self.entries.contains_key(&id)
    }

    pub fn len(&self) -> (r: usize)
        ensures
            r == self@.len(),
    {
        self.entries.len()
    }

    /// Succeeds when no session is open under `id`, so that one may be
    /// created; `DuplicateSession` otherwise.
    pub fn ensure_vacant(&self, id: u64) -> (r: Result<(), TerminalError>)
        ensures
            !self@.contains_key(id) <==> r is Ok,
            self@.contains_key(id) ==> r == Err::<(), TerminalError>(
                TerminalError::DuplicateSession(id),
            ),
    {
        if self.entries.contains_key(&id) {
            Err(TerminalError::DuplicateSession(id))
        } else {
            Ok(())
        }
    }

    /// Registers a session. An identifier that is already open is refused
    /// with `DuplicateSession`, and the session registered under it stays.
    pub fn insert(&mut self, id: u64, session: S) -> (r: Result<(), TerminalError>)
        ensures
            old(self)@.contains_key(id) ==> r == Err::<(), TerminalError>(
                TerminalError::DuplicateSession(id),
            ) && final(self)@ == old(self)@,
            !old(self)@.contains_key(id) ==> r is Ok && final(self)@ == old(self)@.insert(
                id,
                session,
            ),
    {
        if self.entries.contains_key(&id) {
            return Err(TerminalError::DuplicateSession(id));
        }
        self.entries.insert(id, session);
        Ok(())
    }

    /// The session under `id`, or `SessionNotFound`.
    pub fn get(&self, id: u64) -> (r: Result<&S, TerminalError>)
        ensures
            self@.contains_key(id) ==> r is Ok && *r->Ok_0 == self@[id],
            !self@.contains_key(id) ==> r == Err::<&S, TerminalError>(
                TerminalError::SessionNotFound(id),
            ),
    {
        match self.entries.get(&id) {
            Some(s) => Ok(s),
            None => Err(TerminalError::SessionNotFound(id)),
        }
    }

    /// Runs `f` on the session under `id` and gives back its result;
    /// `SessionNotFound` when absent, and then `f` is not run. The table keeps
    /// the same identifiers either way.
    pub fn with_mut<R, F: FnOnce(&mut S) -> R>(&mut self, id: u64, f: F) -> (r: Result<
        R,
        TerminalError,
    >)
        requires
            forall|s: &mut S| f.requires((s,)),
        ensures
            final(self)@.dom() == old(self)@.dom(),
            forall|k: u64| k != id && old(self)@.contains_key(k) ==> final(self)@[k] == old(self)@[k],
            old(self)@.contains_key(id) <==> r is Ok,
            !old(self)@.contains_key(id) ==> r == Err::<R, TerminalError>(
                TerminalError::SessionNotFound(id),
            ) && final(self)@ == old(self)@,
    {
        match self.entries.remove(&id) {
            Some(mut s) => {
                let out = f(&mut s);
                self.entries.insert(id, s);
                assert(self.entries@.dom() =~= old(self)@.dom());
                Ok(out)
            },
            None => Err(TerminalError::SessionNotFound(id)),
        }
    }

    /// Takes the session under `id` out of the table and hands it back, so
    /// that dropping it releases its resources; `SessionNotFound` when absent.
    pub fn remove(&mut self, id: u64) -> (r: Result<S, TerminalError>)
        ensures
            old(self)@.contains_key(id) ==> r == Ok::<S, TerminalError>(old(self)@[id])
                && final(self)@ == old(self)@.remove(id),
            !old(self)@.contains_key(id) ==> r == Err::<S, TerminalError>(
                TerminalError::SessionNotFound(id),
            ) && final(self)@ == old(self)@,
    {
        match self.entries.remove(&id) {
            Some(s) => Ok(s),
            None => Err(TerminalError::SessionNotFound(id)),
        }
    }
}

/// A chunk of a session's output, decoded, tagged with the session it came from.
pub struct OutputEvent {
    pub session_id: u64,
    pub text: String,
}

impl OutputEvent {
    /// Decodes a chunk read from a session's terminal as UTF-8, replacing
    /// invalid sequences.
    pub fn from_chunk(session_id: u64, bytes: &[u8]) -> (r: OutputEvent)
        ensures
            r.session_id == session_id,
            r.text@ == lossy_text(bytes@),
    {
        OutputEvent { session_id, text: lossy_utf8(bytes) }
    }
}

/// A fresh table holds no session, so every lookup or removal in it fails.
pub proof fn lemma_fresh_registry_has_no_session<S>(id: u64)
    ensures
        !Map::<u64, S>::empty().contains_key(id),
{
}

/// After a session is registered under a new identifier, removing it succeeds
/// once and hands back that session; afterwards the identifier is absent, so a
/// second removal, a lookup or an update fails.
pub proof fn lemma_remove_succeeds_once<S>(m: Map<u64, S>, id: u64, session: S)
    requires
        !m.contains_key(id),
    ensures
        m.insert(id, session).contains_key(id),
        m.insert(id, session)[id] == session,
        !m.insert(id, session).remove(id).contains_key(id),
        m.insert(id, session).remove(id) == m,
{
    assert(m.insert(id, session).remove(id) =~= m);
}

/// Once an identifier is open, a second registration under it is refused and
/// the first session stays in place, until the identifier is removed.
pub proof fn lemma_open_identifier_is_kept<S>(m: Map<u64, S>, id: u64, first: S)
    ensures
        m.insert(id, first).contains_key(id),
        m.insert(id, first)[id] == first,
{
}

} // verus!
