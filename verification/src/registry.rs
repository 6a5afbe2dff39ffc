//! The registry of live sessions: which identifier stands for which session.
//!
//! The registry is a plain value. Whoever shares it between workers keeps
//! it behind one lock and holds that lock only for one call.

use crate::text::str_eq;
use vstd::prelude::*;

verus! {

/// The handles of one live shell: the master side of its pseudo-terminal,
/// the writer into it, and the child process.
pub struct TerminalSession<M, W, C> {
    pub master: M,
    pub writer: W,
    pub child: C,
}

/// One registered session.
struct Entry<S> {
    id: String,
    session: S,
}

/// The sessions that are live, each under its identifier.
pub struct TerminalState<S> {
    entries: Vec<Entry<S>>,
}

impl<S> View for TerminalState<S> {
    type V = Map<Seq<char>, S>;

    /// The registered sessions by identifier.
    closed spec fn view(&self) -> Map<Seq<char>, S> {
        Map::new(
            |id: Seq<char>| self.order().contains(id),
            |id: Seq<char>| self.entries[self.order().index_of(id)].session,
        )
    }
}

impl<S> TerminalState<S> {
    /// No identifier is registered twice.
    #[verifier::type_invariant]
    spec fn ids_are_distinct(self) -> bool {
        self.order().no_duplicates()
    }

    /// The registered identifiers, in the order in which they were registered.
    pub closed spec fn order(&self) -> Seq<Seq<char>> {
        Seq::new(self.entries.len() as nat, |i: int| self.entries[i].id@)
    }

    /// The registry lists each registered identifier once, and no other.
    pub open spec fn consistent(&self) -> bool {
        &&& self.order().no_duplicates()
        &&& forall|id: Seq<char>| self@.contains_key(id) <==> self.order().contains(id)
        &&& self@.dom().finite()
        &&& self@.len() == self.order().len()
    }

    /// An empty registry.
    pub fn new() -> (state: Self)
        ensures
            state@ == Map::<Seq<char>, S>::empty(),
            state.order() == Seq::<Seq<char>>::empty(),
    {
        let state = TerminalState { entries: Vec::new() };
        assert(state.order() =~= Seq::<Seq<char>>::empty());
        assert(state@ =~= Map::<Seq<char>, S>::empty());
        state
    }

    /// The number of registered sessions.
    pub fn len(&self) -> (n: usize)
        ensures
            n == self@.len(),
            self.consistent(),
    {
        proof {
            use_type_invariant(self);
            self.lemma_view_of_entries();
        }
        self.entries.len()
    }

    /// True when no session is registered.
    pub fn is_empty(&self) -> (empty: bool)
        ensures
            empty == (self@.len() == 0),
            self.consistent(),
    {
        self.len() == 0
    }

    /// The place of `id` among the entries, if it is registered.
    fn position(&self, id: &str) -> (at: Option<usize>)
        ensures
            self.consistent(),
            at is Some <==> self@.contains_key(id@),
            at matches Some(i) ==> i < self.entries.len() && self.entries[i as int].id@ == id@
                && self.order().index_of(id@) == i,
    {
        proof {
            use_type_invariant(self);
            self.lemma_view_of_entries();
        }
        let mut i: usize = 0;
        while i < self.entries.len()
            invariant
                i <= self.entries.len(),
                forall|j: int| 0 <= j < i ==> self.order()[j] != id@,
                self.consistent(),
            decreases self.entries.len() - i,
        {
            if str_eq(self.entries[i].id.as_str(), id) {
                assert(self.order()[i as int] == id@);
                return Some(i);
            }
            i += 1;
        }
        None
    }

    /// Each entry is found in the view under its identifier.
    proof fn lemma_view_of_entries(&self)
        requires
            self.order().no_duplicates(),
        ensures
            self.consistent(),
            self.order().len() == self.entries.len(),
            forall|i: int|
                0 <= i < self.entries.len() ==> #[trigger] self.order()[i] == self.entries[i].id@
                    && self@.contains_key(self.order()[i]) && self@[self.order()[i]]
                    == self.entries[i].session,
    {
        assert forall|i: int| 0 <= i < self.entries.len() implies #[trigger] self.order()[i]
            == self.entries[i].id@ && self@.contains_key(self.order()[i]) && self@[self.order()[i]]
            == self.entries[i].session by {
            let id = self.order()[i];
            assert(self.order().contains(id));
            let k = self.order().index_of(id);
            assert(k == i);
        }
        assert(self@.dom() =~= self.order().to_set());
        self.order().unique_seq_to_set();
        vstd::seq_lib::seq_to_set_is_finite(self.order());
    }

    /// True when a session is registered under `id`.
    pub fn contains(&self, id: &str) -> (found: bool)
        ensures
            found == self@.contains_key(id@),
    {
        self.position(id).is_some()
    }

    /// The session registered under `id`.
    pub fn get(&self, id: &str) -> (session: Option<&S>)
        ensures
            session is Some <==> self@.contains_key(id@),
            session matches Some(s) ==> *s == self@[id@],
    {
        match self.position(id) {
            Some(i) => Some(&self.entries[i].session),
            None => None,
        }
    }

    /// Moves the entries out, leaving the registry empty.
    fn take_entries(&mut self) -> (entries: Vec<Entry<S>>)
        ensures
            entries == old(self).entries,
            final(self).entries@ == Seq::<Entry<S>>::empty(),
    {
        let mut entries: Vec<Entry<S>> = Vec::new();
        assert(Seq::new(0, |i: int| entries[i].id@).no_duplicates());
        std::mem::swap(&mut self.entries, &mut entries);
        entries
    }

    /// Registers `session` under `id`. A session that was registered under
    /// `id` before leaves the registry and is returned.
    pub fn insert(&mut self, id: String, session: S) -> (replaced: Option<S>)
        ensures
            final(self)@ == old(self)@.insert(id@, session),
            replaced == if old(self)@.contains_key(id@) {
                Some(old(self)@[id@])
            } else {
                None
            },
            final(self).order() == if old(self)@.contains_key(id@) {
                old(self).order()
            } else {
                old(self).order().push(id@)
            },
            final(self).consistent(),
    {
        proof {
            use_type_invariant(&*self);
            old(self).lemma_view_of_entries();
        }
        let at = self.position(id.as_str());
        let mut entries = self.take_entries();
        let replaced = match at {
            Some(i) => {
                let previous = entries.remove(i);
                entries.insert(i, Entry { id: previous.id, session });
                Some(previous.session)
            },
            None => {
                entries.push(Entry { id, session });
                None
            },
        };
        let ghost order = Seq::new(entries.len() as nat, |i: int| entries[i].id@);
        proof {
            if at is Some {
                assert(order =~= old(self).order());
            } else {
                assert(order =~= old(self).order().push(id@));
            }
            assert(order.no_duplicates());
        }
        self.entries = entries;
        proof {
            assert(self.order() =~= order);
            self.lemma_view_of_entries();
            assert(self@ =~= old(self)@.insert(id@, session)) by {
                assert forall|key: Seq<char>| #[trigger]
                    self@.contains_key(key) <==> old(self)@.insert(id@, session).contains_key(
                        key,
                    ) by {
                    if self.order().contains(key) {
                        let k = self.order().index_of(key);
                        if key != id@ {
                            assert(old(self).order()[k] == key);
                        }
                    }
                    if old(self).order().contains(key) {
                        let k = old(self).order().index_of(key);
                        assert(self.order()[k] == key);
                    }
                    if key == id@ {
                        if at is None {
                            assert(self.order()[self.order().len() - 1] == key);
                        }
                    }
                }
                assert forall|key: Seq<char>| #[trigger] self@.contains_key(key) implies self@[key]
                    == old(self)@.insert(id@, session)[key] by {
                    let k = self.order().index_of(key);
                    assert(self.order()[k] == key);
                    if key != id@ {
                        assert(old(self).order()[k] == key);
                    }
                }
            }
        }
        replaced
    }

    /// Takes the session registered under `id` out of the registry, if there
    /// is one. The other sessions stay as they are.
    pub fn remove(&mut self, id: &str) -> (removed: Option<S>)
        ensures
            final(self)@ == old(self)@.remove(id@),
            removed == if old(self)@.contains_key(id@) {
                Some(old(self)@[id@])
            } else {
                None
            },
            final(self).order() == if old(self)@.contains_key(id@) {
                old(self).order().remove(old(self).order().index_of(id@))
            } else {
                old(self).order()
            },
            final(self).consistent(),
    {
        proof {
            use_type_invariant(&*self);
            old(self).lemma_view_of_entries();
        }
        match self.position(id) {
            None => {
                assert(self@ =~= old(self)@.remove(id@));
                None
            },
            Some(i) => {
                let mut entries = self.take_entries();
                let entry = entries.remove(i);
                let ghost order = Seq::new(entries.len() as nat, |k: int| entries[k].id@);
                proof {
                    assert(order =~= old(self).order().remove(i as int));
                    assert(order.no_duplicates());
                }
                self.entries = entries;
                proof {
                    assert(self.order() =~= order);
                    self.lemma_view_of_entries();
                    assert(self@ =~= old(self)@.remove(id@)) by {
                        assert forall|key: Seq<char>| #[trigger]
                            self@.contains_key(key) <==> old(self)@.remove(id@).contains_key(
                                key,
                            ) by {
                            if self.order().contains(key) {
                                let k = self.order().index_of(key);
                                if k < i {
                                    assert(old(self).order()[k] == key);
                                } else {
                                    assert(old(self).order()[k + 1] == key);
                                }
                            }
                            if old(self).order().contains(key) && key != id@ {
                                let k = old(self).order().index_of(key);
                                if k < i {
                                    assert(self.order()[k] == key);
                                } else {
                                    assert(self.order()[k - 1] == key);
                                }
                            }
                        }
                        assert forall|key: Seq<char>| #[trigger]
                            self@.contains_key(key) implies self@[key] == old(self)@.remove(
                            id@,
                        )[key] by {
                            let k = self.order().index_of(key);
                            assert(self.order()[k] == key);
                            if k < i {
                                assert(old(self).order()[k] == key);
                            } else {
                                assert(old(self).order()[k + 1] == key);
                            }
                        }
                    }
                }
                Some(entry.session)
            },
        }
    }

    /// Takes every session out of the registry, in the order of registration.
    /// Each session that was registered is handed out once.
    pub fn take_all(&mut self) -> (sessions: Vec<S>)
        ensures
            final(self)@ == Map::<Seq<char>, S>::empty(),
            final(self).order() == Seq::<Seq<char>>::empty(),
            old(self).consistent(),
            sessions@.len() == old(self).order().len(),
            forall|i: int|
                0 <= i < sessions@.len() ==> sessions@[i] == old(self)@[#[trigger] old(
                    self,
                ).order()[i]],
    {
        proof {
            use_type_invariant(&*self);
            old(self).lemma_view_of_entries();
        }
        let mut entries = self.take_entries();
        proof {
            assert(self.order() =~= Seq::<Seq<char>>::empty());
            assert(self@ =~= Map::<Seq<char>, S>::empty());
        }
        let ghost all = entries@;
        let mut sessions: Vec<S> = Vec::new();
        while entries.len() > 0
            invariant
                sessions@.len() + entries@.len() == all.len(),
                forall|i: int| 0 <= i < entries@.len() ==> entries@[i] == all[i],
                forall|i: int|
                    0 <= i < sessions@.len() ==> sessions@[i] == all[all.len() - 1 - i].session,
            decreases entries@.len(),
        {
            match entries.pop() {
                Some(entry) => {
                    sessions.push(entry.session);
                },
                None => {},
            }
        }
        let mut ordered: Vec<S> = Vec::new();
        while sessions.len() > 0
            invariant
                sessions@.len() + ordered@.len() == all.len(),
                forall|i: int|
                    0 <= i < sessions@.len() ==> sessions@[i] == all[all.len() - 1 - i].session,
                forall|i: int| 0 <= i < ordered@.len() ==> ordered@[i] == all[i].session,
            decreases sessions@.len(),
        {
            match sessions.pop() {
                Some(session) => {
                    ordered.push(session);
                },
                None => {},
            }
        }
        ordered
    }

    /// The identifiers of the registered sessions, in the order of
    /// registration.
    pub fn session_ids(&self) -> (ids: Vec<String>)
        ensures
            ids@.len() == self.order().len(),
            forall|i: int| 0 <= i < ids@.len() ==> #[trigger] ids@[i]@ == self.order()[i],
            self.consistent(),
    {
        proof {
            use_type_invariant(self);
            self.lemma_view_of_entries();
        }
        let mut ids: Vec<String> = Vec::new();
        let mut i: usize = 0;
        while i < self.entries.len()
            invariant
                i <= self.entries.len(),
                ids@.len() == i,
                forall|k: int| 0 <= k < i ==> #[trigger] ids@[k]@ == self.order()[k],
            decreases self.entries.len() - i,
        {
            ids.push(self.entries[i].id.clone());
            i += 1;
        }
        ids
    }
}

} // verus!
