//! The correlation registry: the ids of the calls that await a response.

use crate::message::{RpcError, Value};
use vstd::prelude::*;

verus! {

/// How an outstanding call ends.
#[derive(Debug, PartialEq)]
pub enum Outcome {
    /// The response carried a result.
    Success(Value),
    /// The response carried an error.
    Failure(RpcError),
    /// The response carried neither a result nor an error.
    Malformed,
    /// The session ended before a response arrived.
    Disconnected,
}

/// The single fulfilment of one outstanding call: the caller that waits on
/// `id` is handed `outcome`.
#[derive(Debug, PartialEq)]
pub struct Completion {
    pub id: u64,
    pub outcome: Outcome,
}

/// Why a call cannot be registered.
#[derive(Clone, Copy, Debug, PartialEq, Eq, Structural)]
pub enum RegistryError {
    /// A call with this id is still outstanding.
    DuplicateId,
}

/// The outstanding calls, oldest first.
pub struct Registry {
    ids: Vec<u64>,
}

impl View for Registry {
    type V = Seq<u64>;

    /// The ids of the outstanding calls in the order of their registration.
    closed spec fn view(&self) -> Seq<u64> {
        self.ids@
    }
}

/// Taking one element out of a sequence without repeats leaves a sequence
/// without repeats that lacks exactly that element.
pub proof fn lemma_remove_unique(s: Seq<u64>, i: int)
    requires
        s.no_duplicates(),
        0 <= i < s.len(),
    ensures
        s.remove(i).no_duplicates(),
        !s.remove(i).contains(s[i]),
        forall|x: u64| x != s[i] ==> s.remove(i).contains(x) == s.contains(x),
{
    let r = s.remove(i);
    assert forall|a: int, b: int| 0 <= a < r.len() && 0 <= b < r.len() && a != b implies r[a]
        != r[b] by {
        let a0 = if a < i { a } else { a + 1 };
        let b0 = if b < i { b } else { b + 1 };
        assert(r[a] == s[a0] && r[b] == s[b0]);
    }
    assert forall|k: int| 0 <= k < r.len() implies r[k] != s[i] by {
        let k0 = if k < i { k } else { k + 1 };
        assert(r[k] == s[k0]);
    }
    assert forall|x: u64| x != s[i] implies r.contains(x) == s.contains(x) by {
        if s.contains(x) {
            let j = choose|j: int| 0 <= j < s.len() && s[j] == x;
            let k = if j < i { j } else { j - 1 };
            assert(r[k] == x);
        }
        if r.contains(x) {
            let k = choose|k: int| 0 <= k < r.len() && r[k] == x;
            let j = if k < i { k } else { k + 1 };
            assert(s[j] == x);
        }
    }
}

impl Registry {
    /// No id is outstanding twice.
    pub open spec fn wf(&self) -> bool {
        self@.no_duplicates()
    }

    /// Whether a call with this id is outstanding.
    pub open spec fn is_pending(&self, id: u64) -> bool {
        self@.contains(id)
    }

    /// A registry without outstanding calls.
    pub fn new() -> (r: Registry)
        ensures
            r.wf(),
            r@ == Seq::<u64>::empty(),
    {
        Registry { ids: Vec::new() }
    }

    /// The number of outstanding calls.
    pub fn len(&self) -> (n: usize)
        ensures
            n == self@.len(),
    {
        self.ids.len()
    }

    fn position(&self, id: u64) -> (r: Option<usize>)
        ensures
            match r {
                Some(i) => i < self@.len() && self@[i as int] == id,
                None => !self@.contains(id),
            },
    {
        let mut i: usize = 0;
        while i < self.ids.len()
            invariant
                i <= self.ids@.len(),
                forall|k: int| 0 <= k < i ==> self.ids@[k] != id,
            decreases self.ids@.len() - i,
        {
            if self.ids[i] == id {
                return Some(i);
            }
            i += 1;
        }
        None
    }

    /// Whether a call with this id is outstanding.
    pub fn contains(&self, id: u64) -> (r: bool)
        ensures
            r == self.is_pending(id),
    {
        self.position(id).is_some()
    }

    /// Records the call `id` as outstanding. An id that is outstanding
    /// already is refused, and the registry stays as it was. No other call
    /// is touched.
    pub fn register(&mut self, id: u64) -> (r: Result<(), RegistryError>)
        requires
            old(self).wf(),
        ensures
            final(self).wf(),
            old(self).is_pending(id) ==> r == Err::<(), RegistryError>(RegistryError::DuplicateId)
                && final(self)@ == old(self)@,
            !old(self).is_pending(id) ==> r == Ok::<(), RegistryError>(()) && final(self)@ == old(
                self,
            )@.push(id),
            final(self).is_pending(id),
            forall|other: u64|
                other != id ==> final(self).is_pending(other) == old(self).is_pending(other),
    {
        if self.contains(id) {
            Err(RegistryError::DuplicateId)
        } else {
            self.ids.push(id);
            proof {
                let before = old(self)@;
                let after = self@;
                assert(after[before.len() as int] == id);
                assert forall|other: u64| other != id implies after.contains(other)
                    == before.contains(other) by {
                    if before.contains(other) {
                        let k = choose|k: int| 0 <= k < before.len() && before[k] == other;
                        assert(after[k] == other);
                    }
                    if after.contains(other) {
                        let k = choose|k: int| 0 <= k < after.len() && after[k] == other;
                        assert(before[k] == other);
                    }
                }
            }
            Ok(())
        }
    }

    /// Ends the call `id` with `outcome`. Where that call is outstanding it
    /// leaves the registry and its completion is returned; where it is not,
    /// nothing changes and nothing is returned. No other call is touched.
    pub fn resolve(&mut self, id: u64, outcome: Outcome) -> (r: Option<Completion>)
        requires
            old(self).wf(),
        ensures
            final(self).wf(),
            !old(self).is_pending(id) ==> r.is_none() && final(self)@ == old(self)@,
            old(self).is_pending(id) ==> r == Some((Completion { id, outcome })) && final(self)@
                == old(self)@.remove(old(self)@.index_of(id)),
            !final(self).is_pending(id),
            forall|other: u64|
                other != id ==> final(self).is_pending(other) == old(self).is_pending(other),
    {
        match self.position(id) {
            Some(i) => {
                proof {
                    lemma_remove_unique(self@, i as int);
                    let j = self@.index_of(id);
                    assert(0 <= j < self@.len() && self@[j] == id);
                }
                self.ids.remove(i);
                Some(Completion { id, outcome })
            },
            None => None,
        }
    }

    /// Ends every outstanding call with `Outcome::Disconnected` and empties
    /// the registry. The completions come in the order of registration.
    pub fn abandon_all(&mut self) -> (r: Vec<Completion>)
        ensures
            final(self).wf(),
            final(self)@ == Seq::<u64>::empty(),
            r@.len() == old(self)@.len(),
            forall|i: int|
                0 <= i < r@.len() ==> #[trigger] r@[i] == (Completion {
                    id: old(self)@[i],
                    outcome: Outcome::Disconnected,
                }),
    {
        let mut done: Vec<Completion> = Vec::new();
        let mut i: usize = 0;
        while i < self.ids.len()
            invariant
                i <= self.ids@.len(),
                self.ids@ == old(self).ids@,
                done@.len() == i,
                forall|k: int|
                    0 <= k < i ==> #[trigger] done@[k] == (Completion {
                        id: self.ids@[k],
                        outcome: Outcome::Disconnected,
                    }),
            decreases self.ids@.len() - i,
        {
            done.push(Completion { id: self.ids[i], outcome: Outcome::Disconnected });
            i += 1;
        }
        self.ids.clear();
        done
    }
}

} // verus!
