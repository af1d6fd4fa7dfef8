//! The correlation ledger: the ids of the requests that still wait for their
//! answer. An id enters when the request is logged and leaves with the first
//! answer that is accepted for it.
use vstd::prelude::*;
use crate::text::views;

verus! {

/// Why an answer is turned away.
#[derive(Debug, Clone, Copy, PartialEq, Eq, Structural)]
pub enum RejectReason {
    /// No request with this id is waiting: it was never made, or it has been
    /// answered already.
    UnknownId,
    /// The sender is not the pipeline that the ledger program trusts.
    NotAuthorized,
    /// The ledger program has no verifier to check proofs with.
    VerifierNotSet,
}

/// What becomes of an answer that is handed to the ledger.
#[derive(Debug, Clone, Copy, PartialEq, Eq, Structural)]
pub enum SubmitOutcome {
    Accepted,
    Rejected(RejectReason),
}

/// The ids that wait for an answer. No id is held twice.
#[derive(Debug)]
pub struct CorrelationLedger {
    pending: Vec<String>,
}

/// What `submit` does to the set of waiting ids and what it answers.
pub open spec fn submit_spec(waiting: Set<Seq<char>>, id: Seq<char>) -> (Set<Seq<char>>, SubmitOutcome) {
    if waiting.contains(id) {
        (waiting.remove(id), SubmitOutcome::Accepted)
    } else {
        (waiting, SubmitOutcome::Rejected(RejectReason::UnknownId))
    }
}

impl CorrelationLedger {
    #[verifier::type_invariant]
    spec fn distinct(self) -> bool {
        forall|i: int, j: int|
            0 <= i < j < self.pending@.len() ==> self.pending@[i]@ != self.pending@[j]@
    }

    /// The set of ids that wait for an answer.
    pub closed spec fn view(&self) -> Set<Seq<char>> {
        Set::new(|s: Seq<char>| views(self.pending@).contains(s))
    }

    /// A ledger without waiting ids.
    pub fn new() -> (r: CorrelationLedger)
        ensures
            r@ == Set::<Seq<char>>::empty(),
    {
        let r = CorrelationLedger { pending: Vec::new() };
        assert(r@ =~= Set::<Seq<char>>::empty());
        r
    }

    fn position(&self, id: &String) -> (r: Option<usize>)
        ensures
            match r {
                Some(i) => i < self.pending@.len() && self.pending@[i as int]@ == id@,
                None => !self@.contains(id@),
            },
    {
        let mut i: usize = 0;
        while i < self.pending.len()
            invariant
                i <= self.pending@.len(),
                forall|k: int| 0 <= k < i ==> self.pending@[k]@ != id@,
            decreases self.pending.len() - i,
        {
            if self.pending[i] == *id {
                return Some(i);
            }
            i = i + 1;
        }
        assert(!views(self.pending@).contains(id@)) by {
            if views(self.pending@).contains(id@) {
                let k = choose|k: int| 0 <= k < views(self.pending@).len() && views(self.pending@)[k] == id@;
                assert(self.pending@[k]@ == id@);
            }
        }
        None
    }

    /// Whether a request with this id waits for its answer.
    pub fn is_pending(&self, id: &String) -> (r: bool)
        ensures
            r == self@.contains(id@),
    {
        match self.position(id) {
            Some(i) => {
                assert(views(self.pending@)[i as int] == id@);
                true
            },
            None => false,
        }
    }

    /// Notes that a request with this id now waits for its answer.
    pub fn register(&mut self, id: String)
        ensures
            final(self)@ == old(self)@.insert(id@),
    {
        proof {
            use_type_invariant(&*self);
        }
        match self.position(&id) {
            Some(i) => {
                assert(views(self.pending@)[i as int] == id@);
                assert(self@ =~= self@.insert(id@));
            },
            None => {
                let ghost before = self.pending@;
                let mut taken = CorrelationLedger::new();
                core::mem::swap(self, &mut taken);
                let mut pending = taken.pending;
                pending.push(id);
                assert forall|i: int, j: int| 0 <= i < j < pending@.len() implies pending@[i]@
                    != pending@[j]@ by {
                    if j == before.len() {
                        assert(views(before)[i] == before[i]@);
                    }
                }
                *self = CorrelationLedger { pending };
                assert forall|s: Seq<char>| self@.contains(s) <==> old(self)@.insert(id@).contains(
                    s,
                ) by {
                    if views(self.pending@).contains(s) {
                        let k = choose|k: int|
                            0 <= k < views(self.pending@).len() && views(self.pending@)[k] == s;
                        if k < before.len() {
                            assert(views(before)[k] == s);
                        }
                    }
                    if views(before).contains(s) {
                        let k = choose|k: int| 0 <= k < views(before).len() && views(before)[k] == s;
                        assert(views(self.pending@)[k] == s);
                    }
                    if s == id@ {
                        assert(views(self.pending@)[before.len() as int] == s);
                    }
                }
                assert(self@ =~= old(self)@.insert(id@));
            },
        }
    }

    /// Takes the answer for `id`: accepted, and the id retired, where the id
    /// waits; rejected as unknown, and nothing changed, where it does not.
    pub fn submit(&mut self, id: &String) -> (r: SubmitOutcome)
        ensures
            (final(self)@, r) == submit_spec(old(self)@, id@),
    {
        proof {
            use_type_invariant(&*self);
        }
        match self.position(id) {
            Some(i) => {
                let ghost before = self.pending@;
                assert(views(before)[i as int] == id@);
                let mut taken = CorrelationLedger::new();
                core::mem::swap(self, &mut taken);
                let mut pending = taken.pending;
                pending.remove(i);
                assert(pending@ =~= before.remove(i as int));
                *self = CorrelationLedger { pending };
                assert forall|s: Seq<char>| self@.contains(s) <==> old(self)@.remove(id@).contains(
                    s,
                ) by {
                    if views(self.pending@).contains(s) {
                        let k = choose|k: int|
                            0 <= k < views(self.pending@).len() && views(self.pending@)[k] == s;
                        if k < i {
                            assert(views(before)[k] == s);
                        } else {
                            assert(views(before)[k + 1] == s);
                        }
                    }
                    if views(before).contains(s) && s != id@ {
                        let k = choose|k: int| 0 <= k < views(before).len() && views(before)[k] == s;
                        if k < i {
                            assert(views(self.pending@)[k] == s);
                        } else {
                            assert(views(self.pending@)[k - 1] == s);
                        }
                    }
                }
                assert(self@ =~= old(self)@.remove(id@));
                SubmitOutcome::Accepted
            },
            None => SubmitOutcome::Rejected(RejectReason::UnknownId),
        }
    }

    /// The waiting ids, each once.
    pub fn ids(&self) -> (r: Vec<String>)
        ensures
            forall|s: Seq<char>| views(r@).contains(s) <==> self@.contains(s),
            views(r@).no_duplicates(),
    {
        proof {
            use_type_invariant(self);
        }
        let mut out: Vec<String> = Vec::new();
        let mut i: usize = 0;
        while i < self.pending.len()
            invariant
                i <= self.pending@.len(),
                out@.len() == i,
                forall|k: int| 0 <= k < i ==> out@[k]@ == self.pending@[k]@,
            decreases self.pending.len() - i,
        {
            out.push(self.pending[i].clone());
            i = i + 1;
        }
        assert(views(out@) =~= views(self.pending@));
        out
    }
}

/// An answer for an id that does not wait is rejected as unknown and leaves
/// the ledger as it was.
pub proof fn law_unknown_id_rejected(waiting: Set<Seq<char>>, id: Seq<char>)
    requires
        !waiting.contains(id),
    ensures
        submit_spec(waiting, id) == (waiting, SubmitOutcome::Rejected(RejectReason::UnknownId)),
{
}

/// Once an answer for an id has been accepted, a second answer for the same
/// id is rejected: every id is accepted at most once.
pub proof fn law_second_submit_rejected(waiting: Set<Seq<char>>, id: Seq<char>)
    requires
        submit_spec(waiting, id).1 == SubmitOutcome::Accepted,
    ensures
        submit_spec(submit_spec(waiting, id).0, id).1 == SubmitOutcome::Rejected(
            RejectReason::UnknownId,
        ),
        submit_spec(submit_spec(waiting, id).0, id).0 == submit_spec(waiting, id).0,
{
}

/// Accepting the answer for one id leaves every other id as it was.
pub proof fn law_submit_keeps_others(waiting: Set<Seq<char>>, id: Seq<char>, other: Seq<char>)
    requires
        other != id,
    ensures
        submit_spec(waiting, id).0.contains(other) == waiting.contains(other),
{
}

} // verus!
