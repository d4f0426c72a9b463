//! One execution per proposal: the set of proposals that are being executed, which
//! every path takes from before it dispatches.

use vstd::prelude::*;
use crate::state::{contains_text, distinct, texts, NodeState};
use crate::text::same_text;

verus! {

/// The proposals that are being executed now. The sweep of the queue and the
/// watcher of its directory both ask here before they dispatch a proposal, so that
/// of two paths that see the same file only one executes it.
#[derive(Debug)]
pub struct Dispatcher {
    /// The identifiers of the proposals in execution: no identifier twice.
    pub in_flight: Vec<String>,
}

/// A proposal may be dispatched: it was not executed, and it is not in execution.
pub open spec fn admits(held: Seq<Seq<char>>, executed: Seq<Seq<char>>, id: Seq<char>) -> bool {
    !executed.contains(id) && !held.contains(id)
}

impl Dispatcher {
    /// The identifiers of the proposals in execution.
    pub open spec fn held(&self) -> Seq<Seq<char>> {
        texts(self.in_flight@)
    }

    /// No identifier is held twice.
    pub open spec fn wf(&self) -> bool {
        distinct(self.held())
    }

    /// A dispatcher that holds nothing.
    pub fn new() -> (d: Dispatcher)
        ensures
            d.wf(),
            d.held() == Seq::<Seq<char>>::empty(),
    {
        let d = Dispatcher { in_flight: Vec::new() };
        assert(d.held() =~= Seq::<Seq<char>>::empty());
        d
    }

    /// Asks for leave to execute `proposal_id`. Leave is given where the proposal
    /// was not executed and is not in execution; the proposal is then held until
    /// `release`.
    pub fn acquire(&mut self, state: &NodeState, proposal_id: &str) -> (granted: bool)
        requires
            old(self).wf(),
        ensures
            final(self).wf(),
            granted == admits(old(self).held(), state.executed(), proposal_id@),
            granted ==> final(self).held() == old(self).held().push(proposal_id@),
            !granted ==> final(self).held() == old(self).held(),
    {
        if contains_text(&state.executed_proposals, proposal_id) {
            return false;
        }
        if contains_text(&self.in_flight, proposal_id) {
            return false;
        }
        self.in_flight.push(proposal_id.to_owned());
        assert(self.held() =~= old(self).held().push(proposal_id@));
        true
    }

    /// Gives `proposal_id` back when its execution has come to an end. Every
    /// other proposal stays held.
    pub fn release(&mut self, proposal_id: &str)
        requires
            old(self).wf(),
        ensures
            final(self).wf(),
            !final(self).held().contains(proposal_id@),
            forall|other: Seq<char>|
                other != proposal_id@ ==> final(self).held().contains(other)
                    == old(self).held().contains(other),
            !old(self).held().contains(proposal_id@) ==> final(self).held() == old(self).held(),
            old(self).held().contains(proposal_id@) ==> exists|i: int|
                0 <= i < old(self).held().len() && old(self).held()[i] == proposal_id@
                    && final(self).held() == old(self).held().remove(i),
    {
        let mut i: usize = 0;
        while i < self.in_flight.len()
            invariant
                i <= self.in_flight.len(),
                self.held() == old(self).held(),
                distinct(self.held()),
                forall|k: int| 0 <= k < i ==> self.held()[k] != proposal_id@,
            decreases self.in_flight.len() - i,
        {
            if same_text(self.in_flight[i].as_str(), proposal_id) {
                let ghost before = self.held();
                assert(before[i as int] == proposal_id@);
                assert(old(self).held().contains(proposal_id@));
                self.in_flight.remove(i);
                proof {
                    let after = self.held();
                    assert(after =~= before.remove(i as int));
                    assert forall|other: Seq<char>| other != proposal_id@ implies after.contains(
                        other,
                    ) == before.contains(other) by {
                        if before.contains(other) {
                            let k = choose|k: int| 0 <= k < before.len() && before[k] == other;
                            if k < i {
                                assert(after[k] == other);
                            } else {
                                assert(after[k - 1] == other);
                            }
                        }
                        if after.contains(other) {
                            let k = choose|k: int| 0 <= k < after.len() && after[k] == other;
                            if k < i {
                                assert(before[k] == other);
                            } else {
                                assert(before[k + 1] == other);
                            }
                        }
                    }
                    assert forall|a: int, b: int| 0 <= a < b < after.len() implies after[a]
                        != after[b] by {
                        let a0 = if a < i { a } else { a + 1 };
                        let b0 = if b < i { b } else { b + 1 };
                        assert(before[a0] != before[b0]);
                    }
                    if after.contains(proposal_id@) {
                        let k = choose|k: int| 0 <= k < after.len() && after[k] == proposal_id@;
                        if k < i {
                            assert(before[k] == proposal_id@);
                        } else {
                            assert(before[i as int] == proposal_id@);
                            assert(before[k + 1] == before[i as int]);
                        }
                    }
                }
                return ;
            }
            i = i + 1;
        }
    }
}

/// A proposal that was executed is never dispatched again, whatever is held.
pub proof fn lemma_executed_is_not_dispatched(
    held: Seq<Seq<char>>,
    executed: Seq<Seq<char>>,
    id: Seq<char>,
)
    requires
        executed.contains(id),
    ensures
        !admits(held, executed, id),
{
}

/// Of two paths that ask for the same proposal, only the first gets leave: once
/// a proposal is held, no state of the executed set admits it again, however many
/// other proposals were taken in between.
pub proof fn lemma_single_dispatch(
    held: Seq<Seq<char>>,
    executed: Seq<Seq<char>>,
    id: Seq<char>,
    taken_since: Seq<Seq<char>>,
    executed_later: Seq<Seq<char>>,
)
    requires
        admits(held, executed, id),
    ensures
        !admits(held.push(id) + taken_since, executed_later, id),
{
    let now_held = held.push(id) + taken_since;
    assert(now_held[held.len() as int] == id);
}

} // verus!
