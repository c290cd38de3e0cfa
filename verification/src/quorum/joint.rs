use crate::quorum::majority::{majority_vote_result, reports, Configuration as MajorityConfig};
use crate::raft::VoteResult;
use std::collections::HashMap;
use vstd::prelude::*;

verus! {

broadcast use vstd::std_specs::hash::group_hash_axioms;

/// Index is a Raft log position.
#[derive(Clone, Copy, Debug, PartialEq, Eq, Structural)]
pub struct Index {
    /// The offset in the log. The largest value stands for "acknowledged by
    /// all".
    pub index: u64,
    /// The group that acknowledged it; zero where there are no groups.
    pub group_id: u64,
}

impl Default for Index {
    fn default() -> (i: Self)
        ensures
            i == (Index { index: 0, group_id: 0 }),
    {
        Index { index: 0, group_id: 0 }
    }
}

/// Says how far each voter has acknowledged the log.
pub trait AckedIndexer {
    /// The position that `voter_id` has acknowledged, as far as one is known.
    spec fn acked(&self, voter_id: u64) -> Option<Index>;

    fn acked_index(&self, voter_id: u64) -> (acked: Option<Index>)
        ensures
            acked == self.acked(voter_id),
    ;
}

pub type AckIndexer = HashMap<u64, Index>;

impl AckedIndexer for AckIndexer {
    open spec fn acked(&self, voter_id: u64) -> Option<Index> {
        if self@.contains_key(voter_id) {
            Some(self@[voter_id])
        } else {
            None
        }
    }

    fn acked_index(&self, voter: u64) -> (acked: Option<Index>) {
        match self.get(&voter) {
            Some(index) => Some(*index),
            None => None,
        }
    }
}

/// The decision of a joint quorum whose incoming half decided `incoming` and
/// whose outgoing half decided `outgoing`: it is won if won in both, lost if
/// lost in either, and pending otherwise.
pub open spec fn joint_outcome(incoming: VoteResult, outgoing: VoteResult) -> VoteResult {
    if incoming == VoteResult::Won && outgoing == VoteResult::Won {
        VoteResult::Won
    } else if incoming == VoteResult::Lost || outgoing == VoteResult::Lost {
        VoteResult::Lost
    } else {
        VoteResult::Pending
    }
}

/// The table of the joint decision: it is won only where both halves are won,
/// lost wherever either half is lost, and pending in every other case.
pub proof fn lemma_joint_outcome_table(incoming: VoteResult, outgoing: VoteResult)
    ensures
        joint_outcome(incoming, outgoing) == VoteResult::Won <==> incoming == VoteResult::Won
            && outgoing == VoteResult::Won,
        joint_outcome(incoming, outgoing) == VoteResult::Lost <==> incoming == VoteResult::Lost
            || outgoing == VoteResult::Lost,
        joint_outcome(incoming, outgoing) == VoteResult::Pending <==> !(incoming
            == VoteResult::Won && outgoing == VoteResult::Won) && incoming != VoteResult::Lost
            && outgoing != VoteResult::Lost,
{
}

/// Combines the decisions of the two halves of a joint quorum.
pub fn combine(incoming: VoteResult, outgoing: VoteResult) -> (r: VoteResult)
    ensures
        r == joint_outcome(incoming, outgoing),
{
    match (incoming, outgoing) {
        // It won if won in both.
        (VoteResult::Won, VoteResult::Won) => VoteResult::Won,
        // It lost if lost in either.
        (VoteResult::Lost, _) | (_, VoteResult::Lost) => VoteResult::Lost,
        // It remains pending if pending in both or just won in one side.
        _ => VoteResult::Pending,
    }
}

/// The decision of the joint quorum of `incoming` and `outgoing` on the
/// ballots that `check` reports.
pub open spec fn joint_vote_result(
    incoming: Set<u64>,
    outgoing: Set<u64>,
    check: spec_fn(u64) -> Option<bool>,
) -> VoteResult {
    joint_outcome(majority_vote_result(incoming, check), majority_vote_result(outgoing, check))
}

/// A configuration of two groups of (possibly overlapping) majority configurations.
/// Decisions require the support of both majorities.
#[derive(Debug, PartialEq, Eq)]
pub struct Configuration {
    pub incoming: MajorityConfig,
    pub outgoing: MajorityConfig,
}

impl Clone for Configuration {
    fn clone(&self) -> (c: Self)
        ensures
            c.incoming@ == self.incoming@,
            c.outgoing@ == self.outgoing@,
    {
        Configuration { incoming: self.incoming.clone(), outgoing: self.outgoing.clone() }
    }
}

impl Default for Configuration {
    fn default() -> (c: Self)
        ensures
            c.incoming@ == Set::<u64>::empty(),
            c.outgoing@ == Set::<u64>::empty(),
    {
        Configuration { incoming: MajorityConfig::default(), outgoing: MajorityConfig::default() }
    }
}

impl Configuration {
    /// The voters of either half.
    pub open spec fn ids(&self) -> Set<u64> {
        self.incoming@.union(self.outgoing@)
    }

    /// Creates a new configuration using the given IDs.
    pub fn with_capacity(voters: usize) -> (c: Configuration)
        ensures
            c.incoming@ == Set::<u64>::empty(),
            c.outgoing@ == Set::<u64>::empty(),
    {
        Configuration {
            incoming: MajorityConfig::with_capacity(voters),
            outgoing: MajorityConfig::default(),
        }
    }

    /// Check if an id is a voter.
    pub fn contains(&self, id: u64) -> (b: bool)
        ensures
            b == self.ids().contains(id),
    {
        self.incoming.voters.contains(&id) || self.outgoing.voters.contains(&id)
    }

    /// Takes a mapping of voters to yes/no (true/false) votes and returns a result
    /// indicating whether the vote is pending, lost, or won. A joint quorum requires
    /// both majority quorums to vote in favor.
    pub fn vote_result<F: Fn(u64) -> Option<bool>>(&self, check: F) -> (r: VoteResult)
        requires
            forall|id: u64| #[trigger] self.ids().contains(id) ==> call_requires(check, (id,)),
        ensures
            exists|first: spec_fn(u64) -> Option<bool>, second: spec_fn(u64) -> Option<bool>|
                #![trigger
                    reports(check, self.incoming@, first),
                    reports(check, self.outgoing@, second),
                ]
                reports(check, self.incoming@, first) && reports(check, self.outgoing@, second)
                    && r == joint_outcome(
                    majority_vote_result(self.incoming@, first),
                    majority_vote_result(self.outgoing@, second),
                ),
    {
        assert forall|id: u64| #[trigger] self.incoming@.contains(id) implies call_requires(
            check,
            (id,),
        ) by {
            assert(self.ids().contains(id));
        }
        assert forall|id: u64| #[trigger] self.outgoing@.contains(id) implies call_requires(
            check,
            (id,),
        ) by {
            assert(self.ids().contains(id));
        }
        let i = self.incoming.vote_result(&check);
        let o = self.outgoing.vote_result(&check);
        proof {
            let first = choose|first: spec_fn(u64) -> Option<bool>| #[trigger]
                reports(&check, self.incoming@, first) && i == majority_vote_result(
                    self.incoming@,
                    first,
                );
            let second = choose|second: spec_fn(u64) -> Option<bool>| #[trigger]
                reports(&check, self.outgoing@, second) && o == majority_vote_result(
                    self.outgoing@,
                    second,
                );
            assert(reports(check, self.incoming@, first));
            assert(reports(check, self.outgoing@, second));
        }
        combine(i, o)
    }
}

} // verus!
