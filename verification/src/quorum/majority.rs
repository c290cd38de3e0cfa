use crate::raft::VoteResult;
use std::collections::HashSet;
use vstd::prelude::*;
use vstd::std_specs::iter::IteratorSpec;

verus! {

broadcast use vstd::std_specs::hash::group_hash_axioms;

/// The smallest number of voters that is more than half of `total`.
pub open spec fn spec_majority(total: nat) -> nat {
    total / 2 + 1
}

/// Get the majority number of given nodes count.
pub fn majority(total: usize) -> (q: usize)
    ensures
        q == total / 2 + 1,
        q == spec_majority(total as nat),
{
    (total / 2) + 1
}

/// The voters whose ballot, as `check` reports it, is `ballot`.
pub open spec fn with_ballot(
    voters: Set<u64>,
    check: spec_fn(u64) -> Option<bool>,
    ballot: Option<bool>,
) -> Set<u64> {
    voters.filter(|id: u64| check(id) == ballot)
}

/// The number of voters whose ballot, as `check` reports it, is `ballot`.
pub open spec fn ballot_count(
    voters: Set<u64>,
    check: spec_fn(u64) -> Option<bool>,
    ballot: Option<bool>,
) -> nat {
    with_ballot(voters, check, ballot).len()
}

/// The number of voters for which `check` reports a granted ballot.
pub open spec fn granted_count(voters: Set<u64>, check: spec_fn(u64) -> Option<bool>) -> nat {
    ballot_count(voters, check, Some(true))
}

/// The number of voters for which `check` reports no ballot yet.
pub open spec fn missing_count(voters: Set<u64>, check: spec_fn(u64) -> Option<bool>) -> nat {
    ballot_count(voters, check, None)
}

/// The decision of a majority quorum of `total` voters, `granted` of which
/// voted in favour while `missing` have not voted.
pub open spec fn outcome(total: nat, granted: nat, missing: nat) -> VoteResult {
    if total == 0 {
        VoteResult::Won
    } else if granted >= spec_majority(total) {
        VoteResult::Won
    } else if granted + missing >= spec_majority(total) {
        VoteResult::Pending
    } else {
        VoteResult::Lost
    }
}

/// The decision of the majority quorum `voters` on the ballots that `check`
/// reports.
pub open spec fn majority_vote_result(
    voters: Set<u64>,
    check: spec_fn(u64) -> Option<bool>,
) -> VoteResult {
    outcome(voters.len(), granted_count(voters, check), missing_count(voters, check))
}

/// `ballots` gives, for each of `voters`, an answer that the executable
/// `check` may return for it.
pub open spec fn reports<F: Fn(u64) -> Option<bool>>(
    check: F,
    voters: Set<u64>,
    ballots: spec_fn(u64) -> Option<bool>,
) -> bool {
    forall|id: u64| #[trigger] voters.contains(id) ==> call_ensures(check, (id,), ballots(id))
}

/// How often `ballot` occurs in `answers`.
pub open spec fn occurrences(answers: Seq<Option<bool>>, ballot: Option<bool>) -> nat
    decreases answers.len(),
{
    if answers.len() == 0 {
        0
    } else {
        occurrences(answers.drop_last(), ballot) + if answers.last() == ballot {
            1nat
        } else {
            0nat
        }
    }
}

/// Counting the answers given for a duplicate-free list of ids is counting
/// the members of the set of those ids that have that answer.
pub proof fn lemma_occurrences_count(
    ids: Seq<u64>,
    answers: Seq<Option<bool>>,
    check: spec_fn(u64) -> Option<bool>,
    ballot: Option<bool>,
)
    requires
        ids.no_duplicates(),
        ids.len() == answers.len(),
        forall|i: int| 0 <= i < ids.len() ==> check(#[trigger] ids[i]) == answers[i],
    ensures
        ballot_count(ids.to_set(), check, ballot) == occurrences(answers, ballot),
        occurrences(answers, ballot) <= answers.len(),
    decreases ids.len(),
{
    if ids.len() == 0 {
        assert(with_ballot(ids.to_set(), check, ballot) =~= Set::<u64>::empty());
    } else {
        let rest = ids.drop_last();
        let last = ids.last();
        lemma_occurrences_count(rest, answers.drop_last(), check, ballot);
        vstd::seq_lib::seq_to_set_is_finite(rest);
        assert(!rest.to_set().contains(last)) by {
            if rest.to_set().contains(last) {
                let j = choose|j: int| 0 <= j < rest.len() && rest[j] == last;
                assert(ids[j] == ids[ids.len() - 1]);
            }
        }
        assert(ids =~= rest.push(last));
        rest.lemma_push_to_set_commute(last);
        let counted = with_ballot(rest.to_set(), check, ballot);
        if check(last) == ballot {
            assert(with_ballot(ids.to_set(), check, ballot) =~= counted.insert(last));
        } else {
            assert(with_ballot(ids.to_set(), check, ballot) =~= counted);
        }
    }
}

/// Two ways of reporting ballots that agree on every voter lead to the same
/// counts and to the same decision.
pub proof fn lemma_vote_result_agrees(
    voters: Set<u64>,
    first: spec_fn(u64) -> Option<bool>,
    second: spec_fn(u64) -> Option<bool>,
)
    requires
        forall|id: u64| #[trigger] voters.contains(id) ==> first(id) == second(id),
    ensures
        granted_count(voters, first) == granted_count(voters, second),
        missing_count(voters, first) == missing_count(voters, second),
        majority_vote_result(voters, first) == majority_vote_result(voters, second),
{
    assert(with_ballot(voters, first, Some(true)) =~= with_ballot(voters, second, Some(true)));
    assert(with_ballot(voters, first, None) =~= with_ballot(voters, second, None));
}

/// A vote among no voters is won, whatever ballots are reported.
pub proof fn lemma_empty_quorum_wins(check: spec_fn(u64) -> Option<bool>)
    ensures
        majority_vote_result(Set::<u64>::empty(), check) == VoteResult::Won,
{
}

/// Among `n >= 1` voters with quorum `q`, the vote is won as soon as `q`
/// ballots are granted, it is pending while the granted and the missing
/// ballots together still reach `q`, and it is lost otherwise.
pub proof fn lemma_majority_decision(voters: Set<u64>, check: spec_fn(u64) -> Option<bool>)
    requires
        voters.finite(),
        voters.len() >= 1,
    ensures
        ({
            let q = voters.len() / 2 + 1;
            let granted = granted_count(voters, check);
            let missing = missing_count(voters, check);
            let result = majority_vote_result(voters, check);
            &&& granted >= q ==> result == VoteResult::Won
            &&& granted < q && granted + missing >= q ==> result == VoteResult::Pending
            &&& granted + missing < q ==> result == VoteResult::Lost
            &&& granted + missing <= voters.len()
        }),
{
    let yes = with_ballot(voters, check, Some(true));
    let unknown = with_ballot(voters, check, None);
    vstd::set_lib::lemma_set_disjoint_lens(yes, unknown);
    vstd::set_lib::lemma_len_subset(yes.union(unknown), voters);
}

/// A set of IDs that uses majority quorums to make decisions.
#[derive(Debug, PartialEq, Eq)]
pub struct Configuration {
    pub voters: HashSet<u64>,
}

/// Copies a set of ids.
pub fn clone_ids(ids: &HashSet<u64>) -> (copy: HashSet<u64>)
    ensures
        copy@ == ids@,
{
    let mut copy: HashSet<u64> = HashSet::with_capacity(ids.len());
    let ghost all = vstd::std_specs::hash::spec_hash_keys_iter(ids).remaining().unref();
    for id in it: ids.iter()
        invariant
            it.seq().unref() == all,
            all.to_set() == ids@,
            copy@ == all.take(it.index()).to_set(),
    {
        assert(all.take(it.index() + 1) =~= all.take(it.index()).push(*id));
        assert(all.take(it.index()).push(*id).to_set() =~= all.take(it.index()).to_set().insert(
            *id,
        )) by {
            all.take(it.index()).lemma_push_to_set_commute(*id);
        }
        copy.insert(*id);
    }
    assert(all.take(all.len() as int) =~= all);
    copy
}

impl Clone for Configuration {
    fn clone(&self) -> (c: Self)
        ensures
            c@ == self@,
    {
        Configuration { voters: clone_ids(&self.voters) }
    }
}

impl Default for Configuration {
    fn default() -> (c: Self)
        ensures
            c@ == Set::<u64>::empty(),
    {
        Configuration { voters: HashSet::new() }
    }
}

impl View for Configuration {
    type V = Set<u64>;

    open spec fn view(&self) -> Set<u64> {
        self.voters@
    }
}

impl Configuration {
    /// Creates a new configuration using the given IDs.
    pub fn with_capacity(voters: usize) -> (c: Configuration)
        ensures
            c@ == Set::<u64>::empty(),
    {
        Configuration { voters: HashSet::with_capacity(voters) }
    }

    /// Takes a mapping of voters to yes/no (true/false) votes and returns
    /// a result indicating whether the vote is pending (i.e. neither a quorum of
    /// yes/no has been reached), won (a quorum of yes has been reached), or lost (a
    /// quorum of no has been reached).
    pub fn vote_result<F: Fn(u64) -> Option<bool>>(&self, check: F) -> (r: VoteResult)
        requires
            forall|id: u64| #[trigger] self@.contains(id) ==> call_requires(check, (id,)),
        ensures
            exists|ballots: spec_fn(u64) -> Option<bool>| #[trigger]
                reports(check, self@, ballots) && r == majority_vote_result(self@, ballots),
            self@.is_empty() ==> r == VoteResult::Won,
    {
        if self.voters.is_empty() {
            // By convention, the elections on an empty config win. This comes in
            // handy with joint quorums because it'll make a half-populated joint
            // quorum behave like a majority quorum.
            proof {
                let nobody = |id: u64| None::<bool>;
                assert(reports(check, self@, nobody));
            }
            return VoteResult::Won;
        }
        let total = self.voters.len();
        let mut yes: usize = 0;
        let mut missing: usize = 0;
        let ghost mut answers: Seq<Option<bool>> = Seq::empty();
        let ghost ids = vstd::std_specs::hash::spec_hash_keys_iter(
            &self.voters,
        ).remaining().unref();
        for v in it: self.voters.iter()
            invariant
                forall|id: u64| #[trigger] self@.contains(id) ==> call_requires(check, (id,)),
                it.seq().unref() == ids,
                ids.to_set() == self@,
                ids.no_duplicates(),
                ids.len() == total,
                answers.len() == it.index(),
                forall|i: int|
                    0 <= i < it.index() ==> call_ensures(check, (ids[i],), #[trigger] answers[i]),
                yes == occurrences(answers, Some(true)),
                missing == occurrences(answers, None),
                yes + missing <= it.index(),
        {
            assert(self@.contains(*v));
            let answer = check(*v);
            proof {
                assert(answers.push(answer).drop_last() =~= answers);
                answers = answers.push(answer);
            }
            match answer {
                Some(true) => yes += 1,
                None => missing += 1,
                _ => (),
            }
        }
        proof {
            let ballots = |id: u64|
                if ids.contains(id) {
                    answers[ids.index_of(id)]
                } else {
                    None
                };
            assert(forall|i: int| 0 <= i < ids.len() ==> ballots(#[trigger] ids[i]) == answers[i]);
            lemma_occurrences_count(ids, answers, ballots, Some(true));
            lemma_occurrences_count(ids, answers, ballots, None);
            assert(reports(check, self@, ballots));
        }
        let q = majority(total);
        if yes >= q {
            VoteResult::Won
        } else if yes + missing >= q {
            VoteResult::Pending
        } else {
            VoteResult::Lost
        }
    }
}

} // verus!
