//! The progress tracker: the membership configuration, the replication state
//! of each peer, and the ballots of the election in flight.

pub mod progress;
pub mod state;

use crate::quorum::joint::{joint_outcome, joint_vote_result, Configuration as JointConfig};
use crate::quorum::majority::{
    clone_ids, lemma_occurrences_count, lemma_vote_result_agrees, majority_vote_result,
    occurrences, reports, with_ballot,
};
use crate::raft::VoteResult;
use progress::Progress;
use std::collections::{HashMap, HashSet};
use vstd::prelude::*;
use vstd::std_specs::iter::IteratorSpec;

verus! {

broadcast use vstd::std_specs::hash::group_hash_axioms;

/// The replication state of each peer, by its id.
pub type ProgressMap = HashMap<u64, Progress>;

/// The ballot that `votes` holds for each id: granted, rejected, or none yet.
pub open spec fn ballots_of(votes: Map<u64, bool>) -> spec_fn(u64) -> Option<bool> {
    |id: u64|
        if votes.contains_key(id) {
            Some(votes[id])
        } else {
            None
        }
}

/// The ids among `voters` whose ballot in `votes` is `granted`.
pub open spec fn cast_by_voters(
    voters: Set<u64>,
    votes: Map<u64, bool>,
    granted: bool,
) -> Set<u64> {
    votes.dom().filter(|id: u64| voters.contains(id) && votes[id] == granted)
}

/// The ballot that `votes` holds for an id that is one of `voters`; none for
/// every other id.
pub open spec fn member_ballots(voters: Set<u64>, votes: Map<u64, bool>) -> spec_fn(u64) -> Option<
    bool,
> {
    |id: u64|
        if voters.contains(id) && votes.contains_key(id) {
            Some(votes[id])
        } else {
            None
        }
}

/// What `votes` holds after a ballot of `id` has been recorded: the first
/// ballot of an id stands, a later one changes nothing.
pub open spec fn with_vote(votes: Map<u64, bool>, id: u64, vote: bool) -> Map<u64, bool> {
    if votes.contains_key(id) {
        votes
    } else {
        votes.insert(id, vote)
    }
}

/// The membership that a configuration stands for.
#[verifier::ext_equal]
pub struct ConfView {
    /// The voters of the incoming half of the joint quorum.
    pub incoming: Set<u64>,
    /// The voters of the outgoing half of the joint quorum.
    pub outgoing: Set<u64>,
    /// The learners.
    pub learners: Set<u64>,
}

impl ConfView {
    /// The voters of either half.
    pub open spec fn voters(self) -> Set<u64> {
        self.incoming.union(self.outgoing)
    }

    /// Learners and voters do not intersect: a node of either half of the
    /// joint quorum is no learner.
    pub open spec fn learners_apart(self) -> bool {
        self.voters().disjoint(self.learners)
    }
}

/// What a progress tracker holds.
#[verifier::ext_equal]
pub struct TrackerView {
    /// The membership.
    pub conf: ConfView,
    /// The replication state of each peer.
    pub progress: Map<u64, Progress>,
    /// The ballots of the election in flight.
    pub votes: Map<u64, bool>,
}

impl TrackerView {
    /// The tracker after a ballot of `id` has been recorded.
    pub open spec fn recorded(self, id: u64, vote: bool) -> TrackerView {
        TrackerView { votes: with_vote(self.votes, id, vote), ..self }
    }

    /// The number of voters that have granted their vote.
    pub open spec fn granted(self) -> nat {
        cast_by_voters(self.conf.voters(), self.votes, true).len()
    }

    /// The number of voters that have rejected the request for their vote.
    pub open spec fn rejected(self) -> nat {
        cast_by_voters(self.conf.voters(), self.votes, false).len()
    }

    /// The decision of the joint quorum on the ballots cast so far.
    pub open spec fn vote_result(self) -> VoteResult {
        joint_vote_result(self.conf.incoming, self.conf.outgoing, ballots_of(self.votes))
    }
}

/// The membership: the joint quorum of the voters, and the learners.
#[derive(Debug, PartialEq, Eq)]
pub struct Configuration {
    /// The voters, in the two halves of the joint quorum.
    pub voters: JointConfig,
    /// Learners is a set of IDs corresponding to the learners active in the
    /// current configuration.
    ///
    /// Outside a joint transition learners and voters do not intersect:
    /// a voter can't be a learner, and a learner can't be a voter. This
    /// allows peers to have clarity about their current role. While a
    /// transition is in flight, a voter of the outgoing half that is to be
    /// a learner afterwards is listed here already.
    pub learners: HashSet<u64>,
}

impl View for Configuration {
    type V = ConfView;

    open spec fn view(&self) -> ConfView {
        ConfView {
            incoming: self.voters.incoming@,
            outgoing: self.voters.outgoing@,
            learners: self.learners@,
        }
    }
}

impl Clone for Configuration {
    fn clone(&self) -> (c: Self)
        ensures
            c@ == self@,
    {
        Configuration { voters: self.voters.clone(), learners: clone_ids(&self.learners) }
    }
}

/// The membership of nobody.
pub open spec fn empty_conf() -> ConfView {
    ConfView { incoming: Set::empty(), outgoing: Set::empty(), learners: Set::empty() }
}

/// The tracker of a node that has just been created.
pub open spec fn empty_tracker() -> TrackerView {
    TrackerView { conf: empty_conf(), progress: Map::empty(), votes: Map::empty() }
}

impl Default for Configuration {
    fn default() -> (c: Self)
        ensures
            c@ == empty_conf(),
    {
        Configuration { voters: JointConfig::default(), learners: HashSet::new() }
    }
}

impl Configuration {
    /// Create a new configuration with the given configuration.
    pub fn with_capacity(voters: usize, learners: usize) -> (c: Self)
        ensures
            c@ == empty_conf(),
    {
        Self {
            voters: JointConfig::with_capacity(voters),
            learners: HashSet::with_capacity(learners),
        }
    }
}

/// `ProgressTracker` contains several `Progress`es,
/// which could be `Leader`, `Follower` and `Learner`.
pub struct ProgressTracker {
    /// The replication state of each peer.
    pub progress: ProgressMap,
    /// current configuration state of the node.
    pub conf: Configuration,
    /// The ballots of the election in flight: for each id that has voted,
    /// whether it granted its vote.
    pub votes: HashMap<u64, bool>,
}

impl View for ProgressTracker {
    type V = TrackerView;

    open spec fn view(&self) -> TrackerView {
        TrackerView { conf: self.conf@, progress: self.progress@, votes: self.votes@ }
    }
}

impl Clone for ProgressTracker {
    fn clone(&self) -> (t: Self)
        ensures
            t@ == self@,
    {
        ProgressTracker {
            progress: self.progress.clone(),
            conf: self.conf.clone(),
            votes: self.votes.clone(),
        }
    }
}

impl Default for ProgressTracker {
    fn default() -> (t: Self)
        ensures
            t@ == empty_tracker(),
    {
        let voter: usize = 0;
        let learner: usize = 0;
        ProgressTracker {
            progress: HashMap::with_capacity(voter + learner),
            conf: Configuration::with_capacity(voter, learner),
            votes: HashMap::with_capacity(voter),
        }
    }
}

impl ProgressTracker {
    /// The current configuration state of the node.
    pub fn conf(&self) -> (c: &Configuration)
        ensures
            c == &self.conf,
    {
        &self.conf
    }

    /// Records that the node with the given id voted for this Raft
    /// instance if v == true (and declined it otherwise).
    pub fn record_vote(&mut self, id: u64, vote: bool)
        ensures
            final(self)@ == old(self)@.recorded(id, vote),
    {
        if !self.votes.contains_key(&id) {
            self.votes.insert(id, vote);
        }
    }

    /// Forgets the ballots of the last election.
    pub fn reset_votes(&mut self)
        ensures
            final(self)@ == (TrackerView { votes: Map::empty(), ..old(self)@ }),
    {
        self.votes.clear();
    }

    /// TallyVotes returns the number of granted and rejected Votes, and whether the
    /// election outcome is known.
    pub fn tally_votes(&self) -> (r: (usize, usize, VoteResult))
        ensures
            r.0 == self@.granted(),
            r.1 == self@.rejected(),
            r.2 == self@.vote_result(),
    {
        // Make sure to populate granted/rejected correctly even if the Votes slice
        // contains members no longer part of the configuration. This doesn't really
        // matter in the way the numbers are used (they're informational), but might
        // as well get it right.
        let mut granted: usize = 0;
        let mut rejected: usize = 0;
        let ghost voters = self.conf.voters.ids();
        let ghost votes = self.votes@;
        let ghost cast = self.votes.len();
        let ghost pairs = vstd::std_specs::hash::spec_hash_map_iter(
            &self.votes,
        ).remaining().unref();
        let ghost mut answers: Seq<Option<bool>> = Seq::empty();
        for pair in it: self.votes.iter()
            invariant
                voters == self.conf.voters.ids(),
                votes == self.votes@,
                it.seq().unref() == pairs,
                pairs.len() == votes.dom().len(),
                pairs.len() == cast,
                forall|i: int|
                    0 <= i < pairs.len() ==> votes.contains_key((#[trigger] pairs[i]).0)
                        && votes[pairs[i].0] == pairs[i].1,
                answers.len() == it.index(),
                forall|i: int|
                    0 <= i < it.index() ==> #[trigger] answers[i] == member_ballots(voters, votes)(
                        pairs[i].0,
                    ),
                granted == occurrences(answers, Some(true)),
                rejected == occurrences(answers, Some(false)),
                granted + rejected <= it.index(),
        {
            let (id, vote) = pair;
            let ghost answer = member_ballots(voters, votes)(*id);
            proof {
                assert(answers.push(answer).drop_last() =~= answers);
                answers = answers.push(answer);
            }
            if self.conf.voters.contains(*id) {
                if *vote {
                    granted += 1;
                } else {
                    rejected += 1;
                }
            }
        }
        proof {
            let ids = pairs.map_values(|pair: (u64, bool)| pair.0);
            assert(ids.no_duplicates()) by {
                assert forall|i: int, j: int|
                    0 <= i < ids.len() && 0 <= j < ids.len() && i != j implies ids[i] != ids[j] by {
                    if ids[i] == ids[j] {
                        assert(pairs[i] == pairs[j]);
                    }
                }
            }
            assert(ids.to_set() =~= votes.dom()) by {
                assert forall|id: u64| votes.dom().contains(id) implies ids.to_set().contains(
                    id,
                ) by {
                    assert(votes.kv_pairs().contains((id, votes[id])));
                    let i = choose|i: int| 0 <= i < pairs.len() && pairs[i] == (id, votes[id]);
                    assert(ids[i] == id);
                }
            }
            lemma_occurrences_count(ids, answers, member_ballots(voters, votes), Some(true));
            lemma_occurrences_count(ids, answers, member_ballots(voters, votes), Some(false));
            assert(with_ballot(votes.dom(), member_ballots(voters, votes), Some(true))
                =~= cast_by_voters(voters, votes, true));
            assert(with_ballot(votes.dom(), member_ballots(voters, votes), Some(false))
                =~= cast_by_voters(voters, votes, false));
        }
        let result = self.vote_result(&self.votes);
        (granted, rejected, result)
    }

    /// Returns the Candidate's eligibility in the current election.
    ///
    /// If it is still eligible, it should continue polling nodes and checking.
    /// Eventually, the election will result in this returning either `Elected`
    /// or `Ineligible`, meaning the election can be concluded.
    pub fn vote_result(&self, votes: &HashMap<u64, bool>) -> (r: VoteResult)
        ensures
            r == joint_vote_result(
                self.conf.voters.incoming@,
                self.conf.voters.outgoing@,
                ballots_of(votes@),
            ),
    {
        let check = |id: u64| -> (ballot: Option<bool>)
            ensures
                ballot == ballots_of(votes@)(id),
            {
                match votes.get(&id) {
                    Some(vote) => Some(*vote),
                    None => None,
                }
            };
        let r = self.conf.voters.vote_result(&check);
        proof {
            let incoming = self.conf.voters.incoming@;
            let outgoing = self.conf.voters.outgoing@;
            let (first, second) = choose|
                first: spec_fn(u64) -> Option<bool>,
                second: spec_fn(u64) -> Option<bool>,
            |
                #![trigger reports(&check, incoming, first), reports(&check, outgoing, second)]
                reports(&check, incoming, first) && reports(&check, outgoing, second) && r
                    == joint_outcome(
                    majority_vote_result(incoming, first),
                    majority_vote_result(outgoing, second),
                );
            lemma_vote_result_agrees(incoming, first, ballots_of(votes@));
            lemma_vote_result_agrees(outgoing, second, ballots_of(votes@));
        }
        r
    }
}

/// A second ballot for an id changes nothing, whatever it says: the tracker,
/// and with it the counts of granted and rejected ballots and the decision
/// of the joint quorum, stay as they were after the first.
pub proof fn lemma_record_vote_idempotent(tracker: TrackerView, id: u64, first: bool, second: bool)
    ensures
        tracker.recorded(id, first).recorded(id, second) == tracker.recorded(id, first),
        tracker.recorded(id, first).recorded(id, second).granted() == tracker.recorded(
            id,
            first,
        ).granted(),
        tracker.recorded(id, first).recorded(id, second).rejected() == tracker.recorded(
            id,
            first,
        ).rejected(),
        tracker.recorded(id, first).recorded(id, second).vote_result() == tracker.recorded(
            id,
            first,
        ).vote_result(),
{
}

} // verus!
