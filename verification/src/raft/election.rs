//! What follows from the transitions: the term of a node never falls, and a
//! node that is on its own makes itself leader.

use crate::message::{CampaignType, Message};
use crate::quorum::majority::{majority_vote_result, with_ballot};
use crate::raft::transitions::{
    extends_by_broadcast, heartbeat, hup_post, hup_signal, recipients, step_post,
    tick_election_post, tick_post, vote_request, RaftView,
};
use crate::raft::{RaftCore, StateRole, VoteResult};
use crate::tracker::ballots_of;
use vstd::prelude::*;

verus! {

/// No message takes the term of a node back: after a step it is the term
/// from before, or a later one.
pub proof fn lemma_step_keeps_term(pre: RaftView, msg: Message, post: RaftView)
    requires
        step_post(pre, msg, post),
        pre.r.term < u64::MAX,
        msg.term < u64::MAX,
    ensures
        post.r.term >= pre.r.term,
{
}

/// No tick takes the term of a node back.
pub proof fn lemma_tick_keeps_term(pre: RaftView, post: RaftView, output: bool)
    requires
        tick_post(pre, post, output),
        pre.r.term < u64::MAX,
    ensures
        post.r.term >= pre.r.term,
{
}

/// Becoming a candidate raises the term by exactly one and gives the node's
/// vote to itself, whatever timeout is drawn. (A leader never becomes one:
/// `become_candidate` leaves it out.)
pub proof fn lemma_candidate_term_and_vote(core: RaftCore, timeout: usize)
    requires
        core.state != StateRole::Leader,
        core.term < u64::MAX,
    ensures
        core.as_candidate(timeout).term == core.term + 1,
        core.as_candidate(timeout).vote == core.id,
        core.as_candidate(timeout).state == StateRole::Candidate,
{
}

/// A leader never promotes itself: the signal to start an election, given
/// by call or as a local message, leaves a leader as it is.
pub proof fn lemma_leader_ignores_hup(pre: RaftView, post: RaftView, transfer_leader: bool)
    requires
        pre.r.state == StateRole::Leader,
    ensures
        hup_post(pre, transfer_leader, post) ==> post == pre,
        step_post(pre, hup_signal(pre.r.id), post) ==> post == pre,
        tick_election_post(pre, post, true) || tick_election_post(pre, post, false)
            ==> post.r.state == StateRole::Leader && post.r.term == pre.r.term,
{
}

/// The tick of a leader leaves its role, its term and its vote alone. On
/// the boundary of the heartbeat timeout it queues one heartbeat for each
/// peer, and nothing at any other tick; its result says whether the queue
/// has grown.
pub proof fn lemma_leader_tick(pre: RaftView, post: RaftView, output: bool)
    requires
        pre.r.state == StateRole::Leader,
        tick_post(pre, post, output),
    ensures
        post.r.state == pre.r.state,
        post.r.term == pre.r.term,
        post.r.vote == pre.r.vote,
        output == (post.msgs.len() > pre.msgs.len()),
        pre.r.heartbeat_elapsed + 1 < pre.r.heartbeat_timeout ==> post.msgs == pre.msgs,
        pre.r.heartbeat_elapsed + 1 >= pre.r.heartbeat_timeout ==> extends_by_broadcast(
            pre.msgs,
            post.msgs,
            pre.peers(),
            heartbeat(pre.r),
        ),
{
}

/// A majority quorum that the ballot of `id` alone wins has no voter but
/// `id`.
proof fn lemma_won_by_one(voters: Set<u64>, id: u64)
    requires
        voters.finite(),
        majority_vote_result(voters, ballots_of(Map::<u64, bool>::empty().insert(id, true)))
            == VoteResult::Won,
    ensures
        voters.subset_of(set![id]),
{
    let ballots = ballots_of(Map::<u64, bool>::empty().insert(id, true));
    let granted = with_ballot(voters, ballots, Some(true));
    if voters.len() == 0 {
        voters.lemma_len0_is_empty();
    } else {
        // Nobody but `id` has granted, so that one ballot is a quorum: there is
        // one voter, and it is `id`.
        vstd::set_lib::lemma_len_subset(granted, set![id]);
        assert(granted.len() == 1 && voters.len() == 1);
        assert(granted.contains(id)) by {
            if !granted.contains(id) {
                assert(granted =~= Set::<u64>::empty());
            }
        }
        voters.remove(id).lemma_len0_is_empty();
    }
}

/// Where the node's own ballot is a quorum of the joint configuration, the
/// node has no peers.
pub proof fn lemma_winner_has_no_peers(pre: RaftView)
    requires
        pre.prs.conf.incoming.finite(),
        pre.prs.conf.outgoing.finite(),
        pre.own_ballot().vote_result() == VoteResult::Won,
    ensures
        pre.peers() == Set::<u64>::empty(),
{
    lemma_won_by_one(pre.prs.conf.incoming, pre.r.id);
    lemma_won_by_one(pre.prs.conf.outgoing, pre.r.id);
}

/// A broadcast to nobody, and another one after it, leave the queue as it
/// was.
pub proof fn lemma_broadcast_to_nobody(
    before: Seq<Message>,
    after: Seq<Message>,
    template: Message,
)
    requires
        extends_by_broadcast(before, after, Set::<u64>::empty(), template),
    ensures
        after == before,
{
    let batch = after.skip(before.len() as int);
    if batch.len() > 0 {
        assert(recipients(batch).to_set().contains(recipients(batch)[0]));
    }
}

/// A majority quorum with no voter but `id` is won by the ballot of `id`.
proof fn lemma_one_wins(voters: Set<u64>, id: u64)
    requires
        voters.subset_of(set![id]),
    ensures
        majority_vote_result(voters, ballots_of(Map::<u64, bool>::empty().insert(id, true)))
            == VoteResult::Won,
{
    let ballots = ballots_of(Map::<u64, bool>::empty().insert(id, true));
    vstd::set_lib::lemma_set_subset_finite(set![id], voters);
    if voters.contains(id) {
        assert(voters =~= set![id]);
        assert(with_ballot(voters, ballots, Some(true)) =~= set![id]);
    } else {
        assert(voters =~= Set::<u64>::empty());
    }
}

impl RaftView {
    /// The node is on its own: no other node is a voter of either half.
    pub open spec fn is_alone(self) -> bool {
        &&& self.prs.conf.incoming.subset_of(set![self.r.id])
        &&& self.prs.conf.outgoing.subset_of(set![self.r.id])
    }

    /// The replica with its election clock at `elapsed`, and otherwise as
    /// it is.
    pub open spec fn at_elapsed(self, elapsed: int) -> RaftView {
        RaftView { r: RaftCore { election_elapsed: elapsed as usize, ..self.r }, ..self }
    }
}

/// A node that is on its own wins with its own ballot.
pub proof fn lemma_alone_wins(pre: RaftView)
    requires
        pre.is_alone(),
    ensures
        pre.own_ballot().vote_result() == VoteResult::Won,
        pre.peers() == Set::<u64>::empty(),
{
    lemma_one_wins(pre.prs.conf.incoming, pre.r.id);
    lemma_one_wins(pre.prs.conf.outgoing, pre.r.id);
}

/// `next` follows `state` by one tick.
pub open spec fn ticks_to(state: RaftView, next: RaftView) -> bool {
    tick_post(state, next, true) || tick_post(state, next, false)
}

/// The state at `i` is followed by the next one of `states` by one tick.
pub open spec fn ticks_at(states: Seq<RaftView>, i: int) -> bool {
    ticks_to(states[i], states[i + 1])
}

/// The tick that leads on from the state at `i` reports output.
pub open spec fn output_at(states: Seq<RaftView>, i: int) -> bool {
    tick_post(states[i], states[i + 1], true)
}

/// `states` is a run of ticks: each state follows the one before it by one
/// tick, and nothing else happens in between.
pub open spec fn is_tick_run(states: Seq<RaftView>) -> bool {
    forall|i: int| 0 <= i < states.len() - 1 ==> #[trigger] ticks_at(states, i)
}

/// The number of the tick at which the election clock of `core` fires.
pub open spec fn ticks_until_election(core: RaftCore) -> int {
    if core.election_elapsed + 1 >= core.randomized_election_timeout {
        1
    } else {
        core.randomized_election_timeout - core.election_elapsed
    }
}

/// Before its election clock fires, a node that is no leader only counts
/// its ticks.
proof fn lemma_quiet_ticks(states: Seq<RaftView>, i: int)
    requires
        is_tick_run(states),
        states.len() > 0,
        states[0].r.state != StateRole::Leader,
        states[0].r.wf(),
        0 <= i < ticks_until_election(states[0].r),
        i < states.len(),
    ensures
        states[i] == states[0].at_elapsed(states[0].r.election_elapsed + i),
    decreases i,
{
    if i > 0 {
        lemma_quiet_ticks(states, i - 1);
        assert(ticks_at(states, i - 1));
    }
}

/// A node that is on its own and no leader yet makes itself leader by
/// ticks alone: while the election clock runs it only counts, and the tick
/// at which the clock fires, which comes before `max_election_timeout`
/// ticks have passed, makes it the leader of the next term, with its own
/// vote, and without a message to anybody: none of these ticks reports
/// output.
pub proof fn lemma_single_node_elects_itself(states: Seq<RaftView>)
    requires
        is_tick_run(states),
        states.len() > ticks_until_election(states[0].r),
        states[0].r.wf(),
        states[0].r.term < u64::MAX,
        states[0].r.state != StateRole::Leader,
        states[0].is_alone(),
    ensures
        ({
            let first = states[0];
            let n = ticks_until_election(first.r);
            let elected = states[n];
            &&& 1 <= n < first.r.max_election_timeout
            &&& forall|i: int| 0 <= i < n ==> #[trigger] states[i].r.state == first.r.state
            &&& elected.r.state == StateRole::Leader
            &&& elected.r.leader_id == first.r.id
            &&& elected.r.vote == first.r.id
            &&& elected.r.term == first.r.term + 1
            &&& elected.msgs == first.msgs
            &&& forall|i: int| 0 <= i < n ==> !#[trigger] output_at(states, i)
        }),
{
    let first = states[0];
    let n = ticks_until_election(first.r);
    assert forall|i: int| 0 <= i < n implies #[trigger] states[i].r.state == first.r.state by {
        lemma_quiet_ticks(states, i);
    }
    lemma_quiet_ticks(states, n - 1);
    assert(ticks_at(states, n - 1));
    let fired = states[n - 1].at_elapsed(0);
    lemma_alone_wins(fired);
    lemma_broadcast_to_nobody(
        fired.msgs,
        states[n].msgs,
        vote_request(fired.r, CampaignType::Election),
    );
    assert forall|i: int| 0 <= i < n implies !#[trigger] output_at(states, i) by {
        lemma_quiet_ticks(states, i);
        if i + 1 < n {
            lemma_quiet_ticks(states, i + 1);
        }
    }
}

} // verus!
