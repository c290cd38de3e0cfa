use raft_core::confchange::restore::restore;
use raft_core::confchange::ConfState;
use raft_core::config::Config;
use raft_core::error::{ConfigError, Error};
use raft_core::message::{new_message, CampaignType, Message, MessageType};
use raft_core::raft::{Raft, StateRole, TermCheck, VoteResult, INVALID_ID};
use std::collections::HashSet;

fn config(id: u64) -> Config {
    Config {
        id,
        heartbeat_tick: 15,
        election_tick: 20,
        min_election_tick: 25,
        max_election_tick: 30,
        check_quorum: false,
    }
}

fn node(id: u64, voters: &[u64]) -> Raft {
    let mut raft = Raft::with_seed(&config(id), 7).unwrap();
    let cs = ConfState {
        voters: voters.to_vec(),
        learners: vec![],
        voters_outgoing: vec![],
        learners_next: vec![],
    };
    restore(&mut raft.prs, &cs);
    raft
}

fn message(msg_type: MessageType, from: u64, to: u64, term: u64) -> Message {
    Message { msg_type, to, from, term, reject: false, context: None }
}

fn recipients(msgs: &[Message]) -> HashSet<u64> {
    msgs.iter().map(|m| m.to).collect()
}

/// Ticks a node that has peers until a tick produces output, which is when
/// the election timeout fires, and says how many ticks it took.
fn tick_until_output(raft: &mut Raft) -> usize {
    let mut ticks = 0;
    loop {
        ticks += 1;
        assert!(ticks <= 30, "the election timeout lies under 30 ticks");
        let queued = raft.msg.len();
        let output = raft.tick();
        assert_eq!(output, raft.msg.len() > queued);
        if output {
            return ticks;
        }
    }
}

#[test]
fn new_node_is_a_follower_at_term_zero() {
    let raft = Raft::new(&config(1)).unwrap();
    assert_eq!(raft.r.id, 1);
    assert_eq!(raft.r.term, 0);
    assert_eq!(raft.r.vote, INVALID_ID);
    assert_eq!(raft.r.leader_id, INVALID_ID);
    assert_eq!(raft.r.state, StateRole::Follower);
    assert_eq!(raft.r.election_timeout, 20);
    assert_eq!(raft.r.heartbeat_timeout, 15);
    assert_eq!(raft.r.min_election_timeout, 25);
    assert_eq!(raft.r.max_election_timeout, 30);
    assert_eq!(raft.r.election_elapsed, 0);
    assert_eq!(raft.r.heartbeat_elapsed, 0);
    assert!(!raft.r.check_quorum);
    assert!((25..30).contains(&raft.r.randomized_election_timeout));
    assert!(raft.msg.is_empty());
    assert!(raft.prs.votes.is_empty());
    assert!(raft.prs.conf().voters.incoming.voters.is_empty());
    assert_eq!(StateRole::default(), StateRole::Follower);
}

#[test]
fn new_node_refuses_a_bad_record() {
    let mut c = config(0);
    assert_eq!(Raft::new(&c).err(), Some(Error::ConfigInvalid(ConfigError::InvalidId)));
    assert_eq!(Raft::with_seed(&c, 1).err(), Some(Error::ConfigInvalid(ConfigError::InvalidId)));
    c.id = 1;
    c.heartbeat_tick = 0;
    assert_eq!(Raft::new(&c).err(), Some(Error::ConfigInvalid(ConfigError::ZeroHeartbeatTick)));
    c.heartbeat_tick = 20;
    assert_eq!(Raft::new(&c).err(), Some(Error::ConfigInvalid(ConfigError::ElectionTickTooSmall)));
    c.heartbeat_tick = 15;
    c.min_election_tick = 30;
    assert_eq!(
        Raft::new(&c).err(),
        Some(Error::ConfigInvalid(ConfigError::MaxElectionTickTooSmall {
            min_election_tick: 30,
            max_election_tick: 30
        }))
    );
}

#[test]
fn randomized_timeout_stays_in_range() {
    let mut raft = Raft::new(&config(1)).unwrap();
    for _ in 0..2000 {
        raft.randomized_election_timeout();
        let t = raft.r.randomized_election_timeout;
        assert!(25 <= t && t < 30, "drawn {}", t);
    }
    let tight = Config { min_election_tick: 20, max_election_tick: 21, ..config(1) };
    let mut raft = Raft::new(&tight).unwrap();
    for _ in 0..100 {
        raft.randomized_election_timeout();
        assert_eq!(raft.r.randomized_election_timeout, 20);
    }
}

#[test]
fn randomized_timeout_is_drawn_not_copied() {
    // Every value of the range comes up, so the draw returns neither bound as it is.
    let mut raft = Raft::with_seed(&config(1), 42).unwrap();
    let mut seen = HashSet::new();
    for _ in 0..2000 {
        raft.randomized_election_timeout();
        seen.insert(raft.r.randomized_election_timeout);
    }
    let all: HashSet<usize> = (25..30).collect();
    assert_eq!(seen, all);
}

#[test]
fn randomized_timeout_touches_nothing_else() {
    let mut raft = node(1, &[1, 2, 3]);
    raft.r.term = 4;
    raft.r.vote = 2;
    raft.r.leader_id = 2;
    raft.r.election_elapsed = 3;
    let before = raft.r;
    raft.randomized_election_timeout();
    let mut after = raft.r;
    after.randomized_election_timeout = before.randomized_election_timeout;
    assert_eq!(after, before);
    assert!(raft.msg.is_empty());
}

#[test]
fn same_seed_draws_the_same_timeouts() {
    let mut a = Raft::with_seed(&config(1), 99).unwrap();
    let mut b = Raft::with_seed(&config(1), 99).unwrap();
    assert_eq!(a.r, b.r);
    for _ in 0..50 {
        a.randomized_election_timeout();
        b.randomized_election_timeout();
        assert_eq!(a.r.randomized_election_timeout, b.r.randomized_election_timeout);
    }
}

#[test]
fn reset_term_clears_vote_only_on_a_new_term() {
    let mut raft = node(1, &[1, 2, 3]);
    raft.r.term = 3;
    raft.r.vote = 2;
    raft.r.leader_id = 2;
    // Same term: the vote stays, the leader is forgotten.
    raft.reset_term(3);
    assert_eq!(raft.r.term, 3);
    assert_eq!(raft.r.vote, 2);
    assert_eq!(raft.r.leader_id, INVALID_ID);
    assert!((25..30).contains(&raft.r.randomized_election_timeout));
    // New term: the vote is cleared too.
    raft.r.leader_id = 3;
    raft.reset_term(4);
    assert_eq!(raft.r.term, 4);
    assert_eq!(raft.r.vote, INVALID_ID);
    assert_eq!(raft.r.leader_id, INVALID_ID);
    // A lower term is a new term as well.
    raft.r.vote = 1;
    raft.reset_term(2);
    assert_eq!(raft.r.term, 2);
    assert_eq!(raft.r.vote, INVALID_ID);
    assert_eq!(raft.r.state, StateRole::Follower);
    assert_eq!(raft.r.election_elapsed, 0);
}

#[test]
fn become_follower_sets_term_and_leader() {
    let mut raft = node(1, &[1, 2, 3]);
    raft.r.state = StateRole::Candidate;
    raft.r.term = 2;
    raft.r.vote = 1;
    raft.become_follower(5, 3);
    assert_eq!(raft.r.state, StateRole::Follower);
    assert_eq!(raft.r.term, 5);
    assert_eq!(raft.r.vote, INVALID_ID);
    assert_eq!(raft.r.leader_id, 3);
    raft.r.vote = 3;
    raft.become_follower(5, INVALID_ID);
    assert_eq!(raft.r.vote, 3);
    assert_eq!(raft.r.leader_id, INVALID_ID);
}

#[test]
fn become_candidate_raises_the_term_by_one() {
    let mut raft = node(1, &[1, 2, 3]);
    raft.r.leader_id = 2;
    raft.become_candidate();
    assert_eq!(raft.r.term, 1);
    assert_eq!(raft.r.vote, 1);
    assert_eq!(raft.r.state, StateRole::Candidate);
    assert_eq!(raft.r.leader_id, INVALID_ID);
    raft.become_candidate();
    assert_eq!(raft.r.term, 2);
    assert_eq!(raft.r.vote, 1);
    raft.r.state = StateRole::PreCandidate;
    raft.r.term = 41;
    raft.become_candidate();
    assert_eq!(raft.r.term, 42);
    assert_eq!(raft.r.state, StateRole::Candidate);
    assert!(raft.msg.is_empty());
}

#[test]
fn become_pre_candidate_keeps_term_and_vote() {
    let mut raft = node(1, &[1, 2, 3]);
    raft.r.term = 6;
    raft.r.vote = 2;
    raft.r.leader_id = 2;
    let timeout = raft.r.randomized_election_timeout;
    raft.become_pre_candidate();
    assert_eq!(raft.r.state, StateRole::PreCandidate);
    assert_eq!(raft.r.term, 6);
    assert_eq!(raft.r.vote, 2);
    assert_eq!(raft.r.leader_id, INVALID_ID);
    assert_eq!(raft.r.randomized_election_timeout, timeout);
}

#[test]
fn become_leader_leads_its_own_term() {
    let mut raft = node(1, &[1, 2, 3]);
    raft.become_candidate();
    raft.r.heartbeat_elapsed = 9;
    raft.become_leader();
    assert_eq!(raft.r.state, StateRole::Leader);
    assert_eq!(raft.r.term, 1);
    assert_eq!(raft.r.vote, 1);
    assert_eq!(raft.r.leader_id, 1);
    assert_eq!(raft.r.heartbeat_elapsed, 0);
}

#[test]
fn pass_election_timeout_compares_the_clocks() {
    let mut raft = node(1, &[1]);
    raft.r.randomized_election_timeout = 27;
    raft.r.election_elapsed = 26;
    assert!(!raft.pass_election_timeout());
    raft.r.election_elapsed = 27;
    assert!(raft.pass_election_timeout());
    raft.r.election_elapsed = 28;
    assert!(raft.pass_election_timeout());
}

#[test]
fn single_node_becomes_leader_by_ticking() {
    let mut raft = node(1, &[1]);
    let timeout = raft.r.randomized_election_timeout;
    for tick in 1..timeout {
        assert!(!raft.tick());
        assert_eq!(raft.r.election_elapsed, tick);
        assert_eq!(raft.r.state, StateRole::Follower);
        assert_eq!(raft.r.term, 0);
    }
    // The timeout fires: the node makes itself leader, and has nobody to tell.
    assert!(!raft.tick());
    assert_eq!(raft.r.state, StateRole::Leader);
    assert_eq!(raft.r.term, 1);
    assert_eq!(raft.r.vote, 1);
    assert_eq!(raft.r.leader_id, 1);
    assert_eq!(raft.r.election_elapsed, 0);
    assert!(raft.msg.is_empty());
    assert_eq!(raft.prs.votes.get(&1), Some(&true));
    assert_eq!(raft.prs.votes.len(), 1);
}

#[test]
fn node_without_membership_becomes_leader_by_ticking() {
    // Straight after construction nobody is a voter: the vote is won at once.
    let mut raft = Raft::new(&config(3)).unwrap();
    let mut ticks = 0;
    while raft.r.state != StateRole::Leader {
        ticks += 1;
        assert!(ticks < 30, "the election timeout lies under 30 ticks");
        // Nothing is ever queued, so no tick reports output.
        assert!(!raft.tick());
    }
    assert!((25..30).contains(&ticks));
    assert_eq!(raft.r.term, 1);
    assert_eq!(raft.r.leader_id, 3);
    assert!(raft.msg.is_empty());
}

#[test]
fn election_in_a_cluster_of_three() {
    let mut raft = node(1, &[1, 2, 3]);
    tick_until_output(&mut raft);
    assert_eq!(raft.r.state, StateRole::Candidate);
    assert_eq!(raft.r.term, 1);
    assert_eq!(raft.r.vote, 1);
    assert_eq!(raft.r.leader_id, INVALID_ID);
    assert_eq!(raft.r.election_elapsed, 0);
    // One request for each peer, at the new term.
    assert_eq!(raft.msg.len(), 2);
    assert_eq!(recipients(&raft.msg), [2u64, 3].into_iter().collect());
    for m in &raft.msg {
        assert_eq!(*m, Message { to: m.to, ..message(MessageType::MsgRequestVote, 1, 0, 1) });
    }
    assert_eq!(raft.prs.tally_votes(), (1, 0, VoteResult::Pending));
    // The vote of 2 makes a quorum.
    let answer = message(MessageType::MsgRequestVoteResponse, 2, 1, 1);
    assert_eq!(raft.step(answer), Ok(()));
    assert_eq!(raft.r.state, StateRole::Leader);
    assert_eq!(raft.r.term, 1);
    assert_eq!(raft.r.leader_id, 1);
    assert_eq!(raft.prs.tally_votes(), (2, 0, VoteResult::Won));
    assert_eq!(raft.msg.len(), 2);
}

#[test]
fn lost_election_makes_a_follower() {
    let mut raft = node(1, &[1, 2, 3]);
    raft.hup(false);
    assert_eq!(raft.r.state, StateRole::Candidate);
    let mut no = message(MessageType::MsgRequestVoteResponse, 2, 1, 1);
    no.reject = true;
    assert_eq!(raft.step(no), Ok(()));
    // One rejection leaves the vote pending.
    assert_eq!(raft.r.state, StateRole::Candidate);
    assert_eq!(raft.prs.tally_votes(), (1, 1, VoteResult::Pending));
    no.from = 3;
    assert_eq!(raft.step(no), Ok(()));
    assert_eq!(raft.r.state, StateRole::Follower);
    assert_eq!(raft.r.term, 1);
    assert_eq!(raft.r.vote, 1);
    assert_eq!(raft.r.leader_id, INVALID_ID);
    assert_eq!(raft.prs.tally_votes(), (1, 2, VoteResult::Lost));
}

#[test]
fn candidate_counts_each_voter_once() {
    let mut raft = node(1, &[1, 2, 3, 4, 5]);
    raft.hup(false);
    let yes = message(MessageType::MsgRequestVoteResponse, 2, 1, 1);
    raft.step(yes).unwrap();
    raft.step(yes).unwrap();
    raft.step(yes).unwrap();
    // Three times the vote of 2 is one vote.
    assert_eq!(raft.r.state, StateRole::Candidate);
    assert_eq!(raft.prs.tally_votes(), (2, 0, VoteResult::Pending));
    // A stranger's vote is kept and not counted.
    raft.step(Message { from: 9, ..yes }).unwrap();
    assert_eq!(raft.r.state, StateRole::Candidate);
    assert_eq!(raft.prs.tally_votes(), (2, 0, VoteResult::Pending));
    raft.step(Message { from: 3, ..yes }).unwrap();
    assert_eq!(raft.r.state, StateRole::Leader);
}

#[test]
fn candidate_ignores_other_messages() {
    let mut raft = node(1, &[1, 2, 3]);
    raft.hup(false);
    let before = raft.r;
    // An answer to a trial vote is no ballot in a real election.
    raft.step(message(MessageType::MsgRequestPreVoteResponse, 2, 1, 1)).unwrap();
    raft.step(message(MessageType::MsgHeartbeatResponse, 2, 1, 1)).unwrap();
    raft.step(message(MessageType::MsgAppendResponse, 2, 1, 1)).unwrap();
    assert_eq!(raft.r, before);
    assert_eq!(raft.prs.votes.len(), 1);
    assert_eq!(raft.msg.len(), 2);
}

#[test]
fn poll_records_and_tallies() {
    let mut raft = node(1, &[1, 2, 3]);
    assert_eq!(raft.poll(1, MessageType::MsgRequestVoteResponse, true), VoteResult::Pending);
    assert_eq!(raft.poll(2, MessageType::MsgRequestVoteResponse, false), VoteResult::Pending);
    assert_eq!(raft.poll(2, MessageType::MsgRequestVoteResponse, true), VoteResult::Pending);
    assert_eq!(raft.poll(3, MessageType::MsgRequestVoteResponse, true), VoteResult::Won);
    assert_eq!(raft.prs.votes.len(), 3);
    // Polling decides nothing by itself.
    assert_eq!(raft.r.state, StateRole::Follower);
    let mut other = node(1, &[1, 2, 3]);
    assert_eq!(other.poll(2, MessageType::MsgRequestVoteResponse, false), VoteResult::Pending);
    assert_eq!(other.poll(3, MessageType::MsgRequestVoteResponse, false), VoteResult::Lost);
}

#[test]
fn campaign_starts_a_new_ballot_box() {
    let mut raft = node(1, &[1, 2, 3]);
    raft.prs.record_vote(2, false);
    raft.prs.record_vote(3, false);
    raft.campaign(CampaignType::Election);
    assert_eq!(raft.prs.votes.len(), 1);
    assert_eq!(raft.prs.votes.get(&1), Some(&true));
    assert_eq!(raft.r.state, StateRole::Candidate);
}

#[test]
fn transfer_campaign_marks_its_requests() {
    let mut raft = node(2, &[1, 2, 3]);
    raft.r.term = 7;
    raft.hup(true);
    assert_eq!(raft.r.term, 8);
    assert_eq!(raft.msg.len(), 2);
    assert_eq!(recipients(&raft.msg), [1u64, 3].into_iter().collect());
    for m in &raft.msg {
        assert_eq!(m.msg_type, MessageType::MsgRequestVote);
        assert_eq!(m.from, 2);
        assert_eq!(m.term, 8);
        assert!(!m.reject);
        assert_eq!(m.context, Some(CampaignType::Transfer));
    }
    let mut plain = node(2, &[1, 2, 3]);
    plain.hup(false);
    for m in &plain.msg {
        assert_eq!(m.context, None);
    }
}

#[test]
fn campaign_in_a_joint_configuration_asks_both_halves() {
    let mut raft = Raft::with_seed(&config(1), 3).unwrap();
    let cs = ConfState {
        voters: vec![1, 2, 3],
        learners: vec![5],
        voters_outgoing: vec![1, 2, 4, 6],
        learners_next: vec![4],
    };
    restore(&mut raft.prs, &cs);
    raft.campaign(CampaignType::Election);
    // Each voter of either half once, the node itself and the learner 5 not.
    assert_eq!(raft.msg.len(), 4);
    assert_eq!(recipients(&raft.msg), [2u64, 3, 4, 6].into_iter().collect());
    assert_eq!(raft.r.state, StateRole::Candidate);
    // 2 and 3 make a quorum of (1 2 3) but not of (1 2 4 6).
    raft.step(message(MessageType::MsgRequestVoteResponse, 2, 1, 1)).unwrap();
    raft.step(message(MessageType::MsgRequestVoteResponse, 3, 1, 1)).unwrap();
    assert_eq!(raft.r.state, StateRole::Candidate);
    raft.step(message(MessageType::MsgRequestVoteResponse, 6, 1, 1)).unwrap();
    assert_eq!(raft.r.state, StateRole::Leader);
}

#[test]
fn hup_is_ignored_by_a_leader() {
    let mut raft = node(1, &[1]);
    raft.hup(false);
    assert_eq!(raft.r.state, StateRole::Leader);
    let before = raft.r;
    raft.hup(false);
    raft.hup(true);
    raft.step(new_message(INVALID_ID, MessageType::MsgHup, Some(1))).unwrap();
    assert_eq!(raft.r, before);
    assert!(raft.msg.is_empty());
}

#[test]
fn hup_message_starts_an_election_in_any_other_role() {
    for state in [StateRole::Follower, StateRole::Candidate, StateRole::PreCandidate] {
        let mut raft = node(1, &[1, 2, 3]);
        raft.r.state = state;
        raft.r.term = 2;
        raft.step(new_message(INVALID_ID, MessageType::MsgHup, Some(1))).unwrap();
        assert_eq!(raft.r.state, StateRole::Candidate);
        assert_eq!(raft.r.term, 3);
        assert_eq!(raft.msg.len(), 2);
    }
}

#[test]
fn pre_vote_campaign_keeps_the_term() {
    let mut raft = node(1, &[1, 2, 3]);
    raft.r.term = 4;
    raft.r.vote = 2;
    raft.campaign(CampaignType::PreElection);
    assert_eq!(raft.r.state, StateRole::PreCandidate);
    assert_eq!(raft.r.term, 4);
    assert_eq!(raft.r.vote, 2);
    assert_eq!(raft.msg.len(), 2);
    assert_eq!(recipients(&raft.msg), [2u64, 3].into_iter().collect());
    for m in &raft.msg {
        // The trial is held for the term that a real election would open.
        assert_eq!(*m, Message { to: m.to, ..message(MessageType::MsgRequestPreVote, 1, 0, 5) });
    }
    assert_eq!(raft.prs.tally_votes(), (1, 0, VoteResult::Pending));
    // A granted answer carries the future term, which is not adopted.
    raft.step(message(MessageType::MsgRequestPreVoteResponse, 3, 1, 5)).unwrap();
    // The trial is won: the real election begins.
    assert_eq!(raft.r.state, StateRole::Candidate);
    assert_eq!(raft.r.term, 5);
    assert_eq!(raft.r.vote, 1);
    assert_eq!(raft.msg.len(), 4);
    for m in &raft.msg[2..] {
        assert_eq!(*m, Message { to: m.to, ..message(MessageType::MsgRequestVote, 1, 0, 5) });
    }
    assert_eq!(recipients(&raft.msg[2..]), [2u64, 3].into_iter().collect());
    // The ballots of the trial do not count in the election.
    assert_eq!(raft.prs.tally_votes(), (1, 0, VoteResult::Pending));
    raft.step(message(MessageType::MsgRequestVoteResponse, 3, 1, 5)).unwrap();
    assert_eq!(raft.r.state, StateRole::Leader);
    assert_eq!(raft.r.term, 5);
}

#[test]
fn lost_pre_vote_keeps_the_term() {
    let mut raft = node(1, &[1, 2, 3]);
    raft.r.term = 4;
    raft.campaign(CampaignType::PreElection);
    // Rejections at the node's own term.
    let mut no = message(MessageType::MsgRequestPreVoteResponse, 2, 1, 4);
    no.reject = true;
    raft.step(no).unwrap();
    assert_eq!(raft.r.state, StateRole::PreCandidate);
    raft.step(Message { from: 3, ..no }).unwrap();
    assert_eq!(raft.r.state, StateRole::Follower);
    assert_eq!(raft.r.term, 4);
}

#[test]
fn rejected_pre_vote_of_a_later_term_is_adopted() {
    let mut raft = node(1, &[1, 2, 3]);
    raft.r.term = 4;
    raft.campaign(CampaignType::PreElection);
    let mut no = message(MessageType::MsgRequestPreVoteResponse, 2, 1, 9);
    no.reject = true;
    raft.step(no).unwrap();
    assert_eq!(raft.r.state, StateRole::Follower);
    assert_eq!(raft.r.term, 9);
    assert_eq!(raft.r.vote, INVALID_ID);
    assert_eq!(raft.r.leader_id, INVALID_ID);
}

#[test]
fn pre_vote_of_a_single_node_goes_all_the_way() {
    let mut raft = node(1, &[1]);
    raft.r.term = 2;
    raft.campaign(CampaignType::PreElection);
    assert_eq!(raft.r.state, StateRole::Leader);
    assert_eq!(raft.r.term, 3);
    assert_eq!(raft.r.vote, 1);
    assert_eq!(raft.r.leader_id, 1);
    assert!(raft.msg.is_empty());
}

#[test]
fn later_term_makes_a_follower() {
    let mut raft = node(1, &[1, 2, 3]);
    raft.hup(false);
    assert_eq!(raft.r.term, 1);
    // A heartbeat names its sender as the leader.
    raft.step(message(MessageType::MsgHeartbeat, 2, 1, 3)).unwrap();
    assert_eq!(raft.r.state, StateRole::Follower);
    assert_eq!(raft.r.term, 3);
    assert_eq!(raft.r.vote, INVALID_ID);
    assert_eq!(raft.r.leader_id, 2);
    // Any other message leaves the leader unknown.
    raft.step(message(MessageType::MsgAppend, 3, 1, 5)).unwrap();
    assert_eq!(raft.r.term, 5);
    assert_eq!(raft.r.leader_id, INVALID_ID);
    raft.step(message(MessageType::MsgRequestVote, 3, 1, 6)).unwrap();
    assert_eq!(raft.r.term, 6);
    assert_eq!(raft.r.state, StateRole::Follower);
    assert_eq!(raft.msg.len(), 2);
}

#[test]
fn leader_steps_down_on_a_later_term() {
    let mut raft = node(1, &[1]);
    raft.hup(false);
    assert_eq!(raft.r.state, StateRole::Leader);
    raft.step(message(MessageType::MsgAppendResponse, 2, 1, 4)).unwrap();
    assert_eq!(raft.r.state, StateRole::Follower);
    assert_eq!(raft.r.term, 4);
    assert_eq!(raft.r.leader_id, INVALID_ID);
}

#[test]
fn vote_request_is_ignored_within_the_lease() {
    let mut raft = node(1, &[1, 2, 3]);
    raft.step(message(MessageType::MsgHeartbeat, 2, 1, 2)).unwrap();
    assert_eq!(raft.r.leader_id, 2);
    let before = raft.r;
    for msg_type in [MessageType::MsgRequestVote, MessageType::MsgRequestPreVote] {
        let request = message(msg_type, 3, 1, 5);
        assert_eq!(raft.check_term(&request), TermCheck::Ignore);
        assert_eq!(raft.step(request), Ok(()));
        assert_eq!(raft.r, before);
        // A marker of an ordinary election does not force anything.
        let request = Message { context: Some(CampaignType::Election), ..request };
        assert_eq!(raft.check_term(&request), TermCheck::Ignore);
        raft.step(request).unwrap();
        assert_eq!(raft.r, before);
    }
}

#[test]
fn forced_vote_request_passes_the_lease() {
    let mut raft = node(1, &[1, 2, 3]);
    raft.step(message(MessageType::MsgHeartbeat, 2, 1, 2)).unwrap();
    let request = Message {
        context: Some(CampaignType::Transfer),
        ..message(MessageType::MsgRequestVote, 3, 1, 5)
    };
    assert_eq!(raft.check_term(&request), TermCheck::Adopt { leader_id: INVALID_ID });
    raft.step(request).unwrap();
    assert_eq!(raft.r.term, 5);
    assert_eq!(raft.r.leader_id, INVALID_ID);
    assert_eq!(raft.r.state, StateRole::Follower);
}

#[test]
fn vote_request_passes_once_the_lease_has_run_out() {
    let mut raft = node(1, &[1, 2, 3]);
    raft.step(message(MessageType::MsgHeartbeat, 2, 1, 2)).unwrap();
    // The lease lasts while fewer ticks have passed than the election timeout.
    raft.r.election_elapsed = 19;
    let request = message(MessageType::MsgRequestVote, 3, 1, 5);
    assert_eq!(raft.check_term(&request), TermCheck::Ignore);
    raft.r.election_elapsed = 20;
    assert_eq!(raft.check_term(&request), TermCheck::Adopt { leader_id: INVALID_ID });
    raft.step(request).unwrap();
    assert_eq!(raft.r.term, 5);
    // Without a known leader there is no lease at all.
    let mut fresh = node(1, &[1, 2, 3]);
    assert_eq!(fresh.check_term(&request), TermCheck::Adopt { leader_id: INVALID_ID });
    fresh.step(request).unwrap();
    assert_eq!(fresh.r.term, 5);
}

#[test]
fn pre_vote_never_raises_the_term() {
    let mut raft = node(1, &[1, 2, 3]);
    raft.r.term = 2;
    let before = raft.r;
    let request = message(MessageType::MsgRequestPreVote, 3, 1, 5);
    assert_eq!(raft.check_term(&request), TermCheck::Proceed);
    raft.step(request).unwrap();
    assert_eq!(raft.r, before);
    let granted = message(MessageType::MsgRequestPreVoteResponse, 3, 1, 5);
    assert_eq!(raft.check_term(&granted), TermCheck::Proceed);
    raft.step(granted).unwrap();
    assert_eq!(raft.r, before);
    let rejected = Message { reject: true, ..granted };
    assert_eq!(raft.check_term(&rejected), TermCheck::Adopt { leader_id: INVALID_ID });
}

#[test]
fn stale_message_is_dropped() {
    let mut raft = node(1, &[1, 2, 3]);
    raft.r.term = 5;
    let before = raft.r;
    for msg_type in [
        MessageType::MsgHeartbeat,
        MessageType::MsgAppend,
        MessageType::MsgRequestVote,
        MessageType::MsgRequestVoteResponse,
        MessageType::MsgHup,
    ] {
        let stale = message(msg_type, 2, 1, 3);
        assert_eq!(raft.check_term(&stale), TermCheck::Stale { reply: false });
        assert_eq!(raft.step(stale), Ok(()));
        assert_eq!(raft.r, before);
        assert!(raft.msg.is_empty());
        assert!(raft.prs.votes.is_empty());
    }
}

#[test]
fn stale_leader_is_answered_where_quorum_is_checked() {
    let conf = Config { check_quorum: true, ..config(1) };
    let mut raft = Raft::with_seed(&conf, 5).unwrap();
    raft.r.term = 5;
    let before = raft.r;
    // A heartbeat or an append, either one.
    raft.step(message(MessageType::MsgHeartbeat, 2, 1, 3)).unwrap();
    raft.step(message(MessageType::MsgAppend, 3, 1, 4)).unwrap();
    assert_eq!(raft.r, before);
    assert_eq!(
        raft.msg,
        vec![
            message(MessageType::MsgAppendResponse, 1, 2, 5),
            message(MessageType::MsgAppendResponse, 1, 3, 5),
        ]
    );
    // Anything else of an earlier term is dropped without an answer.
    raft.step(message(MessageType::MsgRequestVote, 2, 1, 3)).unwrap();
    raft.step(message(MessageType::MsgHeartbeatResponse, 2, 1, 3)).unwrap();
    assert_eq!(raft.msg.len(), 2);
}

#[test]
fn local_message_bypasses_the_term_check() {
    let mut raft = node(1, &[1, 2, 3]);
    raft.r.term = 5;
    let local = message(MessageType::MsgHup, 1, 0, 0);
    assert_eq!(raft.check_term(&local), TermCheck::Proceed);
    let same = message(MessageType::MsgAppend, 2, 1, 5);
    assert_eq!(raft.check_term(&same), TermCheck::Proceed);
    let before = raft.r;
    raft.step(same).unwrap();
    assert_eq!(raft.r, before);
}

#[test]
fn follower_and_leader_handlers_change_nothing() {
    let mut raft = node(1, &[1, 2, 3]);
    let before = raft.r;
    assert_eq!(raft.step_follower(message(MessageType::MsgHeartbeat, 2, 1, 0)), Ok(()));
    assert_eq!(raft.step_leader(message(MessageType::MsgAppendResponse, 2, 1, 0)), Ok(()));
    assert_eq!(raft.r, before);
    assert!(raft.msg.is_empty());
    for msg_type in [
        MessageType::MsgRequestVote,
        MessageType::MsgRequestVoteResponse,
        MessageType::MsgHeartbeat,
        MessageType::MsgAppend,
    ] {
        raft.step(message(msg_type, 2, 1, 0)).unwrap();
        assert_eq!(raft.r, before);
    }
    assert!(raft.prs.votes.is_empty());
}

#[test]
fn leader_sends_heartbeats_on_the_boundary() {
    let mut raft = node(1, &[1, 2, 3]);
    raft.hup(false);
    raft.step(message(MessageType::MsgRequestVoteResponse, 2, 1, 1)).unwrap();
    assert_eq!(raft.r.state, StateRole::Leader);
    raft.msg.clear();
    for round in 0..3 {
        for tick in 1..15 {
            assert!(!raft.tick());
            assert_eq!(raft.r.heartbeat_elapsed, tick);
            assert!(raft.msg.is_empty());
        }
        assert!(raft.tick(), "round {}", round);
        assert_eq!(raft.r.heartbeat_elapsed, 0);
        assert_eq!(raft.msg.len(), 2);
        assert_eq!(recipients(&raft.msg), [2u64, 3].into_iter().collect());
        for m in &raft.msg {
            assert_eq!(*m, Message { to: m.to, ..message(MessageType::MsgHeartbeat, 1, 0, 1) });
        }
        raft.msg.clear();
    }
    assert_eq!(raft.r.state, StateRole::Leader);
    assert_eq!(raft.r.term, 1);
    assert_eq!(raft.r.election_elapsed, 0);
}

#[test]
fn election_clock_starts_over_after_it_fired() {
    let mut raft = node(1, &[1, 2, 3]);
    let first = tick_until_output(&mut raft);
    assert!((25..30).contains(&first));
    assert_eq!(raft.r.term, 1);
    assert_eq!(raft.r.election_elapsed, 0);
    // Nobody answers: the next timeout opens the next term.
    let second = tick_until_output(&mut raft);
    assert!((25..30).contains(&second));
    assert_eq!(raft.r.term, 2);
    assert_eq!(raft.r.state, StateRole::Candidate);
    assert_eq!(raft.msg.len(), 4);
}

#[test]
fn broadcast_reaches_each_peer_once() {
    let mut raft = node(4, &[1, 2, 3, 4]);
    raft.prs.conf.voters.outgoing.voters.insert(3);
    raft.prs.conf.voters.outgoing.voters.insert(4);
    raft.prs.conf.voters.outgoing.voters.insert(5);
    raft.prs.conf.learners.insert(8);
    let template = message(MessageType::MsgHeartbeat, 4, 0, 2);
    raft.msg.push(message(MessageType::MsgAppend, 4, 1, 2));
    let before = raft.r;
    raft.broadcast(template);
    assert_eq!(raft.r, before);
    assert_eq!(raft.msg[0], message(MessageType::MsgAppend, 4, 1, 2));
    assert_eq!(raft.msg.len(), 5);
    assert_eq!(recipients(&raft.msg[1..]), [1u64, 2, 3, 5].into_iter().collect());
    for m in &raft.msg[1..] {
        assert_eq!(*m, Message { to: m.to, ..template });
    }
}

#[test]
fn send_queues_in_order() {
    let mut raft = node(1, &[1, 2]);
    let a = message(MessageType::MsgAppend, 1, 2, 1);
    let b = message(MessageType::MsgHeartbeat, 1, 2, 1);
    raft.r.send(a, &mut raft.msg);
    raft.r.send(b, &mut raft.msg);
    assert_eq!(raft.msg, vec![a, b]);
}

#[test]
fn term_never_falls() {
    let mut raft = node(1, &[1, 2, 3]);
    let mut last = raft.r.term;
    let terms = [3u64, 1, 0, 7, 7, 2, 9, 4];
    let kinds = [
        MessageType::MsgHeartbeat,
        MessageType::MsgAppend,
        MessageType::MsgHup,
        MessageType::MsgRequestVote,
        MessageType::MsgRequestPreVote,
        MessageType::MsgRequestVoteResponse,
        MessageType::MsgRequestPreVoteResponse,
        MessageType::MsgAppendResponse,
    ];
    for round in 0..40 {
        let m = message(kinds[round % 8], 2, 1, terms[(round * 3) % 8]);
        raft.step(m).unwrap();
        assert!(raft.r.term >= last);
        last = raft.r.term;
        raft.tick();
        assert!(raft.r.term >= last);
        last = raft.r.term;
        assert!((25..30).contains(&raft.r.randomized_election_timeout));
    }
}

#[test]
fn lone_leader_ticks_without_messages() {
    let mut raft = node(1, &[1]);
    raft.hup(false);
    assert_eq!(raft.r.state, StateRole::Leader);
    for _ in 1..15 {
        assert!(!raft.tick());
    }
    // The heartbeat clock fires, and there is nobody to send to: no output.
    assert!(!raft.tick());
    assert!(raft.msg.is_empty());
    assert_eq!(raft.r.heartbeat_elapsed, 0);
}

#[test]
fn tick_reports_whether_the_queue_grew() {
    for voters in [vec![1u64], vec![1, 2], vec![1, 2, 3, 4, 5]] {
        let mut raft = node(1, &voters);
        for _ in 0..200 {
            let queued = raft.msg.len();
            let output = raft.tick();
            assert_eq!(output, raft.msg.len() > queued);
            assert_eq!(output, raft.msg.len() == queued + voters.len() - 1 && voters.len() > 1);
            if raft.r.state == StateRole::Candidate && raft.r.term == 3 {
                // Let it lead for the rest of the run.
                raft.become_leader();
            }
        }
    }
}

#[test]
fn is_wf_tells_a_sound_core() {
    let mut raft = node(1, &[1, 2, 3]);
    assert!(raft.is_wf());
    assert!(raft.r.is_wf());
    raft.hup(false);
    assert!(raft.is_wf());
    let sound = raft.r;
    raft.r.id = INVALID_ID;
    assert!(!raft.is_wf());
    raft.r = sound;
    raft.r.heartbeat_timeout = 0;
    assert!(!raft.is_wf());
    raft.r = sound;
    raft.r.election_timeout = raft.r.heartbeat_timeout;
    assert!(!raft.is_wf());
    raft.r = sound;
    raft.r.min_election_timeout = raft.r.election_timeout - 1;
    assert!(!raft.is_wf());
    raft.r = sound;
    raft.r.randomized_election_timeout = raft.r.max_election_timeout;
    assert!(!raft.is_wf());
    raft.r.randomized_election_timeout = raft.r.min_election_timeout - 1;
    assert!(!raft.is_wf());
    raft.r = sound;
    raft.r.election_elapsed = raft.r.max_election_timeout;
    assert!(!raft.is_wf());
    raft.r = sound;
    raft.r.heartbeat_elapsed = raft.r.heartbeat_timeout;
    assert!(!raft.is_wf());
    raft.r = sound;
    raft.r.election_elapsed = raft.r.max_election_timeout - 1;
    raft.r.heartbeat_elapsed = raft.r.heartbeat_timeout - 1;
    raft.r.randomized_election_timeout = raft.r.min_election_timeout;
    assert!(raft.is_wf());
}
