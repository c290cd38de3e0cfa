use crate::confchange::changer::{
    applied_all, apply_all, enter_joint, joint_entered, lemma_applied_all_concat,
    lemma_applied_keeps_roles_apart, roles_apart,
};
use crate::confchange::{new_conf_change_single, ConfChangeSingle, ConfChangeType, ConfState};
use crate::tracker::{empty_conf, ConfView, Configuration, ProgressTracker, TrackerView};
use vstd::prelude::*;

verus! {

/// One change of kind `ty` for each id of `ids`, in their order.
pub open spec fn changes_of(ids: Seq<u64>, ty: ConfChangeType) -> Seq<ConfChangeSingle> {
    Seq::new(ids.len(), |i: int| ConfChangeSingle { change_type: ty, node_id: ids[i] })
}

impl ConfState {
    /// The changes that rebuild the voters from before the transition: each
    /// outgoing voter is added.
    pub open spec fn outgoing_changes(&self) -> Seq<ConfChangeSingle> {
        changes_of(self.voters_outgoing@, ConfChangeType::AddNode)
    }

    /// The changes that then lead into the joint configuration: the outgoing
    /// voters are removed, the new voters added, and the learners added, those
    /// that are learners already before those that will be.
    pub open spec fn incoming_changes(&self) -> Seq<ConfChangeSingle> {
        changes_of(self.voters_outgoing@, ConfChangeType::RemoveNode) + changes_of(
            self.voters@,
            ConfChangeType::AddNode,
        ) + changes_of(self.learners@, ConfChangeType::AddLearnerNode) + changes_of(
            self.learners_next@,
            ConfChangeType::AddLearnerNode,
        )
    }

    /// The membership that the changes of this description lead to from
    /// nothing: the outgoing changes, the entry into the joint
    /// configuration, then the incoming changes.
    pub open spec fn restored(&self) -> ConfView {
        applied_all(
            joint_entered(applied_all(empty_conf(), self.outgoing_changes())),
            self.incoming_changes(),
        )
    }

    /// The membership that this description names.
    pub open spec fn described(&self) -> ConfView {
        ConfView {
            incoming: self.voters@.to_set(),
            outgoing: self.voters_outgoing@.to_set(),
            learners: self.learners@.to_set().union(self.learners_next@.to_set()),
        }
    }

    /// No new voter is named as a learner too.
    pub open spec fn roles_disjoint(&self) -> bool {
        self.voters@.to_set().disjoint(
            self.learners@.to_set().union(self.learners_next@.to_set()),
        )
    }

    /// Nobody is to be demoted: no outgoing voter is named as a learner.
    pub open spec fn no_demotion(&self) -> bool {
        self.voters_outgoing@.to_set().disjoint(
            self.learners@.to_set().union(self.learners_next@.to_set()),
        )
    }
}

/// Puts one change of kind `ty` for each id of `ids` at the end of `changes`.
fn push_changes(changes: &mut Vec<ConfChangeSingle>, ids: &Vec<u64>, ty: ConfChangeType)
    ensures
        final(changes)@ == old(changes)@ + changes_of(ids@, ty),
{
    let mut i: usize = 0;
    while i < ids.len()
        invariant
            i <= ids.len(),
            changes@ == old(changes)@ + changes_of(ids@.take(i as int), ty),
        decreases ids.len() - i,
    {
        changes.push(new_conf_change_single(ids[i], ty));
        i += 1;
    }
}

/// Compiles a conf state into 1) the operations that create the config which
/// will become the outgoing one, and 2) the operations that, applied to the
/// config that 1) results in, yield the config described by the conf state.
pub fn to_conf_change_single(cs: &ConfState) -> (changes: (
    Vec<ConfChangeSingle>,
    Vec<ConfChangeSingle>,
))
    ensures
        changes.0@ == cs.outgoing_changes(),
        changes.1@ == cs.incoming_changes(),
{
    // Example to follow along this code:
    // voters=(1 2 3) learners=(5) outgoing=(1 2 4 6) learners_next=(4)
    //
    // This means that before entering the joint config, the configuration
    // had voters (1 2 4 6) and perhaps some learners that are already gone.
    // The new set of voters is (1 2 3), i.e. (1 2) were kept around, and (4 6)
    // are no longer voters; however 4 is poised to become a learner upon leaving
    // the joint state.
    // We can't tell whether 5 was a learner before entering the joint config,
    // but it doesn't matter (we'll pretend that it wasn't).
    //
    // The code below will construct
    // outgoing = add 1; add 2; add 4; add 6
    // incoming = remove 1; remove 2; remove 4; remove 6
    //            add 1;    add 2;    add 3;
    //            add-learner 5;
    //            add-learner 4;
    //
    // So, when starting with an empty config, after applying 'outgoing' we have
    //
    //   quorum=(1 2 4 6)
    //
    // From which we enter a joint state via 'incoming'
    //
    //   quorum=(1 2 3)&&(1 2 4 6) learners=(5) learners_next=(4)
    //
    // as desired.
    let mut incoming: Vec<ConfChangeSingle> = Vec::new();
    let mut outgoing: Vec<ConfChangeSingle> = Vec::new();
    // If there are outgoing voters, first add them one by one so that the
    // (non-joint) config has them all.
    push_changes(&mut outgoing, &cs.voters_outgoing, ConfChangeType::AddNode);
    // We're done constructing the outgoing slice, now on to the incoming one
    // (which will apply on top of the config created by the outgoing slice).
    // First, we'll remove all of the outgoing voters.
    push_changes(&mut incoming, &cs.voters_outgoing, ConfChangeType::RemoveNode);
    // Then we'll add the incoming voters and learners.
    push_changes(&mut incoming, &cs.voters, ConfChangeType::AddNode);
    push_changes(&mut incoming, &cs.learners, ConfChangeType::AddLearnerNode);
    // Same for LearnersNext; these are nodes we want to be learners but which
    // are currently voters in the outgoing config.
    push_changes(&mut incoming, &cs.learners_next, ConfChangeType::AddLearnerNode);
    (outgoing, incoming)
}

/// Adding each id of a list as a voter puts them all in the incoming half
/// and leaves none of them a learner.
pub proof fn lemma_voters_added(conf: ConfView, ids: Seq<u64>)
    ensures
        applied_all(conf, changes_of(ids, ConfChangeType::AddNode)) == (ConfView {
            incoming: conf.incoming.union(ids.to_set()),
            learners: conf.learners.difference(ids.to_set()),
            ..conf
        }),
    decreases ids.len(),
{
    if ids.len() > 0 {
        let rest = ids.drop_last();
        lemma_voters_added(conf, rest);
        assert(changes_of(ids, ConfChangeType::AddNode).drop_last() =~= changes_of(
            rest,
            ConfChangeType::AddNode,
        ));
        assert(ids =~= rest.push(ids.last()));
        rest.lemma_push_to_set_commute(ids.last());
    }
}

/// Removing each id of a list leaves none of them a voter of the incoming
/// half or a learner.
pub proof fn lemma_nodes_removed(conf: ConfView, ids: Seq<u64>)
    ensures
        applied_all(conf, changes_of(ids, ConfChangeType::RemoveNode)) == (ConfView {
            incoming: conf.incoming.difference(ids.to_set()),
            learners: conf.learners.difference(ids.to_set()),
            ..conf
        }),
    decreases ids.len(),
{
    if ids.len() > 0 {
        let rest = ids.drop_last();
        lemma_nodes_removed(conf, rest);
        assert(changes_of(ids, ConfChangeType::RemoveNode).drop_last() =~= changes_of(
            rest,
            ConfChangeType::RemoveNode,
        ));
        assert(ids =~= rest.push(ids.last()));
        rest.lemma_push_to_set_commute(ids.last());
    }
}

/// Adding each id of a list as a learner makes them all learners and leaves
/// none of them a voter of the incoming half.
pub proof fn lemma_learners_added(conf: ConfView, ids: Seq<u64>)
    ensures
        applied_all(conf, changes_of(ids, ConfChangeType::AddLearnerNode)) == (ConfView {
            incoming: conf.incoming.difference(ids.to_set()),
            learners: conf.learners.union(ids.to_set()),
            ..conf
        }),
    decreases ids.len(),
{
    if ids.len() > 0 {
        let rest = ids.drop_last();
        lemma_learners_added(conf, rest);
        assert(changes_of(ids, ConfChangeType::AddLearnerNode).drop_last() =~= changes_of(
            rest,
            ConfChangeType::AddLearnerNode,
        ));
        assert(ids =~= rest.push(ids.last()));
        rest.lemma_push_to_set_commute(ids.last());
    }
}

/// The changes compiled from a description lead, from nothing, to the
/// membership that it names: the outgoing half holds the outgoing voters,
/// the incoming half the new voters, and the learners are those that are
/// learners already and those that will be. This asks that no new voter is
/// named as a learner too.
pub proof fn lemma_restored_as_described(cs: ConfState)
    requires
        cs.roles_disjoint(),
    ensures
        cs.restored() == cs.described(),
{
    let old_voters = cs.voters_outgoing@;
    let rebuilt = applied_all(empty_conf(), cs.outgoing_changes());
    lemma_voters_added(empty_conf(), old_voters);
    let joint = joint_entered(rebuilt);
    let removes = changes_of(old_voters, ConfChangeType::RemoveNode);
    let adds = changes_of(cs.voters@, ConfChangeType::AddNode);
    let learners = changes_of(cs.learners@, ConfChangeType::AddLearnerNode);
    let learners_next = changes_of(cs.learners_next@, ConfChangeType::AddLearnerNode);
    lemma_applied_all_concat(joint, removes + adds + learners, learners_next);
    lemma_applied_all_concat(joint, removes + adds, learners);
    lemma_applied_all_concat(joint, removes, adds);
    let cleared = applied_all(joint, removes);
    lemma_nodes_removed(joint, old_voters);
    let voting = applied_all(cleared, adds);
    lemma_voters_added(cleared, cs.voters@);
    let learning = applied_all(voting, learners);
    lemma_learners_added(voting, cs.learners@);
    lemma_learners_added(learning, cs.learners_next@);
}

/// The changes compiled from any description lead to a membership in which
/// no learner is a voter of the incoming half.
pub proof fn lemma_restored_roles_apart(cs: ConfState)
    ensures
        roles_apart(cs.restored()),
{
    lemma_changes_keep_roles_apart(empty_conf(), cs.outgoing_changes());
    lemma_changes_keep_roles_apart(
        joint_entered(applied_all(empty_conf(), cs.outgoing_changes())),
        cs.incoming_changes(),
    );
}

/// No list of changes makes a learner of a voter of the incoming half
/// without taking its vote.
pub proof fn lemma_changes_keep_roles_apart(conf: ConfView, changes: Seq<ConfChangeSingle>)
    requires
        roles_apart(conf),
    ensures
        roles_apart(applied_all(conf, changes)),
    decreases changes.len(),
{
    if changes.len() > 0 {
        lemma_changes_keep_roles_apart(conf, changes.drop_last());
        lemma_applied_keeps_roles_apart(applied_all(conf, changes.drop_last()), changes.last());
    }
}

/// Sets the membership of `tracker` to the one that `cs` describes, by the
/// changes compiled from it: first those that rebuild the outgoing voters,
/// then, after the entry into the joint configuration, the incoming ones.
pub fn restore(tracker: &mut ProgressTracker, cs: &ConfState)
    ensures
        final(tracker)@ == (TrackerView { conf: cs.restored(), ..old(tracker)@ }),
        roles_apart(final(tracker)@.conf),
        cs.roles_disjoint() ==> final(tracker)@.conf == cs.described(),
        cs.roles_disjoint() && cs.no_demotion() ==> final(tracker)@.conf.learners_apart(),
{
    let (outgoing, incoming) = to_conf_change_single(cs);
    let mut conf = Configuration::with_capacity(cs.voters.len(), cs.learners.len());
    apply_all(&mut conf, &outgoing);
    enter_joint(&mut conf);
    apply_all(&mut conf, &incoming);
    tracker.conf = conf;
    proof {
        lemma_restored_roles_apart(*cs);
        if cs.roles_disjoint() {
            lemma_restored_as_described(*cs);
        }
    }
}

} // verus!
