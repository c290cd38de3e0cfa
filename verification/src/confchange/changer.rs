use crate::confchange::{ConfChangeSingle, ConfChangeType};
use crate::quorum::majority::clone_ids;
use crate::tracker::{ConfView, Configuration};
use vstd::prelude::*;

verus! {

broadcast use vstd::std_specs::hash::group_hash_axioms;

/// The membership after one change: the node that it names becomes a voter
/// of the incoming half, a learner, or neither, and is nothing else beside.
/// The outgoing half is not touched.
pub open spec fn applied(conf: ConfView, change: ConfChangeSingle) -> ConfView {
    match change.change_type {
        ConfChangeType::AddNode => ConfView {
            incoming: conf.incoming.insert(change.node_id),
            learners: conf.learners.remove(change.node_id),
            ..conf
        },
        ConfChangeType::RemoveNode => ConfView {
            incoming: conf.incoming.remove(change.node_id),
            learners: conf.learners.remove(change.node_id),
            ..conf
        },
        ConfChangeType::AddLearnerNode => ConfView {
            incoming: conf.incoming.remove(change.node_id),
            learners: conf.learners.insert(change.node_id),
            ..conf
        },
    }
}

/// The membership after the changes of a list, first to last.
pub open spec fn applied_all(conf: ConfView, changes: Seq<ConfChangeSingle>) -> ConfView
    decreases changes.len(),
{
    if changes.len() == 0 {
        conf
    } else {
        applied(applied_all(conf, changes.drop_last()), changes.last())
    }
}

/// The membership as a joint transition begins: the voters so far become the
/// outgoing half, and stay in the incoming half until changes remove them.
pub open spec fn joint_entered(conf: ConfView) -> ConfView {
    ConfView { outgoing: conf.incoming, ..conf }
}

/// No learner is a voter of the incoming half.
pub open spec fn roles_apart(conf: ConfView) -> bool {
    conf.incoming.disjoint(conf.learners)
}

/// No change makes a learner of a voter of the incoming half without
/// taking its vote, nor a voter of a learner without ending that.
pub proof fn lemma_applied_keeps_roles_apart(conf: ConfView, change: ConfChangeSingle)
    requires
        roles_apart(conf),
    ensures
        roles_apart(applied(conf, change)),
{
}

/// Applying one list of changes after another is applying the two as one.
pub proof fn lemma_applied_all_concat(
    conf: ConfView,
    first: Seq<ConfChangeSingle>,
    second: Seq<ConfChangeSingle>,
)
    ensures
        applied_all(conf, first + second) == applied_all(applied_all(conf, first), second),
    decreases second.len(),
{
    if second.len() > 0 {
        lemma_applied_all_concat(conf, first, second.drop_last());
        assert((first + second).drop_last() =~= first + second.drop_last());
    }
}

/// Applies one change to the configuration.
pub fn apply(conf: &mut Configuration, change: &ConfChangeSingle)
    ensures
        final(conf)@ == applied(old(conf)@, *change),
{
    let id = change.node_id;
    match change.change_type {
        ConfChangeType::AddNode => {
            conf.voters.incoming.voters.insert(id);
            conf.learners.remove(&id);
        },
        ConfChangeType::RemoveNode => {
            conf.voters.incoming.voters.remove(&id);
            conf.learners.remove(&id);
        },
        ConfChangeType::AddLearnerNode => {
            conf.voters.incoming.voters.remove(&id);
            conf.learners.insert(id);
        },
    }
}

/// Applies the changes of a list to the configuration, first to last.
pub fn apply_all(conf: &mut Configuration, changes: &Vec<ConfChangeSingle>)
    ensures
        final(conf)@ == applied_all(old(conf)@, changes@),
{
    let mut i: usize = 0;
    while i < changes.len()
        invariant
            i <= changes.len(),
            conf@ == applied_all(old(conf)@, changes@.take(i as int)),
        decreases changes.len() - i,
    {
        assert(changes@.take(i + 1).drop_last() =~= changes@.take(i as int));
        apply(conf, &changes[i]);
        i += 1;
    }
    assert(changes@.take(changes.len() as int) =~= changes@);
}

/// Begins a joint transition: the voters so far become the outgoing half.
pub fn enter_joint(conf: &mut Configuration)
    ensures
        final(conf)@ == joint_entered(old(conf)@),
{
    conf.voters.outgoing.voters = clone_ids(&conf.voters.incoming.voters);
}

} // verus!
