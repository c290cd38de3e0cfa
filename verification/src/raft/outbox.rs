//! Filling the outbound queue: one copy of a message for each of a set of
//! replicas.

use crate::message::Message;
use crate::raft::transitions::{extends_by_broadcast, recipients};
use std::collections::HashSet;
use vstd::prelude::*;
use vstd::std_specs::iter::IteratorSpec;

verus! {

broadcast use vstd::std_specs::hash::group_hash_axioms;

/// The ids up to and with the one at `i` of a list without duplicates are
/// those before it and that one, which is none of those before it.
proof fn lemma_take_next(ids: Seq<u64>, i: int)
    requires
        ids.no_duplicates(),
        0 <= i < ids.len(),
    ensures
        ids.take(i + 1).to_set() == ids.take(i).to_set().insert(ids[i]),
        !ids.take(i).to_set().contains(ids[i]),
{
    assert(ids.take(i + 1) =~= ids.take(i).push(ids[i]));
    ids.take(i).lemma_push_to_set_commute(ids[i]);
    if ids.take(i).to_set().contains(ids[i]) {
        let j = choose|j: int| 0 <= j < i && ids.take(i)[j] == ids[i];
        assert(ids[j] == ids[i]);
    }
}

/// Two broadcasts in a row, to disjoint sets of peers, are one broadcast to
/// all of them.
pub(crate) proof fn lemma_broadcast_twice(
    before: Seq<Message>,
    between: Seq<Message>,
    after: Seq<Message>,
    first: Set<u64>,
    second: Set<u64>,
    template: Message,
)
    requires
        extends_by_broadcast(before, between, first, template),
        extends_by_broadcast(between, after, second, template),
        first.disjoint(second),
    ensures
        extends_by_broadcast(before, after, first.union(second), template),
{
    let one = between.skip(before.len() as int);
    let two = after.skip(between.len() as int);
    let both = after.skip(before.len() as int);
    assert(after.take(before.len() as int) =~= before);
    assert(both =~= one + two);
    assert(recipients(both) =~= recipients(one) + recipients(two));
    assert forall|i: int, j: int|
        0 <= i < recipients(one).len() && 0 <= j < recipients(two).len() implies recipients(
        one,
    )[i] != recipients(two)[j] by {
        assert(first.contains(recipients(one)[i]));
        assert(second.contains(recipients(two)[j]));
    }
    vstd::seq_lib::lemma_no_dup_in_concat(recipients(one), recipients(two));
    vstd::seq_lib::seq_to_set_distributes_over_add(recipients(one), recipients(two));
}

/// The ids of a set that is held in memory are finitely many.
pub proof fn lemma_ids_finite(ids: &HashSet<u64>)
    ensures
        ids@.finite(),
{
    let listed = vstd::std_specs::hash::spec_hash_keys_iter(ids).remaining().unref();
    vstd::seq_lib::seq_to_set_is_finite(listed);
}

/// Puts one copy of `template` at the end of `msgs` for each of `targets`
/// that is neither the node itself nor one of `served`.
pub(crate) fn send_to_each(
    msgs: &mut Vec<Message>,
    targets: &HashSet<u64>,
    served: Option<&HashSet<u64>>,
    self_id: u64,
    template: Message,
)
    ensures
        extends_by_broadcast(
            old(msgs)@,
            final(msgs)@,
            targets@.difference(
                match served {
                    Some(ids) => ids@,
                    None => Set::empty(),
                },
            ).remove(self_id),
            template,
        ),
{
    let ghost before = msgs@;
    let ghost skipped = match served {
        Some(ids) => ids@,
        None => Set::<u64>::empty(),
    };
    let ghost ids = vstd::std_specs::hash::spec_hash_keys_iter(targets).remaining().unref();
    let ghost mut tos: Seq<u64> = Seq::empty();
    for id in it: targets.iter()
        invariant
            it.seq().unref() == ids,
            ids.no_duplicates(),
            ids.to_set() == targets@,
            skipped == match served {
                Some(ids) => ids@,
                None => Set::<u64>::empty(),
            },
            msgs@.len() == before.len() + tos.len(),
            msgs@.take(before.len() as int) == before,
            forall|i: int|
                0 <= i < tos.len() ==> #[trigger] msgs@[before.len() + i] == (Message {
                    to: tos[i],
                    ..template
                }),
            tos.no_duplicates(),
            tos.to_set() == ids.take(it.index()).to_set().difference(skipped).remove(self_id),
    {
        proof {
            lemma_take_next(ids, it.index());
        }
        let is_served = match served {
            Some(ids) => ids.contains(id),
            None => false,
        };
        if *id != self_id && !is_served {
            let m = Message { to: *id, ..template };
            msgs.push(m);
            proof {
                assert(!tos.to_set().contains(*id));
                tos.lemma_push_to_set_commute(*id);
                tos = tos.push(*id);
            }
        }
    }
    proof {
        assert(ids.take(ids.len() as int) =~= ids);
        let batch = msgs@.skip(before.len() as int);
        assert forall|i: int| 0 <= i < batch.len() implies batch[i].to == tos[i] by {
            assert(batch[i] == msgs@[before.len() + i]);
        }
        assert(recipients(batch) =~= tos);
        assert forall|i: int| 0 <= i < batch.len() implies #[trigger] batch[i] == (Message {
            to: batch[i].to,
            ..template
        }) by {
            assert(batch[i] == msgs@[before.len() + i]);
        }
    }
}

} // verus!
