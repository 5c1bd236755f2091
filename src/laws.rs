use vstd::prelude::*;
use crate::item::ItemModel;
use crate::store::{ids_unique, run, step, Op};

verus! {

/// No request ever makes two items share a key.
pub proof fn lemma_step_keeps_ids_unique(s: Seq<ItemModel>, op: Op)
    requires
        ids_unique(s),
    ensures
        ids_unique(step(s, op)),
{
}

/// After any sequence of requests, applied in order to a list whose keys
/// are unique, the keys are still unique.
pub proof fn lemma_run_keeps_ids_unique(s: Seq<ItemModel>, ops: Seq<Op>)
    requires
        ids_unique(s),
    ensures
        ids_unique(run(s, ops)),
    decreases ops.len(),
{
    if ops.len() > 0 {
        lemma_step_keeps_ids_unique(s, ops[0]);
        lemma_run_keeps_ids_unique(step(s, ops[0]), ops.drop_first());
    }
}

/// A list on which no request has been made is the list it started with.
pub proof fn lemma_no_requests_round_trip(s: Seq<ItemModel>)
    ensures
        run(s, Seq::<Op>::empty()) == s,
{
}

} // verus!
