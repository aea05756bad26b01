use vstd::prelude::*;
use crate::error::SerializeError;
use crate::node::NodeView;

verus! {

/// The outcome of rendering something: its tree, or why there is none.
pub type Outcome = Result<NodeView, SerializeError>;

/// Whether `i` is the first position of `outcomes` that holds a failure.
pub open spec fn is_first_failure(outcomes: Seq<Outcome>, i: int) -> bool {
    &&& 0 <= i < outcomes.len()
    &&& outcomes[i] is Err
    &&& forall|j: int| 0 <= j < i ==> (#[trigger] outcomes[j]) is Ok
}

/// The outcome of a pass over items that are rendered one after the other:
/// every tree in order if no item fails, and otherwise the failure of the
/// first item that fails, with nothing of the others.
pub open spec fn collect(outcomes: Seq<Outcome>) -> Result<Seq<NodeView>, SerializeError> {
    if forall|i: int| 0 <= i < outcomes.len() ==> (#[trigger] outcomes[i]) is Ok {
        Ok(Seq::new(outcomes.len(), |i: int| outcomes[i]->Ok_0))
    } else {
        Err(outcomes[choose|i: int| is_first_failure(outcomes, i)]->Err_0)
    }
}

/// A pass that meets its first failure at `i` ends with that failure.
pub proof fn lemma_collect_fails_at(outcomes: Seq<Outcome>, i: int)
    requires
        is_first_failure(outcomes, i),
    ensures
        collect(outcomes) == Err::<Seq<NodeView>, SerializeError>(outcomes[i]->Err_0),
{
    let k = choose|k: int| is_first_failure(outcomes, k);
    assert(is_first_failure(outcomes, k));
    if k < i {
        assert(outcomes[k] is Ok);
    } else if i < k {
        assert(outcomes[i] is Ok);
    }
}

/// A pass over items ends well exactly if every item does, and then holds
/// the tree of each item at the item's place.
pub proof fn lemma_collect_ok(outcomes: Seq<Outcome>)
    ensures
        collect(outcomes) is Ok <==> forall|i: int|
            0 <= i < outcomes.len() ==> (#[trigger] outcomes[i]) is Ok,
        collect(outcomes) matches Ok(nodes) ==> {
            &&& nodes.len() == outcomes.len()
            &&& forall|i: int|
                0 <= i < outcomes.len() ==> #[trigger] outcomes[i] == Ok::<
                    NodeView,
                    SerializeError,
                >(nodes[i])
        },
{
}

/// Before any failure of a pass there is a first one.
pub proof fn lemma_first_failure_exists(outcomes: Seq<Outcome>, i: int)
    requires
        0 <= i < outcomes.len(),
        outcomes[i] is Err,
    ensures
        exists|k: int| 0 <= k <= i && is_first_failure(outcomes, k),
    decreases i,
{
    if exists|j: int| 0 <= j < i && (#[trigger] outcomes[j]) is Err {
        let j = choose|j: int| 0 <= j < i && (#[trigger] outcomes[j]) is Err;
        lemma_first_failure_exists(outcomes, j);
    } else {
        assert(is_first_failure(outcomes, i));
    }
}

/// A pass that fails reports the failure of the first item that fails.
pub proof fn lemma_collect_err(outcomes: Seq<Outcome>)
    requires
        collect(outcomes) is Err,
    ensures
        exists|k: int| is_first_failure(outcomes, k) && collect(outcomes)
            == Err::<Seq<NodeView>, SerializeError>(outcomes[k]->Err_0),
{
    let i = choose|i: int| 0 <= i < outcomes.len() && !((#[trigger] outcomes[i]) is Ok);
    lemma_first_failure_exists(outcomes, i);
    let k = choose|k: int| 0 <= k <= i && is_first_failure(outcomes, k);
    lemma_collect_fails_at(outcomes, k);
}

} // verus!
