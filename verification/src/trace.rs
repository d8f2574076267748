//! Sequences of events.

use vstd::prelude::*;

verus! {

/// None of `events` is of this kind.
pub open spec fn none_is<T>(events: Seq<T>, kind: spec_fn(T) -> bool) -> bool {
    forall|k: int| 0 <= k < events.len() ==> !kind(#[trigger] events[k])
}

/// If none of `events` is of a kind, the last one is not, and none of those before it.
pub proof fn lemma_none_is_before<T>(events: Seq<T>, kind: spec_fn(T) -> bool)
    requires
        events.len() > 0,
        none_is(events, kind),
    ensures
        none_is(events.drop_last(), kind),
        !kind(events.last()),
{
    assert forall|k: int| 0 <= k < events.drop_last().len() implies !kind(
        #[trigger] events.drop_last()[k],
    ) by {
        assert(events.drop_last()[k] == events[k]);
    }
}

} // verus!
