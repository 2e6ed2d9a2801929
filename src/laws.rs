use core::future::Future;
use vstd::prelude::*;

use crate::list::{At, Detach, SlotList, Z, S};
use crate::wait::DriveWaitFor;
use crate::{Group, ReadyOrNot};

verus! {

/// Detaching a future leaves every other slot of the list, in the same order: the remaining
/// list's completion flags are the old ones with the selected position taken out, and the
/// detached slot is the one at that position.
pub proof fn detach_keeps_order<L: Detach<F, I>, F: Future, I>(list: L)
    ensures
        L::index() < list.completed().len(),
        list.completed()[L::index() as int] == list.selected() is Ready,
        list.remainder().completed() == list.completed().remove(L::index() as int),
{
    list.lemma_remainder();
}

/// Detaching a future behind the head keeps the head slot itself in front, and takes the future
/// out of the slots behind it.
pub proof fn detach_behind_head_keeps_head<F: Future, I, H: Future, T: Detach<F, I>>(
    list: At<H, T>,
)
    ensures
        <At<H, T> as Detach<F, S<I>>>::selected(&list) == list.rest().selected(),
        <At<H, T> as Detach<F, S<I>>>::remainder(&list).head() == list.head(),
        <At<H, T> as Detach<F, S<I>>>::remainder(&list).rest() == list.rest().remainder(),
{
}

/// Attaching a future and detaching it again gives back the future, unpolled, and the group's
/// slots as they were.
pub proof fn attach_then_detach<F: Future, L: SlotList>(
    group: Group<L>,
    fut: F,
    attached: Group<At<F, L>>,
)
    requires
        attached.slots().head() == ReadyOrNot::Not(fut),
        attached.slots().rest() == group.slots(),
    ensures
        <At<F, L> as Detach<F, Z>>::selected(&attached.slots()) == ReadyOrNot::Not(fut),
        <At<F, L> as Detach<F, Z>>::remainder(&attached.slots()) == group.slots(),
{
}

/// Along any run of polls, each state being what polling may make of the one before, the last
/// state is what polling may make of the first: a finished slot keeps its output and never
/// becomes pending again, and no slot comes or goes.
pub proof fn polls_never_undo_completion<L: DriveWaitFor>(states: Seq<L>)
    requires
        states.len() > 0,
        forall|k: int| 0 < k < states.len() ==> #[trigger] states[k].advanced_from(&states[k - 1]),
    ensures
        states.last().advanced_from(&states[0]),
        states.last().completed().len() == states[0].completed().len(),
        forall|i: int|
            0 <= i < states[0].completed().len() && #[trigger] states[0].completed()[i]
                ==> states.last().completed()[i],
    decreases states.len(),
{
    if states.len() == 1 {
        states[0].lemma_advanced_reflexive();
    } else {
        let prefix = states.drop_last();
        assert(prefix[0] == states[0]);
        assert forall|k: int| 0 < k < prefix.len() implies #[trigger] prefix[k].advanced_from(
            &prefix[k - 1],
        ) by {
            assert(prefix[k] == states[k] && prefix[k - 1] == states[k - 1]);
        }
        polls_never_undo_completion(prefix);
        let n = states.len() - 1;
        assert(states[n].advanced_from(&states[n - 1]));
        states.last().lemma_advanced_transitive(&prefix.last(), &states[0]);
    }
    states.last().lemma_advanced_keeps_completed(&states[0]);
}

} // verus!
