use core::future::Future;
use core::pin::Pin;
use core::task::{Context, Poll};
use vstd::prelude::*;

use crate::list::{At, Empty, FutList, SlotList};
use crate::{Group, ReadyOrNot};

verus! {

/// std's `Context`, the state that a future is polled with; nothing here looks inside it.
#[verifier::external_type_specification]
#[verifier::external_body]
pub struct ExContext<'a>(Context<'a>);

/// std's `Poll`, the outcome of one poll of a future, with its two variants.
#[verifier::external_type_specification]
#[verifier::reject_recursive_types(T)]
pub struct ExPoll<T>(Poll<T>);

/// std's `Pin`, a pinned pointer; nothing here looks inside it.
#[verifier::external_type_specification]
#[verifier::external_body]
#[verifier::reject_recursive_types(P)]
pub struct ExPin<P>(Pin<P>);

/// Relies on `Pin::get_mut`: unwraps a pinned reference to a type that does not care about
/// pinning. Nothing is stated of the reference it gives.
pub assume_specification<'a, T: ?Sized + Unpin>[ Pin::<&'a mut T>::get_mut ](
    pin: Pin<&'a mut T>,
) -> &'a mut T;

/// Relies on `Future::poll`, through `Pin::new`, to poll a future that does not care about
/// pinning once. What it returns is up to the future.
#[verifier::external_body]
fn poll_unpin<F: Future + Unpin>(fut: &mut F, cx: &mut Context<'_>) -> (r: Poll<F::Output>) {
    Pin::new(fut).poll(cx)
}

impl<F: Future> ReadyOrNot<F> {
    /// Records what one poll of the held future returned: a finished future is replaced by its
    /// output.
    pub fn record_poll(&mut self, outcome: Poll<F::Output>)
        requires
            *old(self) is Not,
        ensures
            *final(self) == (match outcome {
                Poll::Ready(v) => ReadyOrNot::Ready(v),
                Poll::Pending => *old(self),
            }),
    {
        if let Poll::Ready(v) = outcome {
            *self = ReadyOrNot::Ready(v);
        }
    }

    /// Polls the held future once, if it has not finished yet.
    fn poll_slot(&mut self, cx: &mut Context<'_>)
        where
            F: Unpin,
        ensures
            *old(self) is Ready ==> *final(self) == *old(self),
    {
        if let ReadyOrNot::Not(fut) = self {
            let outcome = poll_unpin(fut, cx);
            self.record_poll(outcome);
        }
    }
}

/// Polls each background future of a list once.
pub trait DriveWaitFor: SlotList + Sized {
    /// `self` is what polling may have made of `before`: the same slots, each finished one
    /// untouched.
    spec fn advanced_from(&self, before: &Self) -> bool;

    /// Polling keeps the number of slots, and a finished slot stays finished.
    proof fn lemma_advanced_keeps_completed(&self, before: &Self)
        requires
            self.advanced_from(before),
        ensures
            self.completed().len() == before.completed().len(),
            forall|i: int|
                0 <= i < before.completed().len() && #[trigger] before.completed()[i]
                    ==> self.completed()[i],
    ;

    /// A list that is not polled at all is what polling may make of it.
    proof fn lemma_advanced_reflexive(&self)
        ensures
            self.advanced_from(self),
    ;

    /// Two rounds of polling are again what polling may make of a list.
    proof fn lemma_advanced_transitive(&self, mid: &Self, before: &Self)
        requires
            mid.advanced_from(before),
            self.advanced_from(mid),
        ensures
            self.advanced_from(before),
    ;

    /// Polls every unfinished future of the list once, head first, storing each output that comes.
    fn poll_once(&mut self, cx: &mut Context<'_>)
        ensures
            final(self).advanced_from(old(self)),
            final(self).completed().len() == old(self).completed().len(),
            forall|i: int|
                0 <= i < old(self).completed().len() && #[trigger] old(self).completed()[i]
                    ==> final(self).completed()[i],
    ;
}

impl DriveWaitFor for Empty {
    open(crate) spec fn advanced_from(&self, before: &Self) -> bool {
        true
    }

    proof fn lemma_advanced_keeps_completed(&self, before: &Self) {
    }

    proof fn lemma_advanced_reflexive(&self) {
    }

    proof fn lemma_advanced_transitive(&self, mid: &Self, before: &Self) {
    }

    fn poll_once(&mut self, cx: &mut Context<'_>) {
    }
}

impl<F: Future + Unpin, T: DriveWaitFor> DriveWaitFor for At<F, T> {
    open(crate) spec fn advanced_from(&self, before: &Self) -> bool {
        &&& (before.node is Ready ==> self.node == before.node)
        &&& self.tail.advanced_from(&before.tail)
    }

    proof fn lemma_advanced_keeps_completed(&self, before: &Self) {
        self.tail.lemma_advanced_keeps_completed(&before.tail);
        assert forall|i: int|
            0 <= i < before.completed().len() && #[trigger] before.completed()[i]
                implies self.completed()[i] by {
            if i > 0 {
                assert(before.completed()[i] == before.tail.completed()[i - 1]);
                assert(self.completed()[i] == self.tail.completed()[i - 1]);
            }
        }
    }

    proof fn lemma_advanced_reflexive(&self) {
        self.tail.lemma_advanced_reflexive();
    }

    proof fn lemma_advanced_transitive(&self, mid: &Self, before: &Self) {
        self.tail.lemma_advanced_transitive(&mid.tail, &before.tail);
    }

    fn poll_once(&mut self, cx: &mut Context<'_>) {
        self.node.poll_slot(cx);
        self.tail.poll_once(cx);
        proof {
            self.lemma_advanced_keeps_completed(old(self));
        }
    }
}

/// Future type for the `Group::wait_for` method: awaits `driving_fut` while polling the group's
/// background futures.
#[derive(Debug, PartialEq, Eq, PartialOrd, Ord)]
pub struct WaitFor<'group, F, List> {
    /// The future being awaited.
    pub driving_fut: F,
    /// The group's background futures, borrowed for as long as the wait lasts.
    pub async_let_group: &'group mut List,
}

impl<'group, F, List> WaitFor<'group, F, List> {
    /// The future being awaited.
    pub open spec fn primary(&self) -> F {
        self.driving_fut
    }

    /// The background futures as they stand.
    pub open spec fn group(&self) -> List {
        *self.async_let_group
    }
}

impl<'group, F: Future + Unpin, List: FutList> WaitFor<'group, F, List> {
    /// Finishes a turn, given what the poll of the awaited future returned: the background
    /// futures are polled once, with the same context, whether or not the awaited future has
    /// finished, and its outcome is handed on unchanged.
    pub fn finish_turn(&mut self, primary: Poll<F::Output>, cx: &mut Context<'_>) -> (r: Poll<
        F::Output,
    >)
        ensures
            r == primary,
            final(self).primary() == old(self).primary(),
            final(self).group().advanced_from(&old(self).group()),
    {
        self.async_let_group.poll_once(cx);
        primary
    }

    /// One turn: polls the awaited future once, then each unfinished background future once.
    pub fn poll_turn(&mut self, cx: &mut Context<'_>) -> (r: Poll<F::Output>)
        ensures
            final(self).group().advanced_from(&old(self).group()),
    {
        let primary = poll_unpin(&mut self.driving_fut, cx);
        self.finish_turn(primary, cx)
    }
}

/// The group is held by reference, so a `WaitFor` may move whenever the awaited future may.
impl<'group, F: Unpin, List> Unpin for WaitFor<'group, F, List> {}

impl<'group, F: Future + Unpin, List: FutList> Future for WaitFor<'group, F, List> {
    type Output = F::Output;

    fn poll(self: Pin<&mut Self>, cx: &mut Context<'_>) -> Poll<F::Output> {
        let this = Pin::get_mut(self);
        this.poll_turn(cx)
    }
}

/// Future type for `ReadyOrNot::output`: the output of a detached slot, by driving its future to
/// completion or by unwrapping the output it already holds.
pub struct SlotOutput<F: Future> {
    pub(crate) slot: Option<ReadyOrNot<F>>,
}

impl<F: Future> SlotOutput<F> {
    /// The slot still to be turned into an output; `None` once the output has been handed out.
    pub open(crate) spec fn slot(&self) -> Option<ReadyOrNot<F>> {
        self.slot
    }
}

impl<F: Future + Unpin> SlotOutput<F> {
    /// Finishes a turn, given the future taken out of the slot and what its poll returned: an
    /// output is handed out, a pending future goes back into the slot.
    pub fn finish_turn(&mut self, fut: F, outcome: Poll<F::Output>) -> (r: Poll<F::Output>)
        requires
            old(self).slot() is None,
        ensures
            r == outcome,
            final(self).slot() == (match outcome {
                Poll::Ready(_) => None,
                Poll::Pending => Some(ReadyOrNot::Not(fut)),
            }),
    {
        if let Poll::Pending = outcome {
            self.slot = Some(ReadyOrNot::Not(fut));
        }
        outcome
    }

    /// One turn: a finished slot hands out its output at once; an unfinished one polls its
    /// future once. Once the output is handed out, every further turn is pending.
    pub fn poll_turn(&mut self, cx: &mut Context<'_>) -> (r: Poll<F::Output>)
        ensures
            match old(self).slot() {
                None => r is Pending && final(self).slot() is None,
                Some(ReadyOrNot::Ready(v)) => r == Poll::Ready(v) && final(self).slot() is None,
                Some(ReadyOrNot::Not(_)) => match r {
                    Poll::Ready(_) => final(self).slot() is None,
                    Poll::Pending => final(self).slot() matches Some(ReadyOrNot::Not(_)),
                },
            },
    {
        match self.slot.take() {
            None => Poll::Pending,
            Some(ReadyOrNot::Ready(v)) => Poll::Ready(v),
            Some(ReadyOrNot::Not(fut)) => {
                let mut fut = fut;
                let outcome = poll_unpin(&mut fut, cx);
                self.finish_turn(fut, outcome)
            }
        }
    }
}

impl<F: Future + Unpin> Unpin for SlotOutput<F> {}

impl<F: Future + Unpin> Future for SlotOutput<F> {
    type Output = F::Output;

    fn poll(self: Pin<&mut Self>, cx: &mut Context<'_>) -> Poll<F::Output> {
        let this = Pin::get_mut(self);
        this.poll_turn(cx)
    }
}

/// Future type for `Group::detach_and_wait_for`: drives a detached future to completion while
/// still driving the background futures of the group that remains, and hands back both.
pub struct DetachAndWaitFor<F: Future, Rest> {
    pub(crate) output: SlotOutput<F>,
    pub(crate) group: Option<Group<Rest>>,
}

impl<F: Future, Rest> DetachAndWaitFor<F, Rest> {
    /// The detached slot still to be turned into an output.
    pub open(crate) spec fn detached(&self) -> Option<ReadyOrNot<F>> {
        self.output.slot
    }

    /// The group that remains; `None` once it has been handed back.
    pub open(crate) spec fn remaining(&self) -> Option<Group<Rest>> {
        self.group
    }
}

impl<F: Future + Unpin, Rest: FutList> DetachAndWaitFor<F, Rest> {
    /// Finishes a turn, given the remaining group and what the detached future's turn returned:
    /// an output is handed out together with the group, else the group is kept for the next turn.
    pub fn finish_turn(&mut self, group: Group<Rest>, outcome: Poll<F::Output>) -> (r: Poll<
        (F::Output, Group<Rest>),
    >)
        requires
            old(self).remaining() is None,
        ensures
            final(self).detached() == old(self).detached(),
            match outcome {
                Poll::Ready(v) => r == Poll::Ready((v, group)) && final(self).remaining() is None,
                Poll::Pending => r is Pending && final(self).remaining() == Some(group),
            },
    {
        match outcome {
            Poll::Ready(v) => Poll::Ready((v, group)),
            Poll::Pending => {
                self.group = Some(group);
                Poll::Pending
            },
        }
    }

    /// One turn: takes one turn of the detached future, then polls every unfinished background
    /// future of the remaining group once, with the same context.
    pub fn poll_turn(&mut self, cx: &mut Context<'_>) -> (r: Poll<(F::Output, Group<Rest>)>)
        ensures
            old(self).remaining() is None ==> r is Pending && final(self).remaining() is None,
            old(self).remaining() is Some ==> match r {
                Poll::Ready((_, g)) => {
                    &&& g.slots().advanced_from(&old(self).remaining().unwrap().slots())
                    &&& final(self).remaining() is None
                    &&& final(self).detached() is None
                },
                Poll::Pending => {
                    &&& final(self).remaining() is Some
                    &&& final(self).remaining().unwrap().slots().advanced_from(
                        &old(self).remaining().unwrap().slots(),
                    )
                },
            },
            old(self).detached() matches Some(ReadyOrNot::Ready(_)) && old(self).remaining() is Some
                ==> r is Ready,
    {
        match self.group.take() {
            None => Poll::Pending,
            Some(group) => {
                let mut group = group;
                let outcome = self.output.poll_turn(cx);
                group.fut_list.poll_once(cx);
                self.finish_turn(group, outcome)
            },
        }
    }
}

impl<F: Future + Unpin, Rest> Unpin for DetachAndWaitFor<F, Rest> {}

impl<F: Future + Unpin, Rest: FutList> Future for DetachAndWaitFor<F, Rest> {
    type Output = (F::Output, Group<Rest>);

    fn poll(self: Pin<&mut Self>, cx: &mut Context<'_>) -> Poll<(F::Output, Group<Rest>)> {
        let this = Pin::get_mut(self);
        this.poll_turn(cx)
    }
}

} // verus!
