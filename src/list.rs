use core::future::Future;
use core::marker::PhantomData;
use vstd::prelude::*;

use crate::wait::DriveWaitFor;
use crate::ReadyOrNot;

verus! {

/// A typed list of no background futures.
#[derive(Debug, Clone, Copy, PartialEq, Eq, PartialOrd, Ord)]
pub struct Empty {
    pub(crate) _priv: (),
}

/// A typed list of one or more background futures: a head slot and the rest.
#[derive(Debug, PartialEq, Eq, PartialOrd, Ord)]
pub struct At<F: Future, Tail> {
    pub(crate) node: ReadyOrNot<F>,
    pub(crate) tail: Tail,
    pub(crate) _holds_output: PhantomData<F::Output>,
}

impl<F: Future, Tail> At<F, Tail> {
    /// The head slot.
    pub open(crate) spec fn head(&self) -> ReadyOrNot<F> {
        self.node
    }

    /// The slots after the head.
    pub open(crate) spec fn rest(&self) -> Tail {
        self.tail
    }
}

/// Which slots of a list hold a finished future, head first.
pub trait SlotList {
    spec fn completed(&self) -> Seq<bool>;
}

impl SlotList for Empty {
    open(crate) spec fn completed(&self) -> Seq<bool> {
        Seq::empty()
    }
}

impl<F: Future, T: SlotList> SlotList for At<F, T> {
    open(crate) spec fn completed(&self) -> Seq<bool> {
        seq![self.node is Ready].add(self.tail.completed())
    }
}

/// A list of background futures that a group can drive.
pub trait FutList: DriveWaitFor {}

impl FutList for Empty {}

impl<F: Future + Unpin, T: FutList> FutList for At<F, T> {}

/// A marker type used for indexing futures in a group: the first future.
pub struct Z(());

/// A marker type used for indexing futures in a group: the next future.
pub struct S<I>(I);

/// The operation of detaching a future of type `F` at index `I`.
pub trait Detach<F: Future, I>: SlotList + Sized {
    /// The list that remains after detaching the future.
    type Output: SlotList;

    /// The position that `I` selects, counted from the head.
    spec fn index() -> nat;

    /// The slot at that position.
    spec fn selected(&self) -> ReadyOrNot<F>;

    /// The list without that slot.
    spec fn remainder(&self) -> Self::Output;

    /// The selected slot is there, and taking it out leaves the other slots in their order.
    proof fn lemma_remainder(&self)
        ensures
            Self::index() < self.completed().len(),
            self.completed()[Self::index() as int] == self.selected() is Ready,
            self.remainder().completed() == self.completed().remove(Self::index() as int),
    ;

    /// Detaches the future at index `I`.
    fn detach(self) -> (r: (ReadyOrNot<F>, Self::Output))
        ensures
            r.0 == self.selected(),
            r.1 == self.remainder(),
    ;
}

impl<F: Future, T: SlotList> Detach<F, Z> for At<F, T> {
    type Output = T;

    open(crate) spec fn index() -> nat {
        0
    }

    open(crate) spec fn selected(&self) -> ReadyOrNot<F> {
        self.node
    }

    open(crate) spec fn remainder(&self) -> T {
        self.tail
    }

    proof fn lemma_remainder(&self) {
        assert(self.completed().remove(0) =~= <Self as Detach<F, Z>>::remainder(self).completed());
    }

    fn detach(self) -> (r: (ReadyOrNot<F>, T)) {
        (self.node, self.tail)
    }
}

impl<F: Future, I, H: Future, T: Detach<F, I>> Detach<F, S<I>> for At<H, T> {
    type Output = At<H, T::Output>;

    open(crate) spec fn index() -> nat {
        T::index() + 1
    }

    open(crate) spec fn selected(&self) -> ReadyOrNot<F> {
        self.tail.selected()
    }

    open(crate) spec fn remainder(&self) -> At<H, T::Output> {
        At { node: self.node, tail: self.tail.remainder(), _holds_output: PhantomData }
    }

    proof fn lemma_remainder(&self) {
        self.tail.lemma_remainder();
        let i = <Self as Detach<F, S<I>>>::index() as int;
        assert(<Self as Detach<F, S<I>>>::remainder(self).completed() =~= self.completed().remove(i));
    }

    fn detach(self) -> (r: (ReadyOrNot<F>, At<H, T::Output>)) {
        let (val, tail) = self.tail.detach();
        (val, At { node: self.node, tail, _holds_output: PhantomData })
    }
}

} // verus!
