use core::future::Future;
use core::marker::PhantomData;
use vstd::prelude::*;

use list::{At, Detach, Empty, SlotList};
use wait::{DetachAndWaitFor, SlotOutput, WaitFor};

/// Facts about groups and lists of futures that hold across several operations.
pub mod laws;
/// Types and traits for interacting with a group of futures.
pub mod list;
/// Driving the background futures while another future is awaited.
pub mod wait;

verus! {

/// This type holds a future that has been detached from a group.
#[derive(Debug, PartialEq, Eq, PartialOrd, Ord)]
pub enum ReadyOrNot<F: Future> {
    /// The future has run to completion: its output.
    Ready(F::Output),
    /// The future has not run to completion yet: the future itself.
    Not(F),
}

impl<F: Future> ReadyOrNot<F> {
    /// The output of the future, either by driving the contained future to completion or by
    /// unwrapping the output it holds. This does not drive the background futures of a group:
    /// `Group::detach_and_wait_for` does.
    pub fn output(self) -> (r: SlotOutput<F>)
        ensures
            r.slot() == Some(self),
    {
        SlotOutput { slot: Some(self) }
    }
}

/// A typed handle representing a specific future type in a group. A handle can be redeemed for
/// the future it represents by passing it to `Group::detach`.
#[derive(Debug)]
pub struct Handle<F> {
    _ph: PhantomData<F>,
}

/// A fixed, statically typed set of background futures that are driven whenever a future is
/// awaited through the group.
#[derive(Debug, Clone, Copy, PartialEq, Eq, PartialOrd, Ord)]
pub struct Group<List> {
    pub(crate) fut_list: List,
}

impl<List> Group<List> {
    /// The list of slots that the group holds.
    pub open(crate) spec fn slots(&self) -> List {
        self.fut_list
    }
}

impl Group<Empty> {
    /// Constructs a new group with no attached futures.
    pub fn new() -> (r: Self)
        ensures
            r.slots().completed() == Seq::<bool>::empty(),
    {
        Group { fut_list: Empty { _priv: () } }
    }
}

impl<List> Group<List> {
    /// Adds a future to the group's background futures, as a pending slot at the head of the
    /// list, and returns a handle for detaching it later. Nothing is polled.
    pub fn attach<F: Future + Unpin>(self, fut: F) -> (r: (Handle<F>, Group<At<F, List>>))
        ensures
            r.1.slots().head() == ReadyOrNot::Not(fut),
            r.1.slots().rest() == self.slots(),
    {
        (
            Handle { _ph: PhantomData },
            Group {
                fut_list: At {
                    node: ReadyOrNot::Not(fut),
                    tail: self.fut_list,
                    _holds_output: PhantomData,
                },
            },
        )
    }

    /// Removes the future that the index `I` selects from the group, and returns its slot as it
    /// stands (the future, or its output if it has finished) with the group of the other slots.
    /// Nothing is polled.
    pub fn detach<I, F: Future>(self, handle: Handle<F>) -> (r: (
        ReadyOrNot<F>,
        Group<List::Output>,
    ))
        where
            List: Detach<F, I>,
        ensures
            r.0 == self.slots().selected(),
            r.1.slots() == self.slots().remainder(),
    {
        let _ = handle;
        let (fut, rest) = self.fut_list.detach();
        (fut, Group { fut_list: rest })
    }

    /// Awaits `fut` while driving the group's background futures: each time the returned future
    /// is polled, `fut` is polled once and then every unfinished background future once, with the
    /// same context, so the enclosing task is woken when any of them makes progress. `fut` must
    /// not care about pinning: pin it first (`core::pin::pin!`, `Box::pin`) if it does.
    pub fn wait_for<F>(&mut self, fut: F) -> (r: WaitFor<'_, F, List>)
        ensures
            r.primary() == fut,
            r.group() == old(self).slots(),
            final(self).slots() == *final(r.async_let_group),
    {
        WaitFor { driving_fut: fut, async_let_group: &mut self.fut_list }
    }

    /// Detaches a future and awaits its output while still driving the background futures that
    /// remain; the returned future hands back the output together with the remaining group.
    pub fn detach_and_wait_for<I, F: Future>(self, handle: Handle<F>) -> (r: DetachAndWaitFor<
        F,
        List::Output,
    >)
        where
            List: Detach<F, I>,
        ensures
            r.detached() == Some(self.slots().selected()),
            r.remaining() matches Some(g) && g.slots() == self.slots().remainder(),
    {
        let (ready_or_not, group) = self.detach(handle);
        DetachAndWaitFor { output: ready_or_not.output(), group: Some(group) }
    }

    /// Detaches a future and drops it at once, cancelling it if it had not finished; the other
    /// slots stay as they are.
    pub fn detach_and_cancel<I, F: Future>(self, handle: Handle<F>) -> (r: Group<List::Output>)
        where
            List: Detach<F, I>,
        ensures
            r.slots() == self.slots().remainder(),
    {
        let (_, group) = self.detach(handle);
        group
    }
}

} // verus!
