use std::cell::Cell;
use std::future::Future;
use std::pin::Pin;
use std::rc::Rc;
use std::sync::Arc;
use std::task::{Context, Poll, Wake, Waker};

use async_let::list::{S, Z};
use async_let::wait::WaitFor;
use async_let::{Group, ReadyOrNot};

struct NoopWake;

impl Wake for NoopWake {
    fn wake(self: Arc<Self>) {}
}

fn noop_waker() -> Waker {
    Waker::from(Arc::new(NoopWake))
}

/// A future that is pending on its first `pending_polls` polls and then returns `value`; it
/// counts its polls and its drops.
struct Countdown {
    pending_polls: u32,
    value: u32,
    polls: Rc<Cell<u32>>,
    drops: Rc<Cell<u32>>,
}

impl Countdown {
    fn new(pending_polls: u32, value: u32) -> Countdown {
        Countdown {
            pending_polls,
            value,
            polls: Rc::new(Cell::new(0)),
            drops: Rc::new(Cell::new(0)),
        }
    }
}

impl Future for Countdown {
    type Output = u32;

    fn poll(mut self: Pin<&mut Self>, cx: &mut Context<'_>) -> Poll<u32> {
        let n = self.polls.get();
        self.polls.set(n + 1);
        if self.pending_polls > 0 {
            self.pending_polls -= 1;
            cx.waker().wake_by_ref();
            Poll::Pending
        } else {
            Poll::Ready(self.value)
        }
    }
}

impl Drop for Countdown {
    fn drop(&mut self) {
        let n = self.drops.get();
        self.drops.set(n + 1);
    }
}

/// A second future type with the same output as `Countdown`.
struct Immediate(u32);

impl Future for Immediate {
    type Output = u32;

    fn poll(self: Pin<&mut Self>, _cx: &mut Context<'_>) -> Poll<u32> {
        Poll::Ready(self.0)
    }
}

/// Polls a future until it finishes and returns its output with the number of polls it took.
fn block_on<F: Future + Unpin>(mut fut: F) -> (F::Output, u32) {
    let waker = noop_waker();
    let mut cx = Context::from_waker(&waker);
    let mut turns: u32 = 0;
    loop {
        turns += 1;
        if let Poll::Ready(v) = Pin::new(&mut fut).poll(&mut cx) {
            return (v, turns);
        }
        assert!(turns < 100);
    }
}

fn ready_value(slot: ReadyOrNot<Countdown>) -> Option<u32> {
    match slot {
        ReadyOrNot::Ready(v) => Some(v),
        ReadyOrNot::Not(_) => None,
    }
}

#[test]
fn wait_for_on_an_empty_group_returns_the_output() {
    let mut group = Group::new();
    let (out, turns) = block_on(group.wait_for(Countdown::new(2, 10)));
    assert_eq!(out, 10);
    assert_eq!(turns, 3);
}

#[test]
fn detach_returns_the_slot_unpolled() {
    let a = Countdown::new(0, 4);
    let polls = a.polls.clone();
    let group = Group::new();
    let (handle, group) = group.attach(a);
    let (slot, _group) = group.detach(handle);
    assert_eq!(polls.get(), 0);
    match slot {
        ReadyOrNot::Not(fut) => assert_eq!(fut.value, 4),
        ReadyOrNot::Ready(_) => panic!("detach polled the future"),
    }
}

#[test]
fn detach_returns_the_state_held_before() {
    let a = Countdown::new(0, 8);
    let polls = a.polls.clone();
    let group = Group::new();
    let (handle, mut group) = group.attach(a);
    let (out, _) = block_on(group.wait_for(Countdown::new(1, 1)));
    assert_eq!(out, 1);
    let seen = polls.get();
    let (slot, _group) = group.detach(handle);
    assert_eq!(polls.get(), seen);
    assert_eq!(ready_value(slot), Some(8));
}

#[test]
fn scenario_background_futures_finish_by_the_end_of_the_wait() {
    let a = Countdown::new(1, 100);
    let b = Countdown::new(0, 200);
    let (a_polls, b_polls) = (a.polls.clone(), b.polls.clone());
    let group = Group::new();
    let (ha, group) = group.attach(a);
    let (hb, mut group) = group.attach(b);
    let (out, turns) = block_on(group.wait_for(Countdown::new(1, 7)));
    assert_eq!(out, 7);
    assert_eq!(turns, 2);
    assert_eq!(a_polls.get(), 2);
    assert_eq!(b_polls.get(), 1);
    let (b_slot, group) = group.detach::<Z, _>(hb);
    let (a_slot, _group) = group.detach::<Z, _>(ha);
    assert_eq!(ready_value(a_slot), Some(100));
    assert_eq!(ready_value(b_slot), Some(200));
}

#[test]
fn scenario_detach_by_handle_picks_the_first_attached() {
    let a = Countdown::new(3, 1);
    let b = Immediate(2);
    let group = Group::new();
    let (ha, group) = group.attach(a);
    let (hb, group) = group.attach(b);
    let (a_slot, group) = group.detach(ha);
    match a_slot {
        ReadyOrNot::Not(fut) => assert_eq!(fut.value, 1),
        ReadyOrNot::Ready(_) => panic!("a was never polled"),
    }
    let (b_slot, _group) = group.detach(hb);
    assert!(matches!(b_slot, ReadyOrNot::Not(Immediate(2))));
}

#[test]
fn explicit_index_selects_between_equal_types() {
    let group = Group::new();
    let (h1, group) = group.attach(Countdown::new(0, 1));
    let (h2, group) = group.attach(Countdown::new(0, 2));
    let (first, group) = group.detach::<S<Z>, _>(h1);
    let (second, _group) = group.detach::<Z, _>(h2);
    match (first, second) {
        (ReadyOrNot::Not(f1), ReadyOrNot::Not(f2)) => {
            assert_eq!(f1.value, 1);
            assert_eq!(f2.value, 2);
        }
        _ => panic!("nothing was polled"),
    }
}

#[test]
fn detach_from_the_middle_keeps_the_order_of_the_rest() {
    let group = Group::new();
    let (h1, group) = group.attach(Countdown::new(0, 1));
    let (h2, group) = group.attach(Countdown::new(0, 2));
    let (h3, group) = group.attach(Countdown::new(0, 3));
    let (middle, group) = group.detach::<S<Z>, _>(h2);
    let (head, group) = group.detach::<Z, _>(h3);
    let (last, _group) = group.detach::<Z, _>(h1);
    let values: Vec<u32> = [head, middle, last]
        .into_iter()
        .map(|slot| match slot {
            ReadyOrNot::Not(f) => f.value,
            ReadyOrNot::Ready(v) => v + 1000,
        })
        .collect();
    assert_eq!(values, vec![3, 2, 1]);
}

#[test]
fn a_finished_slot_is_not_polled_again() {
    let a = Countdown::new(0, 5);
    let polls = a.polls.clone();
    let group = Group::new();
    let (ha, mut group) = group.attach(a);
    let (out, turns) = block_on(group.wait_for(Countdown::new(3, 9)));
    assert_eq!((out, turns), (9, 4));
    assert_eq!(polls.get(), 1);
    let (slot, _group) = group.detach(ha);
    assert_eq!(ready_value(slot), Some(5));
}

#[test]
fn background_progress_needs_no_extra_wake() {
    let a = Countdown::new(2, 42);
    let group = Group::new();
    let (ha, mut group) = group.attach(a);
    let (out, turns) = block_on(group.wait_for(Countdown::new(5, 0)));
    assert_eq!((out, turns), (0, 6));
    let (slot, _group) = group.detach(ha);
    assert_eq!(ready_value(slot), Some(42));
}

#[test]
fn detach_and_cancel_drops_the_pending_future_once() {
    let a = Countdown::new(5, 1);
    let b = Countdown::new(0, 2);
    let (a_drops, b_drops) = (a.drops.clone(), b.drops.clone());
    let group = Group::new();
    let (ha, group) = group.attach(a);
    let (hb, mut group) = group.attach(b);
    let (out, _) = block_on(group.wait_for(Countdown::new(0, 3)));
    assert_eq!(out, 3);
    let group = group.detach_and_cancel::<S<Z>, _>(ha);
    assert_eq!(a_drops.get(), 1);
    assert_eq!(b_drops.get(), 1);
    let (b_slot, _group) = group.detach(hb);
    assert_eq!(ready_value(b_slot), Some(2));
}

#[test]
fn record_poll_keeps_a_pending_slot() {
    let mut slot: ReadyOrNot<Immediate> = ReadyOrNot::Not(Immediate(6));
    slot.record_poll(Poll::Pending);
    assert!(matches!(slot, ReadyOrNot::Not(Immediate(6))));
}

#[test]
fn record_poll_stores_the_output() {
    let mut slot: ReadyOrNot<Immediate> = ReadyOrNot::Not(Immediate(6));
    slot.record_poll(Poll::Ready(11));
    assert!(matches!(slot, ReadyOrNot::Ready(11)));
}

#[test]
fn finish_turn_hands_the_outcome_on_and_polls_the_group() {
    let a = Countdown::new(0, 12);
    let polls = a.polls.clone();
    let group = Group::new();
    let (ha, mut group) = group.attach(a);
    let waker = noop_waker();
    let mut cx = Context::from_waker(&waker);
    let mut wait: WaitFor<'_, Immediate, _> = group.wait_for(Immediate(0));
    let r = wait.finish_turn(Poll::Ready(77), &mut cx);
    assert_eq!(r, Poll::Ready(77));
    let r = wait.finish_turn(Poll::Pending, &mut cx);
    assert_eq!(r, Poll::Pending);
    assert_eq!(polls.get(), 1);
    let (slot, _group) = group.detach(ha);
    assert_eq!(ready_value(slot), Some(12));
}

#[test]
fn poll_turn_polls_awaited_and_background_futures() {
    let a = Countdown::new(1, 3);
    let polls = a.polls.clone();
    let group = Group::new();
    let (ha, mut group) = group.attach(a);
    let waker = noop_waker();
    let mut cx = Context::from_waker(&waker);
    let mut wait = group.wait_for(Countdown::new(1, 4));
    assert_eq!(wait.poll_turn(&mut cx), Poll::Pending);
    assert_eq!(wait.poll_turn(&mut cx), Poll::Ready(4));
    assert_eq!(polls.get(), 2);
    let (slot, _group) = group.detach(ha);
    assert_eq!(ready_value(slot), Some(3));
}

#[test]
fn output_of_a_finished_slot_is_immediate() {
    let slot: ReadyOrNot<Immediate> = ReadyOrNot::Ready(5);
    assert_eq!(block_on(slot.output()), (5, 1));
}

#[test]
fn output_of_a_pending_slot_drives_its_future() {
    let slot = ReadyOrNot::Not(Countdown::new(2, 9));
    assert_eq!(block_on(slot.output()), (9, 3));
}

#[test]
fn output_is_pending_after_it_was_handed_out() {
    let waker = noop_waker();
    let mut cx = Context::from_waker(&waker);
    let mut out = ReadyOrNot::<Immediate>::Ready(4).output();
    assert_eq!(out.poll_turn(&mut cx), Poll::Ready(4));
    assert_eq!(out.poll_turn(&mut cx), Poll::Pending);
}

#[test]
fn output_finish_turn_keeps_a_pending_future() {
    let waker = noop_waker();
    let mut cx = Context::from_waker(&waker);
    let mut out = ReadyOrNot::Not(Immediate(1)).output();
    assert_eq!(out.poll_turn(&mut cx), Poll::Ready(1));
    assert_eq!(out.finish_turn(Immediate(3), Poll::Pending), Poll::Pending);
    assert_eq!(out.poll_turn(&mut cx), Poll::Ready(3));
}

#[test]
fn detach_and_wait_for_drives_the_remaining_group() {
    let a = Countdown::new(3, 1);
    let b = Countdown::new(1, 2);
    let a_polls = a.polls.clone();
    let group = Group::new();
    let (ha, group) = group.attach(a);
    let (hb, group) = group.attach(b);
    let ((out, group), turns) = block_on(group.detach_and_wait_for::<Z, _>(hb));
    assert_eq!((out, turns), (2, 2));
    assert_eq!(a_polls.get(), 2);
    let (a_slot, _group) = group.detach(ha);
    match a_slot {
        ReadyOrNot::Not(fut) => assert_eq!(fut.pending_polls, 1),
        ReadyOrNot::Ready(_) => panic!("a needs four polls"),
    }
}

#[test]
fn detach_and_wait_for_a_finished_slot_takes_one_turn() {
    let a = Countdown::new(0, 6);
    let group = Group::new();
    let (ha, mut group) = group.attach(a);
    let (out, _) = block_on(group.wait_for(Immediate(0)));
    assert_eq!(out, 0);
    let ((value, _group), turns) = block_on(group.detach_and_wait_for(ha));
    assert_eq!((value, turns), (6, 1));
}
