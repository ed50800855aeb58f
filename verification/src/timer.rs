//! The delay source: a suspension point that asks the kernel to resume the task
//! after a number of ticks.

use vstd::prelude::*;
use crate::mailbox::{Mailbox, Poll};
use crate::syscall::{
    lemma_delay_word, lemma_opcode_numbers, lemma_request_fields, opcode_of, operand_of, request,
    request_word, OPERAND_MASK, SC_DELAY,
};

verus! {

/// A delay that fires once. It holds the ticks that the task still has to ask
/// the kernel for; a timer that holds none is complete.
#[derive(Debug)]
pub struct Timer {
    delay: u32,
}

impl Timer {
    /// The ticks that the timer has not asked the kernel for yet.
    pub closed spec fn remaining(&self) -> u32 {
        self.delay
    }

    /// Whether a timer with `ticks` remaining suspends the task when polled.
    pub open spec fn suspends(ticks: u32) -> bool {
        ticks > 0
    }

    /// The mailbox after a timer with `ticks` remaining was polled.
    pub open spec fn mailbox_after_poll(ticks: u32, mailbox: Mailbox) -> Mailbox {
        if Timer::suspends(ticks) {
            Mailbox::Subscription(request(SC_DELAY, ticks))
        } else {
            mailbox
        }
    }

    /// A timer that is complete.
    pub fn new() -> (timer: Timer)
        ensures
            timer.remaining() == 0,
    {
        Timer { delay: 0 }
    }

    /// Arms the timer with `ticks` and returns it, to be polled.
    pub fn delay(&mut self, ticks: u32) -> (timer: &mut Timer)
        ensures
            timer.remaining() == ticks,
            *final(self) == *final(timer),
    {
        self.delay = ticks;
        self
    }

    /// The suspension point. A timer with ticks remaining leaves the delay
    /// request for them in the mailbox, keeps none, and the task has to
    /// suspend. A timer with none is complete and leaves the mailbox as it is.
    pub fn poll(&mut self, mailbox: &mut Mailbox) -> (res: Poll<()>)
        ensures
            res is Pending <==> Timer::suspends(old(self).remaining()),
            *final(mailbox) == Timer::mailbox_after_poll(old(self).remaining(), *old(mailbox)),
            final(self).remaining() == 0,
    {
        let ticks: u32 = self.delay;
        self.delay = 0;
        if ticks > 0 {
            *mailbox = Mailbox::Subscription(request_word(SC_DELAY, ticks));
            Poll::Pending
        } else {
            Poll::Ready(())
        }
    }
}

/// A timer armed with `ticks`.
pub fn delay(ticks: u32) -> (timer: Timer)
    ensures
        timer.remaining() == ticks,
{
    Timer { delay: ticks }
}

/// A timer armed with no tick completes when it is first polled, and leaves
/// the mailbox as it is.
pub proof fn lemma_unarmed_timer_completes(mailbox: Mailbox)
    ensures
        !Timer::suspends(0),
        Timer::mailbox_after_poll(0, mailbox) == mailbox,
{
}

/// A timer armed with some ticks suspends at its first poll and leaves the
/// delay request for them, which is the tick count and never the word 0. A
/// polled timer keeps no tick, so it completes at its next poll, whatever the
/// mailbox holds by then and however many ticks it was armed with.
pub proof fn lemma_armed_timer_suspends_once(ticks: u32, mailbox: Mailbox, later: Mailbox)
    requires
        ticks > 0,
    ensures
        Timer::suspends(ticks),
        Timer::mailbox_after_poll(ticks, mailbox) == Mailbox::Subscription(
            request(SC_DELAY, ticks),
        ),
        request(SC_DELAY, ticks) == ticks,
        request(SC_DELAY, ticks) != 0,
        !Timer::suspends(0),
        Timer::mailbox_after_poll(0, later) == later,
{
    lemma_delay_word(ticks);
}

/// The request of a timer armed with ticks that fit the operand reads as a
/// delay of that many ticks.
pub proof fn lemma_timer_request(ticks: u32)
    requires
        0 < ticks <= OPERAND_MASK,
    ensures
        opcode_of(request(SC_DELAY, ticks)) == 0,
        operand_of(request(SC_DELAY, ticks)) == ticks,
{
    lemma_opcode_numbers();
    lemma_request_fields(SC_DELAY, ticks);
}

} // verus!
