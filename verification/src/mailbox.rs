//! The mailbox: the one slot through which the executor and the task's
//! suspension points talk to each other.
//!
//! The executor puts a delivered buffer into it before it resumes the task, or
//! clears it if the kernel delivered none. A suspension point takes what is
//! there; if that is no buffer, it leaves its request in the slot and suspends.
//! The executor takes the request when the task has suspended and returns it to
//! the kernel.

use vstd::prelude::*;
use crate::message::MsgPtr;

verus! {

/// What a suspension point answers when the task reaches it.
#[derive(Debug, PartialEq, Eq)]
pub enum Poll<T> {
    /// The awaited value is there.
    Ready(T),
    /// The task has to suspend; the mailbox holds its request.
    Pending,
}

/// The content of the slot.
#[derive(Clone, Copy, Debug, PartialEq, Eq)]
pub enum Mailbox {
    /// Nothing.
    Empty,
    /// A buffer that the kernel delivered, not yet taken by the task.
    Message(MsgPtr),
    /// The request word of the suspension point at which the task suspended,
    /// not yet taken by the executor.
    Subscription(u32),
    /// The task waits for a buffer; the kernel may invoke it with one.
    MessageWaiting,
}

impl Mailbox {
    /// Whether the slot holds an item that its reader has not taken yet: a
    /// delivered buffer or a request.
    pub open spec fn is_unconsumed(&self) -> bool {
        self is Message || self is Subscription
    }

    /// Number of items in the slot that their reader has not taken yet.
    pub open spec fn unconsumed(&self) -> nat {
        if self.is_unconsumed() {
            1
        } else {
            0
        }
    }

    /// An empty mailbox.
    pub fn new() -> (mailbox: Mailbox)
        ensures
            mailbox == Mailbox::Empty,
    {
        Mailbox::Empty
    }

    /// Whether the slot holds a delivered buffer or a request.
    pub fn holds_item(&self) -> (held: bool)
        ensures
            held == self.is_unconsumed(),
    {
        match self {
            Mailbox::Message(_) => true,
            Mailbox::Subscription(_) => true,
            _ => false,
        }
    }

    /// Reads the slot, which is empty afterwards.
    pub fn take(&mut self) -> (content: Mailbox)
        ensures
            content == *old(self),
            *final(self) == Mailbox::Empty,
    {
        let content = *self;
        *self = Mailbox::Empty;
        content
    }

    /// Takes what the slot holds. If that is a delivered buffer, returns it
    /// and leaves the slot empty; if not, leaves the request `word` in the slot.
    pub fn take_message_or_subscribe(&mut self, word: u32) -> (msg: Option<MsgPtr>)
        ensures
            msg == old(self).delivered(),
            *final(self) == old(self).after_poll(word),
    {
        match self.take() {
            Mailbox::Message(ptr) => Some(ptr),
            _ => {
                *self = Mailbox::Subscription(word);
                None
            },
        }
    }

    /// The delivered buffer in the slot, if it holds one.
    pub open spec fn delivered(&self) -> Option<MsgPtr> {
        match *self {
            Mailbox::Message(ptr) => Some(ptr),
            _ => None,
        }
    }

    /// The slot after a message source that suspends with `word` was polled.
    pub open spec fn after_poll(&self, word: u32) -> Mailbox {
        if *self is Message {
            Mailbox::Empty
        } else {
            Mailbox::Subscription(word)
        }
    }
}

} // verus!
