//! Message sources and the send sink.
//!
//! A source is a numeric identifier that the kernel knows: the inbox of a task
//! (`RecvChannel`, or `RawRecvChannel` where the payload type is settled
//! later), or a pool of buffers (`Pool`). A source can be asked without
//! suspending: the caller hands the kernel the request word and passes on what
//! came back. Or the task waits at it: the source takes a delivered buffer from
//! the mailbox, or leaves its request there and the task suspends.

use core::marker::PhantomData;
use vstd::prelude::*;
use crate::mailbox::{Mailbox, Poll};
use crate::message::{msg_size, msg_typecast, Envelope, HeaderPtr, MsgPtr, Token};
use crate::syscall::{request, request_word, SC_CHAN_POLL, SC_CHAN_POP, SC_MSG_SEND};
use crate::violation::ProtocolViolation;

verus! {

/// Whether `res` is what a source of messages with payload `T` makes of the
/// kernel's answer `reply` to a request that does not suspend, when it was
/// asked for `token`: the message for a buffer of the right size, a size
/// mismatch for another buffer, the token back for none.
pub open spec fn is_typed_reply<T: Send>(
    token: Token,
    reply: Option<MsgPtr>,
    res: Result<Result<Envelope<T>, Token>, ProtocolViolation>,
) -> bool {
    match reply {
        Some(ptr) => if ptr@.size == msg_size::<T>() {
            res matches Ok(Ok(env)) && env@ == ptr@
        } else {
            res == Err::<Result<Envelope<T>, Token>, ProtocolViolation>(
                ProtocolViolation::SizeMismatch,
            )
        },
        None => res == Ok::<Result<Envelope<T>, Token>, ProtocolViolation>(Err(token)),
    }
}

/// Whether `res` is what a source of messages with payload `T` answers to a
/// poll that found `delivered` in the mailbox: the message for a buffer of the
/// right size, a size mismatch for another buffer, `Pending` for none.
pub open spec fn is_typed_poll<T: Send>(
    delivered: Option<MsgPtr>,
    res: Result<Poll<Envelope<T>>, ProtocolViolation>,
) -> bool {
    match delivered {
        Some(ptr) => if ptr@.size == msg_size::<T>() {
            res matches Ok(Poll::Ready(env)) && env@ == ptr@
        } else {
            res == Err::<Poll<Envelope<T>>, ProtocolViolation>(ProtocolViolation::SizeMismatch)
        },
        None => res == Ok::<Poll<Envelope<T>>, ProtocolViolation>(Poll::Pending),
    }
}

/// Whether `res` is what a source of untyped buffers answers to a poll that
/// found `delivered` in the mailbox.
pub open spec fn is_raw_poll(delivered: Option<MsgPtr>, res: Poll<HeaderPtr>) -> bool {
    match delivered {
        Some(ptr) => res matches Poll::Ready(handle) && handle@ == ptr@,
        None => res == Poll::<HeaderPtr>::Pending,
    }
}

fn typed_reply<T: Send>(token: Token, reply: Option<MsgPtr>) -> (res: Result<
    Result<Envelope<T>, Token>,
    ProtocolViolation,
>)
    ensures
        is_typed_reply(token, reply, res),
{
    match reply {
        Some(ptr) => match msg_typecast(ptr) {
            Ok(env) => Ok(Ok(env)),
            Err(violation) => Err(violation),
        },
        None => Ok(Err(token)),
    }
}

fn typed_poll<T: Send>(mailbox: &mut Mailbox, word: u32) -> (res: Result<
    Poll<Envelope<T>>,
    ProtocolViolation,
>)
    ensures
        is_typed_poll(old(mailbox).delivered(), res),
        *final(mailbox) == old(mailbox).after_poll(word),
{
    match mailbox.take_message_or_subscribe(word) {
        Some(ptr) => match msg_typecast(ptr) {
            Ok(env) => Ok(Poll::Ready(env)),
            Err(violation) => Err(violation),
        },
        None => Ok(Poll::Pending),
    }
}

/// The inbox of a task for messages with payload `T`.
#[derive(Debug)]
pub struct RecvChannel<T: Send> {
    id: u32,
    marker: PhantomData<T>,
}

impl<T: Send> RecvChannel<T> {
    /// The channel's identifier.
    pub closed spec fn id(&self) -> u32 {
        self.id
    }

    /// The channel that the kernel knows as `id`.
    pub fn new(id: u32) -> (chan: RecvChannel<T>)
        ensures
            chan.id() == id,
    {
        RecvChannel { id, marker: PhantomData }
    }

    /// The request word that asks the kernel for a message of this channel
    /// without suspending.
    pub fn try_pop_request(&self) -> (word: u32)
        ensures
            word == request(SC_CHAN_POLL, self.id()),
    {
        request_word(SC_CHAN_POLL, self.id)
    }

    /// Takes the kernel's answer to `try_pop_request`. A buffer becomes the
    /// task's message in exchange for `token`, if it declares the size of a
    /// message with payload `T`; with no buffer, `token` comes back.
    pub fn try_pop(&self, token: Token, reply: Option<MsgPtr>) -> (res: Result<
        Result<Envelope<T>, Token>,
        ProtocolViolation,
    >)
        ensures
            is_typed_reply(token, reply, res),
    {
        typed_reply(token, reply)
    }

    /// Starts waiting for a message: gives up the token and polls the channel.
    pub fn pop(&self, _token: Token, mailbox: &mut Mailbox) -> (res: Result<
        Poll<Envelope<T>>,
        ProtocolViolation,
    >)
        ensures
            is_typed_poll(old(mailbox).delivered(), res),
            *final(mailbox) == old(mailbox).after_poll(request(SC_CHAN_POP, self.id())),
    {
        self.poll(mailbox)
    }

    /// The suspension point. A delivered buffer in the mailbox is taken and
    /// becomes the task's message, if it declares the size of a message with
    /// payload `T`. With anything else there, the mailbox holds the channel's
    /// request and the task has to suspend.
    pub fn poll(&self, mailbox: &mut Mailbox) -> (res: Result<
        Poll<Envelope<T>>,
        ProtocolViolation,
    >)
        ensures
            is_typed_poll(old(mailbox).delivered(), res),
            *final(mailbox) == old(mailbox).after_poll(request(SC_CHAN_POP, self.id())),
    {
        typed_poll(mailbox, request_word(SC_CHAN_POP, self.id))
    }
}

/// The inbox of a task for messages whose payload type is settled later.
#[derive(Debug)]
pub struct RawRecvChannel {
    id: u32,
}

impl RawRecvChannel {
    /// The channel's identifier.
    pub closed spec fn id(&self) -> u32 {
        self.id
    }

    /// The channel that the kernel knows as `id`.
    pub fn new(id: u32) -> (chan: RawRecvChannel)
        ensures
            chan.id() == id,
    {
        RawRecvChannel { id }
    }

    /// The request word that asks the kernel for a message of this channel
    /// without suspending.
    pub fn try_pop_request(&self) -> (word: u32)
        ensures
            word == request(SC_CHAN_POLL, self.id()),
    {
        request_word(SC_CHAN_POLL, self.id)
    }

    /// Takes the kernel's answer to `try_pop_request`. A buffer becomes the
    /// task's in exchange for `token`, whatever size it declares; with none,
    /// `token` comes back.
    pub fn try_pop(&self, token: Token, reply: Option<MsgPtr>) -> (res: Result<HeaderPtr, Token>)
        ensures
            reply matches Some(ptr) ==> res matches Ok(handle) && handle@ == ptr@,
            reply is None ==> res == Err::<HeaderPtr, Token>(token),
    {
        match reply {
            Some(ptr) => Ok(HeaderPtr::new(ptr)),
            None => Err(token),
        }
    }

    /// Starts waiting for a message: gives up the token and polls the channel.
    pub fn pop(&self, _token: Token, mailbox: &mut Mailbox) -> (res: Poll<HeaderPtr>)
        ensures
            is_raw_poll(old(mailbox).delivered(), res),
            *final(mailbox) == old(mailbox).after_poll(request(SC_CHAN_POP, self.id())),
    {
        self.poll(mailbox)
    }

    /// The suspension point. A delivered buffer in the mailbox is taken and
    /// becomes the task's, whatever size it declares. With anything else
    /// there, the mailbox holds the channel's request and the task has to
    /// suspend.
    pub fn poll(&self, mailbox: &mut Mailbox) -> (res: Poll<HeaderPtr>)
        ensures
            is_raw_poll(old(mailbox).delivered(), res),
            *final(mailbox) == old(mailbox).after_poll(request(SC_CHAN_POP, self.id())),
    {
        match mailbox.take_message_or_subscribe(request_word(SC_CHAN_POP, self.id)) {
            Some(ptr) => Poll::Ready(HeaderPtr::new(ptr)),
            None => Poll::Pending,
        }
    }
}

/// A pool from which tasks take buffers for messages with payload `T`. A pool
/// works as a channel does, under opcodes of its own, which the kernel in use
/// assigns.
#[derive(Debug)]
pub struct Pool<T: Send> {
    id: u32,
    acquire: u32,
    try_acquire: u32,
    marker: PhantomData<T>,
}

impl<T: Send> Pool<T> {
    /// The pool's identifier.
    pub closed spec fn id(&self) -> u32 {
        self.id
    }

    /// The opcode bits of the request that waits for a buffer.
    pub closed spec fn acquire_opcode(&self) -> u32 {
        self.acquire
    }

    /// The opcode bits of the request that does not wait.
    pub closed spec fn try_acquire_opcode(&self) -> u32 {
        self.try_acquire
    }

    /// The pool that the kernel knows as `id`, with the opcode bits of its two
    /// requests.
    pub fn new(id: u32, acquire: u32, try_acquire: u32) -> (pool: Pool<T>)
        ensures
            pool.id() == id,
            pool.acquire_opcode() == acquire,
            pool.try_acquire_opcode() == try_acquire,
    {
        Pool { id, acquire, try_acquire, marker: PhantomData }
    }

    /// The request word that asks the kernel for a buffer of this pool without
    /// suspending.
    pub fn try_acquire_request(&self) -> (word: u32)
        ensures
            word == request(self.try_acquire_opcode(), self.id()),
    {
        request_word(self.try_acquire, self.id)
    }

    /// Takes the kernel's answer to `try_acquire_request`. A buffer becomes
    /// the task's message in exchange for `token`, if it declares the size of
    /// a message with payload `T`; with no buffer, `token` comes back.
    pub fn try_acquire(&self, token: Token, reply: Option<MsgPtr>) -> (res: Result<
        Result<Envelope<T>, Token>,
        ProtocolViolation,
    >)
        ensures
            is_typed_reply(token, reply, res),
    {
        typed_reply(token, reply)
    }

    /// Starts waiting for a buffer: gives up the token and polls the pool.
    pub fn acquire(&self, _token: Token, mailbox: &mut Mailbox) -> (res: Result<
        Poll<Envelope<T>>,
        ProtocolViolation,
    >)
        ensures
            is_typed_poll(old(mailbox).delivered(), res),
            *final(mailbox) == old(mailbox).after_poll(request(self.acquire_opcode(), self.id())),
    {
        self.poll(mailbox)
    }

    /// The suspension point. A delivered buffer in the mailbox is taken and
    /// becomes the task's message, if it declares the size of a message with
    /// payload `T`. With anything else there, the mailbox holds the pool's
    /// request and the task has to suspend.
    pub fn poll(&self, mailbox: &mut Mailbox) -> (res: Result<
        Poll<Envelope<T>>,
        ProtocolViolation,
    >)
        ensures
            is_typed_poll(old(mailbox).delivered(), res),
            *final(mailbox) == old(mailbox).after_poll(request(self.acquire_opcode(), self.id())),
    {
        typed_poll(mailbox, request_word(self.acquire, self.id))
    }
}

/// A channel into which the task forwards messages with payload `T`.
#[derive(Debug)]
pub struct SendChannel<T: Send> {
    id: u32,
    marker: PhantomData<T>,
}

impl<T: Send> SendChannel<T> {
    /// The channel's identifier.
    pub closed spec fn id(&self) -> u32 {
        self.id
    }

    /// The channel that the kernel knows as `id`.
    pub fn new(id: u32) -> (chan: SendChannel<T>)
        ensures
            chan.id() == id,
    {
        SendChannel { id, marker: PhantomData }
    }

    /// Forwards `msg` into the channel, which always succeeds. Returns the
    /// proof that the task holds no buffer any more, and the request word to
    /// hand to the kernel.
    pub fn send(&mut self, msg: Envelope<T>) -> (sent: (Token, u32))
        ensures
            sent.1 == request(SC_MSG_SEND, old(self).id()),
            final(self).id() == old(self).id(),
    {
        (msg.discharge(), request_word(SC_MSG_SEND, self.id))
    }
}

/// A source of messages with payload `T` hands out no message for a delivered
/// buffer that declares another size than that of a header followed by a `T`,
/// neither when it is polled nor when it is asked without suspending.
pub proof fn lemma_mismatch_is_refused<T: Send>(
    ptr: MsgPtr,
    polled: Result<Poll<Envelope<T>>, ProtocolViolation>,
    token: Token,
    asked: Result<Result<Envelope<T>, Token>, ProtocolViolation>,
)
    requires
        ptr@.size != msg_size::<T>(),
        is_typed_poll(Some(ptr), polled),
        is_typed_reply(token, Some(ptr), asked),
    ensures
        polled is Err,
        asked is Err,
{
}

} // verus!
