//! Kernel message buffers and the handles that stand for holding one.
//!
//! A buffer is kernel memory: a header of three words, then the payload. The
//! runtime never touches that memory. It works on what was read from the
//! header, and on the handle types `Token`, `HeaderPtr` and `Envelope`, which
//! say by their type whether the task holds a buffer. A handle cannot be
//! copied. Releasing or forwarding one consumes it and gives a `Token` back;
//! only for a `Token` does a source hand out the next handle. A handle must not
//! be discarded: whoever holds one keeps it in a `Linear`.

use core::marker::PhantomData;
use vstd::prelude::*;
use crate::syscall::SC_MSG_FREE;
use crate::violation::ProtocolViolation;

verus! {

/// Bytes of a buffer header: the total size, one word of padding, the poison
/// flag.
pub const HEADER_SIZE: usize = 12;

/// Where a buffer lies and what its header declares.
pub struct MsgView {
    /// Address of the buffer.
    pub addr: nat,
    /// Declared size of header and payload together, in bytes.
    pub size: nat,
    /// Whether the kernel marked the buffer as poisoned.
    pub poisoned: bool,
}

/// Bytes that a buffer with a payload of type `T` declares: header and payload.
pub open spec fn msg_size<T>() -> nat {
    HEADER_SIZE as nat + vstd::layout::size_of::<T>()
}

/// A non-null pointer to a kernel buffer, with the header fields read through
/// it.
#[derive(Clone, Copy, Debug, PartialEq, Eq)]
pub struct MsgPtr {
    addr: usize,
    size: u32,
    poisoned: u32,
}

impl View for MsgPtr {
    type V = MsgView;

    closed spec fn view(&self) -> MsgView {
        MsgView { addr: self.addr as nat, size: self.size as nat, poisoned: self.poisoned != 0 }
    }
}

impl MsgPtr {
    #[verifier::type_invariant]
    spec fn non_null(self) -> bool {
        self.addr != 0
    }

    /// The pointer `addr` with the header fields `size` and `poisoned` found
    /// there, or `None` for the null pointer. A poison word other than 0 means
    /// that the buffer is poisoned.
    pub fn new(addr: usize, size: u32, poisoned: u32) -> (ptr: Option<MsgPtr>)
        ensures
            addr == 0 <==> ptr is None,
            ptr matches Some(p) ==> p@ == (MsgView {
                addr: addr as nat,
                size: size as nat,
                poisoned: poisoned != 0,
            }),
    {
        if addr == 0 {
            None
        } else {
            Some(MsgPtr { addr, size, poisoned })
        }
    }

    /// Address of the buffer.
    pub fn addr(&self) -> (addr: usize)
        ensures
            addr == self@.addr,
            addr != 0,
    {
        proof {
            use_type_invariant(self);
        }
        self.addr
    }

    /// Declared size of the buffer.
    pub fn size(&self) -> (size: u32)
        ensures
            size == self@.size,
    {
        self.size
    }

    /// Whether the buffer's poison flag is set.
    pub fn is_poisoned(&self) -> (poisoned: bool)
        ensures
            poisoned == self@.poisoned,
    {
        self.poisoned != 0
    }

    /// Whether the buffer declares exactly the size of a message with payload
    /// `T`.
    pub fn fits<T>(&self) -> (fits: bool)
        ensures
            fits == (self@.size == msg_size::<T>()),
    {
        let declared: usize = self.size as usize;
        declared >= HEADER_SIZE && declared - HEADER_SIZE == core::mem::size_of::<T>()
    }
}

/// Proof that the task holds no buffer. Only the runtime makes one: the first
/// when the task is constructed, each later one in exchange for a handle.
#[derive(Debug)]
pub struct Token {
    unit: (),
}

impl Token {
    pub(crate) fn new() -> Token {
        Token { unit: () }
    }
}

/// Whether `res` is what a typed view of the buffer behind `ptr` gives: the
/// message, if the buffer declares the size of a message with payload `T`, and
/// a size mismatch if not.
pub open spec fn is_typed_view<T: Send>(
    ptr: MsgView,
    res: Result<Envelope<T>, ProtocolViolation>,
) -> bool {
    if ptr.size == msg_size::<T>() {
        res matches Ok(env) && env@ == ptr
    } else {
        res == Err::<Envelope<T>, ProtocolViolation>(ProtocolViolation::SizeMismatch)
    }
}

/// Views the buffer behind `ptr` as a message with payload `T`, after checking
/// the size that it declares.
pub fn msg_typecast<T: Send>(ptr: MsgPtr) -> (res: Result<Envelope<T>, ProtocolViolation>)
    ensures
        is_typed_view(ptr@, res),
{
    if ptr.fits::<T>() {
        Ok(Envelope::new(ptr))
    } else {
        Err(ProtocolViolation::SizeMismatch)
    }
}

/// The task's hold on one buffer whose payload is a `T`.
#[must_use]
#[derive(Debug)]
pub struct Envelope<T: Send> {
    msg: MsgPtr,
    marker: PhantomData<T>,
}

impl<T: Send> View for Envelope<T> {
    type V = MsgView;

    closed spec fn view(&self) -> MsgView {
        self.msg@
    }
}

impl<T: Send> Envelope<T> {
    #[verifier::type_invariant]
    spec fn size_checked(self) -> bool {
        self.msg@.size == msg_size::<T>()
    }

    fn new(msg: MsgPtr) -> (env: Envelope<T>)
        requires
            msg@.size == msg_size::<T>(),
        ensures
            env@ == msg@,
    {
        Envelope { msg, marker: PhantomData }
    }

    /// Whether the kernel marked the message as poisoned. The task decides
    /// what to do with such a message.
    pub fn is_poisoned(&self) -> (poisoned: bool)
        ensures
            poisoned == self@.poisoned,
    {
        self.msg.is_poisoned()
    }

    /// Address of the buffer, at which its header and then its payload lie.
    pub fn addr(&self) -> (addr: usize)
        ensures
            addr == self@.addr,
            addr != 0,
    {
        self.msg.addr()
    }

    /// Declared size of the buffer: that of a header followed by a `T`.
    pub fn size(&self) -> (size: u32)
        ensures
            size == self@.size,
            size == msg_size::<T>(),
    {
        proof {
            use_type_invariant(self);
        }
        self.msg.size()
    }

    /// Gives the message back to the kernel. Returns the proof that the task
    /// holds no buffer any more, and the request word to hand to the kernel.
    pub fn free(self) -> (released: (Token, u32))
        ensures
            released.1 == SC_MSG_FREE,
    {
        (self.discharge(), SC_MSG_FREE)
    }

    /// Gives up the hold on the message for the proof that the task holds no
    /// buffer.
    pub(crate) fn discharge(self) -> Token {
        Token::new()
    }
}

/// The task's hold on one buffer of which only the header is known.
#[must_use]
#[derive(Debug)]
pub struct HeaderPtr {
    ptr: MsgPtr,
}

impl View for HeaderPtr {
    type V = MsgView;

    closed spec fn view(&self) -> MsgView {
        self.ptr@
    }
}

impl HeaderPtr {
    pub(crate) fn new(ptr: MsgPtr) -> (handle: HeaderPtr)
        ensures
            handle@ == ptr@,
    {
        HeaderPtr { ptr }
    }

    /// Address of the buffer.
    pub fn addr(&self) -> (addr: usize)
        ensures
            addr == self@.addr,
            addr != 0,
    {
        self.ptr.addr()
    }

    /// Whether the buffer declares exactly the size of a message with payload
    /// `T`.
    pub fn fits<T>(&self) -> (fits: bool)
        ensures
            fits == (self@.size == msg_size::<T>()),
    {
        self.ptr.fits::<T>()
    }

    /// Gives the buffer back to the kernel. Returns the proof that the task
    /// holds no buffer any more, and the request word to hand to the kernel.
    pub fn free(self) -> (released: (Token, u32))
        ensures
            released.1 == SC_MSG_FREE,
    {
        (self.discharge(), SC_MSG_FREE)
    }

    /// Gives up the hold on the buffer for the proof that the task holds no
    /// buffer.
    fn discharge(self) -> Token {
        Token::new()
    }

    /// Turns the handle into a typed one, after checking the size that the
    /// buffer declares.
    pub fn convert<T: Send>(self) -> (res: Result<Envelope<T>, ProtocolViolation>)
        ensures
            is_typed_view(self@, res),
    {
        msg_typecast(self.ptr)
    }
}

/// A typed view of a buffer that declares another size than that of a header
/// followed by the payload type gives no message.
pub proof fn lemma_mismatch_gives_no_message<T: Send>(
    ptr: MsgView,
    res: Result<Envelope<T>, ProtocolViolation>,
)
    requires
        is_typed_view(ptr, res),
        ptr.size != msg_size::<T>(),
    ensures
        res is Err,
{
}

} // verus!
