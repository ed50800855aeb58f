//! The executor of the one resident task.
//!
//! The kernel invokes the task with a buffer or with none and expects the next
//! request word. One invocation records the buffer in the mailbox, or clears
//! the mailbox if there is none, constructs the task if this is the first
//! invocation, resumes it once, and returns the request that the task left in
//! the mailbox when it suspended.

use vstd::prelude::*;
use crate::mailbox::{Mailbox, Poll};
use crate::message::{MsgPtr, Token};
use crate::syscall::{
    is_opcode, lemma_request_fields, opcode, opcode_of, request, OPERAND_MASK,
};
use crate::timer::{lemma_armed_timer_suspends_once, lemma_timer_request, Timer};
use crate::violation::ProtocolViolation;

verus! {

/// A task: a computation that runs from one suspension point to the next each
/// time it is resumed.
pub trait Task {
    /// Runs the task up to its next suspension point. The task polls its
    /// sources with `mailbox`; when it answers `Pending`, the source at which
    /// it suspended has left its request there. A violation that a source
    /// reports ends the resumption.
    fn resume(&mut self, mailbox: &mut Mailbox) -> Result<Poll<()>, ProtocolViolation>;
}

/// The mailbox after the executor was handed `msg` at the start of an
/// invocation. A buffer is recorded unless the slot still holds an item that
/// nobody took, which then stays. Without a buffer the slot is cleared.
pub open spec fn mailbox_after_input(mailbox: Mailbox, msg: Option<MsgPtr>) -> Mailbox {
    match msg {
        Some(ptr) => if mailbox.is_unconsumed() {
            mailbox
        } else {
            Mailbox::Message(ptr)
        },
        None => Mailbox::Empty,
    }
}

/// The mailbox after the executor took the request `word` from it: a request
/// with a nonzero opcode waits for a buffer.
pub open spec fn mailbox_after_request(word: u32) -> Mailbox {
    if opcode_of(word) != 0 {
        Mailbox::MessageWaiting
    } else {
        Mailbox::Empty
    }
}

/// What an invocation returns when the task answered `outcome` and left
/// `mailbox`: the request in the mailbox, if the task suspended and left one.
pub open spec fn request_after_resume(
    mailbox: Mailbox,
    outcome: Result<Poll<()>, ProtocolViolation>,
) -> Result<u32, ProtocolViolation> {
    match (outcome, mailbox) {
        (Err(violation), _) => Err(violation),
        (Ok(Poll::Ready(_)), _) => Err(ProtocolViolation::Completed),
        (Ok(Poll::Pending), Mailbox::Subscription(word)) => Ok(word),
        (Ok(Poll::Pending), _) => Err(ProtocolViolation::NoSubscription),
    }
}

/// The mailbox after the executor took the task's request from it, when the
/// task answered `outcome` and left `mailbox`.
pub open spec fn mailbox_after_resume(
    mailbox: Mailbox,
    outcome: Result<Poll<()>, ProtocolViolation>,
) -> Mailbox {
    match request_after_resume(mailbox, outcome) {
        Ok(word) => mailbox_after_request(word),
        Err(_) => Mailbox::Empty,
    }
}

/// Sets the mailbox up for an invocation: records the buffer that the kernel
/// passed, or clears the slot if the kernel passed none.
pub fn msg_input(mailbox: &mut Mailbox, msg: Option<MsgPtr>)
    ensures
        *final(mailbox) == mailbox_after_input(*old(mailbox), msg),
{
    match msg {
        Some(ptr) => {
            if !mailbox.holds_item() {
                *mailbox = Mailbox::Message(ptr);
            }
        },
        None => {
            *mailbox = Mailbox::Empty;
        },
    }
}

/// Constructs the task on the first invocation: an empty `slot` is filled with
/// what `f` makes of the first token. A filled slot is left alone and `f` is
/// not called. Returns the resident task.
pub fn call_once<C, F: FnOnce(Token) -> C>(slot: &mut Option<C>, f: F) -> (task: &mut C)
    requires
        *old(slot) is None ==> forall|token: Token| call_requires(f, (token,)),
    ensures
        *old(slot) matches Some(resident) ==> *task == resident,
        *old(slot) is None ==> exists|token: Token| call_ensures(f, (token,), *task),
        *final(slot) == Some(*final(task)),
{
    if slot.is_none() {
        *slot = Some(f(Token::new()));
    }
    match slot {
        Some(task) => task,
        None => vstd::pervasive::unreached(),
    }
}

/// Takes the task's request from the mailbox after a resumption that answered
/// `outcome`, and returns it. A request with a nonzero opcode leaves the
/// mailbox waiting for a buffer; in every other case the mailbox is empty.
pub fn next_request(mailbox: &mut Mailbox, outcome: Result<Poll<()>, ProtocolViolation>) -> (res:
    Result<u32, ProtocolViolation>)
    ensures
        res == request_after_resume(*old(mailbox), outcome),
        *final(mailbox) == mailbox_after_resume(*old(mailbox), outcome),
{
    let left = mailbox.take();
    match outcome {
        Err(violation) => Err(violation),
        Ok(Poll::Ready(_)) => Err(ProtocolViolation::Completed),
        Ok(Poll::Pending) => match left {
            Mailbox::Subscription(word) => {
                if opcode(word) != 0 {
                    *mailbox = Mailbox::MessageWaiting;
                }
                Ok(word)
            },
            _ => Err(ProtocolViolation::NoSubscription),
        },
    }
}

/// Resumes `task` once and returns the request with which it suspended.
/// Whatever the task did, the mailbox holds no item afterwards.
pub fn call<C: Task>(task: &mut C, mailbox: &mut Mailbox) -> (res: Result<u32, ProtocolViolation>)
    ensures
        res matches Ok(word) ==> *final(mailbox) == mailbox_after_request(word),
        res is Err ==> *final(mailbox) == Mailbox::Empty,
        final(mailbox).unconsumed() == 0,
{
    let outcome = task.resume(mailbox);
    next_request(mailbox, outcome)
}

/// Everything that the task keeps between two invocations: the mailbox and,
/// from the first invocation on, the task itself.
pub struct TaskRuntimeState<C> {
    mailbox: Mailbox,
    task: Option<C>,
}

impl<C> TaskRuntimeState<C> {
    /// The content of the mailbox.
    pub closed spec fn slot(&self) -> Mailbox {
        self.mailbox
    }

    /// The resident task, once it is constructed.
    pub closed spec fn resident(&self) -> Option<C> {
        self.task
    }

    /// The state before the first invocation: no task yet, the mailbox empty.
    pub fn new() -> (state: TaskRuntimeState<C>)
        ensures
            state.slot() == Mailbox::Empty,
            state.resident() is None,
    {
        TaskRuntimeState { mailbox: Mailbox::Empty, task: None }
    }

    /// The content of the mailbox.
    pub fn mailbox(&self) -> (mailbox: Mailbox)
        ensures
            mailbox == self.slot(),
    {
        self.mailbox
    }

    /// Whether the task has been constructed.
    pub fn is_resident(&self) -> (resident: bool)
        ensures
            resident == self.resident() is Some,
    {
        self.task.is_some()
    }

    /// The resident task, once it is constructed.
    pub fn task(&self) -> (task: Option<&C>)
        ensures
            task is Some <==> self.resident() is Some,
            task matches Some(resident) ==> self.resident() == Some(*resident),
    {
        self.task.as_ref()
    }
}

/// One invocation by the kernel, with the buffer `msg` or with none. The first
/// invocation constructs the task with `f`; every invocation resumes the
/// resident task once and returns the request with which it suspended. Between
/// two invocations the mailbox holds no item.
pub fn bind<C: Task, F: FnOnce(Token) -> C>(
    state: &mut TaskRuntimeState<C>,
    msg: Option<MsgPtr>,
    f: F,
) -> (res: Result<u32, ProtocolViolation>)
    requires
        old(state).resident() is None ==> forall|token: Token| call_requires(f, (token,)),
    ensures
        final(state).resident() is Some,
        res matches Ok(word) ==> final(state).slot() == mailbox_after_request(word),
        res is Err ==> final(state).slot() == Mailbox::Empty,
        final(state).slot().unconsumed() == 0,
{
    msg_input(&mut state.mailbox, msg);
    let task = call_once(&mut state.task, f);
    call(task, &mut state.mailbox)
}

/// The mailbox after a run of invocations that started with `start` in the
/// mailbox. The kernel passed `inputs`, one to each invocation; `task` says for
/// each invocation, by its number and the mailbox that the task found, what the
/// task left in the mailbox and what it answered.
pub open spec fn mailbox_after_run(
    start: Mailbox,
    inputs: Seq<Option<MsgPtr>>,
    task: spec_fn(int, Mailbox) -> (Mailbox, Result<Poll<()>, ProtocolViolation>),
) -> Mailbox
    decreases inputs.len(),
{
    if inputs.len() == 0 {
        start
    } else {
        let before = mailbox_after_run(start, inputs.drop_last(), task);
        let found = mailbox_after_input(before, inputs.last());
        let (left, outcome) = task(inputs.len() - 1, found);
        mailbox_after_resume(left, outcome)
    }
}

/// Whatever the task did in a resumption, the mailbox holds no item once the
/// executor has taken the task's request.
pub proof fn lemma_no_item_after_resume(
    mailbox: Mailbox,
    outcome: Result<Poll<()>, ProtocolViolation>,
)
    ensures
        mailbox_after_resume(mailbox, outcome).unconsumed() == 0,
{
}

/// Between two invocations the mailbox holds at most one item that nobody took:
/// after every run of invocations, whatever the kernel passed and whatever the
/// task did, and none at all once an invocation has taken place.
pub proof fn lemma_at_most_one_item_between_invocations(
    start: Mailbox,
    inputs: Seq<Option<MsgPtr>>,
    task: spec_fn(int, Mailbox) -> (Mailbox, Result<Poll<()>, ProtocolViolation>),
)
    ensures
        mailbox_after_run(start, inputs, task).unconsumed() <= 1,
        inputs.len() > 0 ==> mailbox_after_run(start, inputs, task).unconsumed() == 0,
{
}

/// Every invocation after the first starts on a fresh slot: whatever the task
/// did in the resumption before, the task finds the buffer that the kernel
/// passed, or an empty slot if the kernel passed none.
pub proof fn lemma_input_resets_slot(
    left: Mailbox,
    outcome: Result<Poll<()>, ProtocolViolation>,
    msg: Option<MsgPtr>,
)
    ensures
        mailbox_after_input(mailbox_after_resume(left, outcome), msg) == match msg {
            Some(ptr) => Mailbox::Message(ptr),
            None => Mailbox::Empty,
        },
{
}

/// A task that suspends at a message source, because the source found no
/// buffer, has the source's request returned to the kernel. The mailbox then
/// waits, and the buffer that the kernel passes to the next invocation is the
/// one that a source finds when it is polled.
pub proof fn lemma_wait_then_delivery(found: Mailbox, opcode: u32, id: u32, ptr: MsgPtr)
    requires
        found.delivered() is None,
        is_opcode(opcode),
        opcode_of(opcode) != 0,
        id <= OPERAND_MASK,
    ensures
        request_after_resume(found.after_poll(request(opcode, id)), Ok(Poll::Pending)) == Ok::<
            u32,
            ProtocolViolation,
        >(request(opcode, id)),
        mailbox_after_resume(found.after_poll(request(opcode, id)), Ok(Poll::Pending))
            == Mailbox::MessageWaiting,
        mailbox_after_input(Mailbox::MessageWaiting, Some(ptr)).delivered() == Some(ptr),
{
    lemma_request_fields(opcode, id);
}

/// A task that suspends at a timer armed with ticks that fit the operand has
/// the delay request for them returned to the kernel, and the mailbox is empty
/// until the next invocation.
pub proof fn lemma_sleep_then_resume(found: Mailbox, ticks: u32)
    requires
        0 < ticks <= OPERAND_MASK,
    ensures
        request_after_resume(Timer::mailbox_after_poll(ticks, found), Ok(Poll::Pending)) == Ok::<
            u32,
            ProtocolViolation,
        >(ticks),
        mailbox_after_resume(Timer::mailbox_after_poll(ticks, found), Ok(Poll::Pending))
            == Mailbox::Empty,
{
    lemma_armed_timer_suspends_once(ticks, found, found);
    lemma_timer_request(ticks);
}

} // verus!
