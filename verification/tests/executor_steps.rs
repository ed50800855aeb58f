use ac_task::executor::{call, call_once, msg_input, next_request, Task};
use ac_task::mailbox::{Mailbox, Poll};
use ac_task::message::{MsgPtr, Token};
use ac_task::violation::ProtocolViolation;

fn buffer() -> MsgPtr {
    MsgPtr::new(0x2000_0400, 32, 0).unwrap()
}

fn other_buffer() -> MsgPtr {
    MsgPtr::new(0x2000_0800, 32, 0).unwrap()
}

#[test]
fn input_without_a_buffer_clears_the_slot() {
    for before in [
        Mailbox::Empty,
        Mailbox::MessageWaiting,
        Mailbox::Subscription(100),
        Mailbox::Message(buffer()),
    ] {
        let mut mailbox = before;
        msg_input(&mut mailbox, None);
        assert_eq!(mailbox, Mailbox::Empty);
    }
}

#[test]
fn waiting_slot_is_empty_when_the_kernel_brings_nothing() {
    let mut mailbox = Mailbox::Subscription(0x1000_0001);
    assert_eq!(next_request(&mut mailbox, Ok(Poll::Pending)), Ok(0x1000_0001));
    assert_eq!(mailbox, Mailbox::MessageWaiting);
    msg_input(&mut mailbox, None);
    assert_eq!(mailbox, Mailbox::Empty);
}

#[test]
fn input_records_the_buffer_in_a_free_slot() {
    let mut mailbox = Mailbox::Empty;
    msg_input(&mut mailbox, Some(buffer()));
    assert_eq!(mailbox, Mailbox::Message(buffer()));
    let mut mailbox = Mailbox::MessageWaiting;
    msg_input(&mut mailbox, Some(buffer()));
    assert_eq!(mailbox, Mailbox::Message(buffer()));
}

#[test]
fn input_keeps_an_item_that_nobody_took() {
    let mut mailbox = Mailbox::Message(buffer());
    msg_input(&mut mailbox, Some(other_buffer()));
    assert_eq!(mailbox, Mailbox::Message(buffer()));
    let mut mailbox = Mailbox::Subscription(0x1000_0001);
    msg_input(&mut mailbox, Some(other_buffer()));
    assert_eq!(mailbox, Mailbox::Subscription(0x1000_0001));
}

#[test]
fn request_of_a_suspended_task_is_returned() {
    let mut mailbox = Mailbox::Subscription(0x1000_0001);
    assert_eq!(next_request(&mut mailbox, Ok(Poll::Pending)), Ok(0x1000_0001));
    assert_eq!(mailbox, Mailbox::MessageWaiting);
}

#[test]
fn delay_request_leaves_the_mailbox_empty() {
    let mut mailbox = Mailbox::Subscription(0x0000_0064);
    assert_eq!(next_request(&mut mailbox, Ok(Poll::Pending)), Ok(100));
    assert_eq!(mailbox, Mailbox::Empty);
    let mut mailbox = Mailbox::Subscription(0x0FFF_FFFF);
    assert_eq!(next_request(&mut mailbox, Ok(Poll::Pending)), Ok(0x0FFF_FFFF));
    assert_eq!(mailbox, Mailbox::Empty);
}

#[test]
fn every_other_opcode_waits_for_a_buffer() {
    for word in [0x1000_0000u32, 0x2000_0005, 0x3000_0002, 0x4000_0000, 0xF000_0000] {
        let mut mailbox = Mailbox::Subscription(word);
        assert_eq!(next_request(&mut mailbox, Ok(Poll::Pending)), Ok(word));
        assert_eq!(mailbox, Mailbox::MessageWaiting);
    }
}

#[test]
fn suspension_without_a_request_is_a_violation() {
    for left in [Mailbox::Empty, Mailbox::MessageWaiting, Mailbox::Message(buffer())] {
        let mut mailbox = left;
        assert_eq!(
            next_request(&mut mailbox, Ok(Poll::Pending)),
            Err(ProtocolViolation::NoSubscription)
        );
        assert_eq!(mailbox, Mailbox::Empty);
    }
}

#[test]
fn completed_task_is_a_violation() {
    for left in [Mailbox::Empty, Mailbox::Subscription(0x1000_0001), Mailbox::MessageWaiting] {
        let mut mailbox = left;
        assert_eq!(
            next_request(&mut mailbox, Ok(Poll::Ready(()))),
            Err(ProtocolViolation::Completed)
        );
        assert_eq!(mailbox, Mailbox::Empty);
    }
}

#[test]
fn violation_of_the_task_is_passed_on() {
    let mut mailbox = Mailbox::Subscription(0x1000_0001);
    assert_eq!(
        next_request(&mut mailbox, Err(ProtocolViolation::SizeMismatch)),
        Err(ProtocolViolation::SizeMismatch)
    );
    assert_eq!(mailbox, Mailbox::Empty);
    let mut mailbox = Mailbox::Empty;
    assert_eq!(
        next_request(&mut mailbox, Err(ProtocolViolation::DroppedMsg)),
        Err(ProtocolViolation::DroppedMsg)
    );
}

#[test]
fn call_once_constructs_with_the_first_token() {
    let mut slot: Option<(Token, u32)> = None;
    let task = call_once(&mut slot, |token| (token, 7));
    assert_eq!(task.1, 7);
    task.1 = 8;
    assert_eq!(slot.as_ref().map(|task| task.1), Some(8));
}

#[test]
fn call_once_leaves_a_resident_task_alone() {
    let mut constructions: u32 = 0;
    let mut slot: Option<u32> = None;
    for invocation in 0..5u32 {
        let task = call_once(&mut slot, |_token| {
            constructions += 1;
            invocation + 10
        });
        assert_eq!(*task, 10 + invocation);
        *task += 1;
    }
    assert_eq!(constructions, 1);
    assert_eq!(slot, Some(15));
}

#[derive(Clone, Copy)]
enum Answer {
    Suspends,
    Completes,
    Fails(ProtocolViolation),
}

struct Scripted {
    leaves: Mailbox,
    answers: Answer,
    resumptions: u32,
}

impl Task for Scripted {
    fn resume(&mut self, mailbox: &mut Mailbox) -> Result<Poll<()>, ProtocolViolation> {
        self.resumptions += 1;
        *mailbox = self.leaves;
        match self.answers {
            Answer::Suspends => Ok(Poll::Pending),
            Answer::Completes => Ok(Poll::Ready(())),
            Answer::Fails(violation) => Err(violation),
        }
    }
}

#[test]
fn call_resumes_once_and_returns_the_request() {
    let mut task = Scripted {
        leaves: Mailbox::Subscription(0x1000_0001),
        answers: Answer::Suspends,
        resumptions: 0,
    };
    let mut mailbox = Mailbox::new();
    assert_eq!(call(&mut task, &mut mailbox), Ok(0x1000_0001));
    assert_eq!(task.resumptions, 1);
    assert_eq!(mailbox, Mailbox::MessageWaiting);
}

#[test]
fn call_leaves_no_item_whatever_the_task_did() {
    let buffer = buffer();
    for leaves in [
        Mailbox::Empty,
        Mailbox::MessageWaiting,
        Mailbox::Message(buffer),
        Mailbox::Subscription(100),
        Mailbox::Subscription(0x1000_0001),
    ] {
        for answers in [
            Answer::Suspends,
            Answer::Completes,
            Answer::Fails(ProtocolViolation::SizeMismatch),
        ] {
            let mut task = Scripted { leaves, answers, resumptions: 0 };
            let mut mailbox = Mailbox::Message(buffer);
            let _ = call(&mut task, &mut mailbox);
            assert!(!mailbox.holds_item());
            assert_eq!(task.resumptions, 1);
        }
    }
}
