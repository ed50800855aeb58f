use ac_task::executor::call_once;
use ac_task::message::{msg_typecast, Envelope, HeaderPtr, MsgPtr, Token, HEADER_SIZE};
use ac_task::channel::RawRecvChannel;
use ac_task::syscall::SC_MSG_FREE;
use ac_task::violation::ProtocolViolation;

#[derive(Clone, Copy)]
struct Blink {
    _control: u32,
    _padding: [u32; 4],
}

fn first_token() -> Token {
    let mut slot = None;
    call_once(&mut slot, |token| token);
    slot.take().unwrap()
}

fn raw_handle(ptr: MsgPtr) -> HeaderPtr {
    match RawRecvChannel::new(7).try_pop(first_token(), Some(ptr)) {
        Ok(handle) => handle,
        Err(_) => panic!("a buffer was there"),
    }
}

#[test]
fn header_takes_twelve_bytes() {
    assert_eq!(HEADER_SIZE, 12);
}

#[test]
fn null_pointer_is_no_message() {
    assert!(MsgPtr::new(0, 32, 0).is_none());
    assert!(MsgPtr::new(0, 0, 1).is_none());
}

#[test]
fn pointer_keeps_what_the_header_holds() {
    let ptr = MsgPtr::new(0x2000_0100, 32, 0).unwrap();
    assert_eq!(ptr.addr(), 0x2000_0100);
    assert_eq!(ptr.size(), 32);
    assert!(!ptr.is_poisoned());
    let poisoned = MsgPtr::new(0x2000_0100, 32, 0xDEAD).unwrap();
    assert!(poisoned.is_poisoned());
    assert!(MsgPtr::new(8, 32, 1).unwrap().is_poisoned());
}

#[test]
fn buffer_fits_when_it_declares_header_and_payload() {
    let ptr = MsgPtr::new(0x1000, 32, 0).unwrap();
    assert!(ptr.fits::<Blink>());
    assert!(!ptr.fits::<u32>());
    assert!(MsgPtr::new(0x1000, 16, 0).unwrap().fits::<u32>());
    assert!(MsgPtr::new(0x1000, 12, 0).unwrap().fits::<()>());
    assert!(MsgPtr::new(0x1000, 20, 0).unwrap().fits::<u64>());
}

#[test]
fn buffer_smaller_than_a_header_fits_nothing() {
    let ptr = MsgPtr::new(0x1000, 11, 0).unwrap();
    assert!(!ptr.fits::<()>());
    assert!(!ptr.fits::<u8>());
    assert!(!MsgPtr::new(0x1000, 0, 0).unwrap().fits::<()>());
}

#[test]
fn typecast_of_matching_buffer_gives_the_message() {
    let ptr = MsgPtr::new(0x2000_0040, 32, 0).unwrap();
    let env: Envelope<Blink> = msg_typecast(ptr).unwrap();
    assert_eq!(env.addr(), 0x2000_0040);
    assert_eq!(env.size(), 32);
    assert!(!env.is_poisoned());
    let _ = env.free();
}

#[test]
fn typecast_of_mismatched_buffer_is_a_violation() {
    let ptr = MsgPtr::new(0x2000_0040, 31, 0).unwrap();
    match msg_typecast::<Blink>(ptr) {
        Err(violation) => assert_eq!(violation, ProtocolViolation::SizeMismatch),
        Ok(_) => panic!("a buffer of 31 bytes is no such message"),
    }
    let ptr = MsgPtr::new(0x2000_0040, 33, 0).unwrap();
    assert!(matches!(msg_typecast::<Blink>(ptr), Err(ProtocolViolation::SizeMismatch)));
    let ptr = MsgPtr::new(0x2000_0040, 4, 0).unwrap();
    assert!(matches!(msg_typecast::<u32>(ptr), Err(ProtocolViolation::SizeMismatch)));
}

#[test]
fn poison_flag_is_reported_and_nothing_else_happens() {
    let ptr = MsgPtr::new(0x2000_0040, 16, 1).unwrap();
    let env: Envelope<u32> = msg_typecast(ptr).unwrap();
    assert!(env.is_poisoned());
    assert!(env.is_poisoned());
    assert_eq!(env.addr(), 0x2000_0040);
    let _ = env.free();
}

#[test]
fn free_gives_a_token_and_the_free_request() {
    let ptr = MsgPtr::new(0x2000_0040, 16, 0).unwrap();
    let env: Envelope<u32> = msg_typecast(ptr).unwrap();
    let (_token, word): (Token, u32) = env.free();
    assert_eq!(word, SC_MSG_FREE);
    assert_eq!(word, 0x4000_0000);
}

#[test]
fn raw_handle_is_freed_like_a_message() {
    let handle = raw_handle(MsgPtr::new(0x3000, 99, 0).unwrap());
    assert_eq!(handle.addr(), 0x3000);
    let (_token, word) = handle.free();
    assert_eq!(word, 0x4000_0000);
}

#[test]
fn raw_handle_converts_after_validation() {
    let handle = raw_handle(MsgPtr::new(0x3000, 32, 1).unwrap());
    assert!(handle.fits::<Blink>());
    assert!(!handle.fits::<u32>());
    let env: Envelope<Blink> = handle.convert().unwrap();
    assert_eq!(env.addr(), 0x3000);
    assert!(env.is_poisoned());
    let _ = env.free();
}

#[test]
fn raw_handle_of_another_size_does_not_convert() {
    let handle = raw_handle(MsgPtr::new(0x3000, 32, 0).unwrap());
    assert!(matches!(handle.convert::<u32>(), Err(ProtocolViolation::SizeMismatch)));
}
