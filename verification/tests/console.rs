//! Console read and write resources: request validation, partial-callback
//! byte accounting, cancellation, and the shared-buffer images.

use libtock::console_read::ConsoleRead;
use libtock::console_write::{ConsoleWrite, ConsoleWriteStr};
use libtock::executor::WakeHandle;
use libtock::result::Error;
use libtock::syscalls::{CallbackData, KernelOp};
use libtock::transfer::TransferPoll;

fn ok_callback(count: usize) -> CallbackData {
    CallbackData::new(0, count, 0, 0)
}

#[test]
fn read_five_bytes_across_two_callbacks() {
    let mut r = ConsoleRead::new();
    let ops = r.read(5).expect("fresh resource accepts a 5-byte read");
    assert_eq!(ops.len(), 3);
    assert_eq!(ops[0], KernelOp::Allow { driver: 1, allow_num: 2, len: 5 });
    assert_eq!(ops[1], KernelOp::Subscribe { driver: 1, subscribe_num: 2 });
    assert_eq!(
        ops[2],
        KernelOp::Command { driver: 1, command_num: 2, arg1: 5, arg2: 0 }
    );

    r.deliver_input(0, b"abc");
    let notify = r.deliver(ok_callback(3));
    assert!(notify.is_none());
    assert_eq!(r.poll(WakeHandle::new()), TransferPoll::Pending);

    r.deliver_input(3, b"de");
    let notify = r.deliver(ok_callback(2));
    assert!(notify.is_some());
    assert_eq!(r.poll(WakeHandle::new()), TransferPoll::Done { bytes: 5 });

    assert_eq!(r.read_buffer(5), b"abcde".to_vec());
    assert!(r.read(1).is_ok());
}

#[test]
fn read_while_ongoing_is_busy() {
    let mut r = ConsoleRead::new();
    r.read(5).unwrap();
    assert_eq!(r.read(5).unwrap_err(), Error::EBUSY);
}

#[test]
fn read_longer_than_buffer_is_invalid() {
    let mut r = ConsoleRead::new();
    assert_eq!(r.read(65).unwrap_err(), Error::EINVAL);
    assert!(r.read(64).is_ok());
}

#[test]
fn read_clears_previous_contents() {
    let mut r = ConsoleRead::new();
    r.read(3).unwrap();
    r.deliver_input(0, b"xyz");
    r.deliver(ok_callback(3));
    assert_eq!(r.poll(WakeHandle::new()), TransferPoll::Done { bytes: 3 });
    assert_eq!(r.read_buffer(3), b"xyz".to_vec());

    r.read(3).unwrap();
    assert_eq!(r.read_buffer(3), vec![0u8, 0, 0]);
}

#[test]
fn read_start_failed_rolls_back_to_idle() {
    let mut r = ConsoleRead::new();
    r.read(5).unwrap();
    r.start_failed();
    assert!(r.read(5).is_ok());
}

#[test]
fn zero_length_read_completes_immediately() {
    let mut r = ConsoleRead::new();
    r.read(0).unwrap();
    assert_eq!(r.poll(WakeHandle::new()), TransferPoll::Done { bytes: 0 });
    assert!(r.read(2).is_ok());
}

#[test]
fn read_error_callback_fails_operation() {
    let mut r = ConsoleRead::new();
    r.read(5).unwrap();
    r.deliver(CallbackData::new(usize::MAX - 1, 0, 0, 0));
    assert_eq!(
        r.poll(WakeHandle::new()),
        TransferPoll::Failed { error: Error::EBUSY }
    );
    assert!(r.read(5).is_ok());
}

#[test]
fn read_overcounting_callback_is_a_violation() {
    let mut r = ConsoleRead::new();
    r.read(5).unwrap();
    r.deliver(ok_callback(9));
    assert_eq!(r.poll(WakeHandle::new()), TransferPoll::Violation);
}

#[test]
fn abort_finalizes_on_next_callback() {
    let mut r = ConsoleRead::new();
    r.read(5).unwrap();
    r.deliver(ok_callback(2));
    assert_eq!(r.poll(WakeHandle::new()), TransferPoll::Pending);

    let op = r.abort().expect("abort of an ongoing read is accepted");
    assert_eq!(
        op,
        KernelOp::Command { driver: 1, command_num: 3, arg1: 0, arg2: 0 }
    );
    r.abort_started();

    assert_eq!(r.abort().unwrap_err(), Error::EBUSY);

    r.deliver(ok_callback(1));
    assert_eq!(r.poll(WakeHandle::new()), TransferPoll::Done { bytes: 3 });
    assert!(r.read(5).is_ok());
}

#[test]
fn abort_while_idle_is_invalid() {
    let r = ConsoleRead::new();
    assert_eq!(r.abort().unwrap_err(), Error::EINVAL);
}

#[test]
fn write_twelve_bytes_across_two_callbacks() {
    let mut w = ConsoleWrite::new();
    let ops = w.write(b"Hello world\n").expect("fresh resource accepts a write");
    assert_eq!(ops.len(), 3);
    assert_eq!(ops[0], KernelOp::Allow { driver: 1, allow_num: 1, len: 12 });
    assert_eq!(ops[1], KernelOp::Subscribe { driver: 1, subscribe_num: 1 });
    assert_eq!(
        ops[2],
        KernelOp::Command { driver: 1, command_num: 1, arg1: 12, arg2: 0 }
    );
    assert_eq!(w.staged_buffer(12), b"Hello world\n".to_vec());

    w.deliver(CallbackData::new(5, 0, 0, 0));
    assert_eq!(w.poll(WakeHandle::new()), TransferPoll::Pending);
    w.deliver(CallbackData::new(7, 0, 0, 0));
    assert_eq!(w.poll(WakeHandle::new()), TransferPoll::Done { bytes: 12 });

    assert!(w.write(b"next").is_ok());
}

#[test]
fn second_write_without_completion_is_busy() {
    let mut w = ConsoleWrite::new();
    w.write(b"Hello world\n").unwrap();
    assert_eq!(w.write(b"again").unwrap_err(), Error::EBUSY);
    assert_eq!(w.staged_buffer(12), b"Hello world\n".to_vec());
}

#[test]
fn oversized_write_is_invalid_and_leaves_buffer_alone() {
    let mut w = ConsoleWrite::new();
    w.write(b"keep").unwrap();
    w.deliver(CallbackData::new(4, 0, 0, 0));
    assert_eq!(w.poll(WakeHandle::new()), TransferPoll::Done { bytes: 4 });

    let too_long = [b'x'; 65];
    assert_eq!(w.write(&too_long).unwrap_err(), Error::EINVAL);
    assert_eq!(w.staged_buffer(4), b"keep".to_vec());
}

#[test]
fn write_error_callback_fails_operation() {
    let mut w = ConsoleWrite::new();
    w.write(b"hello").unwrap();
    w.deliver(CallbackData::new(usize::MAX, 0, 0, 0));
    assert_eq!(
        w.poll(WakeHandle::new()),
        TransferPoll::Failed { error: Error::FAIL }
    );
    assert!(w.write(b"hello").is_ok());
}

#[test]
fn write_start_failed_clears_staged_buffer() {
    let mut w = ConsoleWrite::new();
    w.write(b"secret").unwrap();
    w.start_failed();
    assert_eq!(w.staged_buffer(6), vec![0u8; 6]);
    assert!(w.write(b"fresh").is_ok());
}

#[test]
fn write_str_tracks_offset_and_rejects_overflow() {
    let mut f = ConsoleWriteStr::new(vec![0u8; 8]);
    assert_eq!(f.get_offset(), 0);
    f.write_str(b"Hi ").unwrap();
    assert_eq!(f.get_offset(), 3);
    f.write_str(b"you").unwrap();
    assert_eq!(f.get_offset(), 6);
    assert_eq!(f.write_str(b"abc").unwrap_err(), Error::ESIZE);
    assert_eq!(f.get_offset(), 6);
    let buf = f.into_buffer();
    assert_eq!(&buf[..6], b"Hi you");
    assert_eq!(&buf[6..], &[0u8, 0]);
}
