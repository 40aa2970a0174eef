//! One full round of the runtime, driven the way the embedded process
//! drives it: write a prompt, read a line joined with a button event, echo
//! it back, parking the executor between resumptions and waking it from
//! the callback deliveries.

use libtock::button::Button;
use libtock::combinators::{join_read_button, Join, Poll};
use libtock::console_read::ConsoleRead;
use libtock::console_write::ConsoleWrite;
use libtock::executor::{Executor, WakeHandle};
use libtock::syscalls::{CallbackData, KernelOp};
use libtock::transfer::TransferPoll;

/// A queued kernel callback for one of the three resources.
enum Event {
    ReadChunk(Vec<u8>, usize),
    WriteDone(usize),
    Button(usize, usize),
}

#[derive(Default)]
struct Script {
    events: Vec<Event>,
}

impl Script {
    /// Accepts a syscall plan and queues the callbacks a healthy kernel
    /// would send back, splitting console input across two callbacks.
    fn issue(&mut self, ops: Vec<KernelOp>, input: &[u8]) {
        for op in ops {
            match op {
                KernelOp::Command { driver: 1, command_num: 2, arg1: len, .. } => {
                    let mut bytes = input.to_vec();
                    bytes.truncate(len);
                    if bytes.len() > 2 {
                        let tail = bytes.split_off(2);
                        self.events.push(Event::ReadChunk(bytes, 0));
                        self.events.push(Event::ReadChunk(tail, 2));
                    } else {
                        self.events.push(Event::ReadChunk(bytes, 0));
                    }
                }
                KernelOp::Command { driver: 1, command_num: 1, arg1: len, .. } => {
                    self.events.push(Event::WriteDone(len));
                }
                _ => {}
            }
        }
    }

    /// Delivers the next queued callback — one per yield, as the kernel
    /// runs one subscribed callback while the process is parked — waking
    /// the executor as the interrupt handlers do.
    fn deliver_next(
        &mut self,
        read: &mut ConsoleRead,
        write: &mut ConsoleWrite,
        button: &mut Button,
        executor: &mut Executor,
    ) {
        if self.events.is_empty() {
            return;
        }
        let notify = match self.events.remove(0) {
            Event::ReadChunk(bytes, at) => {
                read.deliver_input(at, &bytes);
                read.deliver(CallbackData::new(0, bytes.len(), 0, 0))
            }
            Event::WriteDone(len) => write.deliver(CallbackData::new(len, 0, 0, 0)),
            Event::Button(num, state) => button.deliver(CallbackData::new(num, state, 0, 0)),
        };
        if let Some(handle) = notify {
            executor.notify(handle);
        }
    }
}

#[test]
fn full_round_with_parked_executor() {
    let mut script = Script::default();
    let mut executor = Executor::new();
    let mut console_write = ConsoleWrite::new();
    let mut console_read = ConsoleRead::new();
    let mut button = Button::new();
    let handle = WakeHandle::new();

    // Prompt.
    let ops = console_write.write(b"Enter 5 characters and press button: ").unwrap();
    script.issue(ops, b"");
    let mut parks = 0;
    loop {
        if executor.should_park() {
            parks += 1;
            script.deliver_next(&mut console_read, &mut console_write, &mut button, &mut executor);
        }
        match console_write.poll(handle) {
            TransferPoll::Pending => {}
            TransferPoll::Done { bytes } => {
                assert_eq!(bytes, 37);
                break;
            }
            other => panic!("the prompt write failed: {:?}", other),
        }
    }
    assert!(parks >= 1, "the executor parked while the write was in flight");

    // Read five bytes joined with a button press.
    let ops = console_read.read(5).unwrap();
    script.issue(ops, b"hello");
    script.events.push(Event::Button(0, 1));
    let mut join: Join<TransferPoll, _> = Join::new();
    let (read_outcome, event) = loop {
        if executor.should_park() {
            script.deliver_next(&mut console_read, &mut console_write, &mut button, &mut executor);
        }
        match join_read_button(&mut join, &mut console_read, &mut button, handle) {
            Poll::Ready(pair) => break pair,
            Poll::Pending => {}
        }
    };
    assert_eq!(read_outcome, TransferPoll::Done { bytes: 5 });
    assert_eq!(event.get_num(), 0);
    let received = console_read.read_buffer(5);
    assert_eq!(received, b"hello".to_vec());

    // Echo.
    let mut line = b"Received: ".to_vec();
    line.extend_from_slice(&received);
    let ops = console_write.write(&line).unwrap();
    script.issue(ops, b"");
    loop {
        if executor.should_park() {
            script.deliver_next(&mut console_read, &mut console_write, &mut button, &mut executor);
        }
        match console_write.poll(handle) {
            TransferPoll::Pending => {}
            TransferPoll::Done { bytes } => {
                assert_eq!(bytes, 15);
                break;
            }
            other => panic!("the echo write failed: {:?}", other),
        }
    }
}

#[test]
fn callback_while_idle_is_a_violation() {
    let mut r = ConsoleRead::new();
    r.deliver(CallbackData::new(0, 3, 0, 0));
    assert_eq!(r.poll(WakeHandle::new()), TransferPoll::Violation);
}

#[test]
fn join_keeps_the_buffered_result() {
    let mut j: Join<u32, u32> = Join::new();
    assert_eq!(j.step(Poll::Ready(7), Poll::Pending), Poll::Pending);
    assert_eq!(j.step(Poll::Ready(8), Poll::Ready(9)), Poll::Ready((7, 9)));
}
