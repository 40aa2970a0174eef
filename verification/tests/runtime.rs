//! Combinators, the wake protocol, the button stream, and the error
//! encodings.

use libtock::button::{Button, ButtonState};
use libtock::combinators::{race_read_button, race_step, join_read_button, Join, Poll, RaceWinner};
use libtock::console_read::ConsoleRead;
use libtock::executor::{Executor, WakeHandle};
use libtock::result::{Error, UsizeError};
use libtock::syscalls::{decode_syscall_result, CallbackData, KernelOp};
use libtock::transfer::TransferPoll;

#[test]
fn race_prefers_first_on_a_tie() {
    let r = race_step::<u32, u32>(Poll::Ready(1), Poll::Ready(2));
    assert_eq!(r, Poll::Ready(RaceWinner::First(1)));
}

#[test]
fn race_takes_second_only_while_first_pends() {
    assert_eq!(
        race_step::<u32, u32>(Poll::Pending, Poll::Ready(2)),
        Poll::Ready(RaceWinner::Second(2))
    );
    assert_eq!(race_step::<u32, u32>(Poll::Pending, Poll::Pending), Poll::Pending);
}

#[test]
fn race_leaves_the_loser_resumable() {
    let mut r = ConsoleRead::new();
    let mut b = Button::new();
    r.read(2).unwrap();
    r.deliver(CallbackData::new(0, 2, 0, 0));
    b.deliver(CallbackData::new(0, 1, 0, 0));

    let out = race_read_button(&mut r, &mut b, WakeHandle::new());
    assert_eq!(
        out,
        Poll::Ready(RaceWinner::First(TransferPoll::Done { bytes: 2 }))
    );

    let ev = match b.poll_next(WakeHandle::new()) {
        Poll::Ready(ev) => ev,
        Poll::Pending => panic!("the button event must still be queued"),
    };
    assert_eq!(ev.get_num(), 0);
    assert_eq!(ev.get_state(), ButtonState::Pressed);
}

#[test]
fn race_reports_button_while_read_pends() {
    let mut r = ConsoleRead::new();
    let mut b = Button::new();
    r.read(2).unwrap();
    b.deliver(CallbackData::new(3, 0, 0, 0));

    let out = race_read_button(&mut r, &mut b, WakeHandle::new());
    match out {
        Poll::Ready(RaceWinner::Second(ev)) => {
            assert_eq!(ev.get_num(), 3);
            assert_eq!(ev.get_state(), ButtonState::Released);
        },
        _ => panic!("the button side completed"),
    }
}

#[test]
fn join_buffers_whichever_arrives_first() {
    let mut j: Join<u32, u32> = Join::new();
    assert_eq!(j.step(Poll::Ready(7), Poll::Pending), Poll::Pending);
    assert_eq!(j.step(Poll::Pending, Poll::Ready(9)), Poll::Ready((7, 9)));

    let mut j: Join<u32, u32> = Join::new();
    assert_eq!(j.step(Poll::Pending, Poll::Ready(9)), Poll::Pending);
    assert_eq!(j.step(Poll::Ready(7), Poll::Pending), Poll::Ready((7, 9)));
}

#[test]
fn join_completes_on_a_tie() {
    let mut j: Join<u32, u32> = Join::new();
    assert_eq!(j.step(Poll::Pending, Poll::Pending), Poll::Pending);
    assert_eq!(j.step(Poll::Ready(1), Poll::Ready(2)), Poll::Ready((1, 2)));
}

#[test]
fn join_read_button_waits_for_both() {
    let mut j: Join<TransferPoll, _> = Join::new();
    let mut r = ConsoleRead::new();
    let mut b = Button::new();
    r.read(2).unwrap();

    assert_eq!(
        join_read_button(&mut j, &mut r, &mut b, WakeHandle::new()),
        Poll::Pending
    );

    b.deliver(CallbackData::new(0, 1, 0, 0));
    assert_eq!(
        join_read_button(&mut j, &mut r, &mut b, WakeHandle::new()),
        Poll::Pending
    );

    r.deliver(CallbackData::new(0, 2, 0, 0));
    let out = join_read_button(&mut j, &mut r, &mut b, WakeHandle::new());
    match out {
        Poll::Ready((TransferPoll::Done { bytes: 2 }, ev)) => {
            assert_eq!(ev.get_num(), 0);
            assert_eq!(ev.get_state(), ButtonState::Pressed);
        },
        _ => panic!("both sides completed"),
    }
}

#[test]
fn executor_resumes_once_then_parks_until_woken() {
    let mut e = Executor::new();
    assert!(!e.should_park());
    assert!(e.should_park());
    e.notify(WakeHandle::new());
    e.notify(WakeHandle::new());
    assert!(!e.should_park());
    assert!(e.should_park());
}

#[test]
fn recording_notifies_the_stored_waker_only() {
    let mut b = Button::new();
    assert!(b.deliver(CallbackData::new(0, 0, 0, 0)).is_none());
    assert!(matches!(b.poll_next(WakeHandle::new()), Poll::Ready(_)));
    assert!(b.deliver(CallbackData::new(0, 1, 0, 0)).is_some());
}

#[test]
fn button_drains_one_event_per_resumption() {
    let mut b = Button::new();
    assert_eq!(b.poll_next(WakeHandle::new()), Poll::Pending);
    b.deliver(CallbackData::new(2, 1, 0, 0));
    let ev = match b.poll_next(WakeHandle::new()) {
        Poll::Ready(ev) => ev,
        Poll::Pending => panic!("an event was queued"),
    };
    assert_eq!(ev.get_num(), 2);
    assert_eq!(ev.get_state(), ButtonState::Pressed);
    assert_eq!(b.poll_next(WakeHandle::new()), Poll::Pending);
}

#[test]
fn button_and_led_ops_carry_their_driver_numbers() {
    let b = Button::new();
    assert_eq!(b.initialize_op(), KernelOp::Subscribe { driver: 3, subscribe_num: 0 });
    assert_eq!(
        b.enable_interrupt_op(0),
        KernelOp::Command { driver: 3, command_num: 1, arg1: 0, arg2: 0 }
    );
    assert_eq!(
        b.disable_interrupt_op(1),
        KernelOp::Command { driver: 3, command_num: 2, arg1: 1, arg2: 0 }
    );
    assert_eq!(
        b.num_buttons_op(),
        KernelOp::Command { driver: 3, command_num: 0, arg1: 0, arg2: 0 }
    );

    let led = libtock::led::Led::new();
    assert_eq!(
        led.on_op(0),
        KernelOp::Command { driver: 2, command_num: 1, arg1: 0, arg2: 0 }
    );
    assert_eq!(
        led.off_op(0),
        KernelOp::Command { driver: 2, command_num: 2, arg1: 0, arg2: 0 }
    );
    assert_eq!(
        led.toggle_op(3),
        KernelOp::Command { driver: 2, command_num: 3, arg1: 3, arg2: 0 }
    );
}

#[test]
fn every_error_code_round_trips() {
    let all = [
        (-1, Error::FAIL),
        (-2, Error::EBUSY),
        (-3, Error::EALREADY),
        (-4, Error::EOFF),
        (-5, Error::ERESERVE),
        (-6, Error::EINVAL),
        (-7, Error::ESIZE),
        (-8, Error::ECANCEL),
        (-9, Error::ENOMEM),
        (-10, Error::ENOSUPPORT),
        (-11, Error::ENODEVICE),
        (-12, Error::EUNINSTALLED),
        (-13, Error::ENOACK),
    ];
    for (code, err) in all {
        assert_eq!(Error::from_code(code), Some(err));
        assert_eq!(err.as_code(), code);
        assert_eq!(decode_syscall_result(code), Err(err));
        let word = code as usize;
        assert_eq!(UsizeError::from_word(word).0, Some(err));
    }
    assert_eq!(Error::from_code(0), None);
    assert_eq!(Error::from_code(-14), None);
    assert_eq!(decode_syscall_result(17), Ok(17));
    assert_eq!(UsizeError::from_word(5).0, None);
    assert_eq!(UsizeError::from_word(usize::MAX - 13).0, None);
}

#[test]
fn callback_data_keeps_its_words() {
    let cb = CallbackData::new(1, 2, 3, 4);
    assert_eq!(cb.get_arg0(), 1);
    assert_eq!(cb.get_arg1(), 2);
    assert_eq!(cb.get_arg2(), 3);
    assert_eq!(cb.get_userdata(), 4);
}

#[test]
fn button_state_decodes_its_word() {
    assert_eq!(ButtonState::from_word(0), ButtonState::Released);
    assert_eq!(ButtonState::from_word(1), ButtonState::Pressed);
    assert_eq!(ButtonState::from_word(7), ButtonState::Pressed);
}
