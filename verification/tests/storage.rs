//! Arena allocators, the boxed-task registry, and their composition.

use libtock::arena::Arena;
use libtock::console_write::ConsoleWrite;
use libtock::futures::{AllocedFor, BoxedTaskRegistry, TaskStore};
use libtock::result::Error;

#[test]
fn arena_hands_out_disjoint_extents() {
    let mut a = Arena::new(64);
    assert_eq!(a.allocate(10).unwrap(), 0);
    assert_eq!(a.allocate(6).unwrap(), 10);
    assert_eq!(a.allocate(16).unwrap(), 16);
}

#[test]
fn arena_rejects_what_does_not_fit() {
    let mut a = Arena::new(16);
    assert_eq!(a.allocate(10).unwrap(), 0);
    assert_eq!(a.allocate(7).unwrap_err(), Error::ENOMEM);
    assert_eq!(a.allocate(6).unwrap(), 10);
}

#[test]
fn arena_release_of_unknown_extent_is_invalid() {
    let mut a = Arena::new(16);
    a.allocate(8).unwrap();
    assert_eq!(a.release(0, 4).unwrap_err(), Error::EINVAL);
    assert_eq!(a.release(8, 8).unwrap_err(), Error::EINVAL);
    assert_eq!(a.release(0, 8), Ok(()));
}

#[test]
fn matched_cycles_never_leak_capacity() {
    let mut a = Arena::new(16);
    for _ in 0..100 {
        let offset = a.allocate(16).expect("the same request fits every cycle");
        a.release(offset, 16).unwrap();
    }
}

#[test]
fn matched_cycles_never_leak_capacity_around_a_survivor() {
    let mut a = Arena::new(24);
    let keep = a.allocate(8).unwrap();
    for _ in 0..100 {
        let offset = a.allocate(16).expect("the same request fits every cycle");
        a.release(offset, 16).unwrap();
    }
    a.release(keep, 8).unwrap();
    assert_eq!(a.allocate(24).unwrap(), 0);
}

#[test]
fn arena_resets_when_nothing_is_live() {
    let mut a = Arena::new(16);
    let x = a.allocate(6).unwrap();
    let y = a.allocate(6).unwrap();
    a.release(x, 6).unwrap();
    a.release(y, 6).unwrap();
    assert_eq!(a.allocate(16).unwrap(), 0);
}

#[test]
fn registry_round_trip() {
    let mut reg = BoxedTaskRegistry::new();
    reg.register(0x2000, AllocedFor::ConsoleRead).unwrap();
    reg.register(0x3000, AllocedFor::Button).unwrap();
    assert_eq!(reg.resolve(0x2000), Some(AllocedFor::ConsoleRead));
    assert_eq!(reg.resolve(0x1000), None);
    assert_eq!(reg.resolve_and_remove(0x2000), Some(AllocedFor::ConsoleRead));
    assert_eq!(reg.resolve_and_remove(0x2000), None);
    assert_eq!(reg.resolve_and_remove(0x3000), Some(AllocedFor::Button));
}

#[test]
fn registry_capacity_is_sixteen() {
    let mut reg = BoxedTaskRegistry::new();
    for i in 0..16usize {
        reg.register(0x1000 + i, AllocedFor::ConsoleWrite).unwrap();
    }
    assert_eq!(
        reg.register(0x5000, AllocedFor::ConsoleWrite).unwrap_err(),
        Error::ENOMEM
    );
    assert_eq!(reg.resolve_and_remove(0x1000), Some(AllocedFor::ConsoleWrite));
    reg.register(0x5000, AllocedFor::ConsoleWrite).unwrap();
}

#[test]
fn task_store_places_and_releases_per_class() {
    let mut store = TaskStore::new(32, 32, 32);
    let b = store.place(AllocedFor::Button, 8).unwrap();
    let w = store.place(AllocedFor::ConsoleWrite, 8).unwrap();
    let r = store.place(AllocedFor::ConsoleRead, 8).unwrap();
    assert_eq!(b, 0);
    assert_eq!(w, 32);
    assert_eq!(r, 64);
    assert_eq!(store.release(b, 8), Ok(AllocedFor::Button));
    assert_eq!(store.release(w, 8), Ok(AllocedFor::ConsoleWrite));
    assert_eq!(store.release(r, 8), Ok(AllocedFor::ConsoleRead));
    assert_eq!(store.release(b, 8).unwrap_err(), Error::EINVAL);
}

#[test]
fn exhausted_write_arena_fails_start_and_keeps_buffer() {
    let mut store = TaskStore::new(16, 40, 16);
    let mut w = ConsoleWrite::new();

    w.write(b"first").unwrap();
    store.place(AllocedFor::ConsoleWrite, 16).unwrap();
    store.place(AllocedFor::ConsoleWrite, 16).unwrap();

    assert_eq!(w.write(b"Hello world\n").unwrap_err(), Error::EBUSY);
    assert_eq!(
        store.place(AllocedFor::ConsoleWrite, 16).unwrap_err(),
        Error::ENOMEM
    );
    assert_eq!(w.staged_buffer(5), b"first".to_vec());
}
