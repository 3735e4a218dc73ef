//! Handle ownership and create/destroy lifecycle scenarios.

use wingui::dispatch::{dispatch, Message};
use wingui::error::WindowsError;
use wingui::events::{WindowData, WindowEvents};
use wingui::failure::FailureSlot;
use wingui::handle::{WindowHandle, WindowTable, Wiring};

struct Payload {
    tag: u32,
}

impl WindowData for Payload {}

struct Events;

impl WindowEvents for Events {
    type Data = Payload;
}

fn create_owned(table: &mut WindowTable<Payload>, slot: &mut FailureSlot, hwnd: u64, tag: u32) -> WindowHandle {
    // The native create call delivers the creation notification, which
    // attaches the payload; completion then claims the owning handle.
    dispatch::<Events>(table, slot, hwnd, Message::Create { data: Payload { tag } });
    WindowHandle::create_instance(table, hwnd, WindowsError::Code(0), Wiring::Owned).unwrap()
}

fn destroy(table: &mut WindowTable<Payload>, slot: &mut FailureSlot, handle: &mut WindowHandle) -> bool {
    let go = handle.begin_destroy();
    if go {
        // The native destroy call synchronously delivers the destruction
        // notification, then the data block is reclaimed.
        dispatch::<Events>(table, slot, handle.hwnd(), Message::Destroy);
        table.reclaim(handle.hwnd());
    }
    go
}

/// Any sequence of create-then-destroy cycles leaves zero live data blocks,
/// whether window identifiers repeat or not.
#[test]
fn no_leak_across_cycles() {
    let mut table: WindowTable<Payload> = WindowTable::new();
    let mut slot = FailureSlot::new();
    for round in 1..=5u64 {
        let hwnd = if round % 2 == 0 { 0x100 } else { 0x100 + round };
        let mut h = create_owned(&mut table, &mut slot, hwnd, round as u32);
        assert_eq!(table.len(), 1);
        assert!(destroy(&mut table, &mut slot, &mut h));
        assert_eq!(table.len(), 0);
    }
    assert_eq!(table.len(), 0);
}

/// Cloning a handle any number of times never moves ownership: tearing all
/// clones down cleans nothing up, and only the owner's teardown releases
/// the window's data.
#[test]
fn clone_does_not_transfer_ownership() {
    let mut table: WindowTable<Payload> = WindowTable::new();
    let mut slot = FailureSlot::new();
    let mut owner = create_owned(&mut table, &mut slot, 0x21, 9);
    assert!(owner.owns_cleanup());

    let mut clones: Vec<WindowHandle> = Vec::new();
    let mut chain = owner.clone();
    for _ in 0..4 {
        let next = chain.clone();
        clones.push(chain);
        chain = next;
    }
    clones.push(chain);

    for clone in clones.iter_mut() {
        assert_eq!(clone.hwnd(), 0x21);
        assert!(!clone.owns_cleanup());
        assert!(!destroy(&mut table, &mut slot, clone));
    }
    // The window and its data are intact after every clone was torn down.
    assert_eq!(table.len(), 1);
    assert_eq!(table.get(0x21).unwrap().window_data.tag, 9);

    // Only the owning handle's teardown performs cleanup.
    assert!(destroy(&mut table, &mut slot, &mut owner));
    assert_eq!(table.len(), 0);
}

/// Destroying the same owning handle twice performs native cleanup exactly
/// once; the second call is a no-op.
#[test]
fn idempotent_destroy() {
    let mut table: WindowTable<Payload> = WindowTable::new();
    let mut slot = FailureSlot::new();
    let mut h = create_owned(&mut table, &mut slot, 0x33, 1);

    let mut native_destroy_calls: u32 = 0;
    for _ in 0..2 {
        if destroy(&mut table, &mut slot, &mut h) {
            native_destroy_calls += 1;
        }
    }
    assert_eq!(native_destroy_calls, 1);
    assert_eq!(table.len(), 0);
}

/// A failed native creation surfaces the captured error context and leaves
/// nothing attached.
#[test]
fn creation_failure_reports_error() {
    let mut table: WindowTable<Payload> = WindowTable::new();
    let r = WindowHandle::create_instance(&mut table, 0, WindowsError::Code(0x42), Wiring::Owned);
    match r {
        Err(WindowsError::Code(c)) => assert_eq!(c, 0x42),
        _ => panic!("expected the captured native error"),
    }
    assert_eq!(table.len(), 0);
}

/// Subclassed creation attaches the payload together with the displaced
/// original procedure and hands back the one owning handle.
#[test]
fn subclassed_creation_stores_original_proc() {
    let mut table: WindowTable<Payload> = WindowTable::new();
    let r = WindowHandle::create_instance(
        &mut table,
        0x55,
        WindowsError::Code(0),
        Wiring::Subclassed { orig_proc: 0xBEEF, data: Payload { tag: 3 } },
    );
    let h = r.unwrap();
    assert_eq!(h.hwnd(), 0x55);
    assert!(h.owns_cleanup());
    let entry = table.get(0x55).unwrap();
    assert_eq!(entry.orig_proc, Some(0xBEEF));
    assert_eq!(entry.window_data.tag, 3);
}

/// A handle rebuilt from a native callback's window argument never owns
/// cleanup.
#[test]
fn callback_handles_do_not_own() {
    let h = WindowHandle::from_hwnd(0x77);
    assert_eq!(h.hwnd(), 0x77);
    assert!(!h.owns_cleanup());
}
