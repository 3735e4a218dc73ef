//! Dispatch routing, failure containment and subclass chaining scenarios.

use std::cell::RefCell;
use std::rc::Rc;
use wingui::dispatch::{
    classify, dispatch, fold_result, local_result, ChainAction, Message, MsgKind, WM_CREATE,
    WM_DESTROY, WM_SHOWWINDOW,
};
use wingui::events::{WindowData, WindowEvents};
use wingui::failure::{FailureSlot, Outcome};
use wingui::handle::{WindowHandle, WindowTable};

type Log = Rc<RefCell<Vec<&'static str>>>;

struct Probe {
    log: Log,
    fail_generic: bool,
    generic_result: Option<i64>,
}

impl WindowData for Probe {}

struct Events;

impl WindowEvents for Events {
    type Data = Probe;

    fn on_create(_: &WindowHandle, data: &mut Probe) -> Outcome<()> {
        data.log.borrow_mut().push("create");
        Outcome::Done(())
    }

    fn on_show(_: &WindowHandle, data: &mut Probe) -> Outcome<()> {
        data.log.borrow_mut().push("show");
        Outcome::Done(())
    }

    fn on_hide(_: &WindowHandle, data: &mut Probe) -> Outcome<()> {
        data.log.borrow_mut().push("hide");
        Outcome::Done(())
    }

    fn on_destroy(_: &WindowHandle, data: &mut Probe) -> Outcome<()> {
        data.log.borrow_mut().push("destroy");
        Outcome::Done(())
    }

    fn handle_msg(_: &WindowHandle, data: &mut Probe, _code: u32) -> Outcome<Option<i64>> {
        data.log.borrow_mut().push("generic");
        if data.fail_generic {
            Outcome::Failed(String::from("handler blew up"))
        } else {
            Outcome::Done(data.generic_result)
        }
    }
}

fn probe(log: &Log, fail_generic: bool, generic_result: Option<i64>) -> Probe {
    Probe { log: log.clone(), fail_generic, generic_result }
}

#[test]
fn classify_routes_by_message_code() {
    assert_eq!(classify(WM_CREATE, 0), MsgKind::Creation);
    assert_eq!(classify(WM_SHOWWINDOW, 1), MsgKind::Shown);
    assert_eq!(classify(WM_SHOWWINDOW, 0), MsgKind::Hidden);
    assert_eq!(classify(WM_DESTROY, 0), MsgKind::Destruction);
    assert_eq!(classify(0x0111, 0), MsgKind::Generic);
}

/// Every lifecycle message reaches exactly its hook, and the destroy path
/// runs the hook while the data block is still readable, then detaches it.
#[test]
fn dispatch_routes_each_hook_once() {
    let log: Log = Rc::new(RefCell::new(Vec::new()));
    let mut table: WindowTable<Probe> = WindowTable::new();
    let mut slot = FailureSlot::new();

    let step = dispatch::<Events>(&mut table, &mut slot, 5, Message::Create {
        data: probe(&log, false, Some(3)),
    });
    assert_eq!(step.local, Some(0));
    assert_eq!(step.chain, ChainAction::NoChain);
    dispatch::<Events>(&mut table, &mut slot, 5, Message::Show);
    dispatch::<Events>(&mut table, &mut slot, 5, Message::Hide);
    let g = dispatch::<Events>(&mut table, &mut slot, 5, Message::Generic { code: 0x200 });
    assert_eq!(g.local, Some(3));
    assert_eq!(g.chain, ChainAction::CallDefault);
    let d = dispatch::<Events>(&mut table, &mut slot, 5, Message::Destroy);
    assert_eq!(d.local, Some(0));
    assert!(!table.contains(5));
    assert_eq!(*log.borrow(), vec!["create", "show", "hide", "generic", "destroy"]);
    assert!(!slot.is_set());
}

/// A message arriving before payload attachment is answered "unhandled"
/// without invoking any hook: an expected race, not an error.
#[test]
fn dispatch_before_attachment_is_unhandled() {
    let mut table: WindowTable<Probe> = WindowTable::new();
    let mut slot = FailureSlot::new();
    let step = dispatch::<Events>(&mut table, &mut slot, 9, Message::Generic { code: 7 });
    assert_eq!(step.local, None);
    assert_eq!(step.chain, ChainAction::NoChain);
    assert!(!step.failed);
    assert_eq!(local_result(step.local), -1);
    assert_eq!(table.len(), 0);
}

/// A handler failing inside the trampoline does not tear the process down
/// and does not corrupt the handle table; the failure is observable exactly
/// once after the loop, and other windows keep dispatching normally.
#[test]
fn failure_containment() {
    let log: Log = Rc::new(RefCell::new(Vec::new()));
    let mut table: WindowTable<Probe> = WindowTable::new();
    let mut slot = FailureSlot::new();

    dispatch::<Events>(&mut table, &mut slot, 1, Message::Create {
        data: probe(&log, true, None),
    });
    dispatch::<Events>(&mut table, &mut slot, 2, Message::Create {
        data: probe(&log, false, Some(11)),
    });

    // The failing hook is contained: dispatch returns, the message counts
    // as unhandled, the table still holds both windows.
    let step = dispatch::<Events>(&mut table, &mut slot, 1, Message::Generic { code: 0x300 });
    assert!(step.failed);
    assert_eq!(step.local, None);
    assert!(slot.is_set());
    assert_eq!(table.len(), 2);

    // Subsequent messages to the other window dispatch normally.
    let ok = dispatch::<Events>(&mut table, &mut slot, 2, Message::Generic { code: 0x300 });
    assert!(!ok.failed);
    assert_eq!(ok.local, Some(11));

    // The failure is observed exactly once, after the loop ends.
    assert_eq!(slot.take(), Some(String::from("handler blew up")));
    assert_eq!(slot.take(), None);
}

/// A failure inside the creation hook is contained like any other: the
/// payload stays attached (the native layer decides the window's fate from
/// the unhandled result) and the failure is captured.
#[test]
fn create_hook_failure_is_contained() {
    struct FailingCreate;
    struct FC;
    impl WindowData for FailingCreate {}
    impl WindowEvents for FC {
        type Data = FailingCreate;

        fn on_create(_: &WindowHandle, _: &mut FailingCreate) -> Outcome<()> {
            Outcome::Failed(String::from("no window for you"))
        }
    }

    let mut table: WindowTable<FailingCreate> = WindowTable::new();
    let mut slot = FailureSlot::new();
    let step = dispatch::<FC>(&mut table, &mut slot, 3, Message::Create { data: FailingCreate });
    assert!(step.failed);
    assert_eq!(step.local, None);
    assert_eq!(local_result(step.local), -1);
    assert!(table.contains(3));
    assert_eq!(slot.take(), Some(String::from("no window for you")));
}

/// Successive failures overwrite: the most recent one wins.
#[test]
fn last_failure_wins() {
    let mut slot = FailureSlot::new();
    assert_eq!(slot.guard::<u8>(Outcome::Failed(String::from("first"))), None);
    assert_eq!(slot.guard::<u8>(Outcome::Done(7)), Some(7));
    assert_eq!(slot.guard::<u8>(Outcome::Failed(String::from("second"))), None);
    assert_eq!(slot.take(), Some(String::from("second")));
}

/// With a failure already pending on the thread, the destruction hook is
/// skipped outright — cleanup still happens, under the neutral failure
/// result.
#[test]
fn pending_failure_skips_destroy_hook() {
    let log: Log = Rc::new(RefCell::new(Vec::new()));
    let mut table: WindowTable<Probe> = WindowTable::new();
    let mut slot = FailureSlot::new();
    dispatch::<Events>(&mut table, &mut slot, 4, Message::Create {
        data: probe(&log, false, None),
    });
    slot.set(String::from("already failing"));
    let step = dispatch::<Events>(&mut table, &mut slot, 4, Message::Destroy);
    assert_eq!(step.local, Some(-1));
    assert!(!step.failed);
    assert!(!table.contains(4));
    assert!(!log.borrow().contains(&"destroy"));
    assert_eq!(slot.take(), Some(String::from("already failing")));
}

/// Subclass chaining: a generic message the local hook leaves unhandled
/// yields the same result as invoking the previously installed procedure
/// directly with identical arguments.
#[test]
fn subclass_chaining() {
    fn original_proc(hwnd: u64, code: u32) -> i64 {
        (hwnd as i64) * 1000 + code as i64
    }

    let log: Log = Rc::new(RefCell::new(Vec::new()));
    let mut table: WindowTable<Probe> = WindowTable::new();
    let mut slot = FailureSlot::new();
    let r = WindowHandle::create_instance(
        &mut table,
        6,
        wingui::error::WindowsError::Code(0),
        wingui::handle::Wiring::Subclassed { orig_proc: 0x1234, data: probe(&log, false, None) },
    );
    assert!(r.is_ok());

    let step = dispatch::<Events>(&mut table, &mut slot, 6, Message::Generic { code: 0x401 });
    assert_eq!(step.chain, ChainAction::CallOriginal(0x1234));
    assert_eq!(step.local, None);

    // The driver chains with identical arguments and folds.
    let chained = original_proc(6, 0x401);
    assert_eq!(fold_result(step.local, chained), original_proc(6, 0x401));

    // A handled message keeps its local result even when chained.
    {
        let entry_handled = dispatch::<Events>(&mut table, &mut slot, 6, Message::Destroy);
        assert_eq!(entry_handled.chain, ChainAction::CallOriginal(0x1234));
    }
    let mut t2: WindowTable<Probe> = WindowTable::new();
    dispatch::<Events>(&mut t2, &mut slot, 7, Message::Create {
        data: probe(&log, false, Some(55)),
    });
    let handled = dispatch::<Events>(&mut t2, &mut slot, 7, Message::Generic { code: 1 });
    assert_eq!(fold_result(handled.local, 999), 55);
}
