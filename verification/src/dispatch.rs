//! The dispatch trampoline: one native entry point, many typed handlers.
//!
//! For every message the native layer delivers to a window of class `W`,
//! [`dispatch`] resolves the window's attached data, routes the message to
//! exactly one hook of `W`, contains any failure the hook reports, and — on
//! the destruction message — performs the window's cleanup. What it cannot
//! do itself is call back into native code, so its result is a
//! [`DispatchStep`]: the local result plus a [`ChainAction`] telling the
//! native-side caller whether to invoke the stored original procedure (for
//! subclassed windows, with the identical message arguments) or native
//! default processing; [`fold_result`] then folds the two results by the
//! message semantics.

use crate::failure::{FailureSlot, Outcome};
use crate::events::WindowEvents;
use crate::handle::{HandleData, WindowHandle, WindowTable};
use crate::RET_ERR;
use vstd::prelude::*;

verus! {

/// The creation notification's message code.
pub const WM_CREATE: u32 = 0x0001;

/// The destruction notification's message code.
pub const WM_DESTROY: u32 = 0x0002;

/// The visibility notification's message code; its first argument says
/// whether the window was shown or hidden.
pub const WM_SHOWWINDOW: u32 = 0x0018;

/// A message as the trampoline receives it, already carrying the payload
/// for the creation notification.
pub enum Message<D> {
    /// The creation notification, with the payload captured from the
    /// creation call's parameter block.
    Create { data: D },
    /// The window became visible.
    Show,
    /// The window was hidden.
    Hide,
    /// The destruction notification.
    Destroy,
    /// Any other message, by its native code.
    Generic { code: u32 },
}

/// The kind of hook a raw message code selects.
#[derive(PartialEq, Eq, Structural, Clone, Copy, Debug)]
pub enum MsgKind {
    Creation,
    Shown,
    Hidden,
    Destruction,
    Generic,
}

/// Routes a raw message code (and the visibility argument) to the hook that
/// handles it.
pub fn classify(code: u32, wparam: u64) -> (k: MsgKind)
    ensures
        code == WM_CREATE ==> k == MsgKind::Creation,
        code == WM_SHOWWINDOW && wparam != 0 ==> k == MsgKind::Shown,
        code == WM_SHOWWINDOW && wparam == 0 ==> k == MsgKind::Hidden,
        code == WM_DESTROY ==> k == MsgKind::Destruction,
        code != WM_CREATE && code != WM_SHOWWINDOW && code != WM_DESTROY ==> k == MsgKind::Generic,
{
    if code == WM_CREATE {
        MsgKind::Creation
    } else if code == WM_SHOWWINDOW {
        if wparam != 0 {
            MsgKind::Shown
        } else {
            MsgKind::Hidden
        }
    } else if code == WM_DESTROY {
        MsgKind::Destruction
    } else {
        MsgKind::Generic
    }
}

/// What the native-side caller must do after local handling.
#[derive(PartialEq, Eq, Structural, Clone, Copy, Debug)]
pub enum ChainAction {
    /// Return the local result as is; no native procedure runs.
    NoChain,
    /// Invoke the stored original procedure with the identical message
    /// arguments (subclassed windows).
    CallOriginal(u64),
    /// Invoke native default processing (owned classes).
    CallDefault,
}

/// One dispatch's outcome: the local result (`None` when the message was
/// not handled, could not be resolved, or its hook failed), the chain
/// directive, and whether a handler failure was captured.
#[derive(Debug)]
pub struct DispatchStep {
    pub local: Option<i64>,
    pub chain: ChainAction,
    pub failed: bool,
}

/// The chain directive a window's stored original procedure determines:
/// chain to it when subclassed, else fall back to default processing.
pub open spec fn spec_chain_for(orig_proc: Option<u64>) -> ChainAction {
    match orig_proc {
        Some(p) => ChainAction::CallOriginal(p),
        None => ChainAction::CallDefault,
    }
}

/// Folds the local and natively produced results: a locally handled message
/// keeps its local result, an unhandled one takes the chained or default
/// result.
pub open spec fn spec_fold(local: Option<i64>, native: i64) -> i64 {
    match local {
        Some(r) => r,
        None => native,
    }
}

/// The result of a dispatch that invokes no native procedure: the local
/// result, or the unhandled code.
pub open spec fn spec_local(local: Option<i64>) -> i64 {
    match local {
        Some(r) => r,
        None => RET_ERR,
    }
}

/// The step a generic-message hook outcome determines, given the window's
/// stored original procedure.
pub open spec fn spec_generic_step(outcome: Outcome<Option<i64>>, orig_proc: Option<u64>) -> DispatchStep {
    match outcome {
        Outcome::Done(local) => DispatchStep { local, chain: spec_chain_for(orig_proc), failed: false },
        Outcome::Failed(_) => DispatchStep {
            local: None,
            chain: spec_chain_for(orig_proc),
            failed: true,
        },
    }
}

/// The exec counterpart of [`spec_chain_for`].
pub fn chain_for(orig_proc: Option<u64>) -> (r: ChainAction)
    ensures
        r == spec_chain_for(orig_proc),
{
    match orig_proc {
        Some(p) => ChainAction::CallOriginal(p),
        None => ChainAction::CallDefault,
    }
}

/// Folds the local and natively produced results per [`spec_fold`]; the
/// driver calls this after performing the step's chain directive.
pub fn fold_result(local: Option<i64>, native: i64) -> (r: i64)
    ensures
        r == spec_fold(local, native),
{
    match local {
        Some(res) => res,
        None => native,
    }
}

/// The final result of a dispatch whose step carried no chain directive.
pub fn local_result(local: Option<i64>) -> (r: i64)
    ensures
        r == spec_local(local),
{
    match local {
        Some(res) => res,
        None => RET_ERR,
    }
}

/// Turns a generic-message hook outcome into the dispatch step: a reported
/// result passes through, a failure is captured into `slot` and leaves the
/// message unhandled. Every possible hook outcome is accounted for here.
pub fn generic_step(outcome: Outcome<Option<i64>>, orig_proc: Option<u64>, slot: &mut FailureSlot) -> (step:
    DispatchStep)
    ensures
        step == spec_generic_step(outcome, orig_proc),
        outcome matches Outcome::Failed(f) ==> final(slot)@ == Some(f),
        outcome is Done ==> final(slot)@ == old(slot)@,
{
    let chain = chain_for(orig_proc);
    match slot.guard(outcome) {
        Some(local) => DispatchStep { local, chain, failed: false },
        None => DispatchStep { local: None, chain, failed: true },
    }
}

/// Turns a lifecycle hook outcome into the dispatch step: success is the
/// neutral handled result `0`, a failure is captured into `slot` and leaves
/// the message unhandled.
pub fn hook_step(outcome: Outcome<()>, chain: ChainAction, slot: &mut FailureSlot) -> (step: DispatchStep)
    ensures
        step.chain == chain,
        outcome is Done ==> step.local == Some(0i64) && !step.failed && final(slot)@ == old(slot)@,
        outcome matches Outcome::Failed(f) ==> step.local is None && step.failed && final(slot)@
            == Some(f),
{
    match slot.guard(outcome) {
        Some(_) => DispatchStep { local: Some(0), chain, failed: false },
        None => DispatchStep { local: None, chain, failed: true },
    }
}

/// Whether the trampoline can resolve attached data for this message: the
/// creation notification attaches to a fresh, non-null window; every other
/// message needs the attachment already in place.
pub open spec fn spec_resolves<D>(t: Map<u64, HandleData<D>>, hwnd: u64, msg: Message<D>) -> bool {
    match msg {
        Message::Create { .. } => hwnd != 0 && !t.contains_key(hwnd),
        _ => t.contains_key(hwnd),
    }
}

/// The native callback entry point for windows of class `W`, minus the
/// native calls themselves.
///
/// The contract carries the dispatch protocol:
/// - a message that cannot be resolved changes nothing and reports
///   unhandled, without invoking any hook;
/// - the creation notification attaches the payload (owned wiring: no
///   original procedure) and runs the creation hook;
/// - visibility and generic messages leave the table's domain, every other
///   window's data, and this window's stored procedure untouched, whatever
///   the hook does to the payload;
/// - the destruction message detaches this window's data — after the
///   destruction hook ran, or without running it when a failure is already
///   pending on the thread;
/// - a captured failure is pending afterwards and the message reports
///   unhandled; when nothing failed, the slot is exactly as it was.
pub fn dispatch<W: WindowEvents>(
    table: &mut WindowTable<W::Data>,
    slot: &mut FailureSlot,
    hwnd: u64,
    msg: Message<W::Data>,
) -> (step: DispatchStep)
    ensures
        step.failed ==> final(slot)@ is Some && step.local is None,
        !step.failed ==> final(slot)@ == old(slot)@,
        !spec_resolves(old(table)@, hwnd, msg) ==> final(table)@ == old(table)@ && step.local
            is None && step.chain == ChainAction::NoChain && !step.failed,
        spec_resolves(old(table)@, hwnd, msg) ==> match msg {
            Message::Create { .. } => {
                &&& final(table)@.contains_key(hwnd)
                &&& final(table)@[hwnd].orig_proc is None
                &&& final(table)@.remove(hwnd) == old(table)@
                &&& step.chain == ChainAction::NoChain
                &&& !step.failed ==> step.local == Some(0i64)
            },
            Message::Show | Message::Hide => {
                &&& final(table)@.contains_key(hwnd)
                &&& final(table)@[hwnd].orig_proc == old(table)@[hwnd].orig_proc
                &&& final(table)@.remove(hwnd) == old(table)@.remove(hwnd)
                &&& step.chain == spec_chain_for(old(table)@[hwnd].orig_proc)
                &&& !step.failed ==> step.local == Some(0i64)
            },
            Message::Destroy => {
                &&& final(table)@ == old(table)@.remove(hwnd)
                &&& step.chain == spec_chain_for(old(table)@[hwnd].orig_proc)
                &&& old(slot)@ is Some ==> step.local == Some(RET_ERR) && !step.failed
                &&& old(slot)@ is None && !step.failed ==> step.local == Some(0i64)
            },
            Message::Generic { .. } => {
                &&& final(table)@.contains_key(hwnd)
                &&& final(table)@[hwnd].orig_proc == old(table)@[hwnd].orig_proc
                &&& final(table)@.remove(hwnd) == old(table)@.remove(hwnd)
                &&& step.chain == spec_chain_for(old(table)@[hwnd].orig_proc)
            },
        },
{
    match msg {
        Message::Create { data } => {
            if hwnd == 0 || table.contains(hwnd) {
                return DispatchStep { local: None, chain: ChainAction::NoChain, failed: false };
            }
            let handle = WindowHandle::from_hwnd(hwnd);
            let mut data = data;
            let outcome = W::on_create(&handle, &mut data);
            table.attach(hwnd, HandleData { orig_proc: None, window_data: data });
            proof {
                assert(final(table)@.remove(hwnd) =~= old(table)@);
            }
            hook_step(outcome, ChainAction::NoChain, slot)
        },
        Message::Show => {
            match table.detach(hwnd) {
                None => DispatchStep { local: None, chain: ChainAction::NoChain, failed: false },
                Some(mut entry) => {
                    let handle = WindowHandle::from_hwnd(hwnd);
                    let orig = entry.orig_proc;
                    let outcome = W::on_show(&handle, &mut entry.window_data);
                    table.attach(hwnd, entry);
                    proof {
                        assert(final(table)@.remove(hwnd) =~= old(table)@.remove(hwnd));
                    }
                    let chain = chain_for(orig);
                    hook_step(outcome, chain, slot)
                },
            }
        },
        Message::Hide => {
            match table.detach(hwnd) {
                None => DispatchStep { local: None, chain: ChainAction::NoChain, failed: false },
                Some(mut entry) => {
                    let handle = WindowHandle::from_hwnd(hwnd);
                    let orig = entry.orig_proc;
                    let outcome = W::on_hide(&handle, &mut entry.window_data);
                    table.attach(hwnd, entry);
                    proof {
                        assert(final(table)@.remove(hwnd) =~= old(table)@.remove(hwnd));
                    }
                    let chain = chain_for(orig);
                    hook_step(outcome, chain, slot)
                },
            }
        },
        Message::Destroy => {
            match table.detach(hwnd) {
                None => DispatchStep { local: None, chain: ChainAction::NoChain, failed: false },
                Some(mut entry) => {
                    let chain = chain_for(entry.orig_proc);
                    if slot.is_set() {
                        // A failure is already pending on this thread:
                        // running the destruction hook now would compound
                        // faults during teardown, so it is skipped outright
                        // and the neutral failure code stands in.
                        DispatchStep { local: Some(RET_ERR), chain, failed: false }
                    } else {
                        let handle = WindowHandle::from_hwnd(hwnd);
                        let outcome = W::on_destroy(&handle, &mut entry.window_data);
                        hook_step(outcome, chain, slot)
                    }
                },
            }
        },
        Message::Generic { code } => {
            match table.detach(hwnd) {
                None => DispatchStep { local: None, chain: ChainAction::NoChain, failed: false },
                Some(mut entry) => {
                    let handle = WindowHandle::from_hwnd(hwnd);
                    let orig = entry.orig_proc;
                    let outcome = W::handle_msg(&handle, &mut entry.window_data, code);
                    table.attach(hwnd, entry);
                    proof {
                        assert(final(table)@.remove(hwnd) =~= old(table)@.remove(hwnd));
                    }
                    generic_step(outcome, orig, slot)
                },
            }
        },
    }
}

/// Subclass chaining: a generic message the local hook leaves unhandled
/// yields exactly the result of the stored original procedure, which the
/// chain directive names and the caller invokes with identical arguments.
pub proof fn lemma_subclass_chaining(orig_proc: u64, chained: i64)
    ensures
        ({
            let step = spec_generic_step(Outcome::Done(None), Some(orig_proc));
            step.chain == ChainAction::CallOriginal(orig_proc) && spec_fold(step.local, chained)
                == chained
        }),
{
}

} // verus!
