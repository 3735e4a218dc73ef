//! Window handles, their attached data, and the create/destroy lifecycle.
//!
//! Each live native window owns exactly one heap block of application data.
//! The library models that association as a [`WindowTable`]: an explicit
//! registry keyed by the native identifier, so every read and write of a
//! window's data goes through a checked lookup instead of a pointer cast.
//!
//! A [`WindowHandle`] names a native window together with an `owns` flag.
//! Exactly one handle per window carries `owns == true` — the one creation
//! returned — and only that handle's teardown performs cleanup. Handles
//! reached by cloning, or rebuilt inside a native callback, never own
//! cleanup.

use crate::error::WindowsError;
use std::collections::HashMap;
use vstd::prelude::*;

verus! {

broadcast use vstd::std_specs::hash::group_hash_axioms;

/// The data block attached to one native window: the original window
/// procedure kept for chaining when the window subclasses a system class,
/// and the caller's payload.
pub struct HandleData<D> {
    /// The procedure installed before the trampoline, present exactly on
    /// subclassed windows.
    pub orig_proc: Option<u64>,
    /// The application payload.
    pub window_data: D,
}

/// The mathematical value of a [`WindowHandle`].
pub struct HandleView {
    pub hwnd: u64,
    pub owns: bool,
}

/// A typed reference to a native window: its identifier plus the flag saying
/// whether this handle performs cleanup on destroy.
pub struct WindowHandle {
    hwnd: u64,
    owns: bool,
}

impl View for WindowHandle {
    type V = HandleView;

    closed spec fn view(&self) -> HandleView {
        HandleView { hwnd: self.hwnd, owns: self.owns }
    }
}

/// What cloning a handle yields: the same window, never ownership.
pub open spec fn spec_cloned(h: HandleView) -> HandleView {
    HandleView { hwnd: h.hwnd, owns: false }
}

/// Whether tearing a handle down performs native cleanup.
pub open spec fn spec_destroy_performs_cleanup(h: HandleView) -> bool {
    h.owns
}

/// The handle after its teardown began: ownership is relinquished first.
pub open spec fn spec_after_destroy(h: HandleView) -> HandleView {
    HandleView { hwnd: h.hwnd, owns: false }
}

impl Clone for WindowHandle {
    /// Cloning never transfers ownership: the clone references the same
    /// window but performs no cleanup.
    fn clone(&self) -> (r: WindowHandle)
        ensures
            r@ == spec_cloned(self@),
    {
        WindowHandle { hwnd: self.hwnd, owns: false }
    }
}

impl WindowHandle {
    /// The native identifier this handle references.
    pub fn hwnd(&self) -> (r: u64)
        ensures
            r == self@.hwnd,
    {
        self.hwnd
    }

    /// Whether this handle still owns cleanup.
    pub fn owns_cleanup(&self) -> (r: bool)
        ensures
            r == self@.owns,
    {
        self.owns
    }

    /// A non-owning handle for the window a native callback names; the
    /// trampoline rebuilds handles this way.
    pub fn from_hwnd(hwnd: u64) -> (r: WindowHandle)
        ensures
            r@ == (HandleView { hwnd, owns: false }),
    {
        WindowHandle { hwnd, owns: false }
    }

    /// Begins teardown. Ownership is relinquished before anything else, so
    /// a second call — or a late destroy notification racing the native
    /// destroy call — finds nothing to clean up: the call reports whether
    /// native cleanup is owed, and it reports it `true` at most once over
    /// the handle's lifetime.
    pub fn begin_destroy(&mut self) -> (go: bool)
        ensures
            final(self)@ == spec_after_destroy(old(self)@),
            go == spec_destroy_performs_cleanup(old(self)@),
    {
        let go = self.owns;
        self.owns = false;
        go
    }
}

/// Idempotent destroy: once teardown has begun, the handle no longer owns
/// cleanup, so beginning it again performs nothing and changes nothing.
pub proof fn lemma_destroy_idempotent(h: HandleView)
    ensures
        !spec_destroy_performs_cleanup(spec_after_destroy(h)),
        spec_after_destroy(spec_after_destroy(h)) == spec_after_destroy(h),
{
}

/// Clones never transfer ownership: a clone — of the owner or of another
/// clone, to any depth — references the same window and never triggers
/// cleanup when torn down.
pub proof fn lemma_clone_does_not_transfer_ownership(h: HandleView)
    ensures
        spec_cloned(h).hwnd == h.hwnd,
        !spec_destroy_performs_cleanup(spec_cloned(h)),
        spec_cloned(spec_cloned(h)) == spec_cloned(h),
{
}

/// The registry associating each live native window with its attached data
/// block. Its length is the number of live attached allocations.
pub struct WindowTable<D> {
    map: HashMap<u64, HandleData<D>>,
}

impl<D> View for WindowTable<D> {
    type V = Map<u64, HandleData<D>>;

    closed spec fn view(&self) -> Map<u64, HandleData<D>> {
        self.map@
    }
}

impl<D> WindowTable<D> {
    /// An empty table: no window has data attached.
    pub fn new() -> (r: WindowTable<D>)
        ensures
            r@ == Map::<u64, HandleData<D>>::empty(),
    {
        WindowTable { map: HashMap::new() }
    }

    /// How many windows currently have data attached.
    pub fn len(&self) -> (n: usize)
        ensures
            n == self@.len(),
    {
        self.map.len()
    }

    /// Whether `hwnd` has data attached.
    pub fn contains(&self, hwnd: u64) -> (r: bool)
        ensures
            r == self@.contains_key(hwnd),
    {
        self.map.contains_key(&hwnd)
    }

    /// The data block attached to `hwnd`, if any.
    pub fn get(&self, hwnd: u64) -> (r: Option<&HandleData<D>>)
        ensures
            r is Some <==> self@.contains_key(hwnd),
            r is Some ==> *r->0 == self@[hwnd],
    {
        self.map.get(&hwnd)
    }

    /// Attaches `entry` to `hwnd`.
    pub(crate) fn attach(&mut self, hwnd: u64, entry: HandleData<D>)
        ensures
            final(self)@ == old(self)@.insert(hwnd, entry),
    {
        self.map.insert(hwnd, entry);
    }

    /// Detaches and returns the data block of `hwnd`, if any.
    pub(crate) fn detach(&mut self, hwnd: u64) -> (r: Option<HandleData<D>>)
        ensures
            final(self)@ == old(self)@.remove(hwnd),
            r is Some <==> old(self)@.contains_key(hwnd),
            r is Some ==> r->0 == old(self)@[hwnd],
    {
        self.map.remove(&hwnd)
    }

    /// Reworks the payload attached to `hwnd` in place: the payload leaves
    /// the table, `f` turns it into its replacement and a result, and the
    /// replacement is attached again under the same stored procedure. A
    /// window without attached data is left untouched. This is the one way
    /// code outside a hook reaches a window's payload for writing.
    pub fn update_data<R, F: FnOnce(D) -> (D, R)>(&mut self, hwnd: u64, f: F) -> (r: Option<R>)
        requires
            forall|d: D|
                old(self)@.contains_key(hwnd) && old(self)@[hwnd].window_data == d
                    ==> call_requires(f, (d,)),
        ensures
            !old(self)@.contains_key(hwnd) ==> r is None && final(self)@ == old(self)@,
            old(self)@.contains_key(hwnd) ==> exists|p: (D, R)|
                call_ensures(f, (old(self)@[hwnd].window_data,), p) && final(self)@ == old(
                    self,
                )@.insert(
                    hwnd,
                    (HandleData { orig_proc: old(self)@[hwnd].orig_proc, window_data: p.0 }),
                ) && r == Some(p.1),
    {
        match self.detach(hwnd) {
            None => None,
            Some(entry) => {
                let (replacement, ret) = f(entry.window_data);
                let ghost rep = replacement;
                let ghost out = ret;
                self.attach(hwnd, HandleData { orig_proc: entry.orig_proc, window_data: replacement });
                proof {
                    assert(call_ensures(f, (old(self)@[hwnd].window_data,), (rep, out)));
                    assert(self@ =~= old(self)@.insert(
                        hwnd,
                        (HandleData { orig_proc: old(self)@[hwnd].orig_proc, window_data: rep }),
                    ));
                }
                Some(ret)
            },
        }
    }

    /// Releases whatever data block is still attached to `hwnd`; the final
    /// step of teardown. A window whose destroy notification already
    /// detached the block is left as is, so the release never runs twice.
    pub fn reclaim(&mut self, hwnd: u64)
        ensures
            final(self)@ == old(self)@.remove(hwnd),
    {
        let _ = self.map.remove(&hwnd);
    }
}

/// How a freshly created native window is wired to the dispatch trampoline.
///
/// An owned class carries the trampoline as its procedure from the start,
/// and the creation notification attached the payload before any other
/// event could be delivered. A foreign (system) class gets the trampoline
/// installed after creation; the displaced original procedure is kept for
/// chaining, and the payload is attached here, before any message can reach
/// the trampoline for this window.
pub enum Wiring<D> {
    Owned,
    Subclassed { orig_proc: u64, data: D },
}

impl WindowHandle {
    /// Completes window creation once the native create call returned.
    ///
    /// A null `hwnd` means the native call failed: the attempt is reported
    /// as the error context the caller captured, and no state is left
    /// attached. Otherwise the payload is wired per `wiring` and the one
    /// owning handle is returned.
    pub fn create_instance<D>(
        table: &mut WindowTable<D>,
        hwnd: u64,
        last_err: WindowsError,
        wiring: Wiring<D>,
    ) -> (r: Result<WindowHandle, WindowsError>)
        requires
            hwnd != 0 && old(table)@.contains_key(hwnd) ==> wiring is Owned,
            hwnd != 0 && wiring is Owned ==> old(table)@.contains_key(hwnd),
        ensures
            hwnd == 0 ==> r == Err::<WindowHandle, _>(last_err) && final(table)@ == old(table)@,
            hwnd != 0 ==> (r matches Ok(h) && h@ == (HandleView { hwnd, owns: true })),
            hwnd != 0 && wiring is Owned ==> final(table)@ == old(table)@,
            hwnd != 0 ==> (wiring matches Wiring::Subclassed { orig_proc, data }
                ==> final(table)@ == old(table)@.insert(
                hwnd,
                (HandleData { orig_proc: Some(orig_proc), window_data: data }),
            )),
    {
        if hwnd == 0 {
            Err(last_err)
        } else {
            match wiring {
                Wiring::Owned => {},
                Wiring::Subclassed { orig_proc, data } => {
                    table.attach(hwnd, HandleData { orig_proc: Some(orig_proc), window_data: data });
                },
            }
            Ok(WindowHandle { hwnd, owns: true })
        }
    }
}

/// One create-then-destroy cycle leaves the table exactly as it was: the
/// attach of a fresh window followed by its teardown's release restores the
/// original association, so cycles leak nothing.
pub proof fn lemma_cycle_leaves_no_data<D>(t: Map<u64, HandleData<D>>, hwnd: u64, e: HandleData<D>)
    requires
        !t.contains_key(hwnd),
    ensures
        t.insert(hwnd, e).remove(hwnd) == t,
{
    assert(t.insert(hwnd, e).remove(hwnd) =~= t);
}

/// The table after performing each listed create-then-destroy cycle in
/// order; a cycle on an already-live window identifier does not happen, as
/// the native layer never hands out a live identifier twice.
pub open spec fn run_cycles<D>(
    t: Map<u64, HandleData<D>>,
    cycles: Seq<(u64, HandleData<D>)>,
) -> Map<u64, HandleData<D>>
    decreases cycles.len(),
{
    if cycles.len() == 0 {
        t
    } else {
        let (hwnd, e) = cycles[0];
        let next = if !t.contains_key(hwnd) {
            t.insert(hwnd, e).remove(hwnd)
        } else {
            t
        };
        run_cycles(next, cycles.drop_first())
    }
}

/// Any number of create-then-destroy cycles on fresh windows leaves the
/// table as it began; starting from the empty table, no data block stays
/// live afterwards.
pub proof fn lemma_cycles_leave_no_data<D>(t: Map<u64, HandleData<D>>, cycles: Seq<(u64, HandleData<D>)>)
    ensures
        run_cycles(t, cycles) == t,
    decreases cycles.len(),
{
    if cycles.len() != 0 {
        let (hwnd, e) = cycles[0];
        if !t.contains_key(hwnd) {
            lemma_cycle_leaves_no_data(t, hwnd, e);
        }
        lemma_cycles_leave_no_data(t, cycles.drop_first());
    }
}

} // verus!
