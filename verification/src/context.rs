//! The per-thread dispatch context.
//!
//! Each thread that runs a message loop owns one [`Context`]: it carries
//! the thread's failure slot, and it is where window construction starts.
//! The driver drains the captured failure after its loop ends and re-raises
//! it as the run's terminal error.

use crate::builder::Buildable;
use crate::builder::Builder;
use crate::failure::FailureSlot;
use crate::window::{MainWindowData, WindowBuilder};
use crate::winstr::WinString;
use vstd::prelude::*;

verus! {

/// A context that can start builders for buildable window types.
pub trait AbsContext: Sized {
    /// Starts `W`'s builder from this context.
    fn build<W: Buildable>(
        &self,
        args: <W::Builder as Builder>::InitArgs,
    ) -> W::Builder where W::Builder: Builder<Context = Self> {
        W::builder(self, args)
    }
}

/// The state a message-loop thread carries through dispatch: the failure
/// slot that contains handler failures raised inside native call frames.
pub struct Context {
    last_err: FailureSlot,
}

impl View for Context {
    type V = Option<String>;

    closed spec fn view(&self) -> Option<String> {
        self.last_err@
    }
}

impl Context {
    /// A fresh context: no failure pending.
    pub fn new() -> (r: Context)
        ensures
            r@ is None,
    {
        Context { last_err: FailureSlot::new() }
    }

    /// Records a failure raised by application code, overwriting any
    /// pending one: the most recent failure wins.
    pub fn set_err(&mut self, err: String)
        ensures
            final(self)@ == Some(err),
    {
        self.last_err.set(err);
    }

    /// Drains the captured failure, if any; the driver re-raises it once
    /// its message loop has ended.
    pub fn take_err(&mut self) -> (r: Option<String>)
        ensures
            r == old(self)@,
            final(self)@ is None,
    {
        self.last_err.take()
    }

    /// The thread's failure slot, for the dispatch trampoline.
    pub fn failure_slot(&mut self) -> (r: &mut FailureSlot)
        ensures
            r@ == old(self)@,
            final(self)@ == final(r)@,
    {
        &mut self.last_err
    }

    /// Starts a main-window builder carrying `title`.
    pub fn window(&self, title: &str) -> (r: WindowBuilder)
        ensures
            r@ == WinString::encoding_of(title@),
    {
        WindowBuilder::with_title(title)
    }
}

impl AbsContext for Context {

}

} // verus!
