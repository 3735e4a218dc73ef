//! The capability set each window class implements.
//!
//! [`WindowEvents`] is the typed face of the single native callback: one
//! hook per lifecycle notification plus a generic fallback. Every hook
//! reports its result as an [`Outcome`], so a failure inside application
//! code is a value the trampoline can contain rather than an unwind through
//! the foreign frame.
//!
//! [`WindowData`] is the accessor capability of the per-instance payload:
//! the presentation parameters window creation reads, each with a default
//! that leaves the choice to the platform.

use crate::failure::Outcome;
use crate::handle::WindowHandle;
use crate::winstr::WinString;
use vstd::prelude::*;

verus! {

/// The position or extent value telling the platform to choose a default.
pub const CW_USEDEFAULT: i32 = i32::MIN;

/// The accessors window creation reads off the payload. Every accessor has
/// a well-defined default: no display name, platform-chosen position and
/// size, no parent, no menu.
pub trait WindowData {
    /// The window's display name, if any.
    fn name(&self) -> Option<&WinString> {
        None
    }

    /// The initial position; [`CW_USEDEFAULT`] lets the platform choose.
    fn pos(&self) -> [i32; 2] {
        [CW_USEDEFAULT, CW_USEDEFAULT]
    }

    /// The initial size; [`CW_USEDEFAULT`] lets the platform choose.
    fn size(&self) -> [i32; 2] {
        [CW_USEDEFAULT, CW_USEDEFAULT]
    }

    /// The parent window's native identifier, if any.
    fn parent(&self) -> Option<u64> {
        None
    }

    /// The menu's native identifier, if any.
    fn menu(&self) -> Option<u64> {
        None
    }
}

/// The event hooks of one window class. Each hook defaults to doing
/// nothing; the generic hook defaults to reporting the message unhandled
/// (`Done(None)`), which sends the message on to default or chained
/// processing.
pub trait WindowEvents: Sized {
    /// The per-instance payload attached to each window of this class.
    type Data: WindowData;

    /// Runs when the window's creation notification arrives.
    fn on_create(_handle: &WindowHandle, _data: &mut Self::Data) -> (o: Outcome<()>) {
        Outcome::Done(())
    }

    /// Runs when the window becomes visible.
    fn on_show(_handle: &WindowHandle, _data: &mut Self::Data) -> (o: Outcome<()>) {
        Outcome::Done(())
    }

    /// Runs when the window is hidden.
    fn on_hide(_handle: &WindowHandle, _data: &mut Self::Data) -> (o: Outcome<()>) {
        Outcome::Done(())
    }

    /// Runs when the window's destruction notification arrives, before its
    /// data block is released.
    fn on_destroy(_handle: &WindowHandle, _data: &mut Self::Data) -> (o: Outcome<()>) {
        Outcome::Done(())
    }

    /// Runs for every other message. `Done(Some(result))` means the message
    /// was handled locally with that result; `Done(None)` leaves it to
    /// default or chained processing.
    fn handle_msg(_handle: &WindowHandle, _data: &mut Self::Data, _code: u32) -> (o: Outcome<
        Option<i64>,
    >) {
        Outcome::Done(None)
    }
}

} // verus!
