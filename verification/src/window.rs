//! The main-window payload and its builder.
//!
//! The payload carries what window creation reads — here, the display
//! name — and the builder assembles it from a plain title string. The
//! native creation call itself happens in the driver, which hands the
//! finished payload to the lifecycle layer.

use crate::builder::{Buildable, Builder};
use crate::context::Context;
use crate::events::WindowData;
use crate::winstr::WinString;
use vstd::prelude::*;

verus! {

/// The per-instance payload of a main window: its title.
pub struct MainWindowData {
    title: WinString,
}

impl View for MainWindowData {
    type V = Seq<u16>;

    closed spec fn view(&self) -> Seq<u16> {
        self.title@
    }
}

impl MainWindowData {
    /// The encoded title.
    pub fn title(&self) -> (r: &WinString)
        ensures
            r@ == self@,
    {
        &self.title
    }
}

impl WindowData for MainWindowData {
    /// The window's display name is its title; position, size, parent and
    /// menu keep the platform defaults.
    fn name(&self) -> Option<&WinString> {
        Some(&self.title)
    }
}

/// Collects the parameters of a main window.
pub struct WindowBuilder {
    title: WinString,
}

impl View for WindowBuilder {
    type V = Seq<u16>;

    closed spec fn view(&self) -> Seq<u16> {
        self.title@
    }
}

impl Builder for WindowBuilder {
    type Context = Context;

    type InitArgs = String;

    type Final = MainWindowData;

    /// The finished payload carries exactly the collected title.
    open spec fn builds(self, r: MainWindowData) -> bool {
        r@ == self@
    }

    fn build(self) -> (r: MainWindowData) {
        MainWindowData { title: self.title }
    }
}

impl Buildable for MainWindowData {
    type Builder = WindowBuilder;

    fn builder(ctxt: &Context, args: String) -> WindowBuilder {
        WindowBuilder { title: WinString::from_str(args.as_str()) }
    }
}

impl WindowBuilder {
    /// A builder already holding the encoded `title`.
    pub fn with_title(title: &str) -> (r: WindowBuilder)
        ensures
            r@ == WinString::encoding_of(title@),
    {
        WindowBuilder { title: WinString::from_str(title) }
    }
}

} // verus!
