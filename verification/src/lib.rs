//! Native-window dispatch and handle-lifecycle core.
//!
//! The library models the protocol by which a single native callback per
//! window class delivers events to many independently typed handlers, the
//! ownership rules for the application data attached to each native window
//! handle, the exactly-once registration of a window class, and the
//! containment of handler failures raised inside a foreign call frame.
//! The native platform calls themselves (window creation, the message pump)
//! live outside this crate; every decision taken around them is verified here.

pub mod builder;
pub mod context;
pub mod dispatch;
pub mod error;
pub mod events;
pub mod failure;
pub mod handle;
pub mod move_cell;
pub mod registry;
pub mod window;
pub mod winstr;

use vstd::prelude::*;

verus! {

/// The result code a native window procedure returns when a message was not
/// handled locally.
pub const RET_ERR: i64 = -1;

} // verus!
