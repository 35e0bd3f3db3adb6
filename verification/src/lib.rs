//! Core engine of a minimal tiling window manager.
//!
//! The library holds the verified logic: the focus-ordered window stack,
//! the geometry computations, the binding dispatch table and the event-loop
//! state machine.  Talking to the windowing server itself (opening the
//! display, grabbing keys, issuing placement calls) is left to the
//! surrounding program, which feeds plain events in and carries the
//! returned commands out.

pub mod config;
pub mod dispatch;
pub mod engine;
pub mod layout;
pub mod stack;
pub mod status;
