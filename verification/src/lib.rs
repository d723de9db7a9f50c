//! A verified model of a macOS Services-menu provider shim.
//!
//! The shim stores a single process-wide handle to the running application
//! (settable exactly once, readable many times) and decides what a
//! Services-menu callback should do with it: recreate and focus the main
//! window and emit a "create new chat" event, dropping the request silently
//! when no handle has been stored or the window cannot be found.
//!
//! Platform glue (the Objective-C class registration and the window calls
//! themselves) lives outside this crate; here stand the handle slot and the
//! callback's decisions, each with a proved contract.

pub mod handle_cell;
pub mod service;
pub mod shim;
