//! A two-button volume control for the default audio sink.
//!
//! * [`diff`]: signed percentage deltas and their text.
//! * [`audio`]: the mixer command for a delta, and what its outcome means.
//! * [`widgets`]: the widgets of the volume window, as plain values.
//! * [`extensions`]: widgets tied to a reactive scope, changed through
//!   modifiers.
//! * [`ui`]: the assembly of the volume window.
//! * [`logging`]: the choice of the log filter.
//! * [`filter`]: the log filter and the text it was parsed from.
//! * [`cuts`]: where the filter parser cuts its text, and whether it can.
//!
//! The library starts no process and draws nothing: it says which command
//! to run and which window to show, and reads what came of the command.

pub mod audio;
pub mod cuts;
pub mod diff;
pub mod extensions;
pub mod filter;
pub mod logging;
pub mod ui;
pub mod widgets;
