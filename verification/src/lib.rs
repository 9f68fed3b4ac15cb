//! The session state of a program that runs behind a pseudo-terminal.
//!
//! Once per tick the caller hands over what the devices delivered (a
//! keystroke, output of the child, a signal, or nothing at all) and the
//! state keeps three things consistent: the screen output gathered so far,
//! the input line that is being typed, and the count of key repeats.
//!
//! The functions here are verified against contracts over a mathematical
//! model of the state. The few calls into the standard library and into
//! other crates that the verifier cannot look into stand in private
//! functions of their own, each with a note on what is taken on trust. The
//! clock and the size of the terminal are read by the caller and handed in
//! as plain values.
pub mod prelude;
pub mod shell;

use vstd::prelude::*;

verus! {

/// The columns of a screen for which the terminal could give no size.
pub const DISPLAY_DEFAULT_COL: u16 = 80;

/// The rows of a screen for which the terminal could give no size.
pub const DISPLAY_DEFAULT_ROW: u16 = 24;

/// The repeat threshold, in milliseconds, of a session that configures none.
pub const DEFAULT_REPEAT: u64 = 1000;

} // verus!
