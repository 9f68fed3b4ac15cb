//! The shell session: its devices, its screen and its state.
pub mod device;
pub mod display;
pub mod repeat;
pub mod state;
