//! The names that most callers need.
pub use crate::shell::device::control::Control;
pub use crate::shell::device::control::ControlCode;
pub use crate::shell::device::control::In;
pub use crate::shell::device::control::InputClass;
pub use crate::shell::device::control::Key;
pub use crate::shell::device::control::IN_CAPACITY;
pub use crate::shell::device::DeviceState;
pub use crate::shell::display::Display;
pub use crate::shell::display::DisplayError;
pub use crate::shell::repeat::KeyRepeat;
pub use crate::shell::state::ShellError;
pub use crate::shell::state::ShellState;
pub use crate::DEFAULT_REPEAT;
pub use crate::DISPLAY_DEFAULT_COL;
pub use crate::DISPLAY_DEFAULT_ROW;
