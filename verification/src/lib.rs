//! Background input services of a desktop launcher: a double-tap gesture
//! detector for the Ctrl key, the lifecycle of the global keyboard hook that
//! feeds it, and the tick logic of the interactive screen colour picker.
//!
//! Everything here works on plain values. Installing hooks, pumping
//! messages, reading the screen and painting belong to the program that
//! embeds this library; it performs the actions that these functions decide.

pub mod clipboard;
pub mod clock;
pub mod color;
pub mod color_picker;
pub mod error;
pub mod gesture;
pub mod keyboard_hook;
pub mod logger;
pub mod overlay;
pub mod paths;
pub mod sampling;
pub mod shortcuts;
pub mod text;
