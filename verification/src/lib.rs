//! Verified core of a desktop automation engine: it translates high-level
//! pointer and keyboard intents into ordered low-level input events with
//! explicit pacing, and samples pixel colors out of captured frame buffers.
//!
//! The OS input backend and the OS capture backend are external collaborators:
//! this crate plans the exact event sequences and does the buffer arithmetic,
//! while an unverified shell performs the injection, the sleeps and the
//! captures.

pub mod actions;
pub mod buffer;
pub mod color;
pub mod controller;
pub mod errors;
pub mod keyboard;
pub mod laws;
pub mod motion;

pub use actions::apply_actions;
pub use actions::Button;
pub use actions::InputAction;
pub use actions::ToggleState;
pub use buffer::resolve_capture_region;
pub use buffer::PixelBuffer;
pub use color::to_hex;
pub use controller::RobotJS;
pub use errors::InvalidInput;
pub use errors::RobotError;
