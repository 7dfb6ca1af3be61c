//! Desktop-duplication capture, with the native calls factored out.
//!
//! The library holds everything a capture engine decides: how platform status
//! codes are classified, in which order adapters and outputs are walked, which
//! native operation a capture session performs next, which cursor reports are
//! believed, and how a cursor bitmap is blended into a frame. The caller owns
//! the native handles and performs the operations the library asks for.

pub mod capturer;
pub mod compose;
pub mod cursor;
pub mod discipline;
pub mod display;
pub mod displays;
pub mod machine;
pub mod overlay;
pub mod protocol;
pub mod session;
pub mod status;

pub use capturer::Capturer;
pub use display::Display;
pub use displays::Displays;
