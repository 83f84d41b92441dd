//! Model of a minimal windowed present loop: a client that owns a surface
//! configuration, cycles a solid clear color once per drawn frame, and reacts
//! to window lifecycle events (close, resize, redraw).
//!
//! The GPU and window-system calls themselves are unverified I/O and live in
//! the surrounding application; this crate holds the decisions they are driven
//! by, each with a proved contract: which color a frame is cleared to, which
//! surface dimensions a draw uses, when the loop terminates, which surface
//! format is selected, and which setup failure aborts initialization.

pub mod client;
pub mod color;
pub mod init;
