//! A minimal single-threaded TCP listener, split into a verified core and an
//! unverified I/O shell.
//!
//! The verified core models the one thing the listener computes: for each
//! accepted connection, a fixed 1024-byte buffer is filled by a single read
//! (zero-padded if the peer sent less), decoded as lossy UTF-8, and rendered
//! as one diagnostic line. A small state machine captures the strictly
//! sequential bind/accept/read/log loop and its fail-fast error policy; the
//! socket work itself (bind, accept, read, print) is left to the caller.

pub mod buffer;
pub mod logline;
pub mod machine;
