//! Decision logic of a small daemon that watches a window manager's event
//! stream and sends windows that open on the hidden "special" workspace back
//! to the workspace that was focused last.
//!
//! Everything here is pure: lines of text go in, typed events and textual
//! commands come out. Sockets and processes live with the caller.

pub mod text;
pub mod event;
pub mod parse;
pub mod command;
pub mod tracker;
pub mod laws;
