//! Link previews: the Open Graph metadata of a page, the two-phase fetch that
//! obtains it, and the per-URL memo of what was found.
//!
//! The crate holds the decisions; sockets, locks and the wire format belong to
//! the program around it.

pub mod cache;
pub mod document;
pub mod extract;
pub mod fetch;
pub mod record;
