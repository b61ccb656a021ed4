//! Fetch-and-install of a versioned release archive.
//!
//! The crate holds the decisions of an installer and leaves the input and
//! output to its caller: which asset of a release to take, how a transfer is
//! accounted for and when it counts as complete, what a ZIP archive holds, and
//! which directories and files an extraction creates, in which order.

pub mod archive;
pub mod error;
pub mod extract;
pub mod release;
pub mod status;
pub mod transfer;
