//! Paging through the list of open conversations of a messaging account, and
//! leaving one of them, written without any I/O of its own: every operation
//! that needs the network hands the caller the request to send and is
//! completed with the answer that came back.
//!
//! The crate also holds the rules by which the arguments of an update
//! handler's registration are checked.

pub mod client;
pub mod dialog;
pub mod entity;
pub mod error;
pub mod iter;
pub mod laws;
pub mod message;
pub mod peer;
pub mod request;
pub mod update;
