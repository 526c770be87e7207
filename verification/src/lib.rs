//! A sequential sweep over a remote key-value store: connect, take one
//! snapshot of every key name, and delete the keys one request at a time,
//! keeping a failed deletion from stopping the rest.
//!
//! The library decides; the program around it talks to the network. It asks
//! the sweep which request is due, carries the request out, and hands the
//! result back as an event.

pub mod address;
pub mod report;
pub mod error;
pub mod machine;
pub mod connector;
pub mod store;
pub mod laws;
