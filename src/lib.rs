//! USB CDC-ACM serial driver core: descriptor matching, the serial control
//! protocol, and a blocking transfer engine driven over an asynchronous queue.
//!
//! Everything here is plain data and decisions. The host glue (device
//! enumeration, claiming interfaces, submitting transfers and waiting for
//! them) performs the actions this crate asks for and reports back events.

pub mod config;
pub mod descriptor;
pub mod engine;
pub mod error;
pub mod session;
pub mod text;
