//! Session core for a remote-audio-device browser.
//!
//! A backend collaborator reports connection, version and directory
//! resynchronization facts as asynchronous events; this crate holds the
//! single-threaded reducer that turns those events into consistent UI
//! state, together with the navigation state for the remote directory
//! tree and the FIFO bridge the relay thread feeds.

pub mod bridge;
pub mod client;
pub mod event;
pub mod file_data;
pub mod navigation;
pub mod session;
pub mod snapshot;
