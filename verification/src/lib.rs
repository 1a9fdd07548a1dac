//! Backend lifecycle and download supervision.
//!
//! The crate models the three stateful concerns of a desktop shell that owns a
//! long-running backend process and an optional large artifact download:
//!
//! - [`paths`] resolves the backend interpreter and entry-script locations
//!   from a working root, for either platform layout.
//! - [`supervisor`] is the one-shot state machine that governs spawning the
//!   backend child process and terminating it on shutdown.
//! - [`download`] is the shared progress record written by the download task
//!   and read by concurrent pollers, together with the percentage derivation.
//!
//! All I/O (the HTTP transfer, file writes, process creation) is performed by
//! the embedding application, which feeds the observed events into the
//! verified state machines defined here.

pub mod download;
pub mod paths;
pub mod supervisor;
