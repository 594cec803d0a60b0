//! A client connection bridge for callers without native futures.
//!
//! Options are built, a handshake task is created from a transport and the
//! options, the caller's polling loop drives that task until it yields a
//! connection handle, and requests are then sent through the handle, each as
//! a task of its own. Every step is a plain-value state transition, so the
//! lifecycle rules (single use of consumed handles, the weak executor
//! reference, what a dropped task leaves behind) are stated and proved here,
//! while the wire-protocol engines are driven by the embedding program.
#![allow(non_camel_case_types)]

pub mod client;
pub mod error;
pub mod exec;
pub mod http_types;
pub mod laws;
pub mod options;
pub mod task;

pub use client::{hyper_clientconn, Dispatch, Http1Sender, Protocol, Tx};
pub use error::hyper_code;
pub use exec::{ExecSlot, Executors, WeakExec};
pub use http_types::{hyper_io, hyper_request, hyper_response};
pub use options::hyper_clientconn_options;
pub use task::{hyper_task, hyper_task_return_type, HandshakeEvent, SendEvent, TaskState, TaskValue, TaskWork};
