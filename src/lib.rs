//! Safe core of a FastCGI request handle.
//!
//! The native protocol engine performs the accept, read, write, flush and
//! finish calls. This crate holds what decides around those calls: the
//! lifecycle of a request handle, which stream an operation targets, how
//! parameter names and response text are marshaled into terminated bytes,
//! how a request body is gathered chunk by chunk, and how workers that share
//! one listening channel take turns at the accept step.

pub mod body;
pub mod handle;
pub mod marshal;
pub mod request;
pub mod stream;
pub mod worker;

pub use body::{BodyReader, CHUNK_SIZE};
pub use handle::Request;
pub use request::{DefaultRequest, Phase, Runtime};
pub use stream::{StreamType, Streams};
pub use worker::{Worker, WorkerEvent, WorkerPhase};
