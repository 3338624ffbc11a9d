//! Boundary layer between a foreign caller and an embedded, asynchronous
//! query engine.
//!
//! The engine and the foreign side are not here. What is here is every
//! decision that the boundary takes: which status code an entry point
//! returns, what a completion callback is given, how wire records of read
//! options decode into native configuration, how the shared executor is
//! created and refused destruction while it is in use, and how a stream
//! cursor moves from open to exhausted.
//!
//! - [`error`]: status codes and error records
//! - [`common`]: buffers and callback arguments as they cross the boundary
//! - [`proto`], [`options`], [`mappers`]: wire records, native configuration
//!   and the decoder between them
//! - [`runtime`]: the executor and its shared handle
//! - [`context`]: argument checks and configuration of a query context
//! - [`dataframe`]: outcomes of operations on a query result
//! - [`ipc`]: the writer that frames schemas and batches in memory
//! - [`stream`]: the state machine of a stream cursor

pub mod common;
pub mod context;
pub mod dataframe;
pub mod error;
pub mod ipc;
pub mod mappers;
pub mod options;
pub mod proto;
pub mod runtime;
pub mod stream;
