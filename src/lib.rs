//! A runtime for nodes of a line-delimited message-passing protocol: the
//! message model, the flat wire layout of a payload, the handshake, request
//! and reply correlation, the dispatch step, and a few services built on it.

pub mod codec;
pub mod node;
pub mod payload;
pub mod services;

pub use node::{correlate, init_failure, Input, Node, Reply, Request, Service, Step};
pub use payload::{InitOk, InitRequest, Message, Payload, PayloadError, HANDLER_FAILURE, PARSE_FAILURE};
