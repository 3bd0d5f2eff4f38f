//! Bridge between a native asynchronous message-bus client and handler
//! callbacks supplied by a foreign host runtime.
//!
//! The verified core models the callback bridge: registration of foreign
//! handlers, admission and dispatch of inbound messages, translation of
//! foreign completions into typed outcomes, timeout resolution, and the
//! disposal state machine that drains in-flight dispatches on shutdown.
//! PEM decoding of client key and certificate material is verified on top
//! of a trusted parser.

pub mod config;
pub mod errors;
pub mod message;
pub mod outcome;
pub mod translate;
pub mod dispatch;
pub mod bridge;
pub mod guard;
pub mod pem;
