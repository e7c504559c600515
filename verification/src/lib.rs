//! Session core of a chat client: request correlation, response decoding,
//! stream reassembly, socket session management, lookup deduplication and the
//! application state store. Everything here is pure: network effects are
//! returned as values for the embedding application to perform.

pub mod text;
pub mod json;
pub mod wire;
pub mod schema;
pub mod request;
pub mod decoder;
pub mod encode;
pub mod reassembler;
pub mod socket;
pub mod client;
pub mod state;
pub mod laws;
