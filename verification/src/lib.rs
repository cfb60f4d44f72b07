//! Client logic for a home-router cloud service: building the requests of the
//! login flow and of the authenticated read operations, and decoding the
//! JSON replies into typed values. Sending a request and receiving its reply
//! is left to the caller; everything here is a function of plain values.

pub mod client;
pub mod error;
pub mod http;
pub mod json;
pub mod login;
pub mod resources;
pub mod schema;
pub mod text;
