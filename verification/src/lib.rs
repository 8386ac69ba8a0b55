//! Client library for the OpenAPI REST services: OAuth token management over
//! Basic authentication and generic Bearer-authenticated requests.
//!
//! The library builds and classifies HTTP requests as plain data; an embedding
//! program hands the built requests to an HTTP transport and feeds the status
//! and body of each response back in.

pub mod auth;
pub mod client;
pub mod encoding;
pub mod error;
pub mod method;
pub mod text;
