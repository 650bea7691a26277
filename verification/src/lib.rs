//! A synchronous binding layer for a typed, asynchronous tax-compliance
//! API client.  The verified core models the host runtime's dynamic
//! values, rewrites mapping keys between the wire convention (camelCase)
//! and the host convention (snake_case) in both directions, classifies
//! the typed client's errors into data versus raised errors, marshals
//! each operation's input into the exact request the transport performs,
//! and builds the Basic-Authentication header value.

pub mod auth;
pub mod client;
pub mod dynvalue;
pub mod keycase;
pub mod normalize;
pub mod strutil;
pub mod transcode;
