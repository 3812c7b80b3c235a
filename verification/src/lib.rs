//! A minimal authenticated paste-hosting service, verified.
//!
//! The library holds the service's decision logic: how a request's token
//! lookup outcome authorizes it, how a stored filename is derived from the
//! client's upload name, how each handler steps from one database or
//! filesystem event to the next action, and how domain errors map to HTTP
//! status codes. An abstract model of the metadata store and the blob
//! directory carries the service's invariants.

pub mod auth;
pub mod errors;
pub mod model;
pub mod names;
pub mod outside;
pub mod protocol;
pub mod types;
