//! Shared building blocks for API services: a type-state request router
//! ([`api`]) and its request-builder flavour ([`builder`]), an
//! HTTP-flavoured error type ([`error`]) and request state that expires
//! ([`state`]).

pub mod api;
pub mod builder;
pub mod error;
pub mod json;
pub mod state;

pub use error::Error;
