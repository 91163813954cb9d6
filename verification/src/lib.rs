//! Stateless authentication and field validation for a multi-tenant resource API.
//!
//! The crate has three parts: a token service that mints and checks signed,
//! time-bounded identity tokens, together with the cascading authentication /
//! authorization guard chain and the response-phase token refresh (`ident`);
//! a composable string-rule validation engine (`validation`) with the
//! field-level validators built on it (`users`, `farms`); and the shared
//! error payload and wire identifier types (`error`, `types`).

pub mod error;
pub mod farms;
pub mod ident;
pub mod strutil;
pub mod types;
pub mod users;
pub mod validation;
