//! Request routing decisions of the AIO Coding Hub local gateway.
//!
//! The gateway exposes a small HTTP surface: a liveness text at `/`, a health
//! report at `/health`, and proxy routes that hand every other request to the
//! proxy core with a CLI key and the path to forward upstream. This crate
//! holds those decisions as verified functions; the HTTP plumbing around them
//! lives outside it.

pub mod decimal;
pub mod header;
pub mod paths;
pub mod router;
pub mod routes;
