//! A TLS front door for one HTTP service: certificate loading, the choice of
//! TLS configuration for each connection, the per-connection lifecycle and the
//! request routing, each with a verified contract.
pub mod acceptor;
pub mod errors;
pub mod events;
pub mod greeting;
pub mod identity;
pub mod router;
pub mod tls;

pub use errors::NotaryServerError;
