//! The request-handling logic of a two-tier content delivery network: storage
//! nodes keep uploaded files compressed under a name derived from their
//! SHA-512 digest, and a user-facing server routes uploads to a storage node,
//! serves downloads (optionally from a cache) and turns failures into
//! JSON error responses.
pub mod text;
pub mod errors;
pub mod codec;
pub mod upload;
pub mod download;
pub mod remote;
pub mod config;
pub mod node;
pub mod auth;
pub mod cli;
