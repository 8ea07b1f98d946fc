//! Launcher core for a desktop shell around a local backend server.
//!
//! The crate verifies the two stateful parts of the launcher: the encrypted,
//! versioned configuration store (entity, codec, mirror text, sealing,
//! load/save orchestration) and the backend process supervisor (health
//! probing, readiness polling under a deadline, ownership-gated
//! termination).  All file, network and process I/O stays in the
//! unverified application shell, which hands this library plain values.

pub mod codec;
pub mod config;
pub mod errors;
pub mod health;
pub mod laws;
pub mod mirror;
pub mod seal;
pub mod store;
pub mod supervisor;
pub mod text;
