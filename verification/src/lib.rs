//! Authentication core of a small log-ingestion service emulator: a client
//! exchanges a signed assertion for a short-lived bearer token, and presents
//! that token on every protected request.
//!
//! The components are stateless: the signing key and the current instant are
//! threaded explicitly into every operation, so signing and verification are
//! plain functions of their arguments.

pub mod auth;
pub mod data;
pub mod error;
pub mod exchange;
pub mod form;
pub mod gate;
