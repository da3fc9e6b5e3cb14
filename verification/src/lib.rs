//! The logic of a small log and metrics agent: configuration checking and
//! discovery, the in-memory batch buffer, the log tailer's and the shipper's
//! decision procedures, and the arithmetic of a metrics snapshot.

pub mod clock;
pub mod error;
pub mod models;
pub mod config;
pub mod collectors;
pub mod shipper;
pub mod buffer;
pub mod text;
