//! The log tailer's decisions and the arithmetic of a metrics snapshot.

pub mod logs;
pub mod metrics;
