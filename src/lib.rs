//! Supervision of a single worker process that serves on a chosen local port.

pub mod decimal;
pub mod message;
pub mod supervisor;
pub mod drain;
pub mod treekill;
pub mod port;
