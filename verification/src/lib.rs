//! A hub that brokers commands and status reports between devices and the
//! clients that control them: the wire messages, the two registries, the
//! routing rules, the liveness sweep, the per-connection sessions and the
//! command framework.

pub mod devices;
pub mod error;
pub mod channel;
pub mod codec;
pub mod commands;
pub mod handlers;
pub mod json;
pub mod models;
pub mod registry;
pub mod router;
pub mod utils;
