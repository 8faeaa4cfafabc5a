//! The service supervision engine of a node's control panel.
//!
//! The engine starts, watches, reconfigures, restarts and stops the
//! processes that run beside the node: a database, indexers, explorer
//! backends, a mining bridge, a miner and a transaction generator. It
//! decides and never acts: what is to be done is handed to the caller,
//! who reports back what came of it.

pub mod bridge;
pub mod launcher;
pub mod log_store;
pub mod modules;
pub mod network;
pub mod readiness;
pub mod services;
pub mod settings;
pub mod shutdown;
pub mod supervisor;
pub mod text;
pub mod utils;
