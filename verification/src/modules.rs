//! What the views of the control panel compute: the addresses they poll,
//! the paths they serve, and what they make of the answers.

pub mod credentials;
pub mod database;
pub mod explorer;
pub mod k_social;
pub mod k_watch;
pub mod log_views;
pub mod settings;
pub mod transfer;
pub mod web_views;
