//! Application state: what is known of each server connection, and how user
//! actions and network events change it.

pub mod app;
pub mod channels;
pub mod connection;
pub mod registry;
pub mod screen_share;
pub mod session;
pub mod types;
