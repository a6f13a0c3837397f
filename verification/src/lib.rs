//! Verified core of a desktop voice client with screen sharing.

pub mod collections;
pub mod commands;
pub mod ids;
pub mod json;
pub mod media;
pub mod startup;
pub mod state;
pub mod text;
