//! What the user interface asks for.

pub mod screen_share;
