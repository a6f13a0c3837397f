//! Native screen capture, encoding and delivery.

pub mod audio;
pub mod broadcast;
pub mod capture;
pub mod connection;
pub mod display;
pub mod encoder;
pub mod ffmpeg;
pub mod frame;
pub mod gpu;
pub mod mailbox;
pub mod negotiation;
pub mod network;
pub mod pipeline;
pub mod preview;
pub mod selftest;
pub mod settings;
pub mod sources;
pub mod transport;
