//! What is decided around the codec library: encoder parameters, probing, the
//! making of a filter graph, open encoders and log capture.

pub mod graph;
pub mod log;
pub mod params;
pub mod probe;
pub mod session;
