//! One broadcast owns capture, slot allocation and independent senders.
//!
//! The owner is a state machine: it takes an event together with what is known
//! at that moment, and gives the actions to perform, in order.  A failed
//! action ends the broadcast.

pub mod owner;
pub mod peer;
pub mod source;
pub mod status;
