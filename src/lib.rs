//! Turns process signals into messages that ordinary code receives over a
//! channel, with a verified catalog of the supported signals.

pub mod catalog;
pub mod channel;

pub use catalog::{all, from_i32, os_number, Signal};
pub use channel::{decode_polled, decode_received, new, numbers_of, SignalReceiver, SignalSender};
