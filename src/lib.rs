//! Steering of requests among a fixed list of handlers, and the decision
//! logic of racing an operation against a deadline.

pub mod steer;
pub mod timeout;

pub use steer::{Picker, Steer};
