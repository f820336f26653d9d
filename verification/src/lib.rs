//! Coordination core for a small event-driven control loop: a rising-edge
//! detector feeding two independent consumers over a fan-out of FIFO queues —
//! a blinker whose rate follows the last notified state, and a trigger gate
//! that dispatches one authentication exchange per rising edge.

pub mod blinker;
pub mod edge;
pub mod gate;
pub mod hub;
pub mod json;
pub mod protocol;
