//! A minimal real-time rendering host, reduced to its decision logic: the
//! surface configuration rules, the frame command protocol, and the event
//! loop driver's state machine. The platform loop that owns the window and
//! the GPU handles performs the effects this library computes.

pub mod driver;
pub mod error;
pub mod frame;
pub mod surface;
