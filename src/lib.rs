//! Multicast UDP sessions: address checks, socket set-up plans, the
//! PING/PONG payload protocol, and the step functions of the listen, send
//! and ping sessions.

pub mod address;
pub mod framing;
pub mod socket;
pub mod command;
pub mod session;
