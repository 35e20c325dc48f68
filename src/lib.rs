//! Client side of a small real-time chat protocol: username rules, operator
//! line handling, inbound event decoding and the session state machine.

pub mod username;
pub mod input;
pub mod clock;
pub mod payload;
pub mod event;
pub mod roster;
pub mod session;
