//! Client library for the wired campus-network authentication protocol:
//! packet codecs for the challenge, login and two heartbeat families, and the
//! session state machine that sequences them.

pub mod digest;
pub mod wire;
pub mod dialer;
pub mod heartbeater;
pub mod session;
