//! A fixed-rate simulation clock decoupled from a variable-rate update loop,
//! together with a frame-count cadence gate that rate-limits outbound
//! messages relative to simulation-frame numbers rather than wall-clock time.

pub mod clock;
pub mod errors;
pub mod gate;
pub mod message;
pub mod sender;
