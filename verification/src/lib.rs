//! Verified core of a small wireless-firmware image.
//!
//! Three cooperating units of work share one radio controller and one
//! network stack: a connectivity supervisor (mode configuration, radio
//! start, periodic network scan), a stack pump that drives packet
//! processing, and a heartbeat that toggles indicator outputs on a fixed
//! period. This crate holds the decision logic of those units as plain
//! functions from state and operation outcome to next state and diagnostic
//! events, each with a proved contract. The hardware bindings — the radio
//! driver, the timer, the digital outputs — sit outside the crate and feed
//! these functions the outcomes of the operations they request.

pub mod heartbeat;
pub mod level;
pub mod log;
pub mod supervisor;
