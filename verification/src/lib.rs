//! Decision logic of a ledger liveness monitor: the bounded wait for
//! finalization, the probe loop as a state machine, the statistics shared by
//! the workers, the rules by which reports are sent and counters reset, and
//! the signing boxes that hold the probe accounts' keys.

pub mod clock;
pub mod config;
pub mod cryptobox;
pub mod probe;
pub mod report;
pub mod response;
pub mod stats;
pub mod text;
pub mod wait;
