//! Host-metrics monitoring agent: snapshot assembly, a bounded history of
//! snapshots, the collection tick and the per-connection streaming state machine.
//!
//! Percentages and load averages are held in hundredths (fixed point), so that
//! every rule on them is stated and proved over integers.

pub mod snapshot;
pub mod history;
pub mod assemble;
pub mod procstat;
pub mod scheduler;
pub mod stream;
