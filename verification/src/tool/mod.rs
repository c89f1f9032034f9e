//! The cluster-side helper tool: its options, release labels and the
//! decisions it makes from what the cluster reports.
pub mod cli;
pub mod detectors;
pub mod operations;
pub mod resources;
