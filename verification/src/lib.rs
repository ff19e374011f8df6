//! The bookkeeping of a small rocket flight simulator: the flight log and its
//! column queries, the engine's power latch, and the step control of a run.
pub mod flight;
pub mod history;
pub mod vector;
