//! Aggregation of per-match Crucible performance records into one summary.
pub mod ratio;
pub mod selection;
pub mod model;
pub mod streak;
pub mod merge;
pub mod rank;
pub mod summary;
pub mod manifest;
