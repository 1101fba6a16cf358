//! Dataset-building pipeline for trading-card images.
//!
//! The library holds the verified core of a CLI that fetches card metadata,
//! downloads card images, validates them against corruption, normalizes them
//! to a fixed resolution and lays them out for classifier training. Network
//! and filesystem edges live outside the library; the decisions they feed are
//! specified and proved here.

pub mod images;
pub mod metadata;
pub mod paths;
pub mod pipeline;
pub mod sched;
pub mod strutil;
pub mod tcg;
