//! Verified core of a batch pipeline that converts medical image
//! objects to compressed grayscale images stored under
//! date-partitioned keys: metadata extraction, pixel-frame rendering,
//! partition-key derivation, and the per-object unit of work.

pub mod date;
pub mod partition;
pub mod pipeline;
pub mod render;
pub mod staging;
pub mod trusted;
pub mod unit;
