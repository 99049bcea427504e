//! Meal planning on a single day's timeline.
//!
//! A day is a sequence of [`food::engine::Block`]s, each an interval of
//! wall-clock time that may hold one [`food::Food`]. The central operation,
//! [`food::engine::Block::split_at_start`], places a food at the start of a
//! block and reports how the block has to be re-partitioned.
pub mod clock;
pub mod food;
