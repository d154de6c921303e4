//! A verified configuration and detection layer over the `lingua` language
//! detection engine: identifier parsing, a consume-once detector builder and a
//! detector facade with single and batch operations.

mod outside;

pub mod error;
pub mod parse;
pub mod detector;
pub mod builder;
pub mod listing;
