//! Sorts a log of timestamped records: each input line begins with a
//! fixed-width RFC3339 timestamp, which is extracted as whole seconds since
//! the Unix epoch, ordered ascending, and rendered back as one naive
//! (offset-free) date-time string per line.

pub mod emit;
pub mod extract;
pub mod pipeline;
pub mod sort;
