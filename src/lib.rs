//! Running statistics over a sequence of observations, and statistics
//! derived from histogram bin counts.
//!
//! The library holds the exact, integer side of these estimators: how many
//! observations a summary has absorbed, how counts combine when summaries
//! are merged, which divisor each variance estimate uses, and the totals of
//! histogram bins. Every item is verified.
pub mod bins;
pub mod count;
pub mod merge;

pub use bins::{count_and_total, total_count};
pub use count::SampleCount;
pub use merge::Merge;
