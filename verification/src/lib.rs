//! Automated promotion of versioned build artifacts: discovery of candidate
//! directories by naming convention, recency-gated selection, filtered and
//! cancellable chunked copying, and sequential fan-out deployment to remote
//! targets with templated post-transfer commands.

pub mod calendar;
pub mod clock;
pub mod config;
pub mod fanout;
pub mod gate;
pub mod history;
pub mod ids;
pub mod pattern;
pub mod pipeline;
pub mod select;
pub mod text;
pub mod transfer;
