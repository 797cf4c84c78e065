//! Line, word, byte and character counting, in the manner of `wc`.
//!
//! `config` resolves the display flags of a run, `info` counts one input, and
//! `report` formats rows and folds each input's counts into the run's totals.

pub mod config;
pub mod info;
pub mod report;
