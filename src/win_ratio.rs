//! # Win ratio analysis

pub mod sample_win_ratio;
