//! Closed-form mathematics: integer building blocks and the exact,
//! count-based part of matched-pairs win-ratio analysis.

pub mod pure_math;
pub mod win_ratio;
