//! Extraction of show title, season and episode numbers from the paths of
//! video files, through an ordered chain of pattern matchers.

pub mod media;
pub mod number;
pub mod path;

pub use media::{Episode, Parser, PatternError, RegexParser};
pub use number::parse_u16;
