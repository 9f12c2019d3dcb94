//! Text as sequences of characters: the string operations the detection
//! and classification code is specified with.

pub mod compose;
pub mod case;
pub mod chars;
pub mod number;
pub mod search;
pub mod split;
