//! Text as sequences of characters: the operations on strings that the
//! rest of the crate is built from, each with its mathematical definition.

pub mod chars;
pub mod decimal;
pub mod lines;
pub mod search;
