//! The raw invoice as it comes out of a parsed document, and its conversion
//! into the strict invoice model.

pub mod normalizer;
pub mod parser;
