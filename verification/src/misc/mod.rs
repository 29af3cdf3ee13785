//! Helpers that fit nowhere else: text comparison, number parsing and the
//! handling of command-line arguments.

pub mod args;
pub mod lprint;
pub mod numbers;
pub mod pattern;
pub mod response;
pub mod text;
