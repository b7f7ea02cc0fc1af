//! SCPI parser and response formatter.

pub mod util;

pub use util::{mnemonic_compare, mnemonic_match};
pub mod expression;
pub mod format;
pub mod lexical;
pub mod parameters;
pub mod response;
pub mod suffix;
pub mod token;
pub mod tokenizer;
