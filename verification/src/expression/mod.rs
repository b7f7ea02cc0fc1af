//! Expression tokenizers over plain bytes: numeric lists of integers and
//! channel lists that report their separators.

pub mod channel_list;
pub mod numeric_expression;
pub mod numeric_list;
