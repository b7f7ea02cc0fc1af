//! SCPI-99 expression program data: channel lists and numeric lists.

pub mod channel_list;
pub mod numeric_list;
