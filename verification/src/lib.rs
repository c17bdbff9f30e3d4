//! A verified core for a small toolbox of text conversions: JSON
//! pretty-printing and minifying, Base64 encoding and decoding, and
//! Unix-timestamp conversion, together with the text search, highlighting
//! and window-state bookkeeping that the surrounding user interface needs.

pub mod app_state;
pub mod base64_tool;
pub mod highlight;
pub mod json_tool;
pub mod numerals;
pub mod registry;
pub mod search;
pub mod sidebar;
pub mod textops;
pub mod timestamp_tool;
