//! Markdown to HTML conversion with validated render settings and an
//! optional syntax-highlighting plugin.

pub mod convert;
pub mod laws;
pub mod options;
pub mod plugins;
pub mod text;
pub mod themes;
