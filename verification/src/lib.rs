//! World-clock status-line library: a clock-face glyph chosen from the local
//! time, a tolerant configuration resolver with a built-in fallback, and a
//! renderer that formats one line per configured city.

pub mod config;
pub mod glyph;
pub mod render;
pub mod timezone;
