//! Embedded default assets written into a fresh document root.

pub mod css_content;
pub mod html_content;
