//! What the pages show.

pub mod handlers;
pub mod templates;
