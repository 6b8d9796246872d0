//! Static assets.

pub mod logos;
