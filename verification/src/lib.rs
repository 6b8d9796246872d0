//! Authentication gateway core: token validation, login and callback
//! decisions, the logout cascade and role-based service filtering.

pub mod assets;
pub mod auth;
pub mod config;
pub mod encoding;
pub mod services;
pub mod text;
pub mod web;
