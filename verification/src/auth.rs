//! Authentication: cookies, replies, token validation and the login,
//! callback and logout flows.

pub mod cascade;
pub mod cookies;
pub mod extractors;
pub mod handlers;
pub mod helpers;
pub mod jwt;
pub mod probe;
pub mod reply;
