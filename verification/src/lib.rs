//! Settings and user-script logic of the desktop client.

pub mod conf;
pub mod constant;
pub mod json;
pub mod template;
pub mod theme;
