pub mod config;
pub mod discord;
pub mod embeds;
pub mod format;
pub mod locks;
pub mod logger;
pub mod parsing;
pub mod permissions;
pub mod screenshot;
