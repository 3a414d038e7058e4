pub mod badactor;
pub mod config;
pub mod scores;
pub mod user;
