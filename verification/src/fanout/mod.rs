//! The way of a report to the guilds: the stages of a broadcast, the guilds
//! that listen, what each of them is sent and what each of them does.

pub mod admin;
pub mod broadcast_handler;
pub mod listener;
pub mod moderate;
pub mod send;
pub mod webhooks;
