//! The rules of Janitor, a moderation bot for a federation of Discord
//! guilds: who hears of a reported account, what each guild does about it,
//! when the honeypot files a report by itself, and who may file one at a
//! time.
//!
//! Everything here is a decision on plain data, stated in a contract and
//! proved. Talking to Discord and to the database is left to the program
//! around this library, which carries out what the library decides.

pub mod commands;
pub mod database;
pub mod fanout;
pub mod honeypot;
pub mod moderation;
pub mod text;
pub mod util;
