//! The bot's settings.

use crate::util::discord::{ChannelId, GuildId};
use vstd::prelude::*;

verus! {

/// What the bot is started with.
#[derive(Debug, Clone)]
pub struct Config {
    pub bot_token: String,
    pub database_url: String,
    /// The guild in which admin commands may be used.
    pub admins_server_id: GuildId,
    /// The channel of the admin server that gets a copy of every broadcast.
    pub admin_server_log_channel: ChannelId,
    /// The channel of the admin server that the operations log goes to.
    pub admin_server_error_log_channel: ChannelId,
}

} // verus!
