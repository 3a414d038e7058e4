//! Where a command may be used.

use crate::util::discord::GuildId;
use vstd::prelude::*;

verus! {

/// Whether a command was invoked inside the admin server: it was invoked in
/// a guild, and that guild is the configured admin server.
pub fn is_in_admin_server(guild_id: Option<GuildId>, admins_server_id: GuildId) -> (inside: bool)
    ensures
        inside == (guild_id == Some(admins_server_id)),
{
    match guild_id {
        Some(id) => id == admins_server_id,
        None => false,
    }
}

} // verus!
