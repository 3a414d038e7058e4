//! The admin server's copy of a broadcast.

use crate::fanout::broadcast_handler::{
    get_broadcast_message_no_buttons, BroadcastType, CreateMessage,
};
use crate::util::config::Config;
use crate::util::discord::ChannelId;
use crate::util::embeds::{CreateAttachment, Embed};
use vstd::prelude::*;

verus! {

/// What the admin server's copy is made of.
#[derive(Debug)]
pub struct BroadcastAdminServerOptions<'a> {
    pub config: &'a Config,
    pub embed: Embed,
    pub attachment: Option<CreateAttachment>,
    pub broadcast_type: BroadcastType,
}

/// The admin server's copy of a broadcast and the channel it goes to: the
/// sentence that announces the event, the shared embed and file, no buttons
/// and no pings.
pub fn broadcast_admin_server(options: BroadcastAdminServerOptions<'_>) -> (r: (
    ChannelId,
    CreateMessage,
))
    ensures
        r.0 == options.config.admin_server_log_channel,
        r.1.content@ == options.broadcast_type.message_spec(),
        r.1.embed == options.embed,
        r.1.attachment == options.attachment,
        r.1.buttons@.len() == 0,
{
    let message = get_broadcast_message_no_buttons(
        options.broadcast_type.message(),
        options.embed,
        options.attachment,
    );
    (options.config.admin_server_log_channel, message)
}

} // verus!
