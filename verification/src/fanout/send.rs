//! A listener's copy of a broadcast: its text, with or without pings, and
//! its buttons.

use crate::fanout::broadcast_handler::{
    broadcast_buttons, buttons_are, get_broadcast_message, BroadcastType, CreateMessage,
};
use crate::fanout::listener::BroadcastListener;
use crate::fanout::moderate::{get_moderation_action, moderation_action};
use crate::database::badactor_model_controller::BadActor;
use crate::database::serverconfig_model_controller::{ActionLevel, ServerConfigComplete};
use crate::text::{join, joined, views};
use crate::util::discord::{
    push_role_mention, push_user_mention, role_mention, user_mention, GuildId, UserId,
};
use crate::util::embeds::{CreateAttachment, Embed};
use crate::util::format::{display, display_spec, HasNameAndID};
use vstd::prelude::*;
use vstd::string::*;

verus! {

/// What a listener's copy is made of.
#[derive(Debug)]
pub struct SendBroadcastMessageOptions<'a> {
    pub broadcast_type: BroadcastType,
    pub listener: &'a BroadcastListener,
    pub bad_actor: &'a BadActor,
    pub embed: Embed,
    pub attachment: Option<CreateAttachment>,
}

/// Whether a guild is spared the pings: the guild that filed the report
/// knows of it already, and a guild that acts on its own needs no second
/// alarm.
pub open spec fn pings_suppressed(
    origin_guild_id: GuildId,
    guild_id: GuildId,
    action_level: ActionLevel,
) -> bool {
    origin_guild_id == guild_id || action_level != ActionLevel::Notify
}

/// The mentions of a list of users.
pub open spec fn user_mentions(users: Seq<UserId>) -> Seq<Seq<char>> {
    Seq::new(users.len(), |i: int| user_mention(users[i]))
}

/// The text of a listener's copy: the announcement, then (unless pings are
/// suppressed) on a line of its own the mention of the guild's ping role if
/// one is set, and on further lines the mentions of the guild's whitelisted
/// users if the guild wants them pinged.
pub open spec fn message_with_pings(
    content: Seq<char>,
    config: ServerConfigComplete,
    origin_guild_id: GuildId,
    action_level: ActionLevel,
) -> Seq<char> {
    if pings_suppressed(origin_guild_id, config.server_config.guild_id, action_level) {
        content
    } else {
        let with_role = match config.server_config.ping_role {
            Some(role) => content + "\n"@ + role_mention(role),
            None => content,
        };
        if config.server_config.ping_users {
            with_role + "\n"@ + joined(user_mentions(config.users@), "\n"@)
        } else {
            with_role
        }
    }
}

/// Writes the text of a listener's copy of a broadcast.
pub fn get_message_with_pings(
    content: &str,
    config: &ServerConfigComplete,
    bad_actor: &BadActor,
    action_level: ActionLevel,
) -> (text: String)
    ensures
        text@ == message_with_pings(content@, *config, bad_actor.origin_guild_id, action_level),
{
    let mut text = String::from_str(content);
    if bad_actor.origin_guild_id == config.server_config.guild_id {
        return text;
    }
    if action_level != ActionLevel::Notify {
        return text;
    }
    match config.server_config.ping_role {
        Some(role) => {
            text.append("\n");
            push_role_mention(&mut text, role);
        },
        None => {},
    }
    if config.server_config.ping_users {
        let mut mentions: Vec<String> = Vec::new();
        let mut i: usize = 0;
        while i < config.users.len()
            invariant
                i <= config.users.len(),
                mentions.len() == i,
                forall|k: int|
                    0 <= k < i ==> (#[trigger] mentions[k])@ == user_mention(config.users[k]),
            decreases config.users.len() - i,
        {
            let mut mention = String::new();
            push_user_mention(&mut mention, config.users[i]);
            assert(mention@ =~= user_mention(config.users[i as int]));
            mentions.push(mention);
            i += 1;
        }
        assert(views(mentions@) =~= user_mentions(config.users@));
        let list = join(&mentions, "\n");
        text.append("\n");
        text.append(list.as_str());
    }
    assert(text@ =~= message_with_pings(
        content@,
        *config,
        bad_actor.origin_guild_id,
        action_level,
    ));
    text
}

/// Builds a listener's copy of a broadcast: the announcement with the
/// pings the listener is due, the shared embed and file, and the buttons
/// that the event and the listener's action level call for.
pub fn send_broadcast_message(options: SendBroadcastMessageOptions<'_>) -> (message: CreateMessage)
    ensures
        message.content@ == message_with_pings(
            options.broadcast_type.message_spec(),
            options.listener.config,
            options.bad_actor.origin_guild_id,
            moderation_action(
                options.broadcast_type,
                options.bad_actor.actor_type,
                options.listener.config.server_config,
            ),
        ),
        message.embed == options.embed,
        message.attachment == options.attachment,
        buttons_are(
            message.buttons@,
            broadcast_buttons(
                options.broadcast_type,
                moderation_action(
                    options.broadcast_type,
                    options.bad_actor.actor_type,
                    options.listener.config.server_config,
                ),
            ),
        ),
{
    let action_level = get_moderation_action(
        options.broadcast_type,
        options.bad_actor.actor_type,
        &options.listener.config.server_config,
    );
    let content = get_message_with_pings(
        options.broadcast_type.message(),
        &options.listener.config,
        options.bad_actor,
        action_level,
    );
    get_broadcast_message(
        content.as_str(),
        options.embed,
        options.attachment,
        action_level,
        options.broadcast_type,
    )
}

/// What goes to the operations log when a listener's copy could not be
/// sent.
pub open spec fn send_failure_text(listener: BroadcastListener) -> Seq<char> {
    "Failed to send broadcast embed to #"@ + listener.log_channel.name@ + " in "@ + display_spec(
        listener.config.guild.name_spec(),
        listener.config.guild.id_spec(),
    )
}

/// What goes to the operations log when a listener's copy could not be
/// sent.
pub fn send_failure_log(listener: &BroadcastListener) -> (text: String)
    ensures
        text@ == send_failure_text(*listener),
{
    let mut text = String::new();
    text.append("Failed to send broadcast embed to #");
    text.append(listener.log_channel.name.as_str());
    text.append(" in ");
    let guild = display(&listener.config.guild);
    text.append(guild.as_str());
    assert(text@ =~= send_failure_text(*listener));
    text
}

/// Ping suppression: the guild that filed the report is never pinged, and
/// neither is a guild that acts on the report by itself; such a guild gets
/// the bare announcement.
pub proof fn law_ping_suppression(
    content: Seq<char>,
    config: ServerConfigComplete,
    origin_guild_id: GuildId,
    action_level: ActionLevel,
)
    requires
        origin_guild_id == config.server_config.guild_id || action_level != ActionLevel::Notify,
    ensures
        message_with_pings(content, config, origin_guild_id, action_level) == content,
{
}

} // verus!
