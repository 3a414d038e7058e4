use janitor::fanout::admin::{broadcast_admin_server, BroadcastAdminServerOptions};
use janitor::fanout::broadcast_handler::{
    broadcast, broadcast_log_level, broadcast_log_message, broadcast_start, get_broadcast_message,
    get_broadcast_message_no_buttons, get_embed_colour, notify_user_message, BroadcastLog,
    BroadcastStage, BroadcastType, CreateMessage,
};
use janitor::fanout::listener::{
    get_valid_listeners, get_valid_logchannel, skip_warning, BroadcastListener, ListenerCandidate,
    ListenerError, SkippedGuild,
};
use janitor::fanout::moderate::{moderate, ModerateOptions, Moderation};
use janitor::fanout::send::{
    get_message_with_pings, send_broadcast_message, send_failure_log, SendBroadcastMessageOptions,
};
use janitor::fanout::webhooks::{
    broadcast_to_webhooks, connect_failure_log, execute_failure_log, get_discord_webhooks,
    BroadcastWebhook, BroadcastWebhookOptions, DbBroadcastWebhook, WebhookError,
    WebhookListenerResult,
};
use janitor::database::badactor_model_controller::{BadActor, BadActorType, BroadcastEmbedOptions};
use janitor::database::serverconfig_model_controller::{
    ActionLevel, ServerConfig, ServerConfigComplete,
};
use janitor::moderation::interaction::CustomId;
use janitor::util::config::Config;
use janitor::util::discord::{
    Channel, ChannelType, GuildChannel, PartialGuild, SnowflakeError, User,
};
use janitor::util::embeds::{CreateAttachment, Embed, EmbedColor};
use janitor::util::logger::LogLevel;

const ALL_TYPES: [BroadcastType; 6] = [
    BroadcastType::Report,
    BroadcastType::Deactivate,
    BroadcastType::AddScreenshot,
    BroadcastType::ReplaceScreenshot,
    BroadcastType::UpdateExplanation,
    BroadcastType::Honeypot,
];

const ALL_LEVELS: [ActionLevel; 5] = [
    ActionLevel::Notify,
    ActionLevel::Timeout,
    ActionLevel::Kick,
    ActionLevel::SoftBan,
    ActionLevel::Ban,
];

fn user(id: u64, name: &str) -> User {
    User { id, name: name.to_string(), global_name: None, avatar_url: format!("https://cdn/{id}.png") }
}

fn actor(origin: u64) -> BadActor {
    BadActor {
        id: 42,
        user_id: 5,
        is_active: true,
        actor_type: BadActorType::Spam,
        origin_guild_id: origin,
        screenshot_proof: None,
        explanation: Some("spams".to_string()),
        created_at: 0,
        updated_at: 0,
        updated_by_user_id: 6,
    }
}

fn config(guild: u64, level: ActionLevel) -> ServerConfig {
    ServerConfig {
        guild_id: guild,
        log_channel_id: Some(guild * 100),
        ping_users: true,
        ping_role: Some(guild * 10),
        honeypot_channel_id: None,
        spam_action_level: level,
        impersonation_action_level: ActionLevel::Notify,
        bigotry_action_level: ActionLevel::Notify,
        honeypot_action_level: ActionLevel::Notify,
        ignored_roles: vec![],
        created_at: 0,
        updated_at: 0,
        ban_reason: None,
        honeypot_timeout_minutes: 0,
    }
}

fn complete(guild: u64, level: ActionLevel, users: Vec<u64>) -> ServerConfigComplete {
    ServerConfigComplete {
        guild: PartialGuild { id: guild, name: format!("Guild {guild}") },
        server_config: config(guild, level),
        users,
    }
}

fn channel(guild: u64, kind: ChannelType) -> GuildChannel {
    GuildChannel { id: guild * 100, guild_id: guild, name: "log".to_string(), kind }
}

fn listener(guild: u64, level: ActionLevel, users: Vec<u64>) -> BroadcastListener {
    BroadcastListener { config: complete(guild, level, users), log_channel: channel(guild, ChannelType::Text) }
}

fn embed(title: &str) -> Embed {
    Embed {
        title: Some(title.to_string()),
        description: None,
        colour: None,
        fields: vec![],
        thumbnail: None,
        image: None,
        footer: None,
        author: None,
    }
}

fn button_ids(message: &CreateMessage) -> Vec<(CustomId, &'static str)> {
    message.buttons.iter().map(|b| (b.custom_id, b.label)).collect()
}

#[test]
fn announcements() {
    assert_eq!(BroadcastType::Report.message(), "A bad actor has been reported.");
    assert_eq!(BroadcastType::Deactivate.message(), "A bad actor has been deactivated.");
    assert_eq!(
        BroadcastType::AddScreenshot.message(),
        "A screenshot proof has been added to a bad actor entry."
    );
    assert_eq!(
        BroadcastType::UpdateExplanation.message(),
        "The explanation for a bad actor has been updated."
    );
    assert_eq!(
        BroadcastType::ReplaceScreenshot.message(),
        "A screenshot has been replaced for a bad actor."
    );
    assert_eq!(BroadcastType::Honeypot.message(), "A bad actor was caught by the honeypot.");
}

#[test]
fn new_reports_are_reports_and_honeypot_catches() {
    for broadcast_type in ALL_TYPES {
        assert_eq!(
            broadcast_type.is_new_report(),
            matches!(broadcast_type, BroadcastType::Report | BroadcastType::Honeypot)
        );
    }
}

#[test]
fn embed_colours() {
    assert_eq!(get_embed_colour(BroadcastType::Report), EmbedColor::Red);
    assert_eq!(get_embed_colour(BroadcastType::Deactivate), EmbedColor::Green);
    assert_eq!(get_embed_colour(BroadcastType::AddScreenshot), EmbedColor::Yellow);
    assert_eq!(get_embed_colour(BroadcastType::ReplaceScreenshot), EmbedColor::Orange);
    assert_eq!(get_embed_colour(BroadcastType::UpdateExplanation), EmbedColor::Orange);
    assert_eq!(get_embed_colour(BroadcastType::Honeypot), EmbedColor::DeepPink);
}

#[test]
fn buttons_follow_the_event_and_the_action_level() {
    for broadcast_type in ALL_TYPES {
        for level in ALL_LEVELS {
            let message = get_broadcast_message(
                "text",
                embed("e"),
                Some(CreateAttachment { filename: "shot.png".to_string() }),
                level,
                broadcast_type,
            );
            assert_eq!(message.content, "text");
            assert_eq!(message.embed.title.as_deref(), Some("e"));
            assert_eq!(message.attachment.unwrap().filename, "shot.png");
            let buttons: Vec<_> = message.buttons.iter().map(|b| (b.custom_id, b.label)).collect();
            if broadcast_type.is_new_report() && level == ActionLevel::Notify {
                assert_eq!(
                    buttons,
                    vec![(CustomId::Ban, "Ban"), (CustomId::SoftBan, "Softban"), (CustomId::Kick, "Kick")]
                );
            } else if broadcast_type == BroadcastType::Deactivate {
                assert_eq!(buttons, vec![(CustomId::Unban, "Unban")]);
            } else {
                assert!(buttons.is_empty());
            }
        }
    }
    let bare = get_broadcast_message_no_buttons("text", embed("e"), None);
    assert_eq!(bare.content, "text");
    assert!(bare.attachment.is_none());
    assert!(bare.buttons.is_empty());
}

#[test]
fn pings() {
    let c = complete(2, ActionLevel::Notify, vec![7, 8]);
    assert_eq!(
        get_message_with_pings("Hello.", &c, &actor(1), ActionLevel::Notify),
        "Hello.\n<@&20>\n<@7>\n<@8>"
    );
    assert_eq!(get_message_with_pings("Hello.", &c, &actor(2), ActionLevel::Notify), "Hello.");
    for level in [ActionLevel::Timeout, ActionLevel::Kick, ActionLevel::SoftBan, ActionLevel::Ban] {
        assert_eq!(get_message_with_pings("Hello.", &c, &actor(1), level), "Hello.");
    }

    let mut no_role = complete(2, ActionLevel::Notify, vec![7]);
    no_role.server_config.ping_role = None;
    assert_eq!(get_message_with_pings("Hello.", &no_role, &actor(1), ActionLevel::Notify), "Hello.\n<@7>");

    let mut no_users = complete(2, ActionLevel::Notify, vec![7]);
    no_users.server_config.ping_users = false;
    assert_eq!(get_message_with_pings("Hello.", &no_users, &actor(1), ActionLevel::Notify), "Hello.\n<@&20>");

    let nobody = complete(2, ActionLevel::Notify, vec![]);
    assert_eq!(get_message_with_pings("Hello.", &nobody, &actor(1), ActionLevel::Notify), "Hello.\n<@&20>\n");

    no_users.server_config.ping_role = None;
    assert_eq!(get_message_with_pings("Hello.", &no_users, &actor(1), ActionLevel::Notify), "Hello.");
}

#[test]
fn end_to_end_report() {
    let bad_actor = actor(1);
    let target = user(5, "eve");
    let reporter = user(6, "mod");
    let bot = user(9, "Janitor");
    let g1 = listener(1, ActionLevel::Notify, vec![7]);
    let g2 = listener(2, ActionLevel::Ban, vec![8]);
    let broadcast_type = BroadcastType::Report;

    // The stages: listeners, embed, admin server, direct message, fan-out.
    let mut stage = broadcast_start();
    let mut seen = vec![stage];
    while stage != BroadcastStage::Done {
        let step = broadcast(stage, broadcast_type, true);
        assert_eq!(step.log, BroadcastLog::Quiet);
        stage = step.next;
        seen.push(stage);
    }
    assert_eq!(
        seen,
        vec![
            BroadcastStage::ResolveListeners,
            BroadcastStage::BuildEmbed,
            BroadcastStage::SendAdmin,
            BroadcastStage::NotifyUser,
            BroadcastStage::FanOut,
            BroadcastStage::Done,
        ]
    );

    let build = || {
        bad_actor
            .to_broadcast_embed(
                BroadcastEmbedOptions {
                    origin_guild_id: 1,
                    origin_guild: Some(PartialGuild { id: 1, name: "Guild 1".to_string() }),
                    report_author: &reporter,
                    target_user: Some(&target),
                    bot_user: Some(&bot),
                    attachment: None,
                },
                get_embed_colour(broadcast_type),
            )
            .0
    };
    let shared = build();
    assert_eq!(shared.title.as_deref(), Some("eve (`5`)"));
    assert_eq!(shared.colour, Some(0xFF0000));

    // The admin server receives the same embed, without buttons or pings.
    let settings = Config {
        bot_token: "SECRET-REDACTED".to_string(),
        database_url: String::new(),
        admins_server_id: 50,
        admin_server_log_channel: 51,
        admin_server_error_log_channel: 52,
    };
    let (admin_channel, admin_message) = broadcast_admin_server(BroadcastAdminServerOptions {
        config: &settings,
        embed: build(),
        attachment: None,
        broadcast_type,
    });
    assert_eq!(admin_channel, 51);
    assert_eq!(admin_message.content, "A bad actor has been reported.");
    assert_eq!(admin_message.embed.title, shared.title);
    assert!(admin_message.buttons.is_empty());

    // The reported account is told in a direct message.
    assert!(notify_user_message().starts_with("It appears your account has been compromised"));

    // G1, the guild of origin, only wants notice: buttons, no ping, no action.
    let to_g1 = send_broadcast_message(SendBroadcastMessageOptions {
        broadcast_type,
        listener: &g1,
        bad_actor: &bad_actor,
        embed: build(),
        attachment: None,
    });
    assert_eq!(to_g1.content, "A bad actor has been reported.");
    assert_eq!(to_g1.embed.title, shared.title);
    assert_eq!(
        button_ids(&to_g1),
        vec![(CustomId::Ban, "Ban"), (CustomId::SoftBan, "Softban"), (CustomId::Kick, "Kick")]
    );
    let in_g1 = moderate(
        ModerateOptions { broadcast_type, listener: &g1, bad_actor: &bad_actor, target_user: &target },
        None,
    );
    assert!(matches!(in_g1, Moderation::NoAction));

    // G2 bans by itself, member or not: no buttons, no ping.
    let to_g2 = send_broadcast_message(SendBroadcastMessageOptions {
        broadcast_type,
        listener: &g2,
        bad_actor: &bad_actor,
        embed: build(),
        attachment: None,
    });
    assert_eq!(to_g2.content, "A bad actor has been reported.");
    assert!(to_g2.buttons.is_empty());
    let in_g2 = moderate(
        ModerateOptions { broadcast_type, listener: &g2, bad_actor: &bad_actor, target_user: &target },
        None,
    );
    match &in_g2 {
        Moderation::Ban { reason } => assert_eq!(reason, "Bad Actor spam (42)"),
        other => panic!("{:?}", other),
    }
    let report = janitor::fanout::moderate::log_moderation_result(&in_g2, true, &target, &g2.config.guild);
    assert_eq!(report.guild_message.as_deref(), Some("User eve (`5`) was banned from your server!"));
    assert_eq!(report.log, None);
}

#[test]
fn a_third_guild_is_pinged() {
    let bad_actor = actor(1);
    let g3 = listener(3, ActionLevel::Notify, vec![8, 9]);
    let message = send_broadcast_message(SendBroadcastMessageOptions {
        broadcast_type: BroadcastType::Report,
        listener: &g3,
        bad_actor: &bad_actor,
        embed: embed("e"),
        attachment: None,
    });
    assert_eq!(message.content, "A bad actor has been reported.\n<@&30>\n<@8>\n<@9>");
    assert_eq!(message.buttons.len(), 3);
    assert_eq!(send_failure_log(&g3), "Failed to send broadcast embed to #log in Guild 3 (3)");
}

#[test]
fn a_deactivation_offers_to_unban() {
    let bad_actor = actor(1);
    let g2 = listener(2, ActionLevel::Ban, vec![8]);
    let message = send_broadcast_message(SendBroadcastMessageOptions {
        broadcast_type: BroadcastType::Deactivate,
        listener: &g2,
        bad_actor: &bad_actor,
        embed: embed("e"),
        attachment: None,
    });
    assert_eq!(message.content, "A bad actor has been deactivated.\n<@&20>\n<@8>");
    assert_eq!(button_ids(&message), vec![(CustomId::Unban, "Unban")]);
}

#[test]
fn stages_of_a_broadcast() {
    for broadcast_type in ALL_TYPES {
        assert_eq!(broadcast(BroadcastStage::ResolveListeners, broadcast_type, true).next, BroadcastStage::BuildEmbed);
        let failed = broadcast(BroadcastStage::ResolveListeners, broadcast_type, false);
        assert_eq!((failed.next, failed.log), (BroadcastStage::Done, BroadcastLog::ListenersFailed));
        assert_eq!(broadcast(BroadcastStage::BuildEmbed, broadcast_type, true).next, BroadcastStage::SendAdmin);
        let failed = broadcast(BroadcastStage::BuildEmbed, broadcast_type, false);
        assert_eq!((failed.next, failed.log), (BroadcastStage::Done, BroadcastLog::EmbedFailed));
        let after_admin = if broadcast_type.is_new_report() { BroadcastStage::NotifyUser } else { BroadcastStage::FanOut };
        assert_eq!(broadcast(BroadcastStage::SendAdmin, broadcast_type, true).next, after_admin);
        let failed = broadcast(BroadcastStage::SendAdmin, broadcast_type, false);
        assert_eq!((failed.next, failed.log), (after_admin, BroadcastLog::AdminFailed));
        let failed = broadcast(BroadcastStage::NotifyUser, broadcast_type, false);
        assert_eq!((failed.next, failed.log), (BroadcastStage::FanOut, BroadcastLog::NotifyFailed));
        assert_eq!(broadcast(BroadcastStage::NotifyUser, broadcast_type, true).next, BroadcastStage::FanOut);
        assert_eq!(broadcast(BroadcastStage::FanOut, broadcast_type, false).next, BroadcastStage::Done);
        assert_eq!(broadcast(BroadcastStage::FanOut, broadcast_type, false).log, BroadcastLog::Quiet);
        assert_eq!(broadcast(BroadcastStage::Done, broadcast_type, true).next, BroadcastStage::Done);
    }
}

#[test]
fn broadcast_logs() {
    let target = user(5, "eve");
    assert_eq!(broadcast_log_message(BroadcastLog::Quiet, &target), None);
    assert_eq!(
        broadcast_log_message(BroadcastLog::ListenersFailed, &target).as_deref(),
        Some("Failed to get valid listeners from the database")
    );
    assert_eq!(
        broadcast_log_message(BroadcastLog::AdminFailed, &target).as_deref(),
        Some("Failed to broadcast to admin server log channel")
    );
    assert_eq!(
        broadcast_log_message(BroadcastLog::NotifyFailed, &target).as_deref(),
        Some("Failed to inform eve (5) about the moderation actions in DM")
    );
    assert!(broadcast_log_message(BroadcastLog::EmbedFailed, &target).is_some());
    assert_eq!(broadcast_log_level(BroadcastLog::Quiet), None);
    assert_eq!(broadcast_log_level(BroadcastLog::NotifyFailed), Some(LogLevel::Warn));
    assert_eq!(broadcast_log_level(BroadcastLog::ListenersFailed), Some(LogLevel::Error));
    assert_eq!(broadcast_log_level(BroadcastLog::EmbedFailed), Some(LogLevel::Error));
    assert_eq!(broadcast_log_level(BroadcastLog::AdminFailed), Some(LogLevel::Error));
}

#[test]
fn log_channels_are_validated() {
    let c = config(2, ActionLevel::Notify);
    let ok = get_valid_logchannel(&c, Some(Channel::Guild(channel(2, ChannelType::Text))));
    assert_eq!(ok.unwrap().id, 200);
    let voice = get_valid_logchannel(&c, Some(Channel::Guild(channel(2, ChannelType::Voice))));
    assert!(voice.is_ok());
    assert_eq!(get_valid_logchannel(&c, None).unwrap_err(), ListenerError::CannotGetLogChannel);
    assert_eq!(
        get_valid_logchannel(&c, Some(Channel::Private)).unwrap_err(),
        ListenerError::NotGuildChannel
    );
    assert_eq!(
        get_valid_logchannel(&c, Some(Channel::Guild(channel(2, ChannelType::Forum)))).unwrap_err(),
        ListenerError::NotTextChannel
    );
    let other = GuildChannel { id: 201, ..channel(2, ChannelType::Text) };
    assert_eq!(
        get_valid_logchannel(&c, Some(Channel::Guild(other))).unwrap_err(),
        ListenerError::CannotGetLogChannel
    );
    let mut unset = config(2, ActionLevel::Notify);
    unset.log_channel_id = None;
    assert_eq!(
        get_valid_logchannel(&unset, Some(Channel::Guild(channel(2, ChannelType::Text)))).unwrap_err(),
        ListenerError::NoLogChannel
    );
}

#[test]
fn one_bad_guild_does_not_stop_the_registry() {
    let candidates = vec![
        ListenerCandidate {
            guild_id: 1,
            config: Ok(complete(1, ActionLevel::Notify, vec![])),
            log_channel: Some(channel(1, ChannelType::Text)),
        },
        ListenerCandidate { guild_id: 2, config: Err(ListenerError::NoLogChannel), log_channel: None },
        ListenerCandidate {
            guild_id: 3,
            config: Err(ListenerError::UpgradeFailed),
            log_channel: Some(channel(3, ChannelType::Text)),
        },
        ListenerCandidate { guild_id: 4, config: Ok(complete(4, ActionLevel::Ban, vec![])), log_channel: None },
        ListenerCandidate {
            guild_id: 5,
            config: Ok(complete(5, ActionLevel::Ban, vec![])),
            log_channel: Some(channel(5, ChannelType::News)),
        },
    ];
    let registry = get_valid_listeners(candidates);
    assert_eq!(registry.listeners.iter().map(|l| l.config.guild.id).collect::<Vec<_>>(), vec![1, 5]);
    assert_eq!(registry.listeners[1].log_channel.id, 500);
    assert_eq!(
        registry.skipped,
        vec![
            SkippedGuild { guild_id: 2, reason: ListenerError::NoLogChannel },
            SkippedGuild { guild_id: 3, reason: ListenerError::UpgradeFailed },
            SkippedGuild { guild_id: 4, reason: ListenerError::NoLogChannel },
        ]
    );
    assert_eq!(registry.listeners.len() + registry.skipped.len(), 5);
    assert!(get_valid_listeners(vec![]).listeners.is_empty());
}

#[test]
fn candidates_are_put_together() {
    let valid = ListenerCandidate::new(
        2,
        Ok(channel(2, ChannelType::Text)),
        Some(complete(2, ActionLevel::Ban, vec![])),
    );
    assert_eq!(valid.guild_id, 2);
    assert!(valid.config.is_ok());
    assert_eq!(valid.log_channel.as_ref().map(|c| c.id), Some(200));

    let incomplete = ListenerCandidate::new(3, Ok(channel(3, ChannelType::Text)), None);
    assert_eq!(incomplete.config.as_ref().unwrap_err(), &ListenerError::UpgradeFailed);
    assert!(incomplete.log_channel.is_some());

    let invalid = ListenerCandidate::new(
        4,
        Err(ListenerError::NotTextChannel),
        Some(complete(4, ActionLevel::Ban, vec![])),
    );
    assert_eq!(invalid.config.as_ref().unwrap_err(), &ListenerError::NotTextChannel);
    assert!(invalid.log_channel.is_none());

    let registry = get_valid_listeners(vec![valid, incomplete, invalid]);
    assert_eq!(registry.listeners.len(), 1);
    assert_eq!(registry.listeners[0].log_channel.id, 200);
    assert_eq!(
        registry.skipped,
        vec![
            SkippedGuild { guild_id: 3, reason: ListenerError::UpgradeFailed },
            SkippedGuild { guild_id: 4, reason: ListenerError::NotTextChannel },
        ]
    );
}

#[test]
fn skip_warnings() {
    let warn = |reason| skip_warning(&SkippedGuild { guild_id: 2, reason });
    assert_eq!(
        warn(ListenerError::NoLogChannel),
        "Skipping guild 2 for broadcasting: There is no log channel defined for 2"
    );
    assert_eq!(
        warn(ListenerError::CannotGetLogChannel),
        "Skipping guild 2 for broadcasting: Cannot get log channel for 2"
    );
    assert_eq!(
        warn(ListenerError::NotGuildChannel),
        "Skipping guild 2 for broadcasting: Log channel for 2 is not a guild channel"
    );
    assert_eq!(
        warn(ListenerError::NotTextChannel),
        "Skipping guild 2 for broadcasting: Log channel for 2 is not a text channel"
    );
    assert_eq!(
        warn(ListenerError::UpgradeFailed),
        "Skipping guild 2 for broadcasting: Failed to upgrade server config for 2"
    );
}

fn row(guild_id: &str, url: &str) -> DbBroadcastWebhook {
    DbBroadcastWebhook {
        guild_id: guild_id.to_string(),
        guild_name: "Guild".to_string(),
        webhook_url: url.to_string(),
    }
}

#[test]
fn stored_webhooks_need_a_guild_and_an_address() {
    let webhook =
        BroadcastWebhook::try_from(row("2", "HTTPS://Discord.com:443/api/webhooks/1/abc")).unwrap();
    assert_eq!(webhook.guild_id, 2);
    assert_eq!(webhook.guild_name, "Guild");
    assert_eq!(webhook.webhook_url, "https://discord.com/api/webhooks/1/abc");

    assert_eq!(
        BroadcastWebhook::try_from(row("0", "https://discord.com/")).unwrap_err(),
        WebhookError::InvalidGuildId(SnowflakeError::Zero)
    );
    assert_eq!(
        BroadcastWebhook::try_from(row("x", "not a url")).unwrap_err(),
        WebhookError::InvalidGuildId(SnowflakeError::InvalidDigit)
    );
    assert_eq!(BroadcastWebhook::try_from(row("2", "not a url")).unwrap_err(), WebhookError::InvalidUrl);
    assert_eq!(BroadcastWebhook::try_from(row("2", "/relative")).unwrap_err(), WebhookError::InvalidUrl);
}

#[test]
fn a_webhook_is_read_from_its_row_and_its_parsed_address() {
    let webhook =
        BroadcastWebhook::from_row(row("2", "ignored"), Some("https://discord.com/x".to_string())).unwrap();
    assert_eq!(webhook.webhook_url, "https://discord.com/x");
    assert_eq!(BroadcastWebhook::from_row(row("2", "u"), None).unwrap_err(), WebhookError::InvalidUrl);
    assert_eq!(
        BroadcastWebhook::from_row(row("", "u"), None).unwrap_err(),
        WebhookError::InvalidGuildId(SnowflakeError::Empty)
    );
}

#[test]
fn failed_webhooks_are_set_aside() {
    let results = vec![
        WebhookListenerResult { guild_id: 1, guild_name: "A".to_string(), webhook: Ok("handle a") },
        WebhookListenerResult { guild_id: 2, guild_name: "B".to_string(), webhook: Err("404".to_string()) },
        WebhookListenerResult { guild_id: 3, guild_name: "C".to_string(), webhook: Ok("handle c") },
    ];
    let sorted = get_discord_webhooks(results);
    assert_eq!(
        sorted.good_webhooks.iter().map(|w| (w.guild_id, w.guild_name.as_str(), w.webhook)).collect::<Vec<_>>(),
        vec![(1, "A", "handle a"), (3, "C", "handle c")]
    );
    assert_eq!(sorted.failures.len(), 1);
    assert_eq!(sorted.failures[0].guild_id, 2);
    assert_eq!(sorted.failures[0].error, "404");
    assert_eq!(
        connect_failure_log(&sorted.failures[0], None),
        "Failed to connect to webhook in guild B (2)"
    );
    assert_eq!(
        connect_failure_log(&sorted.failures[0], Some(&PartialGuild { id: 2, name: "Bee".to_string() })),
        "Failed to connect to webhook in guild Bee (2)"
    );
    assert_eq!(execute_failure_log("A", 1), "Failed to send broadcast embed to webhook in guild A (1)");
}

#[test]
fn webhooks_get_the_bare_announcement() {
    let message = broadcast_to_webhooks(BroadcastWebhookOptions {
        broadcast_type: BroadcastType::Honeypot,
        embed: embed("e"),
        attachment: Some(CreateAttachment { filename: "shot.png".to_string() }),
    });
    assert_eq!(message.content, "A bad actor was caught by the honeypot.");
    assert_eq!(message.embed.title.as_deref(), Some("e"));
    assert_eq!(message.attachment.unwrap().filename, "shot.png");
    assert!(message.buttons.is_empty());
}
