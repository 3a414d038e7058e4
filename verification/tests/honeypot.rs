use janitor::honeypot::channels::{populate_honeypot_channels, HoneypotChannels};
use janitor::honeypot::message::{
    get_log_channel, get_msg_deleted_embed, handle_message, has_active_case, is_watched,
    maybe_report_bad_actor, remove_old_messages, should_report, timeout_failure_log,
    timeout_honeypot_trolls, timeout_message, HoneypotMessage, HoneypotTimeout,
    MaybeReportBadActorOptions, REPORT_CHANNELS, WINDOW_NANOS,
};
use janitor::database::badactor_model_controller::BadActorType;
use janitor::database::serverconfig_model_controller::{ActionLevel, ServerConfig};
use janitor::util::discord::{Channel, ChannelType, GuildChannel, SnowflakeError, User};

const SECOND: u64 = 1_000_000_000;

fn msg(user: u64, channel: u64, content: &str, at: u64, honeypot: bool) -> HoneypotMessage {
    HoneypotMessage {
        guild_id: 1,
        user_id: user,
        channel_id: channel,
        content: content.to_string(),
        timestamp: at,
        is_in_honeypot: honeypot,
    }
}

fn config(guild: u64, log_channel: Option<u64>, minutes: i64) -> ServerConfig {
    ServerConfig {
        guild_id: guild,
        log_channel_id: log_channel,
        ping_users: false,
        ping_role: None,
        honeypot_channel_id: None,
        spam_action_level: ActionLevel::Notify,
        impersonation_action_level: ActionLevel::Notify,
        bigotry_action_level: ActionLevel::Notify,
        honeypot_action_level: ActionLevel::Notify,
        ignored_roles: vec![],
        created_at: 0,
        updated_at: 0,
        ban_reason: None,
        honeypot_timeout_minutes: minutes,
    }
}

fn user(id: u64, name: &str) -> User {
    User { id, name: name.to_string(), global_name: None, avatar_url: format!("https://cdn/{id}.png") }
}

#[test]
fn the_window_is_sixty_seconds_and_three_channels() {
    assert_eq!(WINDOW_NANOS, 60 * SECOND);
    assert_eq!(REPORT_CHANNELS, 3);
}

#[test]
fn third_channel_with_a_honeypot_copy_is_reported() {
    let queue = vec![msg(7, 10, "buy now", 0, true), msg(7, 11, "buy now", SECOND, false)];
    assert!(should_report(&queue, &msg(7, 12, "buy now", 2 * SECOND, false)));
}

#[test]
fn third_channel_without_any_honeypot_copy_is_not_reported() {
    let queue = vec![msg(7, 10, "buy now", 0, false), msg(7, 11, "buy now", SECOND, false)];
    assert!(!should_report(&queue, &msg(7, 12, "buy now", 2 * SECOND, false)));
}

#[test]
fn two_channels_are_never_enough() {
    let queue = vec![msg(7, 10, "buy now", 0, true), msg(7, 10, "buy now", SECOND, true)];
    assert!(!should_report(&queue, &msg(7, 11, "buy now", 2 * SECOND, true)));
    assert!(!should_report(&queue, &msg(7, 10, "buy now", 2 * SECOND, false)));
    assert!(!should_report(&vec![], &msg(7, 10, "buy now", 0, true)));
}

#[test]
fn the_new_message_may_be_the_honeypot_copy() {
    let queue = vec![msg(7, 10, "buy now", 0, false), msg(7, 11, "buy now", SECOND, false)];
    assert!(should_report(&queue, &msg(7, 12, "buy now", 2 * SECOND, true)));
}

#[test]
fn other_users_and_other_texts_do_not_count() {
    let queue = vec![
        msg(8, 10, "buy now", 0, true),
        msg(7, 11, "buy now!", SECOND, true),
        msg(7, 13, "buy now", SECOND, false),
    ];
    assert!(!should_report(&queue, &msg(7, 12, "buy now", 2 * SECOND, false)));
}

#[test]
fn a_honeypot_copy_in_a_channel_seen_before_still_counts() {
    let queue = vec![
        msg(7, 10, "buy now", 0, false),
        msg(7, 10, "buy now", 1, true),
        msg(7, 11, "buy now", 2, false),
    ];
    assert!(should_report(&queue, &msg(7, 12, "buy now", 3, false)));
}

#[test]
fn old_messages_leave_and_honeypot_ones_are_handed_back() {
    let mut queue = vec![
        msg(1, 10, "a", 0, true),
        msg(2, 11, "b", 5 * SECOND, false),
        msg(3, 12, "c", 10 * SECOND, true),
        msg(4, 13, "d", 30 * SECOND, true),
    ];
    let expired = remove_old_messages(&mut queue, 71 * SECOND);
    assert_eq!(queue.len(), 1);
    assert_eq!(queue[0].user_id, 4);
    assert_eq!(expired.iter().map(|m| m.user_id).collect::<Vec<_>>(), vec![1, 3]);
}

#[test]
fn a_message_of_exactly_sixty_seconds_stays() {
    let mut queue = vec![msg(1, 10, "a", 0, true), msg(2, 10, "b", 1, true)];
    let expired = remove_old_messages(&mut queue, 60 * SECOND);
    assert!(expired.is_empty());
    assert_eq!(queue.len(), 2);
    assert_eq!(queue[0].user_id, 1);
}

#[test]
fn a_message_older_than_sixty_seconds_leaves() {
    let mut queue = vec![msg(1, 10, "a", 0, true), msg(2, 10, "b", 1, true)];
    let expired = remove_old_messages(&mut queue, 60 * SECOND + 1);
    assert_eq!(expired.len(), 1);
    assert_eq!(expired[0].user_id, 1);
    assert_eq!(queue.len(), 1);
    assert_eq!(queue[0].user_id, 2);
}

#[test]
fn a_copy_of_exactly_sixty_seconds_still_counts() {
    let mut queue = vec![msg(7, 10, "buy now", 0, true), msg(7, 11, "buy now", SECOND, false)];
    let verdict = handle_message(&mut queue, msg(7, 12, "buy now", 60 * SECOND, false));
    assert!(verdict.should_report);
    assert!(verdict.expired_honeypot_messages.is_empty());
    assert_eq!(queue.len(), 3);
}

#[test]
fn eviction_stops_at_the_first_fresh_message() {
    let mut queue = vec![msg(1, 10, "a", 100 * SECOND, true), msg(2, 10, "b", 0, true)];
    let expired = remove_old_messages(&mut queue, 100 * SECOND);
    assert!(expired.is_empty());
    assert_eq!(queue.len(), 2);
}

#[test]
fn a_clock_reading_before_the_message_counts_as_age_zero() {
    let mut queue = vec![msg(1, 10, "a", 100 * SECOND, true)];
    let expired = remove_old_messages(&mut queue, 0);
    assert!(expired.is_empty());
    assert_eq!(queue.len(), 1);
}

#[test]
fn an_evicted_message_is_out_of_the_scan() {
    let mut queue = vec![msg(7, 10, "buy now", 0, true), msg(7, 11, "buy now", 30 * SECOND, false)];
    let verdict = handle_message(&mut queue, msg(7, 12, "buy now", 61 * SECOND, false));
    assert!(!verdict.should_report);
    assert_eq!(verdict.expired_honeypot_messages.len(), 1);
    assert_eq!(verdict.expired_honeypot_messages[0].channel_id, 10);
    assert_eq!(queue.iter().map(|m| m.channel_id).collect::<Vec<_>>(), vec![11, 12]);
}

#[test]
fn an_evicted_message_outside_a_honeypot_is_not_handed_back() {
    let mut queue = vec![msg(7, 10, "x", 0, false)];
    let verdict = handle_message(&mut queue, msg(8, 12, "y", 61 * SECOND, false));
    assert!(verdict.expired_honeypot_messages.is_empty());
    assert_eq!(queue.len(), 1);
    assert_eq!(queue[0].user_id, 8);
}

#[test]
fn handling_reports_within_the_window() {
    let mut queue = Vec::new();
    assert!(!handle_message(&mut queue, msg(7, 10, "buy now", 0, true)).should_report);
    assert!(!handle_message(&mut queue, msg(7, 11, "buy now", SECOND, false)).should_report);
    let verdict = handle_message(&mut queue, msg(7, 12, "buy now", 2 * SECOND, false));
    assert!(verdict.should_report);
    assert!(verdict.expired_honeypot_messages.is_empty());
    assert_eq!(queue.len(), 3);
}

#[test]
fn only_guild_messages_of_others_are_watched() {
    assert!(is_watched(Some(1), 5, 9));
    assert!(!is_watched(None, 5, 9));
    assert!(!is_watched(Some(1), 9, 9));
}

#[test]
fn a_report_is_filed_once_per_active_case() {
    let options =
        MaybeReportBadActorOptions { should_report: true, target_user_id: 5, origin_guild_id: 1, bot_id: 9 };
    let report = maybe_report_bad_actor(options, false).unwrap();
    assert_eq!(report.user_id, 5);
    assert_eq!(report.actor_type, BadActorType::Honeypot);
    assert_eq!(report.screenshot_proof, None);
    assert_eq!(report.explanation.as_deref(), Some("reached into the honeypot"));
    assert_eq!(report.origin_guild_id, 1);
    assert_eq!(report.updated_by_user_id, 9);
    assert!(maybe_report_bad_actor(options, true).is_none());
    let quiet = MaybeReportBadActorOptions { should_report: false, ..options };
    assert!(maybe_report_bad_actor(quiet, false).is_none());
    assert_eq!(
        has_active_case(&user(5, "eve")),
        "User eve (5) reached into a honeypot but already has an active case. Skipping report."
    );
}

#[test]
fn honeypot_posters_are_timed_out_where_the_guild_wants_it() {
    let mut in_two = msg(6, 10, "b", 0, true);
    in_two.guild_id = 2;
    let mut in_three = msg(7, 10, "c", 0, true);
    in_three.guild_id = 3;
    let mut in_four = msg(8, 10, "d", 0, true);
    in_four.guild_id = 4;
    let messages = vec![msg(5, 10, "a", 0, true), in_two, in_three, in_four];
    let configs = vec![
        config(1, Some(100), 30),
        config(2, Some(200), 0),
        config(3, None, 15),
        config(1, Some(999), 99),
    ];
    assert_eq!(
        timeout_honeypot_trolls(&messages, &configs),
        vec![HoneypotTimeout { guild_id: 1, user_id: 5, log_channel_id: 100, minutes: 30 }]
    );
    assert!(timeout_honeypot_trolls(&vec![], &configs).is_empty());
}

#[test]
fn timeout_texts() {
    assert_eq!(
        timeout_message(&user(5, "e_ve"), 30, 1700000000),
        "User e\\_ve (`5`) was timed out for `30` minutes due to posting in the honeypot channel.\nTimeout end: <t:1700000000:D>\n<t:1700000000:R>"
    );
    assert_eq!(
        timeout_failure_log(&user(5, "eve"), "Guild (`1`)"),
        "Failed to timeout user eve (5) in guild Guild (`1`) after they posted a message into the honeypot channel"
    );
}

#[test]
fn the_log_channel_must_take_messages() {
    let text = || Channel::Guild(GuildChannel { id: 100, guild_id: 1, name: "log".into(), kind: ChannelType::Text });
    let category =
        Channel::Guild(GuildChannel { id: 100, guild_id: 1, name: "log".into(), kind: ChannelType::Category });
    assert_eq!(get_log_channel(Some(&config(1, Some(100), 0)), Some(text())).unwrap().id, 100);
    assert!(get_log_channel(Some(&config(1, None, 0)), Some(text())).is_none());
    assert!(get_log_channel(None, Some(text())).is_none());
    assert!(get_log_channel(Some(&config(1, Some(100), 0)), None).is_none());
    assert!(get_log_channel(Some(&config(1, Some(100), 0)), Some(Channel::Private)).is_none());
    assert!(get_log_channel(Some(&config(1, Some(100), 0)), Some(category)).is_none());
}

#[test]
fn the_deleted_message_embed_quotes_the_message() {
    let embed = get_msg_deleted_embed(&user(5, "eve"), "free *nitro*");
    assert_eq!(embed.title.as_deref(), Some("Honeypot message deleted"));
    assert_eq!(
        embed.description.as_deref(),
        Some("Janitor deleted a message from user eve (`5`) from the honeypot channel.\n\n```free \\*nitro\\*```")
    );
    assert_eq!(embed.colour, Some(0xFFA500));
    assert_eq!(embed.footer.unwrap().text, "Honeypot Log");
    let author = embed.author.unwrap();
    assert_eq!(author.name, "eve");
    assert_eq!(author.icon_url.as_deref(), Some("https://cdn/5.png"));
}

#[test]
fn honeypot_channels_are_replaced_by_what_is_stored() {
    let mut channels = HoneypotChannels::new();
    assert!(channels.insert(1));
    assert!(!channels.insert(1));
    assert!(channels.contains(1));
    let stored = vec![Some("10".to_string()), None, Some("11".to_string()), Some("10".to_string())];
    assert_eq!(populate_honeypot_channels(&mut channels, &stored), Ok(()));
    assert!(channels.contains(10));
    assert!(channels.contains(11));
    assert!(!channels.contains(1));
    assert!(!channels.contains(12));
    channels.clear();
    assert!(!channels.contains(10));
}

#[test]
fn a_bad_stored_channel_leaves_the_registry_alone() {
    let mut channels = HoneypotChannels::new();
    channels.insert(1);
    let stored = vec![Some("10".to_string()), Some("x".to_string()), Some("0".to_string())];
    assert_eq!(populate_honeypot_channels(&mut channels, &stored), Err(SnowflakeError::InvalidDigit));
    assert!(channels.contains(1));
    assert!(!channels.contains(10));
}
