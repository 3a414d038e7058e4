use janitor::fanout::broadcast_handler::BroadcastType;
use janitor::fanout::listener::BroadcastListener;
use janitor::fanout::moderate::{
    get_moderation_action, get_non_ignored_roles, log_moderation_result, moderate, needs_member,
    ModerateOptions, Moderation, BAN_DELETE_MESSAGE_DAYS, TIMEOUT_DAYS,
};
use janitor::database::badactor_model_controller::{BadActor, BadActorType};
use janitor::database::serverconfig_model_controller::{
    ActionLevel, ServerConfig, ServerConfigComplete,
};
use janitor::util::discord::{ChannelType, GuildChannel, Member, PartialGuild, User};

fn user(id: u64, name: &str) -> User {
    User { id, name: name.to_string(), global_name: None, avatar_url: String::new() }
}

fn actor(id: i32, actor_type: BadActorType) -> BadActor {
    BadActor {
        id,
        user_id: 5,
        is_active: true,
        actor_type,
        origin_guild_id: 1,
        screenshot_proof: None,
        explanation: None,
        created_at: 0,
        updated_at: 0,
        updated_by_user_id: 6,
    }
}

fn config(guild: u64, levels: [ActionLevel; 4]) -> ServerConfig {
    ServerConfig {
        guild_id: guild,
        log_channel_id: Some(100),
        ping_users: false,
        ping_role: None,
        honeypot_channel_id: None,
        spam_action_level: levels[0],
        impersonation_action_level: levels[1],
        bigotry_action_level: levels[2],
        honeypot_action_level: levels[3],
        ignored_roles: vec![],
        created_at: 0,
        updated_at: 0,
        ban_reason: None,
        honeypot_timeout_minutes: 0,
    }
}

fn listener(server_config: ServerConfig) -> BroadcastListener {
    BroadcastListener {
        config: ServerConfigComplete {
            guild: PartialGuild { id: server_config.guild_id, name: "Guild".to_string() },
            server_config,
            users: vec![],
        },
        log_channel: GuildChannel { id: 100, guild_id: 2, name: "log".to_string(), kind: ChannelType::Text },
    }
}

fn member(roles: Vec<u64>) -> Member {
    Member { user: user(5, "eve"), roles }
}

fn decide(level: ActionLevel, ignored: Vec<u64>, member: Option<&Member>) -> Moderation {
    let mut server_config = config(2, [level; 4]);
    server_config.ignored_roles = ignored;
    let listener = listener(server_config);
    let bad_actor = actor(42, BadActorType::Spam);
    let target = user(5, "eve");
    moderate(
        ModerateOptions {
            broadcast_type: BroadcastType::Report,
            listener: &listener,
            bad_actor: &bad_actor,
            target_user: &target,
        },
        member,
    )
}

const ALL_LEVELS: [ActionLevel; 5] = [
    ActionLevel::Notify,
    ActionLevel::Timeout,
    ActionLevel::Kick,
    ActionLevel::SoftBan,
    ActionLevel::Ban,
];

#[test]
fn the_action_level_is_read_from_the_category() {
    let c = config(
        2,
        [ActionLevel::Timeout, ActionLevel::Kick, ActionLevel::SoftBan, ActionLevel::Ban],
    );
    assert_eq!(get_moderation_action(BroadcastType::Report, BadActorType::Spam, &c), ActionLevel::Timeout);
    assert_eq!(
        get_moderation_action(BroadcastType::Report, BadActorType::Impersonation, &c),
        ActionLevel::Kick
    );
    assert_eq!(get_moderation_action(BroadcastType::Report, BadActorType::Bigotry, &c), ActionLevel::SoftBan);
    assert_eq!(get_moderation_action(BroadcastType::Report, BadActorType::Honeypot, &c), ActionLevel::Ban);
    assert_eq!(get_moderation_action(BroadcastType::Honeypot, BadActorType::Honeypot, &c), ActionLevel::Ban);
}

#[test]
fn the_action_level_is_the_same_every_time() {
    let c = config(2, [ActionLevel::Ban, ActionLevel::Kick, ActionLevel::Notify, ActionLevel::Timeout]);
    for _ in 0..3 {
        assert_eq!(get_moderation_action(BroadcastType::Report, BadActorType::Spam, &c), ActionLevel::Ban);
    }
}

#[test]
fn anything_but_a_new_report_only_notifies() {
    let c = config(2, [ActionLevel::Ban; 4]);
    for broadcast_type in [
        BroadcastType::Deactivate,
        BroadcastType::AddScreenshot,
        BroadcastType::ReplaceScreenshot,
        BroadcastType::UpdateExplanation,
    ] {
        for actor_type in [
            BadActorType::Spam,
            BadActorType::Impersonation,
            BadActorType::Bigotry,
            BadActorType::Honeypot,
        ] {
            assert_eq!(get_moderation_action(broadcast_type, actor_type, &c), ActionLevel::Notify);
        }
    }
}

#[test]
fn everyone_and_ignored_roles_do_not_count() {
    assert_eq!(get_non_ignored_roles(&vec![2, 30, 40, 50, 30], &vec![40], 2), vec![30, 50, 30]);
    assert_eq!(get_non_ignored_roles(&vec![2, 40], &vec![40, 41], 2), Vec::<u64>::new());
    assert_eq!(get_non_ignored_roles(&vec![], &vec![], 2), Vec::<u64>::new());
    assert_eq!(get_non_ignored_roles(&vec![3], &vec![], 2), vec![3]);
}

#[test]
fn a_member_with_a_role_that_counts_is_never_moderated() {
    for level in ALL_LEVELS {
        let decision = decide(level, vec![40], Some(&member(vec![2, 40, 50])));
        if level == ActionLevel::Notify {
            assert!(matches!(decision, Moderation::NoAction));
        } else {
            match decision {
                Moderation::NonIgnoredRoles { roles } => assert_eq!(roles, vec![50]),
                other => panic!("{:?}", other),
            }
        }
    }
}

#[test]
fn a_member_without_roles_that_count_gets_the_action_level() {
    let m = member(vec![2, 40]);
    assert!(matches!(decide(ActionLevel::Notify, vec![40], Some(&m)), Moderation::NoAction));
    assert!(matches!(decide(ActionLevel::Timeout, vec![40], Some(&m)), Moderation::Timeout));
    assert!(matches!(decide(ActionLevel::Kick, vec![40], Some(&m)), Moderation::Kick));
    assert!(matches!(decide(ActionLevel::SoftBan, vec![40], Some(&m)), Moderation::SoftBan));
    match decide(ActionLevel::Ban, vec![40], Some(&m)) {
        Moderation::Ban { reason } => assert_eq!(reason, "Bad Actor spam (42)"),
        other => panic!("{:?}", other),
    }
}

#[test]
fn an_account_that_is_no_member_can_only_be_banned() {
    assert!(matches!(decide(ActionLevel::Notify, vec![], None), Moderation::NoAction));
    assert!(matches!(decide(ActionLevel::Timeout, vec![], None), Moderation::NotMember));
    assert!(matches!(decide(ActionLevel::Kick, vec![], None), Moderation::NotMember));
    assert!(matches!(decide(ActionLevel::SoftBan, vec![], None), Moderation::NotMember));
    assert!(matches!(decide(ActionLevel::Ban, vec![], None), Moderation::Ban { .. }));
}

#[test]
fn the_member_is_looked_up_unless_the_guild_only_wants_notice() {
    assert!(!needs_member(ActionLevel::Notify));
    for level in [ActionLevel::Timeout, ActionLevel::Kick, ActionLevel::SoftBan, ActionLevel::Ban] {
        assert!(needs_member(level));
    }
    assert_eq!(BAN_DELETE_MESSAGE_DAYS, 7);
    assert_eq!(TIMEOUT_DAYS, 7);
}

#[test]
fn the_ban_uses_the_guild_template() {
    let mut server_config = config(2, [ActionLevel::Ban; 4]);
    server_config.ban_reason = Some("Violation: {type} #{id}".to_string());
    let listener = listener(server_config);
    let bad_actor = actor(42, BadActorType::Spam);
    let target = user(5, "eve");
    let decision = moderate(
        ModerateOptions {
            broadcast_type: BroadcastType::Report,
            listener: &listener,
            bad_actor: &bad_actor,
            target_user: &target,
        },
        None,
    );
    match decision {
        Moderation::Ban { reason } => assert_eq!(reason, "Violation: spam #42"),
        other => panic!("{:?}", other),
    }
}

#[test]
fn ban_reason_templating() {
    let bad_actor = actor(42, BadActorType::Spam);
    assert_eq!(
        bad_actor.ban_reason(Some("Violation: {type} #{id}".to_string())),
        "Violation: spam #42"
    );
    assert_eq!(bad_actor.ban_reason(None), "Bad Actor spam (42)");
    assert_eq!(bad_actor.ban_reason(Some("{id}{id} {type}{type} {other}".to_string())), "4242 spamspam {other}");
    assert_eq!(bad_actor.ban_reason(Some(String::new())), "");
    assert_eq!(actor(-3, BadActorType::Honeypot).ban_reason(None), "Bad Actor honeypot (-3)");
    assert_eq!(actor(7, BadActorType::Impersonation).ban_reason(Some("{type}".into())), "impersonation");
    assert_eq!(actor(7, BadActorType::Bigotry).ban_reason(Some("{type}/{id}".into())), "bigotry/7");
}

#[test]
fn the_guild_hears_of_every_decision_but_no_action() {
    let target = user(5, "e_ve");
    let guild = PartialGuild { id: 2, name: "Guild".to_string() };
    let report = log_moderation_result(&Moderation::NoAction, true, &target, &guild);
    assert_eq!(report.guild_message, None);
    assert_eq!(report.log, None);

    let report = log_moderation_result(&Moderation::NotMember, true, &target, &guild);
    assert_eq!(
        report.guild_message.as_deref(),
        Some("User e\\_ve (`5`) is not a member of your server. Skipping moderation.")
    );
    assert_eq!(report.log, None);

    let report =
        log_moderation_result(&Moderation::NonIgnoredRoles { roles: vec![30, 50] }, false, &target, &guild);
    assert_eq!(
        report.guild_message.as_deref(),
        Some("User e\\_ve (`5`) has roles that are not ignored. Those roles are <@&30>, <@&50>. Skipping all moderation action.")
    );
    assert_eq!(report.log, None);
}

#[test]
fn the_guild_hears_of_success_and_failure() {
    let target = user(5, "eve");
    let guild = PartialGuild { id: 2, name: "Guild".to_string() };
    let cases = [
        (Moderation::Ban { reason: "r".into() }, "User eve (`5`) was banned from your server!", "ban"),
        (Moderation::SoftBan, "User eve (`5`) was softbanned from your server!", "softban"),
        (Moderation::Kick, "User eve (`5`) was kicked from your server!", "kick"),
        (Moderation::Timeout, "User eve (`5`) was timed out for 7 days!", "timeout"),
    ];
    for (decision, success, verb) in cases {
        let report = log_moderation_result(&decision, true, &target, &guild);
        assert_eq!(report.guild_message.as_deref(), Some(success));
        assert_eq!(report.log, None);
        let report = log_moderation_result(&decision, false, &target, &guild);
        assert_eq!(
            report.guild_message,
            Some(format!("Failed to {verb} user eve (`5`) from your guild!"))
        );
        assert_eq!(report.log.as_deref(), Some("Error moderating eve (5) in Guild (2)"));
    }
}
