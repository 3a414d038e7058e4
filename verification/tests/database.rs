use janitor::database::admin_model_controller::{Admin, AdminModelController, DbAdmin};
use janitor::database::badactor_model_controller::{
    BadActor, BadActorError, BadActorModelController, BadActorQueryType, BadActorType,
    BadActorTypeChoice, BroadcastEmbedOptions, DbBadActor,
};
use janitor::database::scores_model_controller::{
    DbGuildScoreboard, DbUserScoreboard, ScoreError, ScoreTransaction, Scoreboard,
    ScoresModelController,
};
use janitor::database::serverconfig_model_controller::{
    decode_action_level, stringify_action_level, ActionLevel, ConfigError, DbServerConfig,
    ServerConfig, ServerConfigComplete, ServerConfigModelController, UpdateServerConfig,
};
use janitor::database::user_model_controller::{
    deserialize_user_type, serialize_user_type, CreateUserError, DbUser, JanitorUser, UserError,
    UserModelController, UserType,
};
use janitor::util::discord::{PartialGuild, SnowflakeError, User};
use janitor::util::embeds::{CreateAttachment, EmbedColor};

fn user(id: u64, name: &str) -> User {
    User { id, name: name.to_string(), global_name: None, avatar_url: format!("https://cdn/{id}.png") }
}

fn db_config() -> DbServerConfig {
    DbServerConfig {
        server_id: "2".to_string(),
        log_channel: Some("200".to_string()),
        ping_users: true,
        spam_action_level: 4,
        impersonation_action_level: 3,
        bigotry_action_level: 2,
        ignored_roles: vec!["30".to_string(), "40".to_string()],
        created_at: 1700000000,
        updated_at: 1700000100,
        ping_role: Some("20".to_string()),
        honeypot_channel_id: None,
        honeypot_action_level: 1,
        ban_reason: Some("Violation: {type} #{id}".to_string()),
        honeypot_timeout_minutes: 30,
    }
}

fn no_update() -> UpdateServerConfig {
    UpdateServerConfig {
        log_channel_id: None,
        ping_users: None,
        ping_role: None,
        spam_action_level: None,
        impersonation_action_level: None,
        bigotry_action_level: None,
        honeypot_action_level: None,
        ignored_roles: None,
        ban_reason: None,
        honeypot_timeout_minutes: 0,
    }
}

#[test]
fn action_levels() {
    let all = [
        (ActionLevel::Notify, 0, "notify", "Notify"),
        (ActionLevel::Timeout, 1, "timeout", "Timeout"),
        (ActionLevel::Kick, 2, "kick", "Kick"),
        (ActionLevel::SoftBan, 3, "softban", "Soft Ban"),
        (ActionLevel::Ban, 4, "ban", "Ban"),
    ];
    for (level, code, text, shown) in all {
        assert_eq!(ActionLevel::try_from(code), Ok(level));
        assert_eq!(level.to_i32(), code);
        assert_eq!(level.to_string(), text);
        assert_eq!(stringify_action_level(level), shown);
        assert_eq!(decode_action_level(code as i8), level);
    }
    assert_eq!(ActionLevel::try_from(5), Err(ConfigError::UnknownActionLevel(5)));
    assert_eq!(ActionLevel::try_from(-1), Err(ConfigError::UnknownActionLevel(-1)));
    assert_eq!(decode_action_level(5), ActionLevel::Notify);
    assert_eq!(decode_action_level(-128), ActionLevel::Notify);
}

#[test]
fn a_server_config_is_read_from_its_row() {
    let config = ServerConfig::try_from(db_config()).unwrap();
    assert_eq!(config.guild_id, 2);
    assert_eq!(config.log_channel_id, Some(200));
    assert!(config.ping_users);
    assert_eq!(config.ping_role, Some(20));
    assert_eq!(config.honeypot_channel_id, None);
    assert_eq!(config.spam_action_level, ActionLevel::Ban);
    assert_eq!(config.impersonation_action_level, ActionLevel::SoftBan);
    assert_eq!(config.bigotry_action_level, ActionLevel::Kick);
    assert_eq!(config.honeypot_action_level, ActionLevel::Timeout);
    assert_eq!(config.ignored_roles, vec![30, 40]);
    assert_eq!(config.created_at, 1700000000);
    assert_eq!(config.updated_at, 1700000100);
    assert_eq!(config.ban_reason.as_deref(), Some("Violation: {type} #{id}"));
    assert_eq!(config.honeypot_timeout_minutes, 30);
}

#[test]
fn the_first_fault_of_a_config_row_is_reported() {
    let broken = |change: fn(&mut DbServerConfig)| {
        let mut row = db_config();
        row.honeypot_action_level = 9;
        change(&mut row);
        ServerConfig::try_from(row).unwrap_err()
    };
    assert_eq!(broken(|_| ()), ConfigError::UnknownActionLevel(9));
    assert_eq!(broken(|r| r.bigotry_action_level = 8), ConfigError::UnknownActionLevel(8));
    assert_eq!(broken(|r| r.impersonation_action_level = 7), ConfigError::UnknownActionLevel(7));
    assert_eq!(broken(|r| r.spam_action_level = 6), ConfigError::UnknownActionLevel(6));
    assert_eq!(
        broken(|r| r.ignored_roles = vec!["1".into(), "0".into(), "x".into()]),
        ConfigError::InvalidId(SnowflakeError::Zero)
    );
    assert_eq!(
        broken(|r| {
            r.ignored_roles = vec!["x".into()];
            r.ping_role = Some("".into());
        }),
        ConfigError::InvalidId(SnowflakeError::Empty)
    );
    assert_eq!(
        broken(|r| {
            r.ping_role = Some("".into());
            r.honeypot_channel_id = Some("99999999999999999999".into());
        }),
        ConfigError::InvalidId(SnowflakeError::Overflow)
    );
    assert_eq!(
        broken(|r| {
            r.honeypot_channel_id = Some("99999999999999999999".into());
            r.log_channel = Some("a".into());
        }),
        ConfigError::InvalidId(SnowflakeError::InvalidDigit)
    );
    assert_eq!(
        broken(|r| {
            r.log_channel = Some("a".into());
            r.server_id = "0".into();
        }),
        ConfigError::InvalidId(SnowflakeError::Zero)
    );
}

#[test]
fn an_update_of_nothing_keeps_the_row_but_the_timeout() {
    let merged = ServerConfigModelController::update(Some(db_config()), no_update()).unwrap();
    let before = db_config();
    assert_eq!(merged.server_id, before.server_id);
    assert_eq!(merged.log_channel, before.log_channel);
    assert_eq!(merged.ping_users, before.ping_users);
    assert_eq!(merged.ping_role, before.ping_role);
    assert_eq!(merged.spam_action_level, before.spam_action_level);
    assert_eq!(merged.impersonation_action_level, before.impersonation_action_level);
    assert_eq!(merged.bigotry_action_level, before.bigotry_action_level);
    assert_eq!(merged.honeypot_action_level, before.honeypot_action_level);
    assert_eq!(merged.ignored_roles, before.ignored_roles);
    assert_eq!(merged.ban_reason, before.ban_reason);
    assert_eq!(merged.honeypot_channel_id, before.honeypot_channel_id);
    assert_eq!(merged.created_at, before.created_at);
    assert_eq!(merged.updated_at, before.updated_at);
    assert_eq!(merged.honeypot_timeout_minutes, 0);
}

#[test]
fn an_update_writes_over_what_it_names() {
    let update = UpdateServerConfig {
        log_channel_id: Some(201),
        ping_users: Some(false),
        ping_role: Some(21),
        spam_action_level: Some(ActionLevel::Notify),
        impersonation_action_level: Some(ActionLevel::Timeout),
        bigotry_action_level: Some(ActionLevel::Ban),
        honeypot_action_level: Some(ActionLevel::SoftBan),
        ignored_roles: Some(vec![5, 471026181211422721]),
        ban_reason: Some("no".to_string()),
        honeypot_timeout_minutes: 15,
    };
    let merged = ServerConfigModelController::update(Some(db_config()), update).unwrap();
    assert_eq!(merged.server_id, "2");
    assert_eq!(merged.log_channel.as_deref(), Some("201"));
    assert!(!merged.ping_users);
    assert_eq!(merged.ping_role.as_deref(), Some("21"));
    assert_eq!(merged.spam_action_level, 0);
    assert_eq!(merged.impersonation_action_level, 1);
    assert_eq!(merged.bigotry_action_level, 4);
    assert_eq!(merged.honeypot_action_level, 3);
    assert_eq!(merged.ignored_roles, vec!["5".to_string(), "471026181211422721".to_string()]);
    assert_eq!(merged.ban_reason.as_deref(), Some("no"));
    assert_eq!(merged.honeypot_timeout_minutes, 15);
    assert_eq!(merged.honeypot_channel_id, None);
}

#[test]
fn a_missing_config_cannot_be_updated() {
    assert_eq!(ServerConfigModelController::update(None, no_update()).unwrap_err(), ConfigError::Missing);
}

#[test]
fn a_server_config_is_shown() {
    let complete = ServerConfigComplete {
        guild: PartialGuild { id: 2, name: "Guild".to_string() },
        server_config: ServerConfig::try_from(db_config()).unwrap(),
        users: vec![7, 8],
    };
    let embed = complete.to_embed(&user(6, "mod"));
    assert_eq!(embed.title.as_deref(), Some("Server Config for Guild"));
    assert_eq!(embed.colour, Some(0x35AA78));
    assert_eq!(embed.footer.unwrap().text, "Requested by mod");
    let shown: Vec<(String, String, bool)> =
        embed.fields.into_iter().map(|f| (f.name, f.value, f.inline)).collect();
    let expected = [
        ("Server ID", "`2`"),
        ("Whitelisted Admins", "<@7>\n<@8>"),
        ("Log Channel", "<#200>"),
        ("Honeypot Channel", "Not set."),
        ("Ping Role", "<@&20>"),
        ("Spam Action Level", "ban"),
        ("Impersonation Action Level", "softban"),
        ("Bigotry Action Level", "kick"),
        ("Honeypot Action Level", "timeout"),
        ("Ignored Roles", "<@&30>, <@&40>"),
        ("Custom Ban Reason", "Violation: {type} #{id}"),
        ("Created At", "<t:1700000000:D>\n<t:1700000000:R>"),
        ("Updated At", "<t:1700000100:D>\n<t:1700000100:R>"),
    ];
    assert_eq!(shown.len(), expected.len());
    for ((name, value, inline), (expected_name, expected_value)) in shown.iter().zip(expected) {
        assert_eq!((name.as_str(), value.as_str(), *inline), (expected_name, expected_value, false));
    }

    let mut bare = db_config();
    bare.log_channel = None;
    bare.ping_role = None;
    bare.ignored_roles = vec![];
    bare.ban_reason = None;
    bare.honeypot_channel_id = Some("300".to_string());
    let complete = ServerConfigComplete {
        guild: PartialGuild { id: 2, name: "Guild".to_string() },
        server_config: ServerConfig::try_from(bare).unwrap(),
        users: vec![],
    };
    let embed = complete.to_embed(&user(6, "mod"));
    let values: Vec<&str> = embed.fields.iter().map(|f| f.value.as_str()).collect();
    assert_eq!(values[1], "");
    assert_eq!(values[2], "Not set.");
    assert_eq!(values[3], "<#300>");
    assert_eq!(values[4], "Not set.");
    assert_eq!(values[9], "None set.");
    assert_eq!(values[10], "Not set.");
}

fn db_actor() -> DbBadActor {
    DbBadActor {
        id: 42,
        user_id: "5".to_string(),
        is_active: true,
        actor_type: "spam".to_string(),
        originally_created_in: "1".to_string(),
        screenshot_proof: Some("2024-1-2_5.png".to_string()),
        explanation: Some("spams".to_string()),
        created_at: 10,
        updated_at: 20,
        last_changed_by: "6".to_string(),
    }
}

#[test]
fn actor_types() {
    let all = [
        (BadActorType::Spam, "spam"),
        (BadActorType::Impersonation, "impersonation"),
        (BadActorType::Bigotry, "bigotry"),
        (BadActorType::Honeypot, "honeypot"),
    ];
    for (actor_type, text) in all {
        assert_eq!(actor_type.to_string(), text);
        assert_eq!(actor_type.as_str(), text);
        assert_eq!(BadActorType::from_str(text), Ok(actor_type));
    }
    assert_eq!(BadActorType::from_str("Spam"), Err(BadActorError::InvalidActorType));
    assert_eq!(BadActorTypeChoice::Spam.actor_type(), BadActorType::Spam);
    assert_eq!(BadActorTypeChoice::Impersonation.actor_type(), BadActorType::Impersonation);
    assert_eq!(BadActorTypeChoice::Bigotry.actor_type(), BadActorType::Bigotry);
}

#[test]
fn a_bad_actor_is_read_from_its_row() {
    let actor = BadActor::try_from(db_actor()).unwrap();
    assert_eq!(actor.id, 42);
    assert_eq!(actor.user_id, 5);
    assert!(actor.is_active);
    assert_eq!(actor.actor_type, BadActorType::Spam);
    assert_eq!(actor.origin_guild_id, 1);
    assert_eq!(actor.screenshot_proof.as_deref(), Some("2024-1-2_5.png"));
    assert_eq!(actor.explanation.as_deref(), Some("spams"));
    assert_eq!(actor.created_at, 10);
    assert_eq!(actor.updated_at, 20);
    assert_eq!(actor.updated_by_user_id, 6);
}

#[test]
fn the_first_fault_of_an_actor_row_is_reported() {
    let broken = |change: fn(&mut DbBadActor)| {
        let mut row = db_actor();
        row.last_changed_by = "".to_string();
        change(&mut row);
        BadActor::try_from(row).unwrap_err()
    };
    assert_eq!(broken(|_| ()), BadActorError::InvalidId(SnowflakeError::Empty));
    assert_eq!(
        broken(|r| r.originally_created_in = "0".into()),
        BadActorError::InvalidId(SnowflakeError::Zero)
    );
    assert_eq!(
        broken(|r| {
            r.originally_created_in = "0".into();
            r.user_id = "u".into();
        }),
        BadActorError::InvalidId(SnowflakeError::InvalidDigit)
    );
    assert_eq!(
        broken(|r| {
            r.user_id = "u".into();
            r.actor_type = "theft".into();
        }),
        BadActorError::InvalidActorType
    );
}

#[test]
fn the_broadcast_embed() {
    let actor = BadActor::try_from(db_actor()).unwrap();
    let reporter = user(6, "mod");
    let target = User { global_name: Some("Eve".to_string()), ..user(5, "eve") };
    let bot = user(9, "Janitor");
    let (embed, attachment) = actor.to_broadcast_embed(
        BroadcastEmbedOptions {
            origin_guild_id: 1,
            origin_guild: Some(PartialGuild { id: 1, name: "My Guild".to_string() }),
            report_author: &reporter,
            target_user: Some(&target),
            bot_user: Some(&bot),
            attachment: Some(CreateAttachment { filename: "2024-1-2_5.png".to_string() }),
        },
        EmbedColor::Red,
    );
    assert_eq!(attachment.unwrap().filename, "2024-1-2_5.png");
    assert_eq!(embed.title.as_deref(), Some("Eve (`5`)"));
    assert_eq!(embed.colour, Some(0xFF0000));
    assert_eq!(embed.thumbnail.as_deref(), Some("https://cdn/5.png"));
    assert_eq!(embed.image.as_deref(), Some("attachment://2024-1-2_5.png"));
    let footer = embed.footer.unwrap();
    assert_eq!(footer.text, "Janitor");
    assert_eq!(footer.icon_url.as_deref(), Some("https://cdn/9.png"));
    let shown: Vec<(String, String, bool)> =
        embed.fields.into_iter().map(|f| (f.name, f.value, f.inline)).collect();
    assert_eq!(
        shown,
        vec![
            ("Report ID".to_string(), "42".to_string(), true),
            ("Active".to_string(), "Yes".to_string(), true),
            ("Type".to_string(), "spam".to_string(), true),
            ("Explanation".to_string(), "spams".to_string(), false),
            ("Server of Origin".to_string(), "My Guild (`1`)".to_string(), false),
            ("Last Updated By".to_string(), "<@6> (`6`)".to_string(), false),
        ]
    );
}

#[test]
fn the_broadcast_embed_of_an_unknown_account() {
    let mut row = db_actor();
    row.is_active = false;
    row.explanation = None;
    let actor = BadActor::try_from(row).unwrap();
    let reporter = user(6, "mod");
    let (embed, attachment) = actor.to_broadcast_embed(
        BroadcastEmbedOptions {
            origin_guild_id: 1,
            origin_guild: None,
            report_author: &reporter,
            target_user: None,
            bot_user: None,
            attachment: None,
        },
        EmbedColor::DeepPink,
    );
    assert!(attachment.is_none());
    assert_eq!(embed.title.as_deref(), Some("Unknown User (`5`)"));
    assert_eq!(embed.colour, Some(0xFF1493));
    assert!(embed.thumbnail.is_none());
    assert!(embed.image.is_none());
    assert!(embed.footer.is_none());
    let values: Vec<&str> = embed.fields.iter().map(|f| f.value.as_str()).collect();
    assert_eq!(values, vec!["42", "No", "spam", "No explanation provided.", "1", "<@6> (`6`)"]);
}

#[test]
fn listings_pick_their_query() {
    assert_eq!(
        BadActorModelController::get_by_type_query(None),
        "SELECT * FROM bad_actors ORDER BY created_at DESC LIMIT $1;"
    );
    assert_eq!(
        BadActorModelController::get_by_type_query(Some(BadActorQueryType::All)),
        "SELECT * FROM bad_actors ORDER BY created_at DESC LIMIT $1;"
    );
    assert_eq!(
        BadActorModelController::get_by_type_query(Some(BadActorQueryType::Active)),
        "SELECT * FROM bad_actors WHERE is_active = true ORDER BY created_at DESC LIMIT $1"
    );
    assert_eq!(
        BadActorModelController::get_by_type_query(Some(BadActorQueryType::Inactive)),
        "SELECT * FROM bad_actors WHERE is_active = false ORDER BY created_at DESC LIMIT $1"
    );
}

#[test]
fn failed_lookups_count_as_no() {
    assert!(BadActorModelController::has_active_case(Ok(true)));
    assert!(!BadActorModelController::has_active_case(Ok(false)));
    assert!(!BadActorModelController::has_active_case(Err(())));
    assert!(AdminModelController::is_admin(Ok(true)));
    assert!(!AdminModelController::is_admin(Ok(false)));
    assert!(!AdminModelController::is_admin(Err(())));
}

#[test]
fn admins() {
    let admin = Admin::try_from(DbAdmin { id: "5".to_string(), created_at: 10 }).unwrap();
    assert_eq!((admin.user_id, admin.created_at), (5, 10));
    assert_eq!(
        Admin::try_from(DbAdmin { id: "five".to_string(), created_at: 10 }).unwrap_err(),
        SnowflakeError::InvalidDigit
    );
}

#[test]
fn user_types() {
    assert_eq!(deserialize_user_type("reporter"), Ok(UserType::Reporter));
    assert_eq!(deserialize_user_type("listener"), Ok(UserType::Listener));
    assert_eq!(deserialize_user_type("admin"), Err(UserError::UnknownUserType));
    assert_eq!(UserType::from_str("listener"), Ok(UserType::Listener));
    assert_eq!(serialize_user_type(&UserType::Reporter), "reporter");
    assert_eq!(serialize_user_type(&UserType::Listener), "listener");
    assert_eq!(UserType::Listener.to_string(), "listener");
}

#[test]
fn janitor_users() {
    let row = |id: &str, user_type: &str, servers: &[&str]| DbUser {
        id: id.to_string(),
        user_type: user_type.to_string(),
        servers: servers.iter().map(|s| s.to_string()).collect(),
        created_at: 10,
    };
    let janitor_user = JanitorUser::try_from(row("5", "reporter", &["1", "2"])).unwrap();
    assert_eq!(janitor_user.user_id, 5);
    assert_eq!(janitor_user.user_type, UserType::Reporter);
    assert_eq!(janitor_user.guild_ids, vec![1, 2]);
    assert_eq!(janitor_user.created_at, 10);
    assert_eq!(
        JanitorUser::try_from(row("0", "x", &["y"])).unwrap_err(),
        UserError::InvalidId(SnowflakeError::Zero)
    );
    assert_eq!(JanitorUser::try_from(row("5", "x", &["y"])).unwrap_err(), UserError::UnknownUserType);
    assert_eq!(
        JanitorUser::try_from(row("5", "listener", &["1", "y"])).unwrap_err(),
        UserError::InvalidId(SnowflakeError::InvalidDigit)
    );

    let guilds = vec![
        PartialGuild { id: 1, name: "One".to_string() },
        PartialGuild { id: 2, name: "Two!".to_string() },
    ];
    let embed = janitor_user.to_embed(&user(6, "mod"), &user(5, "eve"), &guilds);
    assert_eq!(embed.title.as_deref(), Some("User Info eve (`5`)"));
    let shown: Vec<(&str, &str)> = embed.fields.iter().map(|f| (f.name.as_str(), f.value.as_str())).collect();
    assert_eq!(
        shown,
        vec![
            ("Servers", "One (`1`)\nTwo\\! (`2`)"),
            ("Created At", "<t:10:D>\n<t:10:R>"),
            ("User Type", "reporter"),
        ]
    );
    assert_eq!(UserModelController::create(true), CreateUserError::UniqueViolation);
    assert_eq!(UserModelController::create(false), CreateUserError::Database);
}

#[test]
fn scores() {
    assert_eq!(
        Scoreboard::try_from(DbUserScoreboard { discord_id: "5".to_string(), score: 3 }),
        Ok(Scoreboard { id: 5, score: 3 })
    );
    assert_eq!(
        Scoreboard::try_from(DbUserScoreboard { discord_id: "5".to_string(), score: -1 }),
        Ok(Scoreboard { id: 5, score: u32::MAX })
    );
    assert_eq!(
        Scoreboard::try_from_guild(DbGuildScoreboard { guild_id: "2".to_string(), score: i32::MIN }),
        Ok(Scoreboard { id: 2, score: 1 << 31 })
    );
    assert_eq!(
        Scoreboard::try_from(DbUserScoreboard { discord_id: "0".to_string(), score: 3 }),
        Err(ScoreError::InvalidId(SnowflakeError::Zero))
    );
    assert_eq!(ScoresModelController::get_user_score(None, 5), Ok(Scoreboard { id: 5, score: 0 }));
    assert_eq!(
        ScoresModelController::get_user_score(Some(DbUserScoreboard { discord_id: "5".into(), score: 9 }), 5),
        Ok(Scoreboard { id: 5, score: 9 })
    );
    assert_eq!(ScoresModelController::get_user_score(None, 0), Err(ScoreError::ZeroId));
    assert_eq!(ScoresModelController::get_guild_score(None, 2), Ok(Scoreboard { id: 2, score: 0 }));
    assert_eq!(
        ScoresModelController::get_guild_score(Some(DbGuildScoreboard { guild_id: "x".into(), score: 9 }), 2),
        Err(ScoreError::InvalidId(SnowflakeError::InvalidDigit))
    );
    assert_eq!(
        ScoresModelController::get_guild_score(Some(DbGuildScoreboard { guild_id: "2".into(), score: 9 }), 0),
        Err(ScoreError::ZeroId)
    );
}

#[test]
fn scores_are_written_together_or_not_at_all() {
    assert_eq!(ScoresModelController::create_or_increase_scoreboards(true, true), ScoreTransaction::Commit);
    assert_eq!(ScoresModelController::create_or_increase_scoreboards(true, false), ScoreTransaction::Rollback);
    assert_eq!(ScoresModelController::create_or_increase_scoreboards(false, true), ScoreTransaction::Rollback);
    assert_eq!(ScoresModelController::create_or_increase_scoreboards(false, false), ScoreTransaction::Rollback);
}
