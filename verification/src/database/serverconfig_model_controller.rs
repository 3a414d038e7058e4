//! Per-guild configuration: its shape, how a database row becomes one, and
//! how an update is merged into the stored row.

use crate::text::{decimal, join, joined, u64_to_string, views};
use crate::util::discord::{
    channel_mention, law_snowflake_round_trip, parse_id, parse_snowflake_spec, push_channel_mention, push_role_mention,
    push_user_mention, role_mention, user_mention, ChannelId, GuildId, PartialGuild, RoleId,
    SnowflakeError, User, UserId,
};
use crate::util::embeds::{CreateJanitorEmbed, Embed, EmbedColor, EmbedField};
use crate::util::format::{display_time, display_time_spec, inline_code, inline_code_spec};
use crate::util::parsing::{
    optional_id_spec, parse_id_texts, parse_ids_from, parse_optional_id,
};
use vstd::prelude::*;
use vstd::string::*;

verus! {

/// How strongly a guild acts on a report of a given category.
#[derive(Debug, Clone, Copy, PartialEq, Eq, Structural)]
pub enum ActionLevel {
    Notify,
    Timeout,
    Kick,
    SoftBan,
    Ban,
}

/// What is wrong with a stored or requested server configuration.
#[derive(Debug, Clone, Copy, PartialEq, Eq, Structural)]
pub enum ConfigError {
    /// An identifier is not a snowflake.
    InvalidId(SnowflakeError),
    /// A number that stands for no action level.
    UnknownActionLevel(i32),
    /// The guild has no configuration to update.
    Missing,
}

impl ActionLevel {
    /// The lower-case name of the level.
    pub open spec fn text(self) -> Seq<char> {
        match self {
            ActionLevel::Notify => "notify"@,
            ActionLevel::Timeout => "timeout"@,
            ActionLevel::Kick => "kick"@,
            ActionLevel::SoftBan => "softban"@,
            ActionLevel::Ban => "ban"@,
        }
    }

    /// The number that stands for the level in the database.
    pub open spec fn code(self) -> i32 {
        match self {
            ActionLevel::Notify => 0,
            ActionLevel::Timeout => 1,
            ActionLevel::Kick => 2,
            ActionLevel::SoftBan => 3,
            ActionLevel::Ban => 4,
        }
    }

    /// The level that a number stands for, if any.
    pub open spec fn from_code(value: i32) -> Option<ActionLevel> {
        if value == 0 {
            Some(ActionLevel::Notify)
        } else if value == 1 {
            Some(ActionLevel::Timeout)
        } else if value == 2 {
            Some(ActionLevel::Kick)
        } else if value == 3 {
            Some(ActionLevel::SoftBan)
        } else if value == 4 {
            Some(ActionLevel::Ban)
        } else {
            None
        }
    }

    /// The lower-case name of the level.
    pub fn to_string(&self) -> (s: String)
        ensures
            s@ == self.text(),
    {
        match self {
            ActionLevel::Notify => String::from_str("notify"),
            ActionLevel::Timeout => String::from_str("timeout"),
            ActionLevel::Kick => String::from_str("kick"),
            ActionLevel::SoftBan => String::from_str("softban"),
            ActionLevel::Ban => String::from_str("ban"),
        }
    }

    /// The number that stands for the level in the database.
    pub fn to_i32(self) -> (value: i32)
        ensures
            value == self.code(),
            ActionLevel::from_code(value) == Some(self),
    {
        match self {
            ActionLevel::Notify => 0,
            ActionLevel::Timeout => 1,
            ActionLevel::Kick => 2,
            ActionLevel::SoftBan => 3,
            ActionLevel::Ban => 4,
        }
    }

    /// The level that a number from the database stands for.
    pub fn try_from(value: i32) -> (r: Result<ActionLevel, ConfigError>)
        ensures
            match r {
                Ok(level) => ActionLevel::from_code(value) == Some(level),
                Err(e) => ActionLevel::from_code(value) is None && e
                    == ConfigError::UnknownActionLevel(value),
            },
    {
        match value {
            0 => Ok(ActionLevel::Notify),
            1 => Ok(ActionLevel::Timeout),
            2 => Ok(ActionLevel::Kick),
            3 => Ok(ActionLevel::SoftBan),
            4 => Ok(ActionLevel::Ban),
            _ => Err(ConfigError::UnknownActionLevel(value)),
        }
    }
}

/// The name of an action level as shown in a configuration overview.
pub fn stringify_action_level(level: ActionLevel) -> (s: String)
    ensures
        s@ == (match level {
            ActionLevel::Notify => "Notify"@,
            ActionLevel::Timeout => "Timeout"@,
            ActionLevel::Kick => "Kick"@,
            ActionLevel::SoftBan => "Soft Ban"@,
            ActionLevel::Ban => "Ban"@,
        }),
{
    match level {
        ActionLevel::Notify => String::from_str("Notify"),
        ActionLevel::Timeout => String::from_str("Timeout"),
        ActionLevel::Kick => String::from_str("Kick"),
        ActionLevel::SoftBan => String::from_str("Soft Ban"),
        ActionLevel::Ban => String::from_str("Ban"),
    }
}

/// The action level for a small number, lenient: a number that stands for
/// no level means `Notify`.
pub fn decode_action_level(level: i8) -> (decoded: ActionLevel)
    ensures
        decoded == (match ActionLevel::from_code(level as i32) {
            Some(l) => l,
            None => ActionLevel::Notify,
        }),
{
    match level {
        0 => ActionLevel::Notify,
        1 => ActionLevel::Timeout,
        2 => ActionLevel::Kick,
        3 => ActionLevel::SoftBan,
        4 => ActionLevel::Ban,
        _ => ActionLevel::Notify,
    }
}

/// A row of the `server_configs` table, as stored: identifiers are decimal
/// text, action levels are numbers, times are seconds since the Unix epoch.
#[derive(Debug, Clone)]
pub struct DbServerConfig {
    pub server_id: String,
    pub log_channel: Option<String>,
    pub ping_users: bool,
    pub spam_action_level: i32,
    pub impersonation_action_level: i32,
    pub bigotry_action_level: i32,
    pub ignored_roles: Vec<String>,
    pub created_at: i64,
    pub updated_at: i64,
    pub ping_role: Option<String>,
    pub honeypot_channel_id: Option<String>,
    pub honeypot_action_level: i32,
    pub ban_reason: Option<String>,
    pub honeypot_timeout_minutes: i32,
}

/// The configuration of one guild.
#[derive(Debug, Clone)]
pub struct ServerConfig {
    pub guild_id: GuildId,
    pub log_channel_id: Option<ChannelId>,
    pub ping_users: bool,
    pub ping_role: Option<RoleId>,
    pub honeypot_channel_id: Option<ChannelId>,
    pub spam_action_level: ActionLevel,
    pub impersonation_action_level: ActionLevel,
    pub bigotry_action_level: ActionLevel,
    pub honeypot_action_level: ActionLevel,
    pub ignored_roles: Vec<RoleId>,
    pub created_at: i64,
    pub updated_at: i64,
    pub ban_reason: Option<String>,
    /// How long a member who posts in the honeypot channel is timed out,
    /// in minutes; zero turns the timeout off.
    pub honeypot_timeout_minutes: i64,
}

/// A guild's configuration together with the guild itself and the users
/// whitelisted for it.
#[derive(Debug, Clone)]
pub struct ServerConfigComplete {
    pub guild: PartialGuild,
    pub server_config: ServerConfig,
    pub users: Vec<UserId>,
}

/// The settings an operator asked to change; `None` keeps what is stored.
#[derive(Debug, Clone)]
pub struct UpdateServerConfig {
    pub log_channel_id: Option<ChannelId>,
    pub ping_users: Option<bool>,
    pub ping_role: Option<RoleId>,
    pub spam_action_level: Option<ActionLevel>,
    pub impersonation_action_level: Option<ActionLevel>,
    pub bigotry_action_level: Option<ActionLevel>,
    pub honeypot_action_level: Option<ActionLevel>,
    pub ignored_roles: Option<Vec<RoleId>>,
    pub ban_reason: Option<String>,
    pub honeypot_timeout_minutes: i32,
}

/// The first thing wrong with a row, reading its columns in the order:
/// guild, log channel, honeypot channel, ping role, ignored roles, then the
/// action levels for spam, impersonation, bigotry and honeypot.
pub open spec fn row_error(db: DbServerConfig) -> Option<ConfigError> {
    if parse_snowflake_spec(db.server_id@) is Err {
        Some(ConfigError::InvalidId(parse_snowflake_spec(db.server_id@)->Err_0))
    } else if optional_id_spec(db.log_channel) is Err {
        Some(ConfigError::InvalidId(optional_id_spec(db.log_channel)->Err_0))
    } else if optional_id_spec(db.honeypot_channel_id) is Err {
        Some(ConfigError::InvalidId(optional_id_spec(db.honeypot_channel_id)->Err_0))
    } else if optional_id_spec(db.ping_role) is Err {
        Some(ConfigError::InvalidId(optional_id_spec(db.ping_role)->Err_0))
    } else if parse_ids_from(views(db.ignored_roles@), 0) is Err {
        Some(ConfigError::InvalidId(parse_ids_from(views(db.ignored_roles@), 0)->Err_0))
    } else if ActionLevel::from_code(db.spam_action_level) is None {
        Some(ConfigError::UnknownActionLevel(db.spam_action_level))
    } else if ActionLevel::from_code(db.impersonation_action_level) is None {
        Some(ConfigError::UnknownActionLevel(db.impersonation_action_level))
    } else if ActionLevel::from_code(db.bigotry_action_level) is None {
        Some(ConfigError::UnknownActionLevel(db.bigotry_action_level))
    } else if ActionLevel::from_code(db.honeypot_action_level) is None {
        Some(ConfigError::UnknownActionLevel(db.honeypot_action_level))
    } else {
        None
    }
}

/// Whether `config` says what the (valid) row `db` says.
pub open spec fn config_matches_row(config: ServerConfig, db: DbServerConfig) -> bool {
    &&& parse_snowflake_spec(db.server_id@) == Ok::<u64, SnowflakeError>(config.guild_id)
    &&& optional_id_spec(db.log_channel) == Ok::<Option<u64>, SnowflakeError>(
        config.log_channel_id,
    )
    &&& optional_id_spec(db.honeypot_channel_id) == Ok::<Option<u64>, SnowflakeError>(
        config.honeypot_channel_id,
    )
    &&& optional_id_spec(db.ping_role) == Ok::<Option<u64>, SnowflakeError>(config.ping_role)
    &&& parse_ids_from(views(db.ignored_roles@), 0) == Ok::<Seq<u64>, SnowflakeError>(
        config.ignored_roles@,
    )
    &&& ActionLevel::from_code(db.spam_action_level) == Some(config.spam_action_level)
    &&& ActionLevel::from_code(db.impersonation_action_level) == Some(
        config.impersonation_action_level,
    )
    &&& ActionLevel::from_code(db.bigotry_action_level) == Some(config.bigotry_action_level)
    &&& ActionLevel::from_code(db.honeypot_action_level) == Some(config.honeypot_action_level)
    &&& config.ping_users == db.ping_users
    &&& config.created_at == db.created_at
    &&& config.updated_at == db.updated_at
    &&& config.ban_reason == db.ban_reason
    &&& config.honeypot_timeout_minutes == db.honeypot_timeout_minutes
}

impl ServerConfig {
    /// Reads a configuration out of a database row. Succeeds exactly when
    /// nothing is wrong with the row, and else reports the first thing that
    /// is.
    pub fn try_from(db: DbServerConfig) -> (r: Result<ServerConfig, ConfigError>)
        ensures
            match r {
                Ok(config) => row_error(db) is None && config_matches_row(config, db),
                Err(e) => row_error(db) == Some(e),
            },
    {
        let guild_id = match parse_id(db.server_id.as_str()) {
            Ok(id) => id,
            Err(e) => {
                return Err(ConfigError::InvalidId(e));
            },
        };
        let log_channel_id = match parse_optional_id(&db.log_channel) {
            Ok(id) => id,
            Err(e) => {
                return Err(ConfigError::InvalidId(e));
            },
        };
        let honeypot_channel_id = match parse_optional_id(&db.honeypot_channel_id) {
            Ok(id) => id,
            Err(e) => {
                return Err(ConfigError::InvalidId(e));
            },
        };
        let ping_role = match parse_optional_id(&db.ping_role) {
            Ok(id) => id,
            Err(e) => {
                return Err(ConfigError::InvalidId(e));
            },
        };
        let ignored_roles = match parse_id_texts(&db.ignored_roles) {
            Ok(ids) => ids,
            Err(e) => {
                return Err(ConfigError::InvalidId(e));
            },
        };
        let spam_action_level = match ActionLevel::try_from(db.spam_action_level) {
            Ok(level) => level,
            Err(e) => {
                return Err(e);
            },
        };
        let impersonation_action_level = match ActionLevel::try_from(
            db.impersonation_action_level,
        ) {
            Ok(level) => level,
            Err(e) => {
                return Err(e);
            },
        };
        let bigotry_action_level = match ActionLevel::try_from(db.bigotry_action_level) {
            Ok(level) => level,
            Err(e) => {
                return Err(e);
            },
        };
        let honeypot_action_level = match ActionLevel::try_from(db.honeypot_action_level) {
            Ok(level) => level,
            Err(e) => {
                return Err(e);
            },
        };
        Ok(
            ServerConfig {
                guild_id,
                log_channel_id,
                ping_users: db.ping_users,
                ping_role,
                honeypot_channel_id,
                spam_action_level,
                impersonation_action_level,
                bigotry_action_level,
                honeypot_action_level,
                ignored_roles,
                created_at: db.created_at,
                updated_at: db.updated_at,
                ban_reason: db.ban_reason,
                honeypot_timeout_minutes: db.honeypot_timeout_minutes as i64,
            },
        )
    }
}

/// The decimal texts of a list of identifiers.
pub open spec fn id_texts(ids: Seq<u64>) -> Seq<Seq<char>> {
    Seq::new(ids.len(), |i: int| decimal(ids[i] as nat))
}

/// The stored text of an identifier that may have been updated.
pub open spec fn merged_id(update: Option<u64>, previous: Option<String>) -> Option<Seq<char>> {
    match update {
        Some(id) => Some(decimal(id as nat)),
        None => match previous {
            Some(s) => Some(s@),
            None => None,
        },
    }
}

/// The stored number of an action level that may have been updated.
pub open spec fn merged_level(update: Option<ActionLevel>, previous: i32) -> i32 {
    match update {
        Some(level) => level.code(),
        None => previous,
    }
}

/// The view of an optional string.
pub open spec fn optional_text(text: Option<String>) -> Option<Seq<char>> {
    match text {
        Some(s) => Some(s@),
        None => None,
    }
}

/// Whether `merged` is the row `previous` with the settings of `update`
/// written over it: every setting that the update names replaces the stored
/// one, and every other column stays. The honeypot timeout is always taken
/// from the update.
pub open spec fn is_merge(
    merged: DbServerConfig,
    previous: DbServerConfig,
    update: UpdateServerConfig,
) -> bool {
    &&& merged.server_id@ == previous.server_id@
    &&& optional_text(merged.log_channel) == merged_id(update.log_channel_id, previous.log_channel)
    &&& merged.ping_users == (match update.ping_users {
        Some(p) => p,
        None => previous.ping_users,
    })
    &&& optional_text(merged.ping_role) == merged_id(update.ping_role, previous.ping_role)
    &&& merged.spam_action_level == merged_level(
        update.spam_action_level,
        previous.spam_action_level,
    )
    &&& merged.impersonation_action_level == merged_level(
        update.impersonation_action_level,
        previous.impersonation_action_level,
    )
    &&& merged.bigotry_action_level == merged_level(
        update.bigotry_action_level,
        previous.bigotry_action_level,
    )
    &&& merged.honeypot_action_level == merged_level(
        update.honeypot_action_level,
        previous.honeypot_action_level,
    )
    &&& views(merged.ignored_roles@) == (match update.ignored_roles {
        Some(roles) => id_texts(roles@),
        None => views(previous.ignored_roles@),
    })
    &&& optional_text(merged.ban_reason) == (match update.ban_reason {
        Some(reason) => Some(reason@),
        None => optional_text(previous.ban_reason),
    })
    &&& optional_text(merged.honeypot_channel_id) == optional_text(previous.honeypot_channel_id)
    &&& merged.honeypot_timeout_minutes == update.honeypot_timeout_minutes
    &&& merged.created_at == previous.created_at
    &&& merged.updated_at == previous.updated_at
}

fn merge_id(update: Option<u64>, previous: Option<String>) -> (merged: Option<String>)
    ensures
        optional_text(merged) == merged_id(update, previous),
{
    match update {
        Some(id) => Some(u64_to_string(id)),
        None => previous,
    }
}

fn merge_level(update: Option<ActionLevel>, previous: i32) -> (merged: i32)
    ensures
        merged == merged_level(update, previous),
{
    match update {
        Some(level) => level.to_i32(),
        None => previous,
    }
}

fn ids_to_texts(ids: &Vec<u64>) -> (texts: Vec<String>)
    ensures
        views(texts@) == id_texts(ids@),
{
    let mut texts: Vec<String> = Vec::new();
    let mut i: usize = 0;
    while i < ids.len()
        invariant
            i <= ids.len(),
            texts.len() == i,
            forall|k: int| 0 <= k < i ==> (#[trigger] texts[k])@ == decimal(ids[k] as nat),
        decreases ids.len() - i,
    {
        texts.push(u64_to_string(ids[i]));
        i += 1;
    }
    assert(views(texts@) =~= id_texts(ids@));
    texts
}

/// Gateway to the `server_configs` table.
#[derive(Debug)]
pub struct ServerConfigModelController;

impl ServerConfigModelController {
    /// Works out the row to store when an operator updates a guild's
    /// configuration: the stored row with the requested settings written
    /// over it. Fails exactly when the guild has no stored row.
    pub fn update(previous: Option<DbServerConfig>, update: UpdateServerConfig) -> (r: Result<
        DbServerConfig,
        ConfigError,
    >)
        ensures
            match r {
                Ok(merged) => previous is Some && is_merge(merged, previous->0, update),
                Err(e) => previous is None && e == ConfigError::Missing,
            },
    {
        let previous = match previous {
            Some(row) => row,
            None => {
                return Err(ConfigError::Missing);
            },
        };
        let log_channel = merge_id(update.log_channel_id, previous.log_channel);
        let ping_users = match update.ping_users {
            Some(p) => p,
            None => previous.ping_users,
        };
        let ping_role = merge_id(update.ping_role, previous.ping_role);
        let spam_action_level = merge_level(update.spam_action_level, previous.spam_action_level);
        let impersonation_action_level = merge_level(
            update.impersonation_action_level,
            previous.impersonation_action_level,
        );
        let bigotry_action_level = merge_level(
            update.bigotry_action_level,
            previous.bigotry_action_level,
        );
        let honeypot_action_level = merge_level(
            update.honeypot_action_level,
            previous.honeypot_action_level,
        );
        let ignored_roles = match &update.ignored_roles {
            Some(roles) => ids_to_texts(roles),
            None => previous.ignored_roles,
        };
        let ban_reason = match update.ban_reason {
            Some(reason) => Some(reason),
            None => previous.ban_reason,
        };
        Ok(
            DbServerConfig {
                server_id: previous.server_id,
                log_channel,
                ping_users,
                spam_action_level,
                impersonation_action_level,
                bigotry_action_level,
                ignored_roles,
                created_at: previous.created_at,
                updated_at: previous.updated_at,
                ping_role,
                honeypot_channel_id: previous.honeypot_channel_id,
                honeypot_action_level,
                ban_reason,
                honeypot_timeout_minutes: update.honeypot_timeout_minutes,
            },
        )
    }
}

/// The names of the fields of the embed that shows a configuration.
pub open spec fn config_field_names() -> Seq<Seq<char>> {
    seq![
        "Server ID"@,
        "Whitelisted Admins"@,
        "Log Channel"@,
        "Honeypot Channel"@,
        "Ping Role"@,
        "Spam Action Level"@,
        "Impersonation Action Level"@,
        "Bigotry Action Level"@,
        "Honeypot Action Level"@,
        "Ignored Roles"@,
        "Custom Ban Reason"@,
        "Created At"@,
        "Updated At"@,
    ]
}

/// A channel as the embed shows it: its mention, or `Not set.`.
pub open spec fn shown_channel(channel: Option<ChannelId>) -> Seq<char> {
    match channel {
        Some(id) => channel_mention(id),
        None => "Not set."@,
    }
}

/// The mentions of a list of users.
pub open spec fn admin_mentions(users: Seq<UserId>) -> Seq<Seq<char>> {
    Seq::new(users.len(), |i: int| user_mention(users[i]))
}

/// The mentions of a list of roles.
pub open spec fn ignored_mentions(roles: Seq<RoleId>) -> Seq<Seq<char>> {
    Seq::new(roles.len(), |i: int| role_mention(roles[i]))
}

/// The values of the fields of the embed that shows a configuration.
pub open spec fn config_field_values(config: ServerConfigComplete) -> Seq<Seq<char>> {
    seq![
        inline_code_spec(decimal(config.guild.id as nat)),
        joined(admin_mentions(config.users@), "\n"@),
        shown_channel(config.server_config.log_channel_id),
        shown_channel(config.server_config.honeypot_channel_id),
        match config.server_config.ping_role {
            Some(role) => role_mention(role),
            None => "Not set."@,
        },
        config.server_config.spam_action_level.text(),
        config.server_config.impersonation_action_level.text(),
        config.server_config.bigotry_action_level.text(),
        config.server_config.honeypot_action_level.text(),
        if config.server_config.ignored_roles@.len() == 0 {
            "None set."@
        } else {
            joined(ignored_mentions(config.server_config.ignored_roles@), ", "@)
        },
        match config.server_config.ban_reason {
            Some(reason) => reason@,
            None => "Not set."@,
        },
        display_time_spec(config.server_config.created_at),
        display_time_spec(config.server_config.updated_at),
    ]
}

fn show_channel(channel: Option<ChannelId>) -> (text: String)
    ensures
        text@ == shown_channel(channel),
{
    match channel {
        Some(id) => {
            let mut text = String::new();
            push_channel_mention(&mut text, id);
            assert(text@ =~= channel_mention(id));
            text
        },
        None => String::from_str("Not set."),
    }
}

fn plain_field(name: &str, value: String) -> (f: EmbedField)
    ensures
        f.name@ == name@,
        f.value == value,
        !f.inline,
{
    EmbedField { name: String::from_str(name), value, inline: false }
}

impl ServerConfigComplete {
    /// The embed that shows a guild's configuration to `interaction_user`.
    pub fn to_embed(&self, interaction_user: &User) -> (embed: Embed)
        ensures
            embed.title is Some,
            embed.title->0@ == "Server Config for "@ + self.guild.name@,
            embed.colour == Some(EmbedColor::Kiwi.rgb()),
            embed.footer is Some,
            embed.footer->0.text@ == CreateJanitorEmbed::footer_text(*interaction_user),
            embed.fields@.len() == 13,
            forall|i: int|
                0 <= i < 13 ==> (#[trigger] embed.fields@[i]).name@ == config_field_names()[i]
                    && embed.fields@[i].value@ == config_field_values(*self)[i]
                    && !embed.fields@[i].inline,
    {
        let id = u64_to_string(self.guild.id);
        let server_id = inline_code(id.as_str());

        let mut mentions: Vec<String> = Vec::new();
        let mut i: usize = 0;
        while i < self.users.len()
            invariant
                i <= self.users.len(),
                mentions.len() == i,
                forall|k: int|
                    0 <= k < i ==> (#[trigger] mentions[k])@ == user_mention(self.users[k]),
            decreases self.users.len() - i,
        {
            let mut mention = String::new();
            push_user_mention(&mut mention, self.users[i]);
            assert(mention@ =~= user_mention(self.users[i as int]));
            mentions.push(mention);
            i += 1;
        }
        assert(views(mentions@) =~= admin_mentions(self.users@));
        let guild_users = join(&mentions, "\n");

        let log_channel = show_channel(self.server_config.log_channel_id);
        let honeypot_channel = show_channel(self.server_config.honeypot_channel_id);
        let ping_role = match self.server_config.ping_role {
            Some(role) => {
                let mut text = String::new();
                push_role_mention(&mut text, role);
                assert(text@ =~= role_mention(role));
                text
            },
            None => String::from_str("Not set."),
        };

        let ignored_roles = if self.server_config.ignored_roles.len() == 0 {
            String::from_str("None set.")
        } else {
            let roles = &self.server_config.ignored_roles;
            let mut role_texts: Vec<String> = Vec::new();
            let mut j: usize = 0;
            while j < roles.len()
                invariant
                    j <= roles.len(),
                    role_texts.len() == j,
                    forall|k: int|
                        0 <= k < j ==> (#[trigger] role_texts[k])@ == role_mention(roles[k]),
                decreases roles.len() - j,
            {
                let mut mention = String::new();
                push_role_mention(&mut mention, roles[j]);
                assert(mention@ =~= role_mention(roles[j as int]));
                role_texts.push(mention);
                j += 1;
            }
            assert(views(role_texts@) =~= ignored_mentions(roles@));
            join(&role_texts, ", ")
        };

        let ban_reason = match &self.server_config.ban_reason {
            Some(reason) => reason.clone(),
            None => String::from_str("Not set."),
        };

        let mut title = String::new();
        title.append("Server Config for ");
        title.append(self.guild.name.as_str());

        let mut embed = CreateJanitorEmbed::new(interaction_user).into_embed();
        embed.title = Some(title);
        embed.fields.push(plain_field("Server ID", server_id));
        embed.fields.push(plain_field("Whitelisted Admins", guild_users));
        embed.fields.push(plain_field("Log Channel", log_channel));
        embed.fields.push(plain_field("Honeypot Channel", honeypot_channel));
        embed.fields.push(plain_field("Ping Role", ping_role));
        embed.fields.push(
            plain_field("Spam Action Level", self.server_config.spam_action_level.to_string()),
        );
        embed.fields.push(
            plain_field(
                "Impersonation Action Level",
                self.server_config.impersonation_action_level.to_string(),
            ),
        );
        embed.fields.push(
            plain_field(
                "Bigotry Action Level",
                self.server_config.bigotry_action_level.to_string(),
            ),
        );
        embed.fields.push(
            plain_field(
                "Honeypot Action Level",
                self.server_config.honeypot_action_level.to_string(),
            ),
        );
        embed.fields.push(plain_field("Ignored Roles", ignored_roles));
        embed.fields.push(plain_field("Custom Ban Reason", ban_reason));
        embed.fields.push(
            plain_field("Created At", display_time(self.server_config.created_at)),
        );
        embed.fields.push(
            plain_field("Updated At", display_time(self.server_config.updated_at)),
        );
        embed
    }
}

/// The decimal texts of identifiers read back as the identifiers.
pub proof fn lemma_id_texts_round_trip(ids: Seq<u64>, from: int)
    requires
        0 <= from <= ids.len(),
        forall|i: int| 0 <= i < ids.len() ==> #[trigger] ids[i] != 0,
    ensures
        parse_ids_from(id_texts(ids), from) == Ok::<Seq<u64>, SnowflakeError>(ids.skip(from)),
    decreases ids.len() - from,
{
    if from < ids.len() {
        law_snowflake_round_trip(ids[from]);
        lemma_id_texts_round_trip(ids, from + 1);
        assert(id_texts(ids)[from] == decimal(ids[from] as nat));
        assert(seq![ids[from]] + ids.skip(from + 1) == ids.skip(from));
    } else {
        assert(ids.skip(from) == Seq::<u64>::empty());
    }
}

/// Whether every identifier that an update names is a snowflake.
pub open spec fn update_ids_valid(update: UpdateServerConfig) -> bool {
    &&& update.log_channel_id != Some(0u64)
    &&& update.ping_role != Some(0u64)
    &&& update.ignored_roles is Some ==> forall|i: int|
        0 <= i < update.ignored_roles->0@.len() ==> #[trigger] update.ignored_roles->0@[i] != 0
}

/// What is updated is read back: if a valid row is merged with an update
/// whose identifiers are snowflakes, the merged row is valid again, and the
/// configuration read from it holds every setting that the update names
/// and, for the rest, what the configuration held before.
pub proof fn law_update_reads_back(
    previous: DbServerConfig,
    update: UpdateServerConfig,
    merged: DbServerConfig,
    before: ServerConfig,
    after: ServerConfig,
)
    requires
        config_matches_row(before, previous),
        update_ids_valid(update),
        is_merge(merged, previous, update),
    ensures
        row_error(merged) is None,
        config_matches_row(after, merged) ==> {
            &&& after.guild_id == before.guild_id
            &&& after.log_channel_id == (match update.log_channel_id {
                Some(c) => Some(c),
                None => before.log_channel_id,
            })
            &&& after.ping_users == (match update.ping_users {
                Some(p) => p,
                None => before.ping_users,
            })
            &&& after.ping_role == (match update.ping_role {
                Some(r) => Some(r),
                None => before.ping_role,
            })
            &&& after.honeypot_channel_id == before.honeypot_channel_id
            &&& after.spam_action_level == (match update.spam_action_level {
                Some(l) => l,
                None => before.spam_action_level,
            })
            &&& after.impersonation_action_level == (match update.impersonation_action_level {
                Some(l) => l,
                None => before.impersonation_action_level,
            })
            &&& after.bigotry_action_level == (match update.bigotry_action_level {
                Some(l) => l,
                None => before.bigotry_action_level,
            })
            &&& after.honeypot_action_level == (match update.honeypot_action_level {
                Some(l) => l,
                None => before.honeypot_action_level,
            })
            &&& after.ignored_roles@ == (match update.ignored_roles {
                Some(roles) => roles@,
                None => before.ignored_roles@,
            })
            &&& optional_text(after.ban_reason) == (match update.ban_reason {
                Some(reason) => Some(reason@),
                None => optional_text(before.ban_reason),
            })
            &&& after.honeypot_timeout_minutes == update.honeypot_timeout_minutes
        },
{
    match update.log_channel_id {
        Some(c) => {
            law_snowflake_round_trip(c);
        },
        None => {},
    }
    match update.ping_role {
        Some(r) => {
            law_snowflake_round_trip(r);
        },
        None => {},
    }
    match update.ignored_roles {
        Some(roles) => {
            lemma_id_texts_round_trip(roles@, 0);
            assert(roles@.skip(0) == roles@);
        },
        None => {},
    }
    assert(optional_id_spec(merged.log_channel) is Ok);
    assert(optional_id_spec(merged.ping_role) is Ok);
    assert(optional_id_spec(merged.honeypot_channel_id) == optional_id_spec(
        previous.honeypot_channel_id,
    ));
    assert(parse_ids_from(views(merged.ignored_roles@), 0) is Ok);
}

} // verus!
