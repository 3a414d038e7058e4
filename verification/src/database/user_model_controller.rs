//! The users whitelisted to use the bot.

use crate::text::{join, joined, str_eq, views};
use crate::util::discord::{
    parse_id, parse_snowflake_spec, GuildId, PartialGuild, SnowflakeError, User, UserId,
};
use crate::util::embeds::{CreateJanitorEmbed, Embed, EmbedColor, EmbedField};
use crate::util::format::{
    display_time, display_time_spec, fdisplay, fdisplay_spec, HasNameAndID,
};
use crate::util::parsing::{parse_id_texts, parse_ids_from};
use vstd::prelude::*;
use vstd::string::*;

verus! {

/// What a whitelisted user may do.
#[derive(Debug, Clone, Copy, PartialEq, Eq, Structural)]
pub enum UserType {
    /// The user may file reports.
    Reporter,
    /// The user only receives reports.
    Listener,
}

/// What is wrong with a stored user.
#[derive(Debug, Clone, Copy, PartialEq, Eq, Structural)]
pub enum UserError {
    /// An identifier is not a snowflake.
    InvalidId(SnowflakeError),
    /// The kind of user is none of the known ones.
    UnknownUserType,
}

impl UserType {
    /// The lower-case name of the kind.
    pub open spec fn text(self) -> Seq<char> {
        match self {
            UserType::Reporter => "reporter"@,
            UserType::Listener => "listener"@,
        }
    }

    /// The kind that a name stands for, if any.
    pub open spec fn from_text(s: Seq<char>) -> Option<UserType> {
        if s == "reporter"@ {
            Some(UserType::Reporter)
        } else if s == "listener"@ {
            Some(UserType::Listener)
        } else {
            None
        }
    }

    /// The lower-case name of the kind.
    pub fn to_string(&self) -> (s: String)
        ensures
            s@ == self.text(),
    {
        String::from_str(serialize_user_type(self))
    }

    /// The kind that a stored name stands for.
    pub fn from_str(s: &str) -> (r: Result<UserType, UserError>)
        ensures
            match r {
                Ok(t) => UserType::from_text(s@) == Some(t),
                Err(e) => UserType::from_text(s@) is None && e == UserError::UnknownUserType,
            },
    {
        deserialize_user_type(s)
    }
}

/// The kind of user that a stored name stands for.
pub fn deserialize_user_type(user_type: &str) -> (r: Result<UserType, UserError>)
    ensures
        match r {
            Ok(t) => UserType::from_text(user_type@) == Some(t),
            Err(e) => UserType::from_text(user_type@) is None && e == UserError::UnknownUserType,
        },
{
    if str_eq(user_type, "reporter") {
        Ok(UserType::Reporter)
    } else if str_eq(user_type, "listener") {
        Ok(UserType::Listener)
    } else {
        Err(UserError::UnknownUserType)
    }
}

/// The name under which a kind of user is stored.
pub fn serialize_user_type(user_type: &UserType) -> (s: &'static str)
    ensures
        s@ == user_type.text(),
{
    match user_type {
        UserType::Reporter => "reporter",
        UserType::Listener => "listener",
    }
}

/// A row of the `users` table, as stored.
#[derive(Debug)]
pub struct DbUser {
    pub id: String,
    pub user_type: String,
    pub servers: Vec<String>,
    pub created_at: i64,
}

/// A whitelisted user.
#[derive(Debug, Clone)]
pub struct JanitorUser {
    pub user_id: UserId,
    pub user_type: UserType,
    pub guild_ids: Vec<GuildId>,
    pub created_at: i64,
}

/// What a whitelisted user is created or updated with.
#[derive(Debug)]
pub struct CreateJanitorUser<'a> {
    pub user_id: UserId,
    pub user_type: UserType,
    pub guild_ids: &'a Vec<GuildId>,
}

/// The first thing wrong with a row, reading the user, then the kind, then
/// the guilds.
pub open spec fn row_error(db: DbUser) -> Option<UserError> {
    if parse_snowflake_spec(db.id@) is Err {
        Some(UserError::InvalidId(parse_snowflake_spec(db.id@)->Err_0))
    } else if UserType::from_text(db.user_type@) is None {
        Some(UserError::UnknownUserType)
    } else if parse_ids_from(views(db.servers@), 0) is Err {
        Some(UserError::InvalidId(parse_ids_from(views(db.servers@), 0)->Err_0))
    } else {
        None
    }
}

/// Whether `user` says what the (valid) row `db` says.
pub open spec fn user_matches_row(user: JanitorUser, db: DbUser) -> bool {
    &&& parse_snowflake_spec(db.id@) == Ok::<u64, SnowflakeError>(user.user_id)
    &&& UserType::from_text(db.user_type@) == Some(user.user_type)
    &&& parse_ids_from(views(db.servers@), 0) == Ok::<Seq<u64>, SnowflakeError>(user.guild_ids@)
    &&& user.created_at == db.created_at
}

/// The guilds of a user, each written for the Discord client.
pub open spec fn guild_lines(guilds: Seq<PartialGuild>) -> Seq<Seq<char>> {
    Seq::new(guilds.len(), |i: int| fdisplay_spec(guilds[i].name_spec(), guilds[i].id_spec()))
}

impl JanitorUser {
    /// Reads a user out of a database row. Succeeds exactly when nothing is
    /// wrong with the row, and else reports the first thing that is.
    pub fn try_from(db_user: DbUser) -> (r: Result<JanitorUser, UserError>)
        ensures
            match r {
                Ok(user) => row_error(db_user) is None && user_matches_row(user, db_user),
                Err(e) => row_error(db_user) == Some(e),
            },
    {
        let user_id = match parse_id(db_user.id.as_str()) {
            Ok(id) => id,
            Err(e) => {
                return Err(UserError::InvalidId(e));
            },
        };
        let user_type = match UserType::from_str(db_user.user_type.as_str()) {
            Ok(t) => t,
            Err(e) => {
                return Err(e);
            },
        };
        let guild_ids = match parse_id_texts(&db_user.servers) {
            Ok(ids) => ids,
            Err(e) => {
                return Err(UserError::InvalidId(e));
            },
        };
        Ok(JanitorUser { user_id, user_type, guild_ids, created_at: db_user.created_at })
    }

    /// The embed that shows a whitelisted user: the guilds the user is
    /// whitelisted for, since when, and as what.
    pub fn to_embed(
        &self,
        interaction_user: &User,
        target_user: &User,
        guilds: &Vec<PartialGuild>,
    ) -> (embed: Embed)
        ensures
            embed.title is Some,
            embed.title->0@ == "User Info "@ + fdisplay_spec(
                target_user.name_spec(),
                target_user.id_spec(),
            ),
            embed.colour == Some(EmbedColor::Kiwi.rgb()),
            embed.footer is Some,
            embed.footer->0.text@ == CreateJanitorEmbed::footer_text(*interaction_user),
            embed.fields@.len() == 3,
            embed.fields@[0].name@ == "Servers"@,
            embed.fields@[0].value@ == joined(guild_lines(guilds@), "\n"@),
            embed.fields@[1].name@ == "Created At"@,
            embed.fields@[1].value@ == display_time_spec(self.created_at),
            embed.fields@[2].name@ == "User Type"@,
            embed.fields@[2].value@ == self.user_type.text(),
            forall|i: int| 0 <= i < 3 ==> !(#[trigger] embed.fields@[i]).inline,
    {
        let mut lines: Vec<String> = Vec::new();
        let mut i: usize = 0;
        while i < guilds.len()
            invariant
                i <= guilds.len(),
                lines.len() == i,
                forall|k: int|
                    0 <= k < i ==> (#[trigger] lines[k])@ == fdisplay_spec(
                        guilds[k].name_spec(),
                        guilds[k].id_spec(),
                    ),
            decreases guilds.len() - i,
        {
            lines.push(fdisplay(&guilds[i]));
            i += 1;
        }
        assert(views(lines@) =~= guild_lines(guilds@));
        let mut title = String::new();
        title.append("User Info ");
        let who = fdisplay(target_user);
        title.append(who.as_str());
        let mut embed = CreateJanitorEmbed::new(interaction_user).into_embed();
        embed.title = Some(title);
        embed.fields.push(
            EmbedField {
                name: String::from_str("Servers"),
                value: join(&lines, "\n"),
                inline: false,
            },
        );
        embed.fields.push(
            EmbedField {
                name: String::from_str("Created At"),
                value: display_time(self.created_at),
                inline: false,
            },
        );
        embed.fields.push(
            EmbedField {
                name: String::from_str("User Type"),
                value: self.user_type.to_string(),
                inline: false,
            },
        );
        embed
    }
}

/// Gateway to the `users` table.
#[derive(Debug)]
pub struct UserModelController;

/// Why a user could not be stored.
#[derive(Debug, Clone, Copy, PartialEq, Eq, Structural)]
pub enum CreateUserError {
    /// The user is whitelisted already.
    UniqueViolation,
    /// The database failed in some other way.
    Database,
}

impl UserModelController {
    /// Names the failure of storing a new user, given whether the database
    /// reported a violation of a unique key.
    pub fn create(is_unique_violation: bool) -> (e: CreateUserError)
        ensures
            e == (if is_unique_violation {
                CreateUserError::UniqueViolation
            } else {
                CreateUserError::Database
            }),
    {
        if is_unique_violation {
            CreateUserError::UniqueViolation
        } else {
            CreateUserError::Database
        }
    }
}

/// Kinds of user are read back as written.
pub proof fn law_user_type_round_trip(user_type: UserType)
    ensures
        UserType::from_text(user_type.text()) == Some(user_type),
{
    reveal_strlit("reporter");
    reveal_strlit("listener");
    assert("reporter"@[0] != "listener"@[0]);
}

} // verus!
