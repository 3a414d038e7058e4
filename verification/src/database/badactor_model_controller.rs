//! Reported incidents ("bad actors"): their shape, how a database row
//! becomes one, the reason given when one is banned, and the embed that
//! announces one.

use crate::text::{
    decimal, push_i64, push_u64, replace_all, replaced, signed_decimal, str_eq,
};
use crate::util::discord::{
    parse_id, parse_snowflake_spec, push_user_mention, user_mention, GuildId, PartialGuild,
    SnowflakeError, User, UserId,
};
use crate::util::embeds::{CreateAttachment, Embed, EmbedColor, EmbedField, EmbedFooter};
use crate::util::format::{
    display_bool, display_username, fdisplay, fdisplay_spec, username_spec,
};
use vstd::prelude::*;
use vstd::string::*;

verus! {

/// The category of a report.
#[derive(Debug, Copy, Clone, PartialEq, Eq, Structural)]
pub enum BadActorType {
    Spam,
    Impersonation,
    Bigotry,
    Honeypot,
}

/// The categories an operator can choose when filing a report by hand.
#[derive(Debug, Copy, Clone, PartialEq, Eq, Structural)]
pub enum BadActorTypeChoice {
    Spam,
    Impersonation,
    Bigotry,
}

/// Which reports a listing shows.
#[derive(Debug, Copy, Clone, PartialEq, Eq, Structural)]
pub enum BadActorQueryType {
    All,
    Active,
    Inactive,
}

/// What is wrong with a stored report.
#[derive(Debug, Copy, Clone, PartialEq, Eq, Structural)]
pub enum BadActorError {
    /// The category is none of the known ones.
    InvalidActorType,
    /// An identifier is not a snowflake.
    InvalidId(SnowflakeError),
}

impl BadActorType {
    /// The lower-case name of the category.
    pub open spec fn text(self) -> Seq<char> {
        match self {
            BadActorType::Spam => "spam"@,
            BadActorType::Impersonation => "impersonation"@,
            BadActorType::Bigotry => "bigotry"@,
            BadActorType::Honeypot => "honeypot"@,
        }
    }

    /// The category that a name stands for, if any.
    pub open spec fn from_text(s: Seq<char>) -> Option<BadActorType> {
        if s == "spam"@ {
            Some(BadActorType::Spam)
        } else if s == "impersonation"@ {
            Some(BadActorType::Impersonation)
        } else if s == "bigotry"@ {
            Some(BadActorType::Bigotry)
        } else if s == "honeypot"@ {
            Some(BadActorType::Honeypot)
        } else {
            None
        }
    }

    /// The lower-case name of the category.
    pub fn as_str(&self) -> (s: &'static str)
        ensures
            s@ == self.text(),
    {
        match self {
            BadActorType::Spam => "spam",
            BadActorType::Impersonation => "impersonation",
            BadActorType::Bigotry => "bigotry",
            BadActorType::Honeypot => "honeypot",
        }
    }

    /// The lower-case name of the category.
    pub fn to_string(&self) -> (s: String)
        ensures
            s@ == self.text(),
    {
        String::from_str(self.as_str())
    }

    /// The category that a stored name stands for.
    pub fn from_str(s: &str) -> (r: Result<BadActorType, BadActorError>)
        ensures
            match r {
                Ok(t) => BadActorType::from_text(s@) == Some(t),
                Err(e) => BadActorType::from_text(s@) is None && e
                    == BadActorError::InvalidActorType,
            },
    {
        if str_eq(s, "spam") {
            Ok(BadActorType::Spam)
        } else if str_eq(s, "impersonation") {
            Ok(BadActorType::Impersonation)
        } else if str_eq(s, "bigotry") {
            Ok(BadActorType::Bigotry)
        } else if str_eq(s, "honeypot") {
            Ok(BadActorType::Honeypot)
        } else {
            Err(BadActorError::InvalidActorType)
        }
    }
}

impl BadActorTypeChoice {
    /// The category that the choice stands for.
    pub fn actor_type(self) -> (t: BadActorType)
        ensures
            t == (match self {
                BadActorTypeChoice::Spam => BadActorType::Spam,
                BadActorTypeChoice::Impersonation => BadActorType::Impersonation,
                BadActorTypeChoice::Bigotry => BadActorType::Bigotry,
            }),
    {
        match self {
            BadActorTypeChoice::Spam => BadActorType::Spam,
            BadActorTypeChoice::Impersonation => BadActorType::Impersonation,
            BadActorTypeChoice::Bigotry => BadActorType::Bigotry,
        }
    }
}

/// A row of the `bad_actors` table, as stored.
#[derive(Debug, Clone)]
pub struct DbBadActor {
    pub id: i32,
    pub user_id: String,
    pub is_active: bool,
    pub actor_type: String,
    pub originally_created_in: String,
    pub screenshot_proof: Option<String>,
    pub explanation: Option<String>,
    pub created_at: i64,
    pub updated_at: i64,
    pub last_changed_by: String,
}

/// A reported incident.
#[derive(Debug, Clone)]
pub struct BadActor {
    pub id: i32,
    pub user_id: UserId,
    pub is_active: bool,
    pub actor_type: BadActorType,
    pub origin_guild_id: GuildId,
    pub screenshot_proof: Option<String>,
    pub explanation: Option<String>,
    pub created_at: i64,
    pub updated_at: i64,
    pub updated_by_user_id: UserId,
}

/// What a new report is made of.
#[derive(Debug, Clone)]
pub struct CreateBadActorOptions {
    pub user_id: UserId,
    pub actor_type: BadActorType,
    pub screenshot_proof: Option<String>,
    pub explanation: Option<String>,
    pub origin_guild_id: GuildId,
    pub updated_by_user_id: UserId,
}

/// What the embed for a report is built from, besides the report.
#[derive(Debug)]
pub struct BroadcastEmbedOptions<'a> {
    pub origin_guild_id: GuildId,
    /// The guild of origin, where it could be resolved.
    pub origin_guild: Option<PartialGuild>,
    pub report_author: &'a User,
    /// The reported account, where it could be resolved.
    pub target_user: Option<&'a User>,
    /// The bot's own account, where it could be resolved.
    pub bot_user: Option<&'a User>,
    /// The screenshot of the report, where there is one and it could be read.
    pub attachment: Option<CreateAttachment>,
}

/// The first thing wrong with a row, reading the category, then the user,
/// the guild of origin and the user who last changed it.
pub open spec fn row_error(db: DbBadActor) -> Option<BadActorError> {
    if BadActorType::from_text(db.actor_type@) is None {
        Some(BadActorError::InvalidActorType)
    } else if parse_snowflake_spec(db.user_id@) is Err {
        Some(BadActorError::InvalidId(parse_snowflake_spec(db.user_id@)->Err_0))
    } else if parse_snowflake_spec(db.originally_created_in@) is Err {
        Some(BadActorError::InvalidId(parse_snowflake_spec(db.originally_created_in@)->Err_0))
    } else if parse_snowflake_spec(db.last_changed_by@) is Err {
        Some(BadActorError::InvalidId(parse_snowflake_spec(db.last_changed_by@)->Err_0))
    } else {
        None
    }
}

/// Whether `actor` says what the (valid) row `db` says.
pub open spec fn actor_matches_row(actor: BadActor, db: DbBadActor) -> bool {
    &&& actor.id == db.id
    &&& parse_snowflake_spec(db.user_id@) == Ok::<u64, SnowflakeError>(actor.user_id)
    &&& actor.is_active == db.is_active
    &&& BadActorType::from_text(db.actor_type@) == Some(actor.actor_type)
    &&& parse_snowflake_spec(db.originally_created_in@) == Ok::<u64, SnowflakeError>(
        actor.origin_guild_id,
    )
    &&& actor.screenshot_proof == db.screenshot_proof
    &&& actor.explanation == db.explanation
    &&& actor.created_at == db.created_at
    &&& actor.updated_at == db.updated_at
    &&& parse_snowflake_spec(db.last_changed_by@) == Ok::<u64, SnowflakeError>(
        actor.updated_by_user_id,
    )
}

/// The reason given for a ban when the guild has no template of its own:
/// `Bad Actor type (id)`.
pub open spec fn default_ban_reason(actor_type: BadActorType, id: i32) -> Seq<char> {
    "Bad Actor "@ + actor_type.text() + " ("@ + signed_decimal(id as int) + ")"@
}

/// The reason given for a ban under a guild's template: the template with
/// every `{type}` replaced by the category and then every `{id}` by the
/// report's number.
pub open spec fn custom_ban_reason(template: Seq<char>, actor_type: BadActorType, id: i32) -> Seq<
    char,
> {
    replaced(replaced(template, "{type}"@, actor_type.text()), "{id}"@, signed_decimal(id as int))
}

/// The reason given for a ban.
pub open spec fn ban_reason_spec(
    custom_reason: Option<Seq<char>>,
    actor_type: BadActorType,
    id: i32,
) -> Seq<char> {
    match custom_reason {
        Some(template) => custom_ban_reason(template, actor_type, id),
        None => default_ban_reason(actor_type, id),
    }
}

/// The names of the fields of a broadcast embed, in order.
pub open spec fn broadcast_field_names() -> Seq<Seq<char>> {
    seq![
        "Report ID"@,
        "Active"@,
        "Type"@,
        "Explanation"@,
        "Server of Origin"@,
        "Last Updated By"@,
    ]
}

/// The title of a broadcast embed: the shown name of the reported account
/// (or `Unknown User`), then its identifier as inline code in brackets.
pub open spec fn broadcast_title(target_user: Option<&User>, user_id: UserId) -> Seq<char> {
    (match target_user {
        Some(u) => username_spec(*u),
        None => "Unknown User"@,
    }) + " (`"@ + decimal(user_id as nat) + "`)"@
}

/// How the author of a report is written: a mention, then the identifier
/// as inline code in brackets.
pub open spec fn broadcast_author(author: User) -> Seq<char> {
    user_mention(author.id) + " (`"@ + decimal(author.id as nat) + "`)"@
}

/// How the guild of origin is written: name and identifier where the guild
/// is known, else the identifier alone.
pub open spec fn broadcast_origin(origin_guild: Option<PartialGuild>, origin_guild_id: GuildId) -> Seq<
    char,
> {
    match origin_guild {
        Some(g) => fdisplay_spec(g.name@, decimal(g.id as nat)),
        None => decimal(origin_guild_id as nat),
    }
}

/// The values of the fields of the broadcast embed for `actor`, in order.
pub open spec fn broadcast_field_values(actor: BadActor, options: BroadcastEmbedOptions) -> Seq<
    Seq<char>,
> {
    seq![
        signed_decimal(actor.id as int),
        if actor.is_active {
            "Yes"@
        } else {
            "No"@
        },
        actor.actor_type.text(),
        match actor.explanation {
            Some(e) => e@,
            None => "No explanation provided."@,
        },
        broadcast_origin(options.origin_guild, options.origin_guild_id),
        broadcast_author(*options.report_author),
    ]
}

/// Which fields of a broadcast embed are shown side by side.
pub open spec fn broadcast_field_inline() -> Seq<bool> {
    seq![true, true, true, false, false, false]
}

fn field(name: &str, value: String, inline: bool) -> (f: EmbedField)
    ensures
        f.name@ == name@,
        f.value == value,
        f.inline == inline,
{
    EmbedField { name: String::from_str(name), value, inline }
}

impl BadActor {
    /// Reads a report out of a database row. Succeeds exactly when nothing
    /// is wrong with the row, and else reports the first thing that is.
    pub fn try_from(db: DbBadActor) -> (r: Result<BadActor, BadActorError>)
        ensures
            match r {
                Ok(actor) => row_error(db) is None && actor_matches_row(actor, db),
                Err(e) => row_error(db) == Some(e),
            },
    {
        let actor_type = match BadActorType::from_str(db.actor_type.as_str()) {
            Ok(t) => t,
            Err(e) => {
                return Err(e);
            },
        };
        let user_id = match parse_id(db.user_id.as_str()) {
            Ok(id) => id,
            Err(e) => {
                return Err(BadActorError::InvalidId(e));
            },
        };
        let origin_guild_id = match parse_id(db.originally_created_in.as_str()) {
            Ok(id) => id,
            Err(e) => {
                return Err(BadActorError::InvalidId(e));
            },
        };
        let updated_by_user_id = match parse_id(db.last_changed_by.as_str()) {
            Ok(id) => id,
            Err(e) => {
                return Err(BadActorError::InvalidId(e));
            },
        };
        Ok(
            BadActor {
                id: db.id,
                user_id,
                is_active: db.is_active,
                actor_type,
                origin_guild_id,
                screenshot_proof: db.screenshot_proof,
                explanation: db.explanation,
                created_at: db.created_at,
                updated_at: db.updated_at,
                updated_by_user_id,
            },
        )
    }

    /// The reason to give when this account is banned: the guild's own
    /// template with `{type}` and `{id}` filled in, or the default reason.
    pub fn ban_reason(&self, custom_reason: Option<String>) -> (reason: String)
        ensures
            reason@ == ban_reason_spec(
                match custom_reason {
                    Some(t) => Some(t@),
                    None => None,
                },
                self.actor_type,
                self.id,
            ),
    {
        let mut id = String::new();
        push_i64(&mut id, self.id as i64);
        assert(id@ =~= signed_decimal(self.id as int));
        match custom_reason {
            Some(template) => {
                let with_type = replace_all(template.as_str(), "{type}", self.actor_type.as_str());
                replace_all(with_type.as_str(), "{id}", id.as_str())
            },
            None => {
                let mut reason = String::new();
                reason.append("Bad Actor ");
                reason.append(self.actor_type.as_str());
                reason.append(" (");
                reason.append(id.as_str());
                reason.append(")");
                assert(reason@ =~= default_ban_reason(self.actor_type, self.id));
                reason
            },
        }
    }

    /// Builds the embed that announces this report, and hands the
    /// screenshot back to be sent with it.
    pub fn to_broadcast_embed(&self, options: BroadcastEmbedOptions<'_>, colour: EmbedColor) -> (r:
        (Embed, Option<CreateAttachment>))
        ensures
            r.1 == options.attachment,
            r.0.title is Some,
            r.0.title->0@ == broadcast_title(options.target_user, self.user_id),
            r.0.description is None,
            r.0.colour == Some(colour.rgb()),
            r.0.author is None,
            r.0.fields@.len() == 6,
            forall|i: int|
                0 <= i < 6 ==> (#[trigger] r.0.fields@[i]).name@ == broadcast_field_names()[i]
                    && r.0.fields@[i].value@ == broadcast_field_values(*self, options)[i]
                    && r.0.fields@[i].inline == broadcast_field_inline()[i],
            match options.target_user {
                Some(u) => r.0.thumbnail is Some && r.0.thumbnail->0@ == u.avatar_url@,
                None => r.0.thumbnail is None,
            },
            match options.bot_user {
                Some(b) => r.0.footer is Some && r.0.footer->0.text@ == username_spec(*b)
                    && r.0.footer->0.icon_url is Some && r.0.footer->0.icon_url->0@
                    == b.avatar_url@,
                None => r.0.footer is None,
            },
            match options.attachment {
                Some(a) => r.0.image is Some && r.0.image->0@ == "attachment://"@ + a.filename@,
                None => r.0.image is None,
            },
    {
        let mut title = String::new();
        match options.target_user {
            Some(u) => {
                title.append(display_username(u));
            },
            None => {
                title.append("Unknown User");
            },
        }
        title.append(" (`");
        push_u64(&mut title, self.user_id);
        title.append("`)");
        assert(title@ =~= broadcast_title(options.target_user, self.user_id));

        let mut author = String::new();
        push_user_mention(&mut author, options.report_author.id);
        author.append(" (`");
        push_u64(&mut author, options.report_author.id);
        author.append("`)");
        assert(author@ =~= broadcast_author(*options.report_author));

        let display_guild = match &options.origin_guild {
            Some(g) => fdisplay(g),
            None => {
                let mut s = String::new();
                push_u64(&mut s, options.origin_guild_id);
                assert(s@ =~= decimal(options.origin_guild_id as nat));
                s
            },
        };

        let mut report_id = String::new();
        push_i64(&mut report_id, self.id as i64);
        assert(report_id@ =~= signed_decimal(self.id as int));

        let explanation = match &self.explanation {
            Some(e) => e.clone(),
            None => String::from_str("No explanation provided."),
        };

        let mut fields: Vec<EmbedField> = Vec::new();
        fields.push(field("Report ID", report_id, true));
        fields.push(field("Active", String::from_str(display_bool(self.is_active)), true));
        fields.push(field("Type", self.actor_type.to_string(), true));
        fields.push(field("Explanation", explanation, false));
        fields.push(field("Server of Origin", display_guild, false));
        fields.push(field("Last Updated By", author, false));

        let thumbnail = match options.target_user {
            Some(u) => Some(u.avatar_url.clone()),
            None => None,
        };
        let footer = match options.bot_user {
            Some(b) => Some(
                EmbedFooter {
                    text: String::from_str(display_username(b)),
                    icon_url: Some(b.avatar_url.clone()),
                },
            ),
            None => None,
        };
        let image = match &options.attachment {
            Some(a) => {
                let mut url = String::new();
                url.append("attachment://");
                url.append(a.filename.as_str());
                assert(url@ =~= "attachment://"@ + a.filename@);
                Some(url)
            },
            None => None,
        };
        let embed = Embed {
            title: Some(title),
            description: None,
            colour: Some(colour.value()),
            fields,
            thumbnail,
            image,
            footer,
            author: None,
        };
        (embed, options.attachment)
    }
}

/// Gateway to the `bad_actors` table.
#[derive(Debug)]
pub struct BadActorModelController;

impl BadActorModelController {
    /// The query that lists the most recent reports of the given kind
    /// (all kinds where none is given), newest first, up to a limit.
    pub fn get_by_type_query(query_type: Option<BadActorQueryType>) -> (query: &'static str)
        ensures
            query@ == (match query_type {
                Some(BadActorQueryType::Active) =>
                    "SELECT * FROM bad_actors WHERE is_active = true ORDER BY created_at DESC LIMIT $1"@,
                Some(BadActorQueryType::Inactive) =>
                    "SELECT * FROM bad_actors WHERE is_active = false ORDER BY created_at DESC LIMIT $1"@,
                _ => "SELECT * FROM bad_actors ORDER BY created_at DESC LIMIT $1;"@,
            }),
    {
        match query_type {
            Some(BadActorQueryType::Active) => {
                "SELECT * FROM bad_actors WHERE is_active = true ORDER BY created_at DESC LIMIT $1"
            },
            Some(BadActorQueryType::Inactive) => {
                "SELECT * FROM bad_actors WHERE is_active = false ORDER BY created_at DESC LIMIT $1"
            },
            _ => "SELECT * FROM bad_actors ORDER BY created_at DESC LIMIT $1;",
        }
    }

    /// Whether a user has an active case, given what the lookup of one
    /// returned: a failed lookup counts as none.
    pub fn has_active_case(lookup: Result<bool, ()>) -> (active: bool)
        ensures
            active == (lookup == Ok::<bool, ()>(true)),
    {
        match lookup {
            Ok(found) => found,
            Err(_) => false,
        }
    }
}

/// Categories are read back as written: the name of every category
/// stands for that category.
pub proof fn law_actor_type_round_trip(actor_type: BadActorType)
    ensures
        BadActorType::from_text(actor_type.text()) == Some(actor_type),
{
    reveal_strlit("spam");
    reveal_strlit("impersonation");
    reveal_strlit("bigotry");
    reveal_strlit("honeypot");
    assert("spam"@.len() == 4);
    assert("impersonation"@.len() == 13);
    assert("bigotry"@.len() == 7);
    assert("honeypot"@.len() == 8);
}

/// A template without placeholders is the reason itself.
pub proof fn law_plain_template(template: Seq<char>, actor_type: BadActorType, id: i32)
    requires
        !template.contains('{'),
    ensures
        custom_ban_reason(template, actor_type, id) == template,
{
    reveal_strlit("{type}");
    reveal_strlit("{id}");
    assert("{type}"@.len() == 6);
    assert("{id}"@.len() == 4);
    lemma_replace_nothing(template, "{type}"@, actor_type.text(), 0);
    assert(template.subrange(0, template.len() as int) == template);
    lemma_replace_nothing(template, "{id}"@, signed_decimal(id as int), 0);
}

/// Replacing a pattern that starts with a character the text does not
/// hold changes nothing.
proof fn lemma_replace_nothing(s: Seq<char>, pat: Seq<char>, with: Seq<char>, i: int)
    requires
        pat.len() > 0,
        !s.contains(pat[0]),
        0 <= i <= s.len(),
    ensures
        crate::text::replace_from(s, pat, with, i) == s.subrange(i, s.len() as int),
    decreases s.len() - i,
{
    if i < s.len() {
        if crate::text::matches_at(s, pat, i) {
            assert(s.subrange(i, i + pat.len())[0] == pat[0]);
            assert(s[i] == pat[0]);
        }
        lemma_replace_nothing(s, pat, with, i + 1);
        assert(seq![s[i]] + s.subrange(i + 1, s.len() as int) == s.subrange(i, s.len() as int));
    }
}

} // verus!
