//! The webhook fan-out: which stored webhooks are usable, and what is sent
//! to them.

use crate::fanout::broadcast_handler::{
    get_broadcast_message_no_buttons, BroadcastType, CreateMessage,
};
use crate::text::{decimal, push_u64};
use crate::util::discord::{parse_id, parse_snowflake_spec, GuildId, PartialGuild, SnowflakeError};
use crate::util::embeds::{CreateAttachment, Embed};
use crate::util::format::{display, display_spec, HasNameAndID};
use vstd::prelude::*;
use vstd::string::*;

verus! {

/// The error of the `url` crate's parser.
#[verifier::external_type_specification]
#[verifier::external_body]
pub struct ExParseError(url::ParseError);

/// The normal form that the `url` crate gives an address, or `None` where
/// the crate does not take the text for an absolute URL.
pub uninterp spec fn url_serialization(input: Seq<char>) -> Option<Seq<char>>;

/// Parses an address and writes it back in normal form.
///
/// Trusted: calls `url::Url::parse` and turns the parsed URL into its
/// serialization. The contract only gives the outcome a name: the same
/// text always parses to the same result.
#[verifier::external_body]
fn parse_url(input: &str) -> (r: Result<String, url::ParseError>)
    ensures
        match r {
            Ok(serialization) => url_serialization(input@) == Some(serialization@),
            Err(_) => url_serialization(input@) is None,
        },
{
    url::Url::parse(input).map(String::from)
}

/// A row of the `webhooks` table, as stored.
#[derive(Debug)]
pub struct DbBroadcastWebhook {
    pub guild_id: String,
    pub guild_name: String,
    pub webhook_url: String,
}

/// A stored webhook with a valid guild and address.
#[derive(Debug, Clone)]
pub struct BroadcastWebhook {
    pub guild_id: GuildId,
    pub guild_name: String,
    /// The address, in normal form.
    pub webhook_url: String,
}

/// What is wrong with a stored webhook.
#[derive(Debug, Clone, Copy, PartialEq, Eq, Structural)]
pub enum WebhookError {
    /// The guild's identifier is not a snowflake.
    InvalidGuildId(SnowflakeError),
    /// The address is no absolute URL.
    InvalidUrl,
}

/// What reading a stored webhook gives, where `url` is the normal form of
/// its address (`None` if the address is no URL): the guild is checked
/// first, then the address.
pub open spec fn webhook_spec(db: DbBroadcastWebhook, url: Option<Seq<char>>) -> Result<
    (GuildId, Seq<char>, Seq<char>),
    WebhookError,
> {
    match parse_snowflake_spec(db.guild_id@) {
        Err(e) => Err(WebhookError::InvalidGuildId(e)),
        Ok(guild_id) => match url {
            None => Err(WebhookError::InvalidUrl),
            Some(address) => Ok((guild_id, db.guild_name@, address)),
        },
    }
}

/// A webhook as the triple that `webhook_spec` speaks of.
pub open spec fn webhook_view(webhook: BroadcastWebhook) -> (GuildId, Seq<char>, Seq<char>) {
    (webhook.guild_id, webhook.guild_name@, webhook.webhook_url@)
}

impl BroadcastWebhook {
    /// Reads a stored webhook, given the normal form of its address as the
    /// URL parser returned it.
    pub fn from_row(db: DbBroadcastWebhook, url: Option<String>) -> (r: Result<
        BroadcastWebhook,
        WebhookError,
    >)
        ensures
            match r {
                Ok(webhook) => webhook_spec(
                    db,
                    match url {
                        Some(u) => Some(u@),
                        None => None,
                    },
                ) == Ok::<(GuildId, Seq<char>, Seq<char>), WebhookError>(webhook_view(webhook)),
                Err(e) => webhook_spec(
                    db,
                    match url {
                        Some(u) => Some(u@),
                        None => None,
                    },
                ) == Err::<(GuildId, Seq<char>, Seq<char>), WebhookError>(e),
            },
    {
        let guild_id = match parse_id(db.guild_id.as_str()) {
            Ok(id) => id,
            Err(e) => {
                return Err(WebhookError::InvalidGuildId(e));
            },
        };
        match url {
            Some(webhook_url) => Ok(
                BroadcastWebhook { guild_id, guild_name: db.guild_name, webhook_url },
            ),
            None => Err(WebhookError::InvalidUrl),
        }
    }

    /// Reads a stored webhook: its guild must be a snowflake and its
    /// address an absolute URL.
    pub fn try_from(db: DbBroadcastWebhook) -> (r: Result<BroadcastWebhook, WebhookError>)
        ensures
            match r {
                Ok(webhook) => webhook_spec(db, url_serialization(db.webhook_url@)) == Ok::<
                    (GuildId, Seq<char>, Seq<char>),
                    WebhookError,
                >(webhook_view(webhook)),
                Err(e) => webhook_spec(db, url_serialization(db.webhook_url@)) == Err::<
                    (GuildId, Seq<char>, Seq<char>),
                    WebhookError,
                >(e),
            },
    {
        let url = match parse_url(db.webhook_url.as_str()) {
            Ok(serialization) => Some(serialization),
            Err(_) => None,
        };
        BroadcastWebhook::from_row(db, url)
    }
}

/// The outcome of connecting to one stored webhook: a handle, or the text
/// of the error.
#[derive(Debug)]
pub struct WebhookListenerResult<W> {
    pub guild_id: GuildId,
    pub guild_name: String,
    pub webhook: Result<W, String>,
}

/// A webhook that can be executed.
#[derive(Debug)]
pub struct WebhookListener<W> {
    pub guild_id: GuildId,
    pub guild_name: String,
    pub webhook: W,
}

/// A webhook that could not be connected to.
#[derive(Debug)]
pub struct WebhookFailure {
    pub guild_id: GuildId,
    pub guild_name: String,
    pub error: String,
}

/// The webhooks that can be executed and those that cannot.
#[derive(Debug)]
pub struct DiscordWebhooks<W> {
    pub good_webhooks: Vec<WebhookListener<W>>,
    pub failures: Vec<WebhookFailure>,
}

/// The webhooks among `results` that were connected to, in order.
pub open spec fn connected<W>(results: Seq<WebhookListenerResult<W>>) -> Seq<WebhookListener<W>>
    decreases results.len(),
{
    if results.len() == 0 {
        Seq::empty()
    } else {
        let rest = connected(results.drop_last());
        let last = results.last();
        match last.webhook {
            Ok(webhook) => rest.push(
                WebhookListener { guild_id: last.guild_id, guild_name: last.guild_name, webhook },
            ),
            Err(_) => rest,
        }
    }
}

/// The webhooks among `results` that were not connected to, in order.
pub open spec fn failed<W>(results: Seq<WebhookListenerResult<W>>) -> Seq<WebhookFailure>
    decreases results.len(),
{
    if results.len() == 0 {
        Seq::empty()
    } else {
        let rest = failed(results.drop_last());
        let last = results.last();
        match last.webhook {
            Ok(_) => rest,
            Err(error) => rest.push(
                WebhookFailure { guild_id: last.guild_id, guild_name: last.guild_name, error },
            ),
        }
    }
}

/// Sorts the outcomes of connecting to the stored webhooks: a webhook that
/// failed is set aside to be logged and keeps no other from being executed.
pub fn get_discord_webhooks<W>(results: Vec<WebhookListenerResult<W>>) -> (sorted: DiscordWebhooks<
    W,
>)
    ensures
        sorted.good_webhooks@ == connected(results@),
        sorted.failures@ == failed(results@),
{
    let mut good_webhooks: Vec<WebhookListener<W>> = Vec::new();
    let mut failures: Vec<WebhookFailure> = Vec::new();
    let ghost all = results@;
    assert(all.take(0).len() == 0);
    for result in it: results
        invariant
            it.seq() == all,
            good_webhooks@ == connected(all.take(it.index() as int)),
            failures@ == failed(all.take(it.index() as int)),
    {
        proof {
            let i = it.index() as int;
            assert(all.take(i + 1).drop_last() == all.take(i));
            assert(all.take(i + 1).last() == result);
        }
        let WebhookListenerResult { guild_id, guild_name, webhook } = result;
        match webhook {
            Ok(webhook) => {
                good_webhooks.push(WebhookListener { guild_id, guild_name, webhook });
            },
            Err(error) => {
                failures.push(WebhookFailure { guild_id, guild_name, error });
            },
        }
    }
    assert(all.take(all.len() as int) == all);
    DiscordWebhooks { good_webhooks, failures }
}

/// What a webhook's copy is made of.
#[derive(Debug)]
pub struct BroadcastWebhookOptions {
    pub broadcast_type: BroadcastType,
    pub embed: Embed,
    pub attachment: Option<CreateAttachment>,
}

/// A webhook's copy of a broadcast: the sentence that announces the event,
/// the shared embed and file, no buttons and no pings.
pub fn broadcast_to_webhooks(options: BroadcastWebhookOptions) -> (message: CreateMessage)
    ensures
        message.content@ == options.broadcast_type.message_spec(),
        message.embed == options.embed,
        message.attachment == options.attachment,
        message.buttons@.len() == 0,
{
    get_broadcast_message_no_buttons(
        options.broadcast_type.message(),
        options.embed,
        options.attachment,
    )
}

/// A guild as the webhooks table names it: `name (id)`.
pub open spec fn stored_guild_text(guild_name: Seq<char>, guild_id: GuildId) -> Seq<char> {
    guild_name + " ("@ + decimal(guild_id as nat) + ")"@
}

/// What goes to the operations log when a webhook could not be connected
/// to: the guild is named as Discord knows it where it resolves, else as
/// the table names it.
pub open spec fn connect_failure_text(failure: WebhookFailure, guild: Option<&PartialGuild>) -> Seq<
    char,
> {
    "Failed to connect to webhook in guild "@ + (match guild {
        Some(g) => display_spec(g.name_spec(), g.id_spec()),
        None => stored_guild_text(failure.guild_name@, failure.guild_id),
    })
}

/// What goes to the operations log when a webhook could not be connected
/// to.
pub fn connect_failure_log(failure: &WebhookFailure, guild: Option<&PartialGuild>) -> (text: String)
    ensures
        text@ == connect_failure_text(*failure, guild),
{
    let mut text = String::new();
    text.append("Failed to connect to webhook in guild ");
    match guild {
        Some(g) => {
            let shown = display(g);
            text.append(shown.as_str());
        },
        None => {
            let ghost before = text@;
            text.append(failure.guild_name.as_str());
            text.append(" (");
            push_u64(&mut text, failure.guild_id);
            text.append(")");
            assert(text@ =~= before + stored_guild_text(failure.guild_name@, failure.guild_id));
        },
    }
    text
}

/// What goes to the operations log when a webhook could not be executed.
pub fn execute_failure_log(guild_name: &str, guild_id: GuildId) -> (text: String)
    ensures
        text@ == "Failed to send broadcast embed to webhook in guild "@ + stored_guild_text(
            guild_name@,
            guild_id,
        ),
{
    let mut text = String::new();
    text.append("Failed to send broadcast embed to webhook in guild ");
    let ghost before = text@;
    text.append(guild_name);
    text.append(" (");
    push_u64(&mut text, guild_id);
    text.append(")");
    assert(text@ =~= before + stored_guild_text(guild_name@, guild_id));
    text
}

} // verus!
