//! Discord identifiers ("snowflakes"): non-zero unsigned 64-bit numbers that
//! travel as decimal text in the database and in messages.

use crate::text::{
    decimal, law_decimal_round_trip, parse_u64, parse_u64_spec, push_char, push_u64, NumberError,
};
use vstd::prelude::*;
use vstd::string::*;

verus! {

/// Identifier of a user.
pub type UserId = u64;

/// Identifier of a guild (a server).
pub type GuildId = u64;

/// Identifier of a channel.
pub type ChannelId = u64;

/// Identifier of a role.
pub type RoleId = u64;

/// A user account, as far as the bot reads it.
#[derive(Debug, Clone)]
pub struct User {
    pub id: UserId,
    /// The unique account name.
    pub name: String,
    /// The name the account chose to be shown under, if any.
    pub global_name: Option<String>,
    /// Address of the avatar image (the default avatar where none is set).
    pub avatar_url: String,
}

/// A guild, as far as the bot reads it.
#[derive(Debug, Clone)]
pub struct PartialGuild {
    pub id: GuildId,
    pub name: String,
}

/// The kinds of channel that Discord knows.
#[derive(Clone, Copy, Debug, PartialEq, Eq, Structural)]
pub enum ChannelType {
    Text,
    Private,
    Voice,
    GroupDm,
    Category,
    News,
    NewsThread,
    PublicThread,
    PrivateThread,
    Stage,
    Directory,
    Forum,
    /// A kind this crate has no name for, by its number.
    Unknown(u8),
}

impl ChannelType {
    /// Whether messages can be sent to a channel of this kind.
    pub open spec fn text_based(self) -> bool {
        self == ChannelType::Text || self == ChannelType::News || self == ChannelType::Voice
            || self == ChannelType::Stage || self == ChannelType::PublicThread || self
            == ChannelType::PrivateThread || self == ChannelType::NewsThread
    }
}

/// A channel of a guild, as far as the bot reads it.
#[derive(Debug, Clone)]
pub struct GuildChannel {
    pub id: ChannelId,
    pub guild_id: GuildId,
    pub name: String,
    pub kind: ChannelType,
}

impl GuildChannel {
    /// Whether messages can be sent to this channel.
    pub fn is_text_based(&self) -> (text_based: bool)
        ensures
            text_based == self.kind.text_based(),
    {
        match self.kind {
            ChannelType::Text => true,
            ChannelType::News => true,
            ChannelType::Voice => true,
            ChannelType::Stage => true,
            ChannelType::PublicThread => true,
            ChannelType::PrivateThread => true,
            ChannelType::NewsThread => true,
            _ => false,
        }
    }
}

/// What an identifier of a channel resolved to.
#[derive(Debug, Clone)]
pub enum Channel {
    /// A channel of a guild.
    Guild(GuildChannel),
    /// A direct-message channel.
    Private,
}

/// A member of a guild, as far as the bot reads it.
#[derive(Debug, Clone)]
pub struct Member {
    pub user: User,
    pub roles: Vec<RoleId>,
}

/// A Discord identifier: any `u64` except zero.
#[derive(Clone, Copy, Debug)]
pub struct Snowflake {
    value: u64,
}

/// Why a piece of text is not a snowflake.
#[derive(Clone, Copy, Debug, PartialEq, Eq, Structural)]
pub enum SnowflakeError {
    /// The text is empty.
    Empty,
    /// A character is not a decimal digit.
    InvalidDigit,
    /// The number does not fit in 64 bits.
    Overflow,
    /// The number is zero.
    Zero,
}

impl View for Snowflake {
    type V = u64;

    closed spec fn view(&self) -> u64 {
        self.value
    }
}

impl Snowflake {
    #[verifier::type_invariant]
    spec fn well_formed(self) -> bool {
        self.value != 0
    }

    /// The snowflake with the given value, unless the value is zero.
    pub fn new(id: u64) -> (r: Option<Snowflake>)
        ensures
            id == 0 ==> r is None,
            id != 0 ==> r is Some && r->0@ == id,
    {
        if id == 0 {
            None
        } else {
            Some(Snowflake { value: id })
        }
    }

    /// The identifier as a number; never zero.
    pub fn get(self) -> (id: u64)
        ensures
            id == self@,
            id != 0,
    {
        proof {
            use_type_invariant(&self);
        }
        self.value
    }
}

/// What parsing `s` as a snowflake gives: the number it spells in decimal,
/// provided it fits in 64 bits and is not zero.
pub open spec fn parse_snowflake_spec(s: Seq<char>) -> Result<u64, SnowflakeError> {
    match parse_u64_spec(s) {
        Ok(v) => if v == 0 {
            Err(SnowflakeError::Zero)
        } else {
            Ok(v)
        },
        Err(NumberError::Empty) => Err(SnowflakeError::Empty),
        Err(NumberError::InvalidDigit) => Err(SnowflakeError::InvalidDigit),
        Err(NumberError::Overflow) => Err(SnowflakeError::Overflow),
    }
}

/// Parses a snowflake from its decimal text and yields its number.
pub fn parse_id(snowflake: &str) -> (r: Result<u64, SnowflakeError>)
    ensures
        r == parse_snowflake_spec(snowflake@),
        r is Ok ==> r->Ok_0 != 0,
{
    match parse_u64(snowflake) {
        Ok(v) => if v == 0 {
            Err(SnowflakeError::Zero)
        } else {
            Ok(v)
        },
        Err(NumberError::Empty) => Err(SnowflakeError::Empty),
        Err(NumberError::InvalidDigit) => Err(SnowflakeError::InvalidDigit),
        Err(NumberError::Overflow) => Err(SnowflakeError::Overflow),
    }
}

/// Parses a snowflake from its decimal text.
pub fn parse_snowflake(snowflake: &str) -> (r: Result<Snowflake, SnowflakeError>)
    ensures
        match r {
            Ok(id) => parse_snowflake_spec(snowflake@) == Ok::<u64, SnowflakeError>(id@),
            Err(e) => parse_snowflake_spec(snowflake@) == Err::<u64, SnowflakeError>(e),
        },
{
    match parse_id(snowflake) {
        Ok(v) => Ok(Snowflake { value: v }),
        Err(e) => Err(e),
    }
}

/// The `@everyone` role of a guild: it carries the guild's own identifier.
pub open spec fn everyone_role_spec(guild_id: u64) -> u64 {
    guild_id
}

/// The `@everyone` role of a guild.
pub fn everyone_role(guild_id: u64) -> (role_id: u64)
    ensures
        role_id == everyone_role_spec(guild_id),
{
    guild_id
}

/// Text that mentions a user: `<@id>`.
pub open spec fn user_mention(id: u64) -> Seq<char> {
    seq!['<', '@'] + decimal(id as nat) + seq!['>']
}

/// Text that mentions a role: `<@&id>`.
pub open spec fn role_mention(id: u64) -> Seq<char> {
    seq!['<', '@', '&'] + decimal(id as nat) + seq!['>']
}

/// Text that mentions a channel: `<#id>`.
pub open spec fn channel_mention(id: u64) -> Seq<char> {
    seq!['<', '#'] + decimal(id as nat) + seq!['>']
}

/// Appends a user mention to `out`.
pub fn push_user_mention(out: &mut String, id: u64)
    ensures
        final(out)@ == old(out)@ + user_mention(id),
{
    push_char(out, '<');
    push_char(out, '@');
    push_u64(out, id);
    push_char(out, '>');
    assert(out@ =~= old(out)@ + user_mention(id));
}

/// Appends a role mention to `out`.
pub fn push_role_mention(out: &mut String, id: u64)
    ensures
        final(out)@ == old(out)@ + role_mention(id),
{
    push_char(out, '<');
    push_char(out, '@');
    push_char(out, '&');
    push_u64(out, id);
    push_char(out, '>');
    assert(out@ =~= old(out)@ + role_mention(id));
}

/// Appends a channel mention to `out`.
pub fn push_channel_mention(out: &mut String, id: u64)
    ensures
        final(out)@ == old(out)@ + channel_mention(id),
{
    push_char(out, '<');
    push_char(out, '#');
    push_u64(out, id);
    push_char(out, '>');
    assert(out@ =~= old(out)@ + channel_mention(id));
}

/// Reading back what was written: the decimal text of an identifier
/// parses to the identifier.
pub proof fn law_snowflake_round_trip(id: u64)
    requires
        id != 0,
    ensures
        parse_snowflake_spec(decimal(id as nat)) == Ok::<u64, SnowflakeError>(id),
{
    law_decimal_round_trip(id);
}

} // verus!
