//! The `/config` commands: what an operator may set for a guild.

use crate::database::serverconfig_model_controller::{ActionLevel, UpdateServerConfig};
use crate::text::{decimal, push_u64, str_to_chars};
use crate::util::discord::{ChannelType, GuildChannel, RoleId, SnowflakeError};
use crate::util::parsing::{parse_ids_spec, parse_role_ids};
use vstd::prelude::*;
use vstd::string::*;

verus! {

/// The longest custom ban reason that is accepted, in bytes.
pub const MAX_BAN_REASON_LEN: usize = 500;

/// How many more `{` than `}` a text holds.
pub open spec fn brace_depth(s: Seq<char>) -> int
    decreases s.len(),
{
    if s.len() == 0 {
        0
    } else {
        brace_depth(s.drop_last()) + (if s.last() == '{' {
            1int
        } else if s.last() == '}' {
            -1int
        } else {
            0int
        })
    }
}

/// Whether the braces of a text pair up: every `}` closes a `{` that came
/// before it, and no `{` stays open.
pub open spec fn braces_balanced(s: Seq<char>) -> bool {
    brace_depth(s) == 0 && forall|i: int| 0 <= i <= s.len() ==> brace_depth(#[trigger] s.take(i)) >= 0
}

/// Checks that the braces of a custom ban reason pair up.
pub fn check_ban_reason(ban_reason: &str) -> (well_formed: bool)
    ensures
        well_formed == braces_balanced(ban_reason@),
{
    let chars = str_to_chars(ban_reason);
    let mut brace_count: usize = 0;
    let mut i: usize = 0;
    assert(chars@.take(0).len() == 0);
    while i < chars.len()
        invariant
            i <= chars.len(),
            chars@ == ban_reason@,
            brace_count == brace_depth(chars@.take(i as int)),
            brace_count <= i,
            forall|k: int| 0 <= k <= i ==> brace_depth(#[trigger] chars@.take(k)) >= 0,
        decreases chars.len() - i,
    {
        let c = chars[i];
        proof {
            assert(chars@.take(i + 1).drop_last() == chars@.take(i as int));
            assert(chars@.take(i + 1).last() == c);
        }
        if c == '{' {
            brace_count += 1;
        } else if c == '}' {
            if brace_count == 0 {
                assert(brace_depth(chars@.take(i + 1)) < 0);
                return false;
            }
            brace_count -= 1;
        }
        i += 1;
    }
    assert(chars@.take(chars.len() as int) == chars@);
    brace_count == 0
}

/// What an operator asked to change.
#[derive(Debug)]
pub struct UpdateRequest {
    pub log_channel: Option<GuildChannel>,
    pub ping_users: Option<bool>,
    pub ping_role: Option<RoleId>,
    pub spam_action_level: Option<ActionLevel>,
    pub impersonation_action_level: Option<ActionLevel>,
    pub bigotry_action_level: Option<ActionLevel>,
    pub honeypot_action_level: Option<ActionLevel>,
    /// Role identifiers, separated by commas.
    pub ignored_roles: Option<String>,
    pub ban_reason: Option<String>,
    /// Minutes; `None` turns the timeout off.
    pub honeypot_timeout: Option<i32>,
}

/// Why a request to change a configuration is turned down.
#[derive(Debug, Clone, Copy, PartialEq, Eq, Structural)]
pub enum UpdateRejection {
    /// The log channel is no plain text channel.
    NotTextChannel,
    /// The ignored roles are no list of snowflakes.
    InvalidRoleIds(SnowflakeError),
    /// The custom ban reason is longer than 500 bytes; its length.
    BanReasonTooLong(usize),
    /// The braces of the custom ban reason do not pair up.
    BanReasonMalformed,
}

/// The length of a text in bytes, as a machine number.
pub open spec fn byte_len(s: Seq<char>) -> usize {
    vstd::utf8::encode_utf8(s).len() as usize
}

/// The first reason to turn a request down, checking the log channel, then
/// the ignored roles, then the length and the braces of the ban reason.
pub open spec fn update_rejection(request: UpdateRequest) -> Option<UpdateRejection> {
    if request.log_channel is Some && request.log_channel->0.kind != ChannelType::Text {
        Some(UpdateRejection::NotTextChannel)
    } else if request.ignored_roles is Some && parse_ids_spec(request.ignored_roles->0@) is Err {
        Some(UpdateRejection::InvalidRoleIds(parse_ids_spec(request.ignored_roles->0@)->Err_0))
    } else if request.ban_reason is Some && byte_len(request.ban_reason->0@)
        > MAX_BAN_REASON_LEN {
        Some(UpdateRejection::BanReasonTooLong(byte_len(request.ban_reason->0@)))
    } else if request.ban_reason is Some && !braces_balanced(request.ban_reason->0@) {
        Some(UpdateRejection::BanReasonMalformed)
    } else {
        None
    }
}

/// Whether `update` carries what the (acceptable) request asks for.
pub open spec fn update_matches(update: UpdateServerConfig, request: UpdateRequest) -> bool {
    &&& update.log_channel_id == (match request.log_channel {
        Some(c) => Some(c.id),
        None => None,
    })
    &&& update.ping_users == request.ping_users
    &&& update.ping_role == request.ping_role
    &&& update.spam_action_level == request.spam_action_level
    &&& update.impersonation_action_level == request.impersonation_action_level
    &&& update.bigotry_action_level == request.bigotry_action_level
    &&& update.honeypot_action_level == request.honeypot_action_level
    &&& (match request.ignored_roles {
        Some(text) => update.ignored_roles is Some && parse_ids_spec(text@) == Ok::<
            Seq<u64>,
            SnowflakeError,
        >(update.ignored_roles->0@),
        None => update.ignored_roles is None,
    })
    &&& update.ban_reason == request.ban_reason
    &&& update.honeypot_timeout_minutes == (match request.honeypot_timeout {
        Some(minutes) => minutes,
        None => 0,
    })
}

/// Checks a request to change a guild's configuration and turns it into
/// the update to store.
pub fn update(request: UpdateRequest) -> (r: Result<UpdateServerConfig, UpdateRejection>)
    ensures
        match r {
            Ok(update) => update_rejection(request) is None && update_matches(update, request),
            Err(e) => update_rejection(request) == Some(e),
        },
{
    let log_channel_id = match &request.log_channel {
        Some(c) => {
            if c.kind != ChannelType::Text {
                return Err(UpdateRejection::NotTextChannel);
            }
            Some(c.id)
        },
        None => None,
    };
    let ignored_roles = match &request.ignored_roles {
        Some(text) => match parse_role_ids(text.as_str()) {
            Ok(ids) => Some(ids),
            Err(e) => {
                return Err(UpdateRejection::InvalidRoleIds(e));
            },
        },
        None => None,
    };
    match &request.ban_reason {
        Some(reason) => {
            let len = reason.as_str().len();
            if len > MAX_BAN_REASON_LEN {
                return Err(UpdateRejection::BanReasonTooLong(len));
            }
            if !check_ban_reason(reason.as_str()) {
                return Err(UpdateRejection::BanReasonMalformed);
            }
        },
        None => {},
    }
    let honeypot_timeout_minutes = match request.honeypot_timeout {
        Some(minutes) => minutes,
        None => 0,
    };
    Ok(
        UpdateServerConfig {
            log_channel_id,
            ping_users: request.ping_users,
            ping_role: request.ping_role,
            spam_action_level: request.spam_action_level,
            impersonation_action_level: request.impersonation_action_level,
            bigotry_action_level: request.bigotry_action_level,
            honeypot_action_level: request.honeypot_action_level,
            ignored_roles,
            ban_reason: request.ban_reason,
            honeypot_timeout_minutes,
        },
    )
}

/// What the operator is told when a request is turned down. `channel_name`
/// is the name of the log channel asked for.
pub open spec fn rejection_text(rejection: UpdateRejection, channel_name: Seq<char>) -> Seq<char> {
    match rejection {
        UpdateRejection::NotTextChannel => channel_name + " is not a text channel."@,
        UpdateRejection::InvalidRoleIds(_) => "The ignored roles are not a list of role IDs."@,
        UpdateRejection::BanReasonTooLong(len) => "Maximum ban reason length is 500, got "@
            + decimal(len as nat) + "!"@,
        UpdateRejection::BanReasonMalformed =>
            "Your custom ban reason is wrongly formatted. Please fix it and try again!"@,
    }
}

/// What the operator is told when a request is turned down.
pub fn rejection_message(rejection: UpdateRejection, channel_name: &str) -> (text: String)
    ensures
        text@ == rejection_text(rejection, channel_name@),
{
    let mut text = String::new();
    match rejection {
        UpdateRejection::NotTextChannel => {
            text.append(channel_name);
            text.append(" is not a text channel.");
        },
        UpdateRejection::InvalidRoleIds(_) => {
            text.append("The ignored roles are not a list of role IDs.");
        },
        UpdateRejection::BanReasonTooLong(len) => {
            text.append("Maximum ban reason length is 500, got ");
            push_u64(&mut text, len as u64);
            text.append("!");
        },
        UpdateRejection::BanReasonMalformed => {
            text.append("Your custom ban reason is wrongly formatted. Please fix it and try again!");
        },
    }
    assert(text@ =~= rejection_text(rejection, channel_name@));
    text
}

/// The warning that marks a channel as a honeypot for the guild's members.
pub fn honeypot_message() -> (warning: &'static str)
    ensures
        warning@
            == "# \u{26a0}\u{fe0f} Warning \u{26a0}\u{fe0f}\n**DO NOT POST MESSAGES in this channel, you will be banned from multiple TMC servers if you do so!**\nThis channel is used to catch bots that spam our server."@,
{
    "# \u{26a0}\u{fe0f} Warning \u{26a0}\u{fe0f}\n**DO NOT POST MESSAGES in this channel, you will be banned from multiple TMC servers if you do so!**\nThis channel is used to catch bots that spam our server."
}

} // verus!
