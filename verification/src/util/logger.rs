//! What the bot writes to its operations log channel.

use crate::text::{str_to_chars, trim_end, trim_end_len};
use crate::util::discord::{ChannelId, PartialGuild, User};
use crate::util::format::{display, display_spec, HasNameAndID};
use crate::util::embeds::EmbedColor;
use vstd::prelude::*;
use vstd::string::*;

verus! {

/// How serious a log entry is.
#[derive(Clone, Copy, Debug, PartialEq, Eq, Structural)]
pub enum LogLevel {
    Warn,
    Error,
}

/// One entry for the operations log channel, ready to be posted.
#[derive(Debug)]
pub struct LogEntry {
    /// The channel to post the entry in.
    pub channel_id: ChannelId,
    pub level: LogLevel,
    /// The cleaned message, as written to the process log.
    pub message: String,
    /// The text of the embed.
    pub description: String,
    pub colour: EmbedColor,
    /// Name of the embed's author: always `Janitor`.
    pub author: &'static str,
    /// Text of the embed's footer: always `Error Log`.
    pub footer: &'static str,
}

/// The operations log: it knows the channel that entries go to.
#[derive(Clone, Copy, Debug)]
pub struct Logger {
    pub channel_id: ChannelId,
}

/// A message without its final `.` or `!` and the white space before it.
pub open spec fn sanitized(msg: Seq<char>) -> Seq<char> {
    if msg.len() > 0 && (msg.last() == '.' || msg.last() == '!') {
        trim_end(msg.drop_last())
    } else {
        msg
    }
}

/// The text of a log embed: the message, and the error in a code block
/// under it where there is one.
pub open spec fn log_description(msg: Seq<char>, error: Option<Seq<char>>) -> Seq<char> {
    match error {
        Some(e) => msg + "\n\n```"@ + e + "```"@,
        None => msg,
    }
}

/// The colour of a log embed: yellow for warnings, red for errors.
pub open spec fn level_colour(level: LogLevel) -> EmbedColor {
    match level {
        LogLevel::Warn => EmbedColor::Yellow,
        LogLevel::Error => EmbedColor::Red,
    }
}

/// Removes one final `.` or `!` from a log message, and the white space
/// that then ends it.
pub fn sanitize_msg(msg: &str) -> (clean: &str)
    ensures
        clean@ == sanitized(msg@),
{
    let chars = str_to_chars(msg);
    let n = chars.len();
    if n > 0 && (chars[n - 1] == '.' || chars[n - 1] == '!') {
        assert(chars@.take(n - 1) == msg@.drop_last());
        let end = trim_end_len(&chars, n - 1);
        assert(chars@.take(end as int) == msg@.subrange(0, end as int));
        msg.substring_char(0, end)
    } else {
        msg
    }
}

impl Logger {
    /// A logger that posts to `channel_id`.
    pub fn new(channel_id: ChannelId) -> (logger: Logger)
        ensures
            logger.channel_id == channel_id,
    {
        Logger { channel_id }
    }

    fn entry(&self, msg: &str, level: LogLevel, error: Option<&str>) -> (entry: LogEntry)
        ensures
            entry.channel_id == self.channel_id,
            entry.level == level,
            entry.message@ == sanitized(msg@),
            entry.description@ == log_description(
                sanitized(msg@),
                match error {
                    Some(e) => Some(e@),
                    None => None,
                },
            ),
            entry.colour == level_colour(level),
            entry.author@ == "Janitor"@,
            entry.footer@ == "Error Log"@,
    {
        let clean = sanitize_msg(msg);
        let mut message = String::new();
        message.append(clean);
        let mut description = String::new();
        description.append(clean);
        match error {
            Some(e) => {
                description.append("\n\n```");
                description.append(e);
                description.append("```");
            },
            None => {},
        }
        let colour = match level {
            LogLevel::Warn => EmbedColor::Yellow,
            LogLevel::Error => EmbedColor::Red,
        };
        LogEntry {
            channel_id: self.channel_id,
            level,
            message,
            description,
            colour,
            author: "Janitor",
            footer: "Error Log",
        }
    }

    /// The log entry for a warning.
    pub fn warn(&self, msg: &str) -> (entry: LogEntry)
        ensures
            entry.channel_id == self.channel_id,
            entry.level == LogLevel::Warn,
            entry.message@ == sanitized(msg@),
            entry.description@ == sanitized(msg@),
            entry.colour == EmbedColor::Yellow,
            entry.author@ == "Janitor"@,
            entry.footer@ == "Error Log"@,
    {
        self.entry(msg, LogLevel::Warn, None)
    }

    /// The log entry for an error `e` that came up while doing what
    /// `log_msg` says.
    pub fn error(&self, e: &str, log_msg: &str) -> (entry: LogEntry)
        ensures
            entry.channel_id == self.channel_id,
            entry.level == LogLevel::Error,
            entry.message@ == sanitized(log_msg@),
            entry.description@ == sanitized(log_msg@) + "\n\n```"@ + e@ + "```"@,
            entry.colour == EmbedColor::Red,
            entry.author@ == "Janitor"@,
            entry.footer@ == "Error Log"@,
    {
        self.entry(log_msg, LogLevel::Error, Some(e))
    }
}

/// What the process log says when a command is used: who used which
/// command, and in which guild (if in one that resolved).
pub open spec fn command_use_text(user: User, command: Seq<char>, guild: Option<&PartialGuild>) -> Seq<
    char,
> {
    display_spec(user.name_spec(), user.id_spec()) + " used /"@ + command + (match guild {
        Some(g) => " in "@ + display_spec(g.name_spec(), g.id_spec()),
        None => " outside of a guild."@,
    })
}

/// What the process log says when a command is used.
pub fn command_use_log(user: &User, command: &str, guild: Option<&PartialGuild>) -> (text: String)
    ensures
        text@ == command_use_text(*user, command@, guild),
{
    let mut text = display(user);
    text.append(" used /");
    text.append(command);
    match guild {
        Some(g) => {
            text.append(" in ");
            let place = display(g);
            text.append(place.as_str());
        },
        None => {
            text.append(" outside of a guild.");
        },
    }
    assert(text@ =~= command_use_text(*user, command@, guild));
    text
}

} // verus!
