//! The listener registry: which guilds receive a broadcast.

use crate::database::serverconfig_model_controller::{ServerConfig, ServerConfigComplete};
use crate::text::{decimal, push_u64};
use crate::util::discord::{Channel, GuildChannel, GuildId};
use vstd::prelude::*;
use vstd::string::*;

verus! {

/// A guild that receives broadcasts: its configuration and the channel
/// that the broadcasts are posted in.
#[derive(Debug, Clone)]
pub struct BroadcastListener {
    pub config: ServerConfigComplete,
    pub log_channel: GuildChannel,
}

/// Why a guild receives no broadcasts.
#[derive(Debug, Clone, Copy, PartialEq, Eq, Structural)]
pub enum ListenerError {
    /// The guild has set no log channel.
    NoLogChannel,
    /// The log channel could not be resolved.
    CannotGetLogChannel,
    /// The log channel is no channel of a guild.
    NotGuildChannel,
    /// No messages can be sent to the log channel.
    NotTextChannel,
    /// The guild itself, or the users whitelisted for it, could not be
    /// resolved.
    UpgradeFailed,
}

/// A guild on its way into the registry: the outcome of validating its log
/// channel and of completing its configuration.
#[derive(Debug)]
pub struct ListenerCandidate {
    pub guild_id: GuildId,
    pub config: Result<ServerConfigComplete, ListenerError>,
    pub log_channel: Option<GuildChannel>,
}

/// A guild left out of the registry, and why.
#[derive(Debug, Clone, Copy, PartialEq, Eq, Structural)]
pub struct SkippedGuild {
    pub guild_id: GuildId,
    pub reason: ListenerError,
}

/// The registry for one broadcast: the guilds to serve, and those left out.
#[derive(Debug)]
pub struct ValidListeners {
    pub listeners: Vec<BroadcastListener>,
    pub skipped: Vec<SkippedGuild>,
}

/// What validating a guild's log channel gives, where `fetched` is what the
/// configured channel resolved to (`None` if it did not resolve). A channel
/// other than the configured one counts as not resolved.
pub open spec fn log_channel_spec(log_channel_id: Option<u64>, fetched: Option<Channel>) -> Result<
    GuildChannel,
    ListenerError,
> {
    if log_channel_id is None {
        Err(ListenerError::NoLogChannel)
    } else {
        match fetched {
            None => Err(ListenerError::CannotGetLogChannel),
            Some(Channel::Private) => Err(ListenerError::NotGuildChannel),
            Some(Channel::Guild(channel)) => if channel.id != log_channel_id->0 {
                Err(ListenerError::CannotGetLogChannel)
            } else if channel.kind.text_based() {
                Ok(channel)
            } else {
                Err(ListenerError::NotTextChannel)
            },
        }
    }
}

/// Validates the log channel of a guild: one must be set, it must resolve,
/// it must be a channel of a guild, and messages must be sendable to it.
/// `fetched` is what the configured channel resolved to.
pub fn get_valid_logchannel(server_config: &ServerConfig, fetched: Option<Channel>) -> (r: Result<
    GuildChannel,
    ListenerError,
>)
    ensures
        r == log_channel_spec(server_config.log_channel_id, fetched),
{
    let log_channel_id = match server_config.log_channel_id {
        Some(id) => id,
        None => {
            return Err(ListenerError::NoLogChannel);
        },
    };
    match fetched {
        None => Err(ListenerError::CannotGetLogChannel),
        Some(Channel::Private) => Err(ListenerError::NotGuildChannel),
        Some(Channel::Guild(channel)) => {
            if channel.id != log_channel_id {
                Err(ListenerError::CannotGetLogChannel)
            } else if channel.is_text_based() {
                Ok(channel)
            } else {
                Err(ListenerError::NotTextChannel)
            }
        },
    }
}

impl ListenerCandidate {
    /// Puts together what became of a guild on its way into the registry:
    /// the outcome of validating its log channel and, where the channel is
    /// valid, its completed configuration (`None` if it could not be
    /// completed). A guild whose channel is not valid is left out for that
    /// reason; a guild whose configuration could not be completed is left
    /// out for that.
    pub fn new(
        guild_id: GuildId,
        log_channel: Result<GuildChannel, ListenerError>,
        complete: Option<ServerConfigComplete>,
    ) -> (candidate: ListenerCandidate)
        ensures
            candidate.guild_id == guild_id,
            match log_channel {
                Err(reason) => candidate.config == Err::<ServerConfigComplete, ListenerError>(
                    reason,
                ) && candidate.log_channel is None,
                Ok(channel) => candidate.log_channel == Some(channel) && candidate.config == (
                match complete {
                    Some(config) => Ok::<ServerConfigComplete, ListenerError>(config),
                    None => Err::<ServerConfigComplete, ListenerError>(
                        ListenerError::UpgradeFailed,
                    ),
                }),
            },
            skip_reason(candidate) == (match log_channel {
                Err(reason) => Some(reason),
                Ok(_) => if complete is None {
                    Some(ListenerError::UpgradeFailed)
                } else {
                    None
                },
            }),
    {
        match log_channel {
            Err(reason) => ListenerCandidate { guild_id, config: Err(reason), log_channel: None },
            Ok(channel) => {
                let config = match complete {
                    Some(config) => Ok(config),
                    None => Err(ListenerError::UpgradeFailed),
                };
                ListenerCandidate { guild_id, config, log_channel: Some(channel) }
            },
        }
    }
}

/// The listeners among `candidates`, in order: those whose configuration
/// was completed and whose log channel is valid.
pub open spec fn listeners_of(candidates: Seq<ListenerCandidate>) -> Seq<BroadcastListener>
    decreases candidates.len(),
{
    if candidates.len() == 0 {
        Seq::empty()
    } else {
        let rest = listeners_of(candidates.drop_last());
        let last = candidates.last();
        match (last.config, last.log_channel) {
            (Ok(config), Some(log_channel)) => rest.push(BroadcastListener { config, log_channel }),
            _ => rest,
        }
    }
}

/// Why a candidate is left out, if it is: for the reason its checks gave,
/// or, where its configuration is complete but it has no channel, for want
/// of a log channel.
pub open spec fn skip_reason(candidate: ListenerCandidate) -> Option<ListenerError> {
    match candidate.config {
        Err(reason) => Some(reason),
        Ok(_) => if candidate.log_channel is None {
            Some(ListenerError::NoLogChannel)
        } else {
            None
        },
    }
}

/// The guilds among `candidates` that are left out, each with the reason,
/// in order.
pub open spec fn skipped_of(candidates: Seq<ListenerCandidate>) -> Seq<SkippedGuild>
    decreases candidates.len(),
{
    if candidates.len() == 0 {
        Seq::empty()
    } else {
        let rest = skipped_of(candidates.drop_last());
        let last = candidates.last();
        match skip_reason(last) {
            Some(reason) => rest.push(SkippedGuild { guild_id: last.guild_id, reason }),
            None => rest,
        }
    }
}

/// Builds the registry from the candidates. A guild that failed any check
/// is left out and reported with the reason; it never keeps the others from
/// being served. Every candidate becomes a listener or is reported.
pub fn get_valid_listeners(candidates: Vec<ListenerCandidate>) -> (registry: ValidListeners)
    ensures
        registry.listeners@ == listeners_of(candidates@),
        registry.skipped@ == skipped_of(candidates@),
{
    let mut listeners: Vec<BroadcastListener> = Vec::new();
    let mut skipped: Vec<SkippedGuild> = Vec::new();
    let ghost all = candidates@;
    assert(all.take(0).len() == 0);
    for candidate in it: candidates
        invariant
            it.seq() == all,
            listeners@ == listeners_of(all.take(it.index() as int)),
            skipped@ == skipped_of(all.take(it.index() as int)),
    {
        proof {
            let i = it.index() as int;
            assert(all.take(i + 1).drop_last() == all.take(i));
            assert(all.take(i + 1).last() == candidate);
        }
        let ListenerCandidate { guild_id, config, log_channel } = candidate;
        match config {
            Ok(config) => {
                match log_channel {
                    Some(log_channel) => {
                        listeners.push(BroadcastListener { config, log_channel });
                    },
                    None => {
                        skipped.push(
                            SkippedGuild { guild_id, reason: ListenerError::NoLogChannel },
                        );
                    },
                }
            },
            Err(reason) => {
                skipped.push(SkippedGuild { guild_id, reason });
            },
        }
    }
    assert(all.take(all.len() as int) == all);
    ValidListeners { listeners, skipped }
}

/// Why a guild is skipped, in words.
pub open spec fn skip_reason_text(reason: ListenerError, guild_id: GuildId) -> Seq<char> {
    match reason {
        ListenerError::NoLogChannel => "There is no log channel defined for "@ + decimal(
            guild_id as nat,
        ),
        ListenerError::CannotGetLogChannel => "Cannot get log channel for "@ + decimal(
            guild_id as nat,
        ),
        ListenerError::NotGuildChannel => "Log channel for "@ + decimal(guild_id as nat)
            + " is not a guild channel"@,
        ListenerError::NotTextChannel => "Log channel for "@ + decimal(guild_id as nat)
            + " is not a text channel"@,
        ListenerError::UpgradeFailed => "Failed to upgrade server config for "@ + decimal(
            guild_id as nat,
        ),
    }
}

/// The warning logged for a skipped guild.
pub open spec fn skip_warning_text(skipped: SkippedGuild) -> Seq<char> {
    "Skipping guild "@ + decimal(skipped.guild_id as nat) + " for broadcasting: "@
        + skip_reason_text(skipped.reason, skipped.guild_id)
}

/// The warning logged for a skipped guild.
pub fn skip_warning(skipped: &SkippedGuild) -> (warning: String)
    ensures
        warning@ == skip_warning_text(*skipped),
{
    let mut reason = String::new();
    match skipped.reason {
        ListenerError::NoLogChannel => {
            reason.append("There is no log channel defined for ");
            push_u64(&mut reason, skipped.guild_id);
        },
        ListenerError::CannotGetLogChannel => {
            reason.append("Cannot get log channel for ");
            push_u64(&mut reason, skipped.guild_id);
        },
        ListenerError::NotGuildChannel => {
            reason.append("Log channel for ");
            push_u64(&mut reason, skipped.guild_id);
            reason.append(" is not a guild channel");
        },
        ListenerError::NotTextChannel => {
            reason.append("Log channel for ");
            push_u64(&mut reason, skipped.guild_id);
            reason.append(" is not a text channel");
        },
        ListenerError::UpgradeFailed => {
            reason.append("Failed to upgrade server config for ");
            push_u64(&mut reason, skipped.guild_id);
        },
    }
    assert(reason@ =~= skip_reason_text(skipped.reason, skipped.guild_id));
    let mut warning = String::new();
    warning.append("Skipping guild ");
    push_u64(&mut warning, skipped.guild_id);
    warning.append(" for broadcasting: ");
    warning.append(reason.as_str());
    assert(warning@ =~= skip_warning_text(*skipped));
    warning
}

/// Nobody is left out in silence: every candidate is a listener or is
/// reported as skipped, and none is both.
pub proof fn law_every_candidate_accounted(candidates: Seq<ListenerCandidate>)
    ensures
        listeners_of(candidates).len() + skipped_of(candidates).len() == candidates.len(),
        forall|i: int|
            0 <= i < candidates.len() && skip_reason(#[trigger] candidates[i]) is Some
                ==> skipped_of(candidates).contains(
                SkippedGuild {
                    guild_id: candidates[i].guild_id,
                    reason: skip_reason(candidates[i])->0,
                },
            ),
    decreases candidates.len(),
{
    if candidates.len() > 0 {
        let front = candidates.drop_last();
        let last = candidates.last();
        law_every_candidate_accounted(front);
        let all = skipped_of(candidates);
        assert forall|i: int|
            0 <= i < candidates.len() && skip_reason(#[trigger] candidates[i]) is Some implies all.contains(
            SkippedGuild { guild_id: candidates[i].guild_id, reason: skip_reason(candidates[i])->0 },
        ) by {
            let record = SkippedGuild {
                guild_id: candidates[i].guild_id,
                reason: skip_reason(candidates[i])->0,
            };
            if i < front.len() {
                assert(front[i] == candidates[i]);
                let k = choose|k: int|
                    0 <= k < skipped_of(front).len() && skipped_of(front)[k] == record;
                assert(all[k] == record);
            } else {
                assert(all[all.len() - 1] == record);
            }
        }
    }
}

/// A listener posts where its guild said: the channel of a guild that
/// passed validation is the channel the guild configured, and it takes
/// messages.
pub proof fn law_listener_channel(log_channel_id: Option<u64>, fetched: Option<Channel>)
    ensures
        log_channel_spec(log_channel_id, fetched) matches Ok(channel) ==> log_channel_id == Some(
            channel.id,
        ) && channel.kind.text_based() && fetched == Some(Channel::Guild(channel)),
{
}

} // verus!
