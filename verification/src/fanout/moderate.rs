//! The moderation decision engine: what a guild does to a reported
//! account, by the guild's own policy.

use crate::fanout::broadcast_handler::BroadcastType;
use crate::fanout::listener::BroadcastListener;
use crate::database::badactor_model_controller::{ban_reason_spec, BadActor, BadActorType};
use crate::database::serverconfig_model_controller::{
    optional_text, ActionLevel, ServerConfig,
};
use crate::text::{join, joined};
use crate::util::discord::{
    everyone_role, everyone_role_spec, push_role_mention, role_mention, GuildId, Member,
    PartialGuild, RoleId, User,
};
use crate::util::format::{display, display_spec, fdisplay, fdisplay_spec, HasNameAndID};
use vstd::prelude::*;
use vstd::string::*;

verus! {

/// How many days of the account's messages a ban deletes.
pub const BAN_DELETE_MESSAGE_DAYS: u8 = 7;

/// For how many days a timeout silences the account.
pub const TIMEOUT_DAYS: u64 = 7;

/// What a moderation run is about.
#[derive(Debug)]
pub struct ModerateOptions<'a> {
    pub broadcast_type: BroadcastType,
    pub listener: &'a BroadcastListener,
    pub bad_actor: &'a BadActor,
    pub target_user: &'a User,
}

/// The action level that applies: `Notify` for everything but a new
/// report, and for a new report the level that the guild configured for the
/// report's category.
pub open spec fn moderation_action(
    broadcast_type: BroadcastType,
    actor_type: BadActorType,
    server_config: ServerConfig,
) -> ActionLevel {
    if !broadcast_type.new_report() {
        ActionLevel::Notify
    } else {
        match actor_type {
            BadActorType::Spam => server_config.spam_action_level,
            BadActorType::Impersonation => server_config.impersonation_action_level,
            BadActorType::Bigotry => server_config.bigotry_action_level,
            BadActorType::Honeypot => server_config.honeypot_action_level,
        }
    }
}

/// The action level that applies to a broadcast in a guild.
pub fn get_moderation_action(
    broadcast_type: BroadcastType,
    actor_type: BadActorType,
    server_config: &ServerConfig,
) -> (action_level: ActionLevel)
    ensures
        action_level == moderation_action(broadcast_type, actor_type, *server_config),
{
    if !broadcast_type.is_new_report() {
        return ActionLevel::Notify;
    }
    match actor_type {
        BadActorType::Spam => server_config.spam_action_level,
        BadActorType::Impersonation => server_config.impersonation_action_level,
        BadActorType::Bigotry => server_config.bigotry_action_level,
        BadActorType::Honeypot => server_config.honeypot_action_level,
    }
}

/// The predicate "is neither the guild's `@everyone` role nor ignored".
pub open spec fn counts(ignored_roles: Seq<RoleId>, guild_id: GuildId) -> spec_fn(RoleId) -> bool {
    |role: RoleId| role != everyone_role_spec(guild_id) && !ignored_roles.contains(role)
}

/// The roles of a member that protect the member from automatic
/// moderation: all but `@everyone` and the ignored ones, in order.
pub open spec fn non_ignored_roles(
    member_roles: Seq<RoleId>,
    ignored_roles: Seq<RoleId>,
    guild_id: GuildId,
) -> Seq<RoleId> {
    member_roles.filter(counts(ignored_roles, guild_id))
}

fn contains_role(roles: &Vec<RoleId>, role: RoleId) -> (found: bool)
    ensures
        found == roles@.contains(role),
{
    let mut i: usize = 0;
    while i < roles.len()
        invariant
            i <= roles.len(),
            forall|k: int| 0 <= k < i ==> roles[k] != role,
        decreases roles.len() - i,
    {
        if roles[i] == role {
            return true;
        }
        i += 1;
    }
    false
}

/// The roles of a member that are neither `@everyone` nor ignored.
pub fn get_non_ignored_roles(
    member_roles: &Vec<RoleId>,
    ignored_roles: &Vec<RoleId>,
    guild_id: GuildId,
) -> (roles: Vec<RoleId>)
    ensures
        roles@ == non_ignored_roles(member_roles@, ignored_roles@, guild_id),
{
    let mut roles: Vec<RoleId> = Vec::new();
    let everyone = everyone_role(guild_id);
    let ghost keep = counts(ignored_roles@, guild_id);
    assert(member_roles@.take(0).filter(keep) == Seq::<RoleId>::empty()) by {
        reveal_with_fuel(Seq::filter, 1);
    }
    let mut i: usize = 0;
    while i < member_roles.len()
        invariant
            i <= member_roles.len(),
            everyone == everyone_role_spec(guild_id),
            keep == counts(ignored_roles@, guild_id),
            roles@ == member_roles@.take(i as int).filter(keep),
        decreases member_roles.len() - i,
    {
        let role = member_roles[i];
        proof {
            assert(member_roles@.take(i + 1) == member_roles@.take(i as int).push(role));
            member_roles@.take(i as int).lemma_filter_push(role, keep);
        }
        if role != everyone && !contains_role(ignored_roles, role) {
            roles.push(role);
        }
        i += 1;
    }
    assert(member_roles@.take(member_roles.len() as int) == member_roles@);
    roles
}

/// The outcomes of a moderation decision, by kind.
#[derive(Debug, Clone, Copy, PartialEq, Eq, Structural)]
pub enum ModerationKind {
    /// Nothing is done and nothing is said.
    NoAction,
    /// The account is banned.
    Ban,
    /// Nothing is done; the guild is told that the account is no member.
    NotMember,
    /// Nothing is done; the guild is told which roles protect the member.
    NonIgnoredRoles,
    /// The member is silenced for seven days.
    Timeout,
    /// The member is removed from the guild.
    Kick,
    /// The account is banned and at once unbanned, which purges its
    /// recent messages.
    SoftBan,
}

/// A moderation decision.
#[derive(Debug)]
pub enum Moderation {
    NoAction,
    Ban { reason: String },
    NotMember,
    NonIgnoredRoles { roles: Vec<RoleId> },
    Timeout,
    Kick,
    SoftBan,
}

impl Moderation {
    /// The kind of the decision.
    pub open spec fn kind(self) -> ModerationKind {
        match self {
            Moderation::NoAction => ModerationKind::NoAction,
            Moderation::Ban { .. } => ModerationKind::Ban,
            Moderation::NotMember => ModerationKind::NotMember,
            Moderation::NonIgnoredRoles { .. } => ModerationKind::NonIgnoredRoles,
            Moderation::Timeout => ModerationKind::Timeout,
            Moderation::Kick => ModerationKind::Kick,
            Moderation::SoftBan => ModerationKind::SoftBan,
        }
    }
}

impl ModerationKind {
    /// Whether the decision changes anything on Discord.
    pub open spec fn enforces(self) -> bool {
        self == ModerationKind::Ban || self == ModerationKind::Timeout || self
            == ModerationKind::Kick || self == ModerationKind::SoftBan
    }
}

/// The decision for one guild. `member_roles` are the roles of the
/// reported account in the guild, or `None` if it is no member.
///
/// 1. `Notify` means no action.
/// 2. An account that is no member can only be banned, which needs no
///    membership; under any other level the guild is told so.
/// 3. A member with a role that is neither `@everyone` nor ignored is left
///    alone, and the guild is told so.
/// 4. Any other member gets what the action level says.
pub open spec fn moderation_kind(
    action_level: ActionLevel,
    member_roles: Option<Seq<RoleId>>,
    ignored_roles: Seq<RoleId>,
    guild_id: GuildId,
) -> ModerationKind {
    if action_level == ActionLevel::Notify {
        ModerationKind::NoAction
    } else {
        match member_roles {
            None => if action_level == ActionLevel::Ban {
                ModerationKind::Ban
            } else {
                ModerationKind::NotMember
            },
            Some(roles) => if non_ignored_roles(roles, ignored_roles, guild_id).len() > 0 {
                ModerationKind::NonIgnoredRoles
            } else {
                match action_level {
                    ActionLevel::Notify => ModerationKind::NoAction,
                    ActionLevel::Timeout => ModerationKind::Timeout,
                    ActionLevel::Kick => ModerationKind::Kick,
                    ActionLevel::SoftBan => ModerationKind::SoftBan,
                    ActionLevel::Ban => ModerationKind::Ban,
                }
            },
        }
    }
}

/// The roles of a member, if there is one.
pub open spec fn roles_of(member: Option<&Member>) -> Option<Seq<RoleId>> {
    match member {
        Some(m) => Some(m.roles@),
        None => None,
    }
}

/// Whether the reported account has to be looked up as a member of the
/// guild before the decision can be made: always, unless the guild only
/// wants to be notified.
pub fn needs_member(action_level: ActionLevel) -> (needed: bool)
    ensures
        needed == (action_level != ActionLevel::Notify),
{
    action_level != ActionLevel::Notify
}

/// Decides what a guild does to a reported account. `member` is the
/// account as a member of the guild, or `None` if it is no member (or was
/// not looked up because the guild only wants to be notified).
pub fn moderate(options: ModerateOptions<'_>, member: Option<&Member>) -> (decision: Moderation)
    ensures
        decision.kind() == moderation_kind(
            moderation_action(
                options.broadcast_type,
                options.bad_actor.actor_type,
                options.listener.config.server_config,
            ),
            roles_of(member),
            options.listener.config.server_config.ignored_roles@,
            options.listener.config.guild.id,
        ),
        decision matches Moderation::Ban { reason } ==> reason@ == ban_reason_spec(
            optional_text(options.listener.config.server_config.ban_reason),
            options.bad_actor.actor_type,
            options.bad_actor.id,
        ),
        decision matches Moderation::NonIgnoredRoles { roles } ==> member is Some && roles@
            == non_ignored_roles(
            member->0.roles@,
            options.listener.config.server_config.ignored_roles@,
            options.listener.config.guild.id,
        ),
{
    let server_config = &options.listener.config.server_config;
    let action_level = get_moderation_action(
        options.broadcast_type,
        options.bad_actor.actor_type,
        server_config,
    );
    if action_level == ActionLevel::Notify {
        return Moderation::NoAction;
    }
    let member = match member {
        Some(m) => m,
        None => {
            if action_level == ActionLevel::Ban {
                return Moderation::Ban {
                    reason: options.bad_actor.ban_reason(server_config.ban_reason.clone()),
                };
            }
            return Moderation::NotMember;
        },
    };
    let roles = get_non_ignored_roles(
        &member.roles,
        &server_config.ignored_roles,
        options.listener.config.guild.id,
    );
    if roles.len() > 0 {
        return Moderation::NonIgnoredRoles { roles };
    }
    match action_level {
        ActionLevel::Notify => Moderation::NoAction,
        ActionLevel::Timeout => Moderation::Timeout,
        ActionLevel::Kick => Moderation::Kick,
        ActionLevel::SoftBan => Moderation::SoftBan,
        ActionLevel::Ban => Moderation::Ban {
            reason: options.bad_actor.ban_reason(server_config.ban_reason.clone()),
        },
    }
}

/// The mentions of a list of roles.
pub open spec fn role_mentions(roles: Seq<RoleId>) -> Seq<Seq<char>> {
    Seq::new(roles.len(), |i: int| role_mention(roles[i]))
}

/// What an enforcing decision is called in a sentence.
pub open spec fn action_verb(kind: ModerationKind) -> Seq<char> {
    match kind {
        ModerationKind::Ban => "ban"@,
        ModerationKind::SoftBan => "softban"@,
        ModerationKind::Kick => "kick"@,
        ModerationKind::Timeout => "timeout"@,
        _ => Seq::empty(),
    }
}

/// What the guild is told in its log channel about a decision, given
/// whether carrying it out succeeded. `who` is the reported account as
/// written for the Discord client.
pub open spec fn guild_message_text(
    kind: ModerationKind,
    roles: Seq<RoleId>,
    succeeded: bool,
    who: Seq<char>,
) -> Option<Seq<char>> {
    match kind {
        ModerationKind::NoAction => None,
        ModerationKind::NotMember => Some(
            "User "@ + who + " is not a member of your server. Skipping moderation."@,
        ),
        ModerationKind::NonIgnoredRoles => Some(
            "User "@ + who + " has roles that are not ignored. Those roles are "@ + joined(
                role_mentions(roles),
                ", "@,
            ) + ". Skipping all moderation action."@,
        ),
        _ => if !succeeded {
            Some("Failed to "@ + action_verb(kind) + " user "@ + who + " from your guild!"@)
        } else {
            match kind {
                ModerationKind::Ban => Some("User "@ + who + " was banned from your server!"@),
                ModerationKind::SoftBan => Some(
                    "User "@ + who + " was softbanned from your server!"@,
                ),
                ModerationKind::Timeout => Some("User "@ + who + " was timed out for 7 days!"@),
                _ => Some("User "@ + who + " was kicked from your server!"@),
            }
        },
    }
}

/// What goes to the operations log when carrying out a decision failed.
pub open spec fn failure_log_text(user: User, guild: PartialGuild) -> Seq<char> {
    "Error moderating "@ + display_spec(user.name_spec(), user.id_spec()) + " in "@ + display_spec(
        guild.name_spec(),
        guild.id_spec(),
    )
}

/// The roles that a decision names, if it names any.
pub open spec fn named_roles(decision: Moderation) -> Seq<RoleId> {
    match decision {
        Moderation::NonIgnoredRoles { roles } => roles@,
        _ => Seq::empty(),
    }
}

/// What to say after a decision was carried out (or found to need no
/// carrying out).
#[derive(Debug)]
pub struct ModerationReport {
    /// What the guild is told in its log channel.
    pub guild_message: Option<String>,
    /// What goes to the operations log.
    pub log: Option<String>,
}

/// Works out what to say about a decision: the guild hears of every
/// decision but `NoAction`, and of an enforcement both when it succeeded
/// and when it failed; a failed enforcement also goes to the operations
/// log. A failure never goes further than that.
pub fn log_moderation_result(
    decision: &Moderation,
    succeeded: bool,
    target_user: &User,
    guild: &PartialGuild,
) -> (report: ModerationReport)
    ensures
        optional_text(report.guild_message) == guild_message_text(
            decision.kind(),
            named_roles(*decision),
            succeeded,
            fdisplay_spec(target_user.name_spec(), target_user.id_spec()),
        ),
        optional_text(report.log) == (if decision.kind().enforces() && !succeeded {
            Some(failure_log_text(*target_user, *guild))
        } else {
            None
        }),
{
    let who = fdisplay(target_user);
    let mut text = String::new();
    let guild_message = match decision {
        Moderation::NoAction => None,
        Moderation::NotMember => {
            text.append("User ");
            text.append(who.as_str());
            text.append(" is not a member of your server. Skipping moderation.");
            Some(text)
        },
        Moderation::NonIgnoredRoles { roles } => {
            let mut mentions: Vec<String> = Vec::new();
            let mut i: usize = 0;
            while i < roles.len()
                invariant
                    i <= roles.len(),
                    mentions.len() == i,
                    forall|k: int| 0 <= k < i ==> (#[trigger] mentions[k])@ == role_mention(roles[k]),
                decreases roles.len() - i,
            {
                let mut mention = String::new();
                push_role_mention(&mut mention, roles[i]);
                assert(mention@ =~= role_mention(roles[i as int]));
                mentions.push(mention);
                i += 1;
            }
            assert(crate::text::views(mentions@) =~= role_mentions(roles@));
            let list = join(&mentions, ", ");
            text.append("User ");
            text.append(who.as_str());
            text.append(" has roles that are not ignored. Those roles are ");
            text.append(list.as_str());
            text.append(". Skipping all moderation action.");
            Some(text)
        },
        _ => {
            if !succeeded {
                text.append("Failed to ");
                match decision {
                    Moderation::Ban { .. } => text.append("ban"),
                    Moderation::SoftBan => text.append("softban"),
                    Moderation::Kick => text.append("kick"),
                    _ => text.append("timeout"),
                }
                text.append(" user ");
                text.append(who.as_str());
                text.append(" from your guild!");
            } else {
                text.append("User ");
                text.append(who.as_str());
                match decision {
                    Moderation::Ban { .. } => text.append(" was banned from your server!"),
                    Moderation::SoftBan => text.append(" was softbanned from your server!"),
                    Moderation::Timeout => text.append(" was timed out for 7 days!"),
                    _ => text.append(" was kicked from your server!"),
                }
            }
            Some(text)
        },
    };
    let enforces = match decision {
        Moderation::Ban { .. } => true,
        Moderation::SoftBan => true,
        Moderation::Kick => true,
        Moderation::Timeout => true,
        _ => false,
    };
    let log = if enforces && !succeeded {
        let mut log = String::new();
        log.append("Error moderating ");
        let user = display(target_user);
        log.append(user.as_str());
        log.append(" in ");
        let place = display(guild);
        log.append(place.as_str());
        Some(log)
    } else {
        None
    };
    ModerationReport { guild_message, log }
}

/// Determinism of the decision: the action level depends on nothing but
/// the kind of broadcast, the category of the report and the guild's
/// configured levels; and whatever a guild configured, anything other than
/// a new report only notifies.
pub proof fn law_moderation_action(
    broadcast_type: BroadcastType,
    actor_type: BadActorType,
    a: ServerConfig,
    b: ServerConfig,
)
    ensures
        !broadcast_type.new_report() ==> moderation_action(broadcast_type, actor_type, a)
            == ActionLevel::Notify,
        a.spam_action_level == b.spam_action_level && a.impersonation_action_level
            == b.impersonation_action_level && a.bigotry_action_level == b.bigotry_action_level
            && a.honeypot_action_level == b.honeypot_action_level ==> moderation_action(
            broadcast_type,
            actor_type,
            a,
        ) == moderation_action(broadcast_type, actor_type, b),
{
}

/// Role gating: a member who keeps any role once `@everyone` and the
/// ignored roles are taken away is never moderated automatically; a member
/// who keeps none gets exactly what the action level says.
pub proof fn law_role_gating(
    action_level: ActionLevel,
    member_roles: Seq<RoleId>,
    ignored_roles: Seq<RoleId>,
    guild_id: GuildId,
)
    ensures
        non_ignored_roles(member_roles, ignored_roles, guild_id).len() > 0 ==> !moderation_kind(
            action_level,
            Some(member_roles),
            ignored_roles,
            guild_id,
        ).enforces(),
        non_ignored_roles(member_roles, ignored_roles, guild_id).len() == 0 ==> moderation_kind(
            action_level,
            Some(member_roles),
            ignored_roles,
            guild_id,
        ) == (match action_level {
            ActionLevel::Notify => ModerationKind::NoAction,
            ActionLevel::Timeout => ModerationKind::Timeout,
            ActionLevel::Kick => ModerationKind::Kick,
            ActionLevel::SoftBan => ModerationKind::SoftBan,
            ActionLevel::Ban => ModerationKind::Ban,
        }),
{
}

/// The roles that protect a member are exactly the member's roles that are
/// neither the guild's `@everyone` role nor ignored.
pub proof fn law_non_ignored_roles(
    member_roles: Seq<RoleId>,
    ignored_roles: Seq<RoleId>,
    guild_id: GuildId,
    role: RoleId,
)
    ensures
        non_ignored_roles(member_roles, ignored_roles, guild_id).contains(role) <==> (
        member_roles.contains(role) && role != guild_id && !ignored_roles.contains(role)),
{
    let keep = counts(ignored_roles, guild_id);
    let kept = member_roles.filter(keep);
    if member_roles.contains(role) && keep(role) {
        let i = choose|i: int| 0 <= i < member_roles.len() && member_roles[i] == role;
        member_roles.lemma_filter_contains(keep, i);
    }
    if kept.contains(role) {
        let i = choose|i: int| 0 <= i < kept.len() && kept[i] == role;
        member_roles.lemma_filter_pred(keep, i);
        member_roles.lemma_filter_contains_rev(keep, role);
    }
}

/// An account that is no member of a guild: under `Ban` it is banned all
/// the same, for a ban needs no membership and no look at roles; under any
/// other level above `Notify` nothing is done and the guild is told that the
/// account is no member.
pub proof fn law_non_member(action_level: ActionLevel, ignored_roles: Seq<RoleId>, guild_id: GuildId)
    ensures
        moderation_kind(action_level, None, ignored_roles, guild_id) == (match action_level {
            ActionLevel::Notify => ModerationKind::NoAction,
            ActionLevel::Ban => ModerationKind::Ban,
            _ => ModerationKind::NotMember,
        }),
{
}

/// What the guild hears of a ban that went through, and that it hears of a
/// failed enforcement too.
pub proof fn law_ban_is_reported(kind: ModerationKind, roles: Seq<RoleId>, succeeded: bool, who: Seq<char>)
    ensures
        guild_message_text(ModerationKind::Ban, roles, true, who) == Some(
            "User "@ + who + " was banned from your server!"@,
        ),
        kind != ModerationKind::NoAction ==> guild_message_text(kind, roles, succeeded, who) is Some,
        guild_message_text(ModerationKind::NoAction, roles, succeeded, who) is None,
{
}

} // verus!
