//! The honeypot trap detector: a sliding window over recent guild messages
//! that spots an account posting the same text across several channels.

use crate::fanout::listener::{get_valid_logchannel, log_channel_spec};
use crate::database::badactor_model_controller::{BadActorType, CreateBadActorOptions};
use crate::database::serverconfig_model_controller::ServerConfig;
use crate::text::push_i64;
use crate::text::signed_decimal;
use crate::util::discord::{Channel, ChannelId, GuildChannel, GuildId, User, UserId};
use crate::util::embeds::{Embed, EmbedAuthor, EmbedColor, EmbedFooter};
use crate::util::format::{
    display, display_spec, display_time, display_time_spec, escape_markdown, escaped, fdisplay,
    fdisplay_spec, HasNameAndID,
};
use vstd::prelude::*;
use vstd::string::*;

verus! {

/// Length of the sliding window, in nanoseconds (60 seconds). A message
/// leaves the window once it is older than this.
pub const WINDOW_NANOS: u64 = 60_000_000_000;

/// Number of distinct channels that identical posts must reach before the
/// author is reported.
pub const REPORT_CHANNELS: usize = 3;

/// One message as the detector remembers it.
#[derive(Debug, Clone)]
pub struct HoneypotMessage {
    pub guild_id: u64,
    pub user_id: u64,
    pub channel_id: u64,
    pub content: String,
    /// Reading of a monotonic clock when the message arrived, in nanoseconds.
    pub timestamp: u64,
    /// Whether the message arrived in a designated honeypot channel.
    pub is_in_honeypot: bool,
}

/// What the detector concluded from one incoming message.
#[derive(Debug)]
pub struct MessageVerdict {
    /// Whether the author should be reported as a honeypot bad actor.
    pub should_report: bool,
    /// The honeypot-channel messages that just left the window, oldest first.
    pub expired_honeypot_messages: Vec<HoneypotMessage>,
}

/// Time elapsed between `timestamp` and `now`; zero if `timestamp` is later.
pub open spec fn age(now: u64, timestamp: u64) -> int {
    if now >= timestamp {
        now - timestamp
    } else {
        0
    }
}

/// Whether a message is still inside the window at time `now`: it is not
/// older than the window is long.
pub open spec fn is_fresh(now: u64, msg: HoneypotMessage) -> bool {
    age(now, msg.timestamp) <= WINDOW_NANOS
}

/// Number of entries at the front of the queue that come before the first
/// fresh one.
pub open spec fn stale_prefix_len(queue: Seq<HoneypotMessage>, now: u64) -> nat
    decreases queue.len(),
{
    if queue.len() == 0 || is_fresh(now, queue[0]) {
        0
    } else {
        1 + stale_prefix_len(queue.drop_first(), now)
    }
}

/// The predicate "arrived in a honeypot channel".
pub open spec fn in_honeypot() -> spec_fn(HoneypotMessage) -> bool {
    |m: HoneypotMessage| m.is_in_honeypot
}

/// Whether timestamps never go down along the queue.
pub open spec fn ordered(queue: Seq<HoneypotMessage>) -> bool {
    forall|i: int, j: int| 0 <= i <= j < queue.len() ==> queue[i].timestamp <= queue[j].timestamp
}

/// Whether two messages come from the same user with identical content.
pub open spec fn same_post(a: HoneypotMessage, b: HoneypotMessage) -> bool {
    a.user_id == b.user_id && a.content@ == b.content@
}

/// Whether some queued copy of `new_msg` sits in channel `channel_id`.
pub open spec fn copy_in_channel(
    queue: Seq<HoneypotMessage>,
    new_msg: HoneypotMessage,
    channel_id: u64,
) -> bool {
    exists|i: int|
        0 <= i < queue.len() && same_post(#[trigger] queue[i], new_msg) && queue[i].channel_id
            == channel_id
}

/// The channels in which the author of `new_msg` posted this exact content:
/// the channel of `new_msg` itself and those of its queued copies.
pub open spec fn posted_channels(queue: Seq<HoneypotMessage>, new_msg: HoneypotMessage) -> Set<
    u64,
> {
    Set::new(
        |c: u64| c == new_msg.channel_id || copy_in_channel(queue, new_msg, c),
    )
}

/// Whether `new_msg` or one of its queued copies was posted in a honeypot
/// channel.
pub open spec fn touched_honeypot(queue: Seq<HoneypotMessage>, new_msg: HoneypotMessage) -> bool {
    new_msg.is_in_honeypot || exists|i: int|
        0 <= i < queue.len() && same_post(#[trigger] queue[i], new_msg) && queue[i].is_in_honeypot
}

/// The duplicate rule: identical content from one user in at least three
/// distinct channels, at least one of the posts in a honeypot channel.
pub open spec fn should_report_spec(queue: Seq<HoneypotMessage>, new_msg: HoneypotMessage) -> bool {
    posted_channels(queue, new_msg).finite() && posted_channels(queue, new_msg).len()
        >= REPORT_CHANNELS && touched_honeypot(queue, new_msg)
}

/// The stale prefix holds no fresh entry, and it ends at the first fresh one.
pub proof fn lemma_stale_prefix(queue: Seq<HoneypotMessage>, now: u64)
    ensures
        stale_prefix_len(queue, now) <= queue.len(),
        forall|i: int|
            0 <= i < stale_prefix_len(queue, now) ==> !is_fresh(now, #[trigger] queue[i]),
        stale_prefix_len(queue, now) < queue.len() ==> is_fresh(
            now,
            queue[stale_prefix_len(queue, now) as int],
        ),
    decreases queue.len(),
{
    if queue.len() == 0 || is_fresh(now, queue[0]) {
    } else {
        let rest = queue.drop_first();
        lemma_stale_prefix(rest, now);
        let k = stale_prefix_len(rest, now) as int;
        assert forall|i: int| 0 <= i < k + 1 implies !is_fresh(now, #[trigger] queue[i]) by {
            if i > 0 {
                assert(queue[i] == rest[i - 1]);
            }
        }
        if k + 1 < queue.len() {
            assert(queue[k + 1] == rest[k]);
        }
    }
}

/// Any index up to which nothing is fresh, and which is the end of the
/// queue or a fresh entry, is the length of the stale prefix.
pub proof fn lemma_stale_prefix_unique(queue: Seq<HoneypotMessage>, now: u64, k: int)
    requires
        0 <= k <= queue.len(),
        forall|i: int| 0 <= i < k ==> !is_fresh(now, #[trigger] queue[i]),
        k < queue.len() ==> is_fresh(now, queue[k]),
    ensures
        stale_prefix_len(queue, now) == k,
{
    lemma_stale_prefix(queue, now);
    let n = stale_prefix_len(queue, now) as int;
    if n < k {
        assert(!is_fresh(now, queue[n]));
    } else if k < n {
        assert(!is_fresh(now, queue[k]));
    }
}

fn message_is_fresh(now: u64, msg: &HoneypotMessage) -> (fresh: bool)
    ensures
        fresh == is_fresh(now, *msg),
{
    if now >= msg.timestamp {
        now - msg.timestamp <= WINDOW_NANOS
    } else {
        true
    }
}

/// Drops from the front of the queue everything that comes before the first
/// message still inside the window at time `now`, and hands back the dropped
/// messages that had arrived in a honeypot channel, oldest first.
pub fn remove_old_messages(queue: &mut Vec<HoneypotMessage>, now: u64) -> (expired: Vec<
    HoneypotMessage,
>)
    ensures
        final(queue)@ == old(queue)@.skip(stale_prefix_len(old(queue)@, now) as int),
        expired@ == old(queue)@.take(stale_prefix_len(old(queue)@, now) as int).filter(
            in_honeypot(),
        ),
{
    let mut first_new: usize = 0;
    while first_new < queue.len() && !message_is_fresh(now, &queue[first_new])
        invariant
            first_new <= queue.len(),
            queue@ == old(queue)@,
            forall|i: int| 0 <= i < first_new ==> !is_fresh(now, #[trigger] queue[i]),
        decreases queue.len() - first_new,
    {
        first_new += 1;
    }
    proof {
        lemma_stale_prefix_unique(queue@, now, first_new as int);
    }
    let mut stale = queue.split_off(first_new);
    core::mem::swap(queue, &mut stale);
    assert(stale@ == old(queue)@.take(first_new as int));
    assert(queue@ == old(queue)@.skip(first_new as int));
    let mut expired: Vec<HoneypotMessage> = Vec::new();
    assert(stale@.take(0).filter(in_honeypot()) == Seq::<HoneypotMessage>::empty()) by {
        reveal_with_fuel(Seq::filter, 1);
    }
    let ghost all = stale@;
    for msg in it: stale
        invariant
            it.seq() == all,
            expired@ == all.take(it.index() as int).filter(in_honeypot()),
    {
        proof {
            let i = it.index() as int;
            assert(all.take(i + 1) == all.take(i).push(msg));
            all.take(i).lemma_filter_push(msg, in_honeypot());
        }
        if msg.is_in_honeypot {
            expired.push(msg);
        }
    }
    assert(all.take(all.len() as int) == all);
    expired
}

proof fn lemma_contains_push(s: Seq<u64>, x: u64, c: u64)
    ensures
        s.push(x).contains(c) <==> (s.contains(c) || c == x),
{
    if s.contains(c) {
        let j = choose|j: int| 0 <= j < s.len() && s[j] == c;
        assert(s.push(x)[j] == c);
    }
    if c == x {
        assert(s.push(x)[s.len() as int] == c);
    }
    if s.push(x).contains(c) {
        let j = choose|j: int| 0 <= j < s.push(x).len() && s.push(x)[j] == c;
        if j < s.len() {
            assert(s[j] == c);
        }
    }
}

fn contains_id(ids: &Vec<u64>, id: u64) -> (found: bool)
    ensures
        found == ids@.contains(id),
{
    let mut i: usize = 0;
    while i < ids.len()
        invariant
            i <= ids.len(),
            forall|k: int| 0 <= k < i ==> ids[k] != id,
        decreases ids.len() - i,
    {
        if ids[i] == id {
            return true;
        }
        i += 1;
    }
    false
}

/// Decides whether the author of `new_msg` should be reported, given the
/// messages still inside the window.
pub fn should_report(queue: &Vec<HoneypotMessage>, new_msg: &HoneypotMessage) -> (report: bool)
    ensures
        report == should_report_spec(queue@, *new_msg),
        posted_channels(queue@, *new_msg).finite(),
{
    let mut is_any_in_honeypot = new_msg.is_in_honeypot;
    let mut seen_channel_ids: Vec<u64> = Vec::new();
    seen_channel_ids.push(new_msg.channel_id);
    proof {
        assert(seen_channel_ids@[0] == new_msg.channel_id);
        assert(seen_channel_ids@.to_set() =~= posted_channels(queue@.take(0), *new_msg));
    }
    let mut i: usize = 0;
    while i < queue.len()
        invariant
            i <= queue.len(),
            seen_channel_ids@.no_duplicates(),
            seen_channel_ids@.to_set() == posted_channels(queue@.take(i as int), *new_msg),
            is_any_in_honeypot == touched_honeypot(queue@.take(i as int), *new_msg),
        decreases queue.len() - i,
    {
        let queue_msg = &queue[i];
        let ghost before = queue@.take(i as int);
        let ghost after = queue@.take(i + 1);
        proof {
            assert(after == before.push(*queue_msg));
            assert forall|k: int| 0 <= k < before.len() implies before[k] == after[k] by {}
            assert(after[i as int] == *queue_msg);
        }
        if queue_msg.user_id == new_msg.user_id && queue_msg.content == new_msg.content {
            assert(same_post(*queue_msg, *new_msg));
            is_any_in_honeypot = is_any_in_honeypot || queue_msg.is_in_honeypot;
            let ghost seen_before = seen_channel_ids@;
            if !contains_id(&seen_channel_ids, queue_msg.channel_id) {
                seen_channel_ids.push(queue_msg.channel_id);
            }
            proof {
                let c0 = queue_msg.channel_id;
                assert forall|c: u64|
                    seen_channel_ids@.contains(c) <==> (seen_before.contains(c) || c == c0) by {
                    lemma_contains_push(seen_before, c0, c);
                }
                assert forall|c: u64|
                    posted_channels(after, *new_msg).contains(c) <==> (posted_channels(
                        before,
                        *new_msg,
                    ).contains(c) || c == c0) by {
                    if copy_in_channel(before, *new_msg, c) {
                        let k = choose|k: int|
                            0 <= k < before.len() && same_post(#[trigger] before[k], *new_msg)
                                && before[k].channel_id == c;
                        assert(same_post(after[k], *new_msg) && after[k].channel_id == c);
                    }
                    if c == c0 {
                        assert(same_post(after[i as int], *new_msg) && after[i as int].channel_id
                            == c);
                    }
                    if copy_in_channel(after, *new_msg, c) && c != c0 {
                        let k = choose|k: int|
                            0 <= k < after.len() && same_post(#[trigger] after[k], *new_msg)
                                && after[k].channel_id == c;
                        assert(same_post(before[k], *new_msg) && before[k].channel_id == c);
                    }
                }
                assert forall|c: u64|
                    seen_before.contains(c) <==> posted_channels(before, *new_msg).contains(c) by {
                    assert(seen_before.to_set().contains(c) == seen_before.contains(c));
                }
                assert(seen_channel_ids@.to_set() =~= posted_channels(after, *new_msg));
                if touched_honeypot(after, *new_msg) && !new_msg.is_in_honeypot {
                    let k = choose|k: int|
                        0 <= k < after.len() && same_post(#[trigger] after[k], *new_msg)
                            && after[k].is_in_honeypot;
                    if k < before.len() {
                        assert(same_post(before[k], *new_msg) && before[k].is_in_honeypot);
                    }
                }
                if touched_honeypot(before, *new_msg) && !new_msg.is_in_honeypot {
                    let k = choose|k: int|
                        0 <= k < before.len() && same_post(#[trigger] before[k], *new_msg)
                            && before[k].is_in_honeypot;
                    assert(same_post(after[k], *new_msg) && after[k].is_in_honeypot);
                }
                if queue_msg.is_in_honeypot {
                    assert(same_post(after[i as int], *new_msg) && after[i as int].is_in_honeypot);
                }
            }
        } else {
            proof {
                assert(!same_post(after[i as int], *new_msg));
                assert forall|c: u64|
                    posted_channels(before, *new_msg).contains(c) <==> posted_channels(
                        after,
                        *new_msg,
                    ).contains(c) by {
                    if copy_in_channel(before, *new_msg, c) {
                        let k = choose|k: int|
                            0 <= k < before.len() && same_post(#[trigger] before[k], *new_msg)
                                && before[k].channel_id == c;
                        assert(same_post(after[k], *new_msg) && after[k].channel_id == c);
                    }
                    if copy_in_channel(after, *new_msg, c) {
                        let k = choose|k: int|
                            0 <= k < after.len() && same_post(#[trigger] after[k], *new_msg)
                                && after[k].channel_id == c;
                        assert(same_post(before[k], *new_msg) && before[k].channel_id == c);
                    }
                }
                assert(posted_channels(before, *new_msg) =~= posted_channels(after, *new_msg));
                if touched_honeypot(after, *new_msg) && !new_msg.is_in_honeypot {
                    let k = choose|k: int|
                        0 <= k < after.len() && same_post(#[trigger] after[k], *new_msg)
                            && after[k].is_in_honeypot;
                    assert(same_post(before[k], *new_msg) && before[k].is_in_honeypot);
                }
                if touched_honeypot(before, *new_msg) && !new_msg.is_in_honeypot {
                    let k = choose|k: int|
                        0 <= k < before.len() && same_post(#[trigger] before[k], *new_msg)
                            && before[k].is_in_honeypot;
                    assert(same_post(after[k], *new_msg) && after[k].is_in_honeypot);
                }
            }
        }
        i += 1;
    }
    proof {
        assert(queue@.take(queue.len() as int) == queue@);
        seen_channel_ids@.unique_seq_to_set();
        seen_channel_ids@.lemma_cardinality_of_set();
    }
    seen_channel_ids.len() >= REPORT_CHANNELS && is_any_in_honeypot
}

/// Runs the detector on one incoming message: evicts what left the window
/// (the clock reading is the message's own timestamp), applies the duplicate
/// rule to what remains, and queues the message.
pub fn handle_message(queue: &mut Vec<HoneypotMessage>, new_msg: HoneypotMessage) -> (verdict:
    MessageVerdict)
    ensures
        final(queue)@ == old(queue)@.skip(
            stale_prefix_len(old(queue)@, new_msg.timestamp) as int,
        ).push(new_msg),
        verdict.should_report == should_report_spec(
            old(queue)@.skip(stale_prefix_len(old(queue)@, new_msg.timestamp) as int),
            new_msg,
        ),
        verdict.expired_honeypot_messages@ == old(queue)@.take(
            stale_prefix_len(old(queue)@, new_msg.timestamp) as int,
        ).filter(in_honeypot()),
{
    let expired_honeypot_messages = remove_old_messages(queue, new_msg.timestamp);
    let should_report = should_report(queue, &new_msg);
    queue.push(new_msg);
    MessageVerdict { should_report, expired_honeypot_messages }
}

/// Whether a message concerns the detector: it was sent in a guild, and
/// not by the bot itself.
pub fn is_watched(guild_id: Option<GuildId>, author_id: UserId, bot_id: UserId) -> (watched: bool)
    ensures
        watched == (guild_id is Some && author_id != bot_id),
{
    match guild_id {
        Some(_) => author_id != bot_id,
        None => false,
    }
}

/// What filing a honeypot report is decided from.
#[derive(Debug, Clone, Copy)]
pub struct MaybeReportBadActorOptions {
    pub should_report: bool,
    pub target_user_id: UserId,
    pub origin_guild_id: GuildId,
    pub bot_id: UserId,
}

/// Decides whether the detector files a report, and with what: a report is
/// filed if the duplicate rule fired and the account has no active case.
/// The report is of the honeypot category, attributed to the bot, with the
/// guild of the triggering message as origin.
pub fn maybe_report_bad_actor(options: MaybeReportBadActorOptions, has_active_case: bool) -> (report:
    Option<CreateBadActorOptions>)
    ensures
        report is Some <==> options.should_report && !has_active_case,
        report is Some ==> {
            &&& report->0.user_id == options.target_user_id
            &&& report->0.actor_type == BadActorType::Honeypot
            &&& report->0.screenshot_proof is None
            &&& report->0.explanation is Some
            &&& report->0.explanation->0@ == "reached into the honeypot"@
            &&& report->0.origin_guild_id == options.origin_guild_id
            &&& report->0.updated_by_user_id == options.bot_id
        },
{
    if options.should_report && !has_active_case {
        Some(
            CreateBadActorOptions {
                user_id: options.target_user_id,
                actor_type: BadActorType::Honeypot,
                screenshot_proof: None,
                explanation: Some(String::from_str("reached into the honeypot")),
                origin_guild_id: options.origin_guild_id,
                updated_by_user_id: options.bot_id,
            },
        )
    } else {
        None
    }
}

/// The warning logged when the duplicate rule fires for an account that
/// has an active case already.
pub fn has_active_case(target_user: &User) -> (warning: String)
    ensures
        warning@ == "User "@ + display_spec(target_user.name_spec(), target_user.id_spec())
            + " reached into a honeypot but already has an active case. Skipping report."@,
{
    let mut warning = String::new();
    warning.append("User ");
    let who = display(target_user);
    warning.append(who.as_str());
    warning.append(" reached into a honeypot but already has an active case. Skipping report.");
    warning
}

/// An order to time a member out for posting in a honeypot channel.
#[derive(Debug, Clone, Copy, PartialEq, Eq, Structural)]
pub struct HoneypotTimeout {
    pub guild_id: GuildId,
    pub user_id: UserId,
    /// The channel in which the guild is told.
    pub log_channel_id: ChannelId,
    /// For how long, in minutes; never zero.
    pub minutes: i64,
}

/// Index of the first configuration of guild `guild_id`, or the number of
/// configurations if there is none.
pub open spec fn config_index(configs: Seq<ServerConfig>, guild_id: GuildId) -> int
    decreases configs.len(),
{
    if configs.len() == 0 || configs[0].guild_id == guild_id {
        0
    } else {
        1 + config_index(configs.drop_first(), guild_id)
    }
}

/// The timeout that an expired honeypot message earns its author: none if
/// the guild has no configuration, has turned the timeout off, or has no
/// log channel.
pub open spec fn timeout_for(msg: HoneypotMessage, configs: Seq<ServerConfig>) -> Option<
    HoneypotTimeout,
> {
    let i = config_index(configs, msg.guild_id);
    if i >= configs.len() || configs[i].honeypot_timeout_minutes == 0 {
        None
    } else {
        match configs[i].log_channel_id {
            None => None,
            Some(log_channel_id) => Some(
                HoneypotTimeout {
                    guild_id: msg.guild_id,
                    user_id: msg.user_id,
                    log_channel_id,
                    minutes: configs[i].honeypot_timeout_minutes,
                },
            ),
        }
    }
}

/// The timeouts that a list of expired honeypot messages earns, in order.
pub open spec fn timeouts_of(messages: Seq<HoneypotMessage>, configs: Seq<ServerConfig>) -> Seq<
    HoneypotTimeout,
>
    decreases messages.len(),
{
    if messages.len() == 0 {
        Seq::empty()
    } else {
        let rest = timeouts_of(messages.drop_last(), configs);
        match timeout_for(messages.last(), configs) {
            Some(timeout) => rest.push(timeout),
            None => rest,
        }
    }
}

/// An index before which no configuration is of the guild and at which one
/// is (or the configurations end) is the index of the guild's first
/// configuration.
pub proof fn lemma_config_index(configs: Seq<ServerConfig>, guild_id: GuildId, k: int)
    requires
        0 <= k <= configs.len(),
        forall|j: int| 0 <= j < k ==> (#[trigger] configs[j]).guild_id != guild_id,
        k < configs.len() ==> configs[k].guild_id == guild_id,
    ensures
        config_index(configs, guild_id) == k,
    decreases configs.len(),
{
    if k > 0 {
        assert(configs[0].guild_id != guild_id);
        let rest = configs.drop_first();
        assert forall|j: int| 0 <= j < k - 1 implies (#[trigger] rest[j]).guild_id != guild_id by {
            assert(rest[j] == configs[j + 1]);
        }
        lemma_config_index(rest, guild_id, k - 1);
    }
}

fn timeout_of(msg: &HoneypotMessage, configs: &Vec<ServerConfig>) -> (timeout: Option<
    HoneypotTimeout,
>)
    ensures
        timeout == timeout_for(*msg, configs@),
{
    let mut i: usize = 0;
    while i < configs.len() && configs[i].guild_id != msg.guild_id
        invariant
            i <= configs.len(),
            forall|j: int| 0 <= j < i ==> (#[trigger] configs[j]).guild_id != msg.guild_id,
        decreases configs.len() - i,
    {
        i += 1;
    }
    proof {
        lemma_config_index(configs@, msg.guild_id, i as int);
    }
    if i == configs.len() {
        return None;
    }
    let server_config = &configs[i];
    if server_config.honeypot_timeout_minutes == 0 {
        return None;
    }
    match server_config.log_channel_id {
        None => None,
        Some(log_channel_id) => Some(
            HoneypotTimeout {
                guild_id: msg.guild_id,
                user_id: msg.user_id,
                log_channel_id,
                minutes: server_config.honeypot_timeout_minutes,
            },
        ),
    }
}

/// Works out whom to time out once their honeypot messages have left the
/// window. This is independent of any report: whoever posts in a honeypot
/// channel of a guild that has set a timeout and a log channel is timed
/// out. `configs` are the configurations that could be loaded for the
/// guilds of the messages.
pub fn timeout_honeypot_trolls(messages: &Vec<HoneypotMessage>, configs: &Vec<ServerConfig>) -> (timeouts:
    Vec<HoneypotTimeout>)
    ensures
        timeouts@ == timeouts_of(messages@, configs@),
{
    let mut timeouts: Vec<HoneypotTimeout> = Vec::new();
    let mut i: usize = 0;
    assert(messages@.take(0).len() == 0);
    while i < messages.len()
        invariant
            i <= messages.len(),
            timeouts@ == timeouts_of(messages@.take(i as int), configs@),
        decreases messages.len() - i,
    {
        proof {
            assert(messages@.take(i + 1).drop_last() == messages@.take(i as int));
            assert(messages@.take(i + 1).last() == messages@[i as int]);
        }
        match timeout_of(&messages[i], configs) {
            Some(timeout) => {
                timeouts.push(timeout);
            },
            None => {},
        }
        i += 1;
    }
    assert(messages@.take(messages.len() as int) == messages@);
    timeouts
}

/// What a guild is told when a member was timed out for posting in its
/// honeypot channel.
pub open spec fn timeout_message_text(member: User, minutes: i64, timeout_end: i64) -> Seq<char> {
    "User "@ + fdisplay_spec(member.name_spec(), member.id_spec()) + " was timed out for `"@
        + signed_decimal(minutes as int)
        + "` minutes due to posting in the honeypot channel.\nTimeout end: "@ + display_time_spec(
        timeout_end,
    )
}

/// What a guild is told when a member was timed out for posting in its
/// honeypot channel. `timeout_end` is when the timeout ends, in seconds
/// since the Unix epoch.
pub fn timeout_message(member: &User, minutes: i64, timeout_end: i64) -> (text: String)
    ensures
        text@ == timeout_message_text(*member, minutes, timeout_end),
{
    let mut text = String::new();
    text.append("User ");
    let who = fdisplay(member);
    text.append(who.as_str());
    text.append(" was timed out for `");
    push_i64(&mut text, minutes);
    text.append("` minutes due to posting in the honeypot channel.\nTimeout end: ");
    let end = display_time(timeout_end);
    text.append(end.as_str());
    assert(text@ =~= timeout_message_text(*member, minutes, timeout_end));
    text
}

/// What goes to the operations log when a member could not be timed out.
pub fn timeout_failure_log(member: &User, display_guild: &str) -> (text: String)
    ensures
        text@ == "Failed to timeout user "@ + display_spec(member.name_spec(), member.id_spec())
            + " in guild "@ + display_guild@
            + " after they posted a message into the honeypot channel"@,
{
    let mut text = String::new();
    text.append("Failed to timeout user ");
    let who = display(member);
    text.append(who.as_str());
    text.append(" in guild ");
    text.append(display_guild);
    text.append(" after they posted a message into the honeypot channel");
    text
}

/// The log channel of a guild, if the guild has a configuration whose log
/// channel is set, resolves to a channel of a guild, and takes messages.
/// `fetched` is what the configured channel resolved to.
pub fn get_log_channel(server_config: Option<&ServerConfig>, fetched: Option<Channel>) -> (channel:
    Option<GuildChannel>)
    ensures
        channel == (match server_config {
            None => None,
            Some(config) => match log_channel_spec(config.log_channel_id, fetched) {
                Ok(c) => Some(c),
                Err(_) => None,
            },
        }),
{
    match server_config {
        None => None,
        Some(config) => match get_valid_logchannel(config, fetched) {
            Ok(c) => Some(c),
            Err(_) => None,
        },
    }
}

/// The text of the embed that tells a guild of a deleted honeypot message.
pub open spec fn msg_deleted_text(author: User, content: Seq<char>) -> Seq<char> {
    "Janitor deleted a message from user "@ + fdisplay_spec(author.name_spec(), author.id_spec())
        + " from the honeypot channel.\n\n```"@ + escaped(content) + "```"@
}

/// The embed that tells a guild that a message was deleted from its
/// honeypot channel. `content` is the text of the message.
pub fn get_msg_deleted_embed(author: &User, content: &str) -> (embed: Embed)
    ensures
        embed.title is Some && embed.title->0@ == "Honeypot message deleted"@,
        embed.description is Some && embed.description->0@ == msg_deleted_text(*author, content@),
        embed.colour == Some(EmbedColor::Orange.rgb()),
        embed.fields@.len() == 0,
        embed.thumbnail is None,
        embed.image is None,
        embed.footer is Some && embed.footer->0.text@ == "Honeypot Log"@
            && embed.footer->0.icon_url is None,
        embed.author is Some && embed.author->0.name@ == author.name@
            && embed.author->0.icon_url is Some && embed.author->0.icon_url->0@
            == author.avatar_url@,
{
    let mut description = String::new();
    description.append("Janitor deleted a message from user ");
    let who = fdisplay(author);
    description.append(who.as_str());
    description.append(" from the honeypot channel.\n\n```");
    let safe = escape_markdown(content);
    description.append(safe.as_str());
    description.append("```");
    assert(description@ =~= msg_deleted_text(*author, content@));
    Embed {
        title: Some(String::from_str("Honeypot message deleted")),
        description: Some(description),
        colour: Some(EmbedColor::Orange.value()),
        fields: Vec::new(),
        thumbnail: None,
        image: None,
        footer: Some(EmbedFooter { text: String::from_str("Honeypot Log"), icon_url: None }),
        author: Some(
            EmbedAuthor { name: author.name.clone(), icon_url: Some(author.avatar_url.clone()) },
        ),
    }
}

/// Window eviction: in a queue ordered by arrival, a message that is
/// older than 60 seconds at time `now` lies in the part that is dropped, so
/// the duplicate scan never sees it; and it is handed back among the
/// expired messages exactly if it arrived in a honeypot channel.
pub proof fn law_window_eviction(queue: Seq<HoneypotMessage>, now: u64, i: int)
    requires
        ordered(queue),
        0 <= i < queue.len(),
        age(now, queue[i].timestamp) > WINDOW_NANOS,
    ensures
        i < stale_prefix_len(queue, now),
        queue.take(stale_prefix_len(queue, now) as int).filter(in_honeypot()).contains(queue[i])
            <==> queue[i].is_in_honeypot,
{
    lemma_stale_prefix(queue, now);
    let k = stale_prefix_len(queue, now) as int;
    if k <= i {
        assert(is_fresh(now, queue[k]));
        assert(queue[k].timestamp <= queue[i].timestamp);
    }
    let dropped = queue.take(k);
    assert(dropped[i] == queue[i]);
    if queue[i].is_in_honeypot {
        assert(in_honeypot()(dropped[i]));
        dropped.lemma_filter_contains(in_honeypot(), i);
    }
    let kept = dropped.filter(in_honeypot());
    if kept.contains(queue[i]) {
        let j = choose|j: int| 0 <= j < kept.len() && kept[j] == queue[i];
        dropped.lemma_filter_pred(in_honeypot(), j);
    }
}

/// In a queue ordered by arrival, nothing that stays after eviction is
/// older than 60 seconds, and nothing that is no older than 60 seconds
/// leaves.
pub proof fn law_window_keeps_fresh(queue: Seq<HoneypotMessage>, now: u64, i: int)
    requires
        ordered(queue),
        0 <= i < queue.len(),
    ensures
        stale_prefix_len(queue, now) <= i ==> age(now, queue[i].timestamp) <= WINDOW_NANOS,
        age(now, queue[i].timestamp) <= WINDOW_NANOS ==> stale_prefix_len(queue, now) <= i,
{
    lemma_stale_prefix(queue, now);
    let k = stale_prefix_len(queue, now) as int;
    if k <= i {
        assert(is_fresh(now, queue[k]));
        assert(queue[k].timestamp <= queue[i].timestamp);
    } else {
        assert(!is_fresh(now, queue[i]));
    }
}

/// A queue ordered by arrival stays ordered when the detector handles a
/// message that is no older than the newest one queued.
pub proof fn law_queue_stays_ordered(queue: Seq<HoneypotMessage>, new_msg: HoneypotMessage)
    requires
        ordered(queue),
        queue.len() > 0 ==> queue.last().timestamp <= new_msg.timestamp,
    ensures
        ordered(
            queue.skip(stale_prefix_len(queue, new_msg.timestamp) as int).push(new_msg),
        ),
{
    lemma_stale_prefix(queue, new_msg.timestamp);
    let k = stale_prefix_len(queue, new_msg.timestamp) as int;
    let next = queue.skip(k).push(new_msg);
    assert forall|i: int, j: int| 0 <= i <= j < next.len() implies next[i].timestamp
        <= next[j].timestamp by {
        if j < next.len() - 1 {
            assert(next[i] == queue[k + i]);
            assert(next[j] == queue[k + j]);
        } else if i < next.len() - 1 {
            assert(next[i] == queue[k + i]);
            assert(queue[k + i].timestamp <= queue.last().timestamp);
        }
    }
}

/// The channels of identical posts are finitely many: no more than the
/// queue is long, and one.
pub proof fn lemma_posted_channels_finite(queue: Seq<HoneypotMessage>, new_msg: HoneypotMessage)
    ensures
        posted_channels(queue, new_msg).finite(),
        posted_channels(queue, new_msg).len() <= queue.len() + 1,
{
    let all = Seq::new(queue.len(), |k: int| queue[k].channel_id).push(new_msg.channel_id);
    let posted = posted_channels(queue, new_msg);
    vstd::seq_lib::seq_to_set_is_finite(all);
    assert forall|c: u64| posted.contains(c) implies all.to_set().contains(c) by {
        if c == new_msg.channel_id {
            assert(all[queue.len() as int] == c);
        } else {
            let i = choose|i: int|
                0 <= i < queue.len() && same_post(#[trigger] queue[i], new_msg)
                    && queue[i].channel_id == c;
            assert(all[i] == c);
        }
    }
    vstd::set_lib::lemma_len_subset(posted, all.to_set());
    all.lemma_cardinality_of_set();
}

/// The duplicate rule fires: if the queue holds two copies of a message in
/// two channels, the message itself arrives in a third, and one of the
/// three posts was made in a honeypot channel, the author is reported.
pub proof fn law_duplicate_rule(queue: Seq<HoneypotMessage>, new_msg: HoneypotMessage, i: int, j: int)
    requires
        0 <= i < queue.len(),
        0 <= j < queue.len(),
        same_post(queue[i], new_msg),
        same_post(queue[j], new_msg),
        queue[i].channel_id != queue[j].channel_id,
        queue[i].channel_id != new_msg.channel_id,
        queue[j].channel_id != new_msg.channel_id,
        queue[i].is_in_honeypot || queue[j].is_in_honeypot || new_msg.is_in_honeypot,
    ensures
        should_report_spec(queue, new_msg),
{
    lemma_posted_channels_finite(queue, new_msg);
    let posted = posted_channels(queue, new_msg);
    let a = queue[i].channel_id;
    let b = queue[j].channel_id;
    let c = new_msg.channel_id;
    let three = Set::<u64>::empty().insert(a).insert(b).insert(c);
    assert(copy_in_channel(queue, new_msg, a));
    assert(copy_in_channel(queue, new_msg, b));
    assert(three.subset_of(posted));
    vstd::set_lib::lemma_len_subset(three, posted);
    assert(three.len() == 3);
}

/// The duplicate rule holds back: identical posts that reach no more than
/// two channels are not reported, and neither are posts of which none was
/// made in a honeypot channel.
pub proof fn law_duplicate_rule_holds_back(
    queue: Seq<HoneypotMessage>,
    new_msg: HoneypotMessage,
    other: u64,
)
    ensures
        (forall|k: int|
            0 <= k < queue.len() && same_post(#[trigger] queue[k], new_msg) ==> queue[k].channel_id
                == new_msg.channel_id || queue[k].channel_id == other) ==> !should_report_spec(
            queue,
            new_msg,
        ),
        (!new_msg.is_in_honeypot && forall|k: int|
            0 <= k < queue.len() && same_post(#[trigger] queue[k], new_msg)
                ==> !queue[k].is_in_honeypot) ==> !should_report_spec(queue, new_msg),
{
    let posted = posted_channels(queue, new_msg);
    if forall|k: int|
        0 <= k < queue.len() && same_post(#[trigger] queue[k], new_msg) ==> queue[k].channel_id
            == new_msg.channel_id || queue[k].channel_id == other {
        let two = Set::<u64>::empty().insert(new_msg.channel_id).insert(other);
        assert forall|c: u64| posted.contains(c) implies two.contains(c) by {
            if c != new_msg.channel_id {
                let k = choose|k: int|
                    0 <= k < queue.len() && same_post(#[trigger] queue[k], new_msg)
                        && queue[k].channel_id == c;
                assert(queue[k].channel_id == other);
            }
        }
        vstd::set_lib::lemma_len_subset(posted, two);
        assert(two.len() <= 2);
    }
}

/// Nobody is timed out for zero minutes, and nobody is timed out in a
/// guild other than the one the message was posted in.
pub proof fn law_timeouts(messages: Seq<HoneypotMessage>, configs: Seq<ServerConfig>, i: int)
    requires
        0 <= i < timeouts_of(messages, configs).len(),
    ensures
        timeouts_of(messages, configs)[i].minutes != 0,
        exists|k: int|
            0 <= k < messages.len() && timeout_for(#[trigger] messages[k], configs) == Some(
                timeouts_of(messages, configs)[i],
            ),
    decreases messages.len(),
{
    let rest = timeouts_of(messages.drop_last(), configs);
    if i < rest.len() {
        law_timeouts(messages.drop_last(), configs, i);
        let k = choose|k: int|
            0 <= k < messages.drop_last().len() && timeout_for(
                #[trigger] messages.drop_last()[k],
                configs,
            ) == Some(rest[i]);
        assert(messages[k] == messages.drop_last()[k]);
        assert(timeouts_of(messages, configs)[i] == rest[i]);
    } else {
        assert(timeout_for(messages[messages.len() - 1], configs) == Some(
            timeouts_of(messages, configs)[i],
        ));
    }
}

} // verus!
