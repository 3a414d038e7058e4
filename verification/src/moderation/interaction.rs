//! The buttons under a broadcast embed: which there are, who may press
//! them, and what pressing one does.

use crate::database::badactor_model_controller::{broadcast_field_names, broadcast_title};
use crate::text::{
    chars_to_string, decimal, find_char, first_index_of, is_digit, lemma_decimal_digits,
    lemma_first_index_of, push_u64, str_eq, str_to_chars,
};
use crate::util::discord::{
    law_snowflake_round_trip, parse_id, parse_snowflake_spec, GuildId, PartialGuild,
    SnowflakeError, User, UserId,
};
use crate::util::format::username_spec;
use crate::util::embeds::{Embed, EmbedField};
use crate::util::format::{display, display_spec, fdisplay, fdisplay_spec, HasNameAndID};
use vstd::prelude::*;
use vstd::string::*;

verus! {

/// The identifiers of the buttons the bot attaches to its messages.
#[derive(Debug, Copy, Clone, PartialEq, Eq, Structural)]
pub enum CustomId {
    Ban,
    SoftBan,
    Kick,
    Unban,
    Confirm,
    Cancel,
    NoAction,
}

/// The buttons that ask for a moderation action.
#[derive(Debug, Copy, Clone, PartialEq, Eq, Structural)]
pub enum ModerationCustomId {
    Ban,
    SoftBan,
    Kick,
    Unban,
    NoAction,
}

/// Why a button press is not understood.
#[derive(Debug, Copy, Clone, PartialEq, Eq, Structural)]
pub enum CustomIdError {
    /// The identifier is none of the bot's buttons.
    Unknown,
    /// The button is one of the bot's, but asks for no moderation action.
    NotModeration(CustomId),
}

impl CustomId {
    /// The identifier as Discord carries it.
    pub open spec fn text(self) -> Seq<char> {
        match self {
            CustomId::Ban => "ban"@,
            CustomId::SoftBan => "softban"@,
            CustomId::Kick => "kick"@,
            CustomId::Unban => "unban"@,
            CustomId::Confirm => "confirm"@,
            CustomId::Cancel => "cancel"@,
            CustomId::NoAction => "no_action"@,
        }
    }

    /// The button that an identifier stands for, if any.
    pub open spec fn from_text(s: Seq<char>) -> Option<CustomId> {
        if s == "ban"@ {
            Some(CustomId::Ban)
        } else if s == "softban"@ {
            Some(CustomId::SoftBan)
        } else if s == "kick"@ {
            Some(CustomId::Kick)
        } else if s == "unban"@ {
            Some(CustomId::Unban)
        } else if s == "confirm"@ {
            Some(CustomId::Confirm)
        } else if s == "cancel"@ {
            Some(CustomId::Cancel)
        } else if s == "no_action"@ {
            Some(CustomId::NoAction)
        } else {
            None
        }
    }

    /// The identifier as Discord carries it.
    pub fn as_str(&self) -> (s: &'static str)
        ensures
            s@ == self.text(),
    {
        match self {
            CustomId::Ban => "ban",
            CustomId::SoftBan => "softban",
            CustomId::Kick => "kick",
            CustomId::Unban => "unban",
            CustomId::Confirm => "confirm",
            CustomId::Cancel => "cancel",
            CustomId::NoAction => "no_action",
        }
    }

    /// The identifier as Discord carries it.
    pub fn to_string(&self) -> (s: String)
        ensures
            s@ == self.text(),
    {
        String::from_str(self.as_str())
    }

    /// The button that an identifier stands for.
    pub fn from_str(s: &str) -> (r: Result<CustomId, CustomIdError>)
        ensures
            match r {
                Ok(id) => CustomId::from_text(s@) == Some(id),
                Err(e) => CustomId::from_text(s@) is None && e == CustomIdError::Unknown,
            },
    {
        if str_eq(s, "ban") {
            Ok(CustomId::Ban)
        } else if str_eq(s, "softban") {
            Ok(CustomId::SoftBan)
        } else if str_eq(s, "kick") {
            Ok(CustomId::Kick)
        } else if str_eq(s, "unban") {
            Ok(CustomId::Unban)
        } else if str_eq(s, "confirm") {
            Ok(CustomId::Confirm)
        } else if str_eq(s, "cancel") {
            Ok(CustomId::Cancel)
        } else if str_eq(s, "no_action") {
            Ok(CustomId::NoAction)
        } else {
            Err(CustomIdError::Unknown)
        }
    }
}

impl ModerationCustomId {
    /// The button that asks for this action.
    pub open spec fn custom_id(self) -> CustomId {
        match self {
            ModerationCustomId::Ban => CustomId::Ban,
            ModerationCustomId::SoftBan => CustomId::SoftBan,
            ModerationCustomId::Kick => CustomId::Kick,
            ModerationCustomId::Unban => CustomId::Unban,
            ModerationCustomId::NoAction => CustomId::NoAction,
        }
    }

    /// The identifier as Discord carries it.
    pub open spec fn text(self) -> Seq<char> {
        self.custom_id().text()
    }

    /// The identifier as Discord carries it.
    pub fn as_str(&self) -> (s: &'static str)
        ensures
            s@ == self.text(),
    {
        match self {
            ModerationCustomId::Ban => "ban",
            ModerationCustomId::SoftBan => "softban",
            ModerationCustomId::Kick => "kick",
            ModerationCustomId::Unban => "unban",
            ModerationCustomId::NoAction => "no_action",
        }
    }

    /// The identifier as Discord carries it.
    pub fn to_string(&self) -> (s: String)
        ensures
            s@ == self.text(),
    {
        String::from_str(self.as_str())
    }

    /// The moderation action that a button asks for. `Confirm` and
    /// `Cancel` ask for none.
    pub fn try_from(custom_id: CustomId) -> (r: Result<ModerationCustomId, CustomIdError>)
        ensures
            match r {
                Ok(m) => m.custom_id() == custom_id,
                Err(e) => (custom_id == CustomId::Confirm || custom_id == CustomId::Cancel) && e
                    == CustomIdError::NotModeration(custom_id),
            },
    {
        match custom_id {
            CustomId::Ban => Ok(ModerationCustomId::Ban),
            CustomId::SoftBan => Ok(ModerationCustomId::SoftBan),
            CustomId::Kick => Ok(ModerationCustomId::Kick),
            CustomId::Unban => Ok(ModerationCustomId::Unban),
            CustomId::NoAction => Ok(ModerationCustomId::NoAction),
            _ => Err(CustomIdError::NotModeration(custom_id)),
        }
    }
}

/// The permission bit that allows kicking members.
pub const KICK_MEMBERS: u64 = 2;

/// The permission bit that allows banning members.
pub const BAN_MEMBERS: u64 = 4;

/// Whether a member with the given guild-level permissions may press the
/// button: kicking takes the kick permission, everything else the ban
/// permission.
pub open spec fn may_moderate(custom_id: ModerationCustomId, permissions: u64) -> bool {
    match custom_id {
        ModerationCustomId::Kick => permissions & KICK_MEMBERS == KICK_MEMBERS,
        _ => permissions & BAN_MEMBERS == BAN_MEMBERS,
    }
}

/// Whether the member who pressed a button may have its action carried
/// out. `permissions` are the member's guild-level permissions, or `None`
/// where they could not be worked out; then the answer is no.
pub fn can_moderate(custom_id: ModerationCustomId, permissions: Option<u64>) -> (allowed: bool)
    ensures
        allowed == (permissions is Some && may_moderate(custom_id, permissions->0)),
{
    match permissions {
        None => false,
        Some(bits) => match custom_id {
            ModerationCustomId::Kick => bits & KICK_MEMBERS == KICK_MEMBERS,
            _ => bits & BAN_MEMBERS == BAN_MEMBERS,
        },
    }
}

/// Whether some field of `fields` is called `name`.
pub open spec fn has_field(fields: Seq<EmbedField>, name: Seq<char>) -> bool {
    exists|j: int| 0 <= j < fields.len() && (#[trigger] fields[j]).name@ == name
}

/// Whether `name` is one of the six names of a broadcast embed's fields.
pub open spec fn is_broadcast_field_name(name: Seq<char>) -> bool {
    exists|i: int| 0 <= i < 6 && #[trigger] broadcast_field_names()[i] == name
}

/// The fingerprint of a broadcast embed: six fields whose names are, as a
/// set, the six names that a broadcast embed's fields carry.
pub open spec fn is_broadcast_embed(embed: Embed) -> bool {
    &&& embed.fields@.len() == 6
    &&& forall|j: int|
        0 <= j < embed.fields@.len() ==> is_broadcast_field_name(
            (#[trigger] embed.fields@[j]).name@,
        )
    &&& forall|i: int|
        0 <= i < 6 ==> has_field(embed.fields@, #[trigger] broadcast_field_names()[i])
}

fn expected_field_name(i: usize) -> (name: &'static str)
    requires
        i < 6,
    ensures
        name@ == broadcast_field_names()[i as int],
{
    if i == 0 {
        "Report ID"
    } else if i == 1 {
        "Active"
    } else if i == 2 {
        "Type"
    } else if i == 3 {
        "Explanation"
    } else if i == 4 {
        "Server of Origin"
    } else {
        "Last Updated By"
    }
}

fn is_expected_name(name: &str) -> (expected: bool)
    ensures
        expected == is_broadcast_field_name(name@),
{
    let mut i: usize = 0;
    while i < 6
        invariant
            i <= 6,
            forall|k: int| 0 <= k < i ==> #[trigger] broadcast_field_names()[k] != name@,
        decreases 6 - i,
    {
        if str_eq(expected_field_name(i), name) {
            return true;
        }
        i += 1;
    }
    false
}

/// Index of the first field called `name`, or the number of fields if
/// there is none.
pub open spec fn field_index(fields: Seq<EmbedField>, name: Seq<char>) -> int
    decreases fields.len(),
{
    if fields.len() == 0 || fields[0].name@ == name {
        0
    } else {
        1 + field_index(fields.drop_first(), name)
    }
}

/// An index before which no field is called `name` and at which one is (or
/// the fields end) is the index of the first field of that name.
pub proof fn lemma_field_index(fields: Seq<EmbedField>, name: Seq<char>, k: int)
    requires
        0 <= k <= fields.len(),
        forall|j: int| 0 <= j < k ==> (#[trigger] fields[j]).name@ != name,
        k < fields.len() ==> fields[k].name@ == name,
    ensures
        field_index(fields, name) == k,
    decreases fields.len(),
{
    if k > 0 {
        assert(fields[0].name@ != name);
        let rest = fields.drop_first();
        assert forall|j: int| 0 <= j < k - 1 implies (#[trigger] rest[j]).name@ != name by {
            assert(rest[j] == fields[j + 1]);
        }
        lemma_field_index(rest, name, k - 1);
    }
}

fn find_field(fields: &Vec<EmbedField>, name: &str) -> (index: usize)
    ensures
        index == field_index(fields@, name@),
        index <= fields.len(),
        index < fields.len() ==> fields[index as int].name@ == name@,
        index == fields.len() ==> !has_field(fields@, name@),
{
    let mut i: usize = 0;
    while i < fields.len() && !str_eq(fields[i].name.as_str(), name)
        invariant
            i <= fields.len(),
            forall|j: int| 0 <= j < i ==> (#[trigger] fields[j]).name@ != name@,
        decreases fields.len() - i,
    {
        i += 1;
    }
    proof {
        lemma_field_index(fields@, name@, i as int);
    }
    i
}

/// Picks the broadcast embed out of the embeds of a message: the first
/// embed, if it carries the fingerprint of a broadcast embed.
pub fn get_broadcast_embed(embeds: Vec<Embed>) -> (embed: Option<Embed>)
    ensures
        match embed {
            Some(e) => embeds@.len() > 0 && e == embeds@[0] && is_broadcast_embed(e),
            None => embeds@.len() == 0 || !is_broadcast_embed(embeds@[0]),
        },
{
    let ghost original = embeds@;
    let mut all = embeds;
    if all.len() == 0 {
        return None;
    }
    let first_embed = all.swap_remove(0);
    assert(first_embed == original[0]);
    if first_embed.fields.len() != 6 {
        return None;
    }
    let mut j: usize = 0;
    while j < first_embed.fields.len()
        invariant
            j <= first_embed.fields.len(),
            original == embeds@,
            original.len() > 0,
            first_embed == original[0],
            forall|k: int|
                0 <= k < j ==> is_broadcast_field_name((#[trigger] first_embed.fields@[k]).name@),
        decreases first_embed.fields.len() - j,
    {
        if !is_expected_name(first_embed.fields[j].name.as_str()) {
            assert(!is_broadcast_field_name(first_embed.fields@[j as int].name@));
            return None;
        }
        j += 1;
    }
    let mut i: usize = 0;
    while i < 6
        invariant
            i <= 6,
            original == embeds@,
            original.len() > 0,
            first_embed == original[0],
            forall|k: int|
                0 <= k < i ==> has_field(first_embed.fields@, #[trigger] broadcast_field_names()[k]),
        decreases 6 - i,
    {
        let at = find_field(&first_embed.fields, expected_field_name(i));
        if at == first_embed.fields.len() {
            assert(!has_field(first_embed.fields@, broadcast_field_names()[i as int]));
            return None;
        }
        i += 1;
    }
    Some(first_embed)
}

/// Why the reported account cannot be read off a broadcast embed.
#[derive(Debug, Copy, Clone, PartialEq, Eq, Structural)]
pub enum TargetUserError {
    /// The embed has no title.
    MissingTitle,
    /// The title holds no backtick.
    MissingFirstBacktick,
    /// The title holds no second backtick.
    MissingLastBacktick,
    /// What stands between the backticks is not a snowflake.
    InvalidId(SnowflakeError),
}

/// The account that a broadcast embed's title names: the snowflake between
/// the first backtick of the title and the next one.
pub open spec fn target_user_spec(title: Option<Seq<char>>) -> Result<UserId, TargetUserError> {
    match title {
        None => Err(TargetUserError::MissingTitle),
        Some(t) => {
            let start = first_index_of(t, '`');
            if start >= t.len() {
                Err(TargetUserError::MissingFirstBacktick)
            } else {
                let rest = t.skip(start + 1);
                let len = first_index_of(rest, '`');
                if len >= rest.len() {
                    Err(TargetUserError::MissingLastBacktick)
                } else {
                    match parse_snowflake_spec(rest.take(len)) {
                        Ok(id) => Ok(id),
                        Err(e) => Err(TargetUserError::InvalidId(e)),
                    }
                }
            }
        },
    }
}

/// The view of an optional string.
pub open spec fn title_text(title: Option<String>) -> Option<Seq<char>> {
    match title {
        Some(t) => Some(t@),
        None => None,
    }
}

/// Reads the reported account off a broadcast embed's title.
pub fn get_target_user(broadcast_embed: &Embed) -> (r: Result<UserId, TargetUserError>)
    ensures
        r == target_user_spec(title_text(broadcast_embed.title)),
{
    let title = match &broadcast_embed.title {
        Some(t) => t,
        None => {
            return Err(TargetUserError::MissingTitle);
        },
    };
    let chars = str_to_chars(title.as_str());
    let id_start = match find_char(&chars, '`', 0) {
        Some(i) => i,
        None => {
            proof {
                assert forall|j: int| 0 <= j < chars@.len() implies #[trigger] chars@[j] != '`' by {}
                lemma_first_index_of(chars@, '`', chars@.len() as int);
            }
            return Err(TargetUserError::MissingFirstBacktick);
        },
    };
    proof {
        assert forall|j: int| 0 <= j < id_start implies #[trigger] chars@[j] != '`' by {}
        lemma_first_index_of(chars@, '`', id_start as int);
    }
    let ghost rest = chars@.skip(id_start + 1);
    let id_end = match find_char(&chars, '`', id_start + 1) {
        Some(i) => i,
        None => {
            proof {
                assert forall|j: int| 0 <= j < rest.len() implies #[trigger] rest[j] != '`' by {
                    assert(rest[j] == chars@[id_start + 1 + j]);
                }
                lemma_first_index_of(rest, '`', rest.len() as int);
            }
            return Err(TargetUserError::MissingLastBacktick);
        },
    };
    proof {
        assert forall|j: int| 0 <= j < id_end - id_start - 1 implies #[trigger] rest[j] != '`' by {
            assert(rest[j] == chars@[id_start + 1 + j]);
        }
        assert(rest[id_end - id_start - 1] == chars@[id_end as int]);
        lemma_first_index_of(rest, '`', id_end - id_start - 1);
        assert(rest.take(id_end - id_start - 1) == chars@.subrange(
            id_start + 1,
            id_end as int,
        ));
    }
    let id_str = chars_to_string(&chars, id_start + 1, id_end);
    match parse_id(id_str.as_str()) {
        Ok(id) => Ok(id),
        Err(e) => Err(TargetUserError::InvalidId(e)),
    }
}

/// Why no ban reason can be read off a broadcast embed.
#[derive(Debug, Copy, Clone, PartialEq, Eq, Structural)]
pub enum BanReasonError {
    /// No field is called `Report ID`.
    MissingReportId,
    /// No field is called `Type`.
    MissingType,
}

/// The ban reason that a broadcast embed spells: `Bad Actor`, the value of
/// its first `Type` field and, in brackets, the value of its first
/// `Report ID` field.
pub open spec fn embed_ban_reason(fields: Seq<EmbedField>) -> Result<Seq<char>, BanReasonError> {
    let report = field_index(fields, "Report ID"@);
    let kind = field_index(fields, "Type"@);
    if report >= fields.len() {
        Err(BanReasonError::MissingReportId)
    } else if kind >= fields.len() {
        Err(BanReasonError::MissingType)
    } else {
        Ok("Bad Actor "@ + fields[kind].value@ + " ("@ + fields[report].value@ + ")"@)
    }
}

/// Reads the reason for a ban off a broadcast embed.
pub fn get_ban_reason(embed: &Embed) -> (r: Result<String, BanReasonError>)
    ensures
        match r {
            Ok(reason) => embed_ban_reason(embed.fields@) == Ok::<Seq<char>, BanReasonError>(
                reason@,
            ),
            Err(e) => embed_ban_reason(embed.fields@) == Err::<Seq<char>, BanReasonError>(e),
        },
{
    let report = find_field(&embed.fields, "Report ID");
    if report == embed.fields.len() {
        return Err(BanReasonError::MissingReportId);
    }
    let kind = find_field(&embed.fields, "Type");
    if kind == embed.fields.len() {
        return Err(BanReasonError::MissingType);
    }
    let mut reason = String::new();
    reason.append("Bad Actor ");
    reason.append(embed.fields[kind].value.as_str());
    reason.append(" (");
    reason.append(embed.fields[report].value.as_str());
    reason.append(")");
    assert(reason@ =~= "Bad Actor "@ + embed.fields@[kind as int].value@ + " ("@
        + embed.fields@[report as int].value@ + ")"@);
    Ok(reason)
}

/// What a button press is about.
#[derive(Debug)]
pub struct HandleModerationOptions<'a> {
    pub interaction_guild_id: GuildId,
    pub custom_id: ModerationCustomId,
    pub target_user: &'a User,
    pub interaction_user: &'a User,
    pub embed: &'a Embed,
}

/// A button press that is worth looking into.
#[derive(Debug)]
pub struct ButtonPress {
    pub interaction_guild_id: GuildId,
    pub custom_id: ModerationCustomId,
    pub embed: Embed,
}

/// What a component interaction asks for: `Ok(None)` where it is none of
/// the bot's business (no button, pressed outside a guild, no moderation
/// button, or not under a broadcast embed), an error where the button's
/// identifier is unknown.
pub open spec fn button_press_spec(
    is_button: bool,
    guild_id: Option<GuildId>,
    custom_id: Seq<char>,
    embeds: Seq<Embed>,
) -> Result<Option<(GuildId, ModerationCustomId, Embed)>, CustomIdError> {
    if !is_button || guild_id is None {
        Ok(None)
    } else {
        match CustomId::from_text(custom_id) {
            None => Err(CustomIdError::Unknown),
            Some(id) => if id == CustomId::Confirm || id == CustomId::Cancel || embeds.len() == 0
                || !is_broadcast_embed(embeds[0]) {
                Ok(None)
            } else {
                Ok(Some((guild_id->0, moderation_id(id), embeds[0])))
            },
        }
    }
}

/// The moderation button behind a button identifier (`NoAction` for the
/// two that are none).
pub open spec fn moderation_id(id: CustomId) -> ModerationCustomId {
    match id {
        CustomId::Ban => ModerationCustomId::Ban,
        CustomId::SoftBan => ModerationCustomId::SoftBan,
        CustomId::Kick => ModerationCustomId::Kick,
        CustomId::Unban => ModerationCustomId::Unban,
        _ => ModerationCustomId::NoAction,
    }
}

/// Looks at a component interaction and says whether it is a press of a
/// moderation button under a broadcast embed, in a guild.
pub fn handle_component_interaction(
    is_button: bool,
    guild_id: Option<GuildId>,
    custom_id: &str,
    embeds: Vec<Embed>,
) -> (r: Result<Option<ButtonPress>, CustomIdError>)
    ensures
        match r {
            Ok(Some(press)) => button_press_spec(is_button, guild_id, custom_id@, embeds@) == Ok::<
                Option<(GuildId, ModerationCustomId, Embed)>,
                CustomIdError,
            >(Some((press.interaction_guild_id, press.custom_id, press.embed))),
            Ok(None) => button_press_spec(is_button, guild_id, custom_id@, embeds@) == Ok::<
                Option<(GuildId, ModerationCustomId, Embed)>,
                CustomIdError,
            >(None),
            Err(e) => button_press_spec(is_button, guild_id, custom_id@, embeds@) == Err::<
                Option<(GuildId, ModerationCustomId, Embed)>,
                CustomIdError,
            >(e),
        },
{
    if !is_button {
        return Ok(None);
    }
    let interaction_guild_id = match guild_id {
        Some(id) => id,
        None => {
            return Ok(None);
        },
    };
    let id = match CustomId::from_str(custom_id) {
        Ok(id) => id,
        Err(e) => {
            return Err(e);
        },
    };
    let custom_id = match ModerationCustomId::try_from(id) {
        Ok(m) => m,
        Err(_) => {
            return Ok(None);
        },
    };
    match get_broadcast_embed(embeds) {
        Some(embed) => Ok(Some(ButtonPress { interaction_guild_id, custom_id, embed })),
        None => Ok(None),
    }
}

/// What pressing a button asks the bot to do.
#[derive(Debug)]
pub enum ModerationOrder {
    /// Nothing at all.
    Nothing,
    /// Nothing, because the guild has no usable log channel; a warning is
    /// logged.
    MissingLogChannel,
    /// Ban the account, deleting seven days of its messages; with the
    /// reason, where the embed spells one.
    Ban { reason: Option<String> },
    /// Ban the account, deleting seven days of its messages, and unban it
    /// at once if the ban went through.
    SoftBan,
    /// Remove the account from the guild.
    Kick,
    /// Lift the account's ban.
    Unban,
}

/// The kinds of order.
#[derive(Debug, Copy, Clone, PartialEq, Eq, Structural)]
pub enum OrderKind {
    Nothing,
    MissingLogChannel,
    Ban,
    SoftBan,
    Kick,
    Unban,
}

impl ModerationOrder {
    /// The kind of the order.
    pub open spec fn kind(self) -> OrderKind {
        match self {
            ModerationOrder::Nothing => OrderKind::Nothing,
            ModerationOrder::MissingLogChannel => OrderKind::MissingLogChannel,
            ModerationOrder::Ban { .. } => OrderKind::Ban,
            ModerationOrder::SoftBan => OrderKind::SoftBan,
            ModerationOrder::Kick => OrderKind::Kick,
            ModerationOrder::Unban => OrderKind::Unban,
        }
    }
}

/// The order behind a button: `NoAction` orders nothing; anything else
/// needs the guild's log channel and then orders what the button says. The
/// membership and the roles of the account play no part: a human decided.
pub open spec fn order_kind(custom_id: ModerationCustomId, has_log_channel: bool) -> OrderKind {
    if custom_id == ModerationCustomId::NoAction {
        OrderKind::Nothing
    } else if !has_log_channel {
        OrderKind::MissingLogChannel
    } else {
        match custom_id {
            ModerationCustomId::Ban => OrderKind::Ban,
            ModerationCustomId::SoftBan => OrderKind::SoftBan,
            ModerationCustomId::Kick => OrderKind::Kick,
            ModerationCustomId::Unban => OrderKind::Unban,
            ModerationCustomId::NoAction => OrderKind::Nothing,
        }
    }
}

/// Whether the guild's log channel has to be looked up for a button: for
/// every button but `NoAction`.
pub fn needs_log_channel(custom_id: ModerationCustomId) -> (needed: bool)
    ensures
        needed == (custom_id != ModerationCustomId::NoAction),
{
    custom_id != ModerationCustomId::NoAction
}

/// Works out what a button press orders. `has_log_channel` says whether the
/// guild's log channel was found.
pub fn handle_moderation(options: &HandleModerationOptions<'_>, has_log_channel: bool) -> (order:
    ModerationOrder)
    ensures
        order.kind() == order_kind(options.custom_id, has_log_channel),
        order matches ModerationOrder::Ban { reason } ==> (match reason {
            Some(text) => embed_ban_reason(options.embed.fields@) == Ok::<
                Seq<char>,
                BanReasonError,
            >(text@),
            None => embed_ban_reason(options.embed.fields@) is Err,
        }),
{
    if options.custom_id == ModerationCustomId::NoAction {
        return ModerationOrder::Nothing;
    }
    if !has_log_channel {
        return ModerationOrder::MissingLogChannel;
    }
    match options.custom_id {
        ModerationCustomId::Ban => {
            let reason = match get_ban_reason(options.embed) {
                Ok(text) => Some(text),
                Err(_) => None,
            };
            ModerationOrder::Ban { reason }
        },
        ModerationCustomId::SoftBan => ModerationOrder::SoftBan,
        ModerationCustomId::Kick => ModerationOrder::Kick,
        ModerationCustomId::Unban => ModerationOrder::Unban,
        ModerationCustomId::NoAction => ModerationOrder::Nothing,
    }
}

/// How carrying out an order ended.
#[derive(Debug)]
pub enum OrderOutcome {
    /// Discord did what was asked.
    Done,
    /// Discord refused, with the given words.
    Failed { error: String },
}

/// What to say after an order was carried out.
#[derive(Debug)]
pub struct OrderReport {
    /// What the guild is told in its log channel.
    pub guild_message: String,
    /// What goes to the operations log.
    pub log: Option<String>,
}

/// A guild as the operations log names it: written for the Discord client
/// where it resolves, else its bare identifier.
pub open spec fn display_guild_text(guild: Option<&PartialGuild>, guild_id: GuildId) -> Seq<char> {
    match guild {
        Some(g) => fdisplay_spec(g.name_spec(), g.id_spec()),
        None => decimal(guild_id as nat),
    }
}

/// A guild as the operations log names it.
pub fn display_guild(guild: Option<&PartialGuild>, guild_id: GuildId) -> (text: String)
    ensures
        text@ == display_guild_text(guild, guild_id),
{
    match guild {
        Some(g) => fdisplay(g),
        None => {
            let mut text = String::new();
            push_u64(&mut text, guild_id);
            assert(text@ =~= decimal(guild_id as nat));
            text
        },
    }
}

/// Whether an unban failed because there was no ban to lift.
pub open spec fn is_unknown_ban(custom_id: ModerationCustomId, error: Seq<char>) -> bool {
    custom_id == ModerationCustomId::Unban && error == "Unknown Ban"@
}

/// What the guild is told after an order. `error` is what Discord said if
/// it refused; `moderator` and `target` are the two accounts as written
/// for the Discord client.
pub open spec fn order_guild_message(
    custom_id: ModerationCustomId,
    error: Option<Seq<char>>,
    moderator: Seq<char>,
    target: Seq<char>,
) -> Seq<char> {
    match error {
        None => moderator + " took moderation action `"@ + custom_id.text() + "` against user "@
            + target + " using the broadcast embed buttons."@,
        Some(e) => if is_unknown_ban(custom_id, e) {
            "Failed to unban user "@ + target
                + ". Their ban was not found which most likely means they were not banned in the first place."@
        } else {
            "Failed to "@ + custom_id.text() + " user "@ + target + " from your guild!"@
        },
    }
}

/// What goes to the operations log after an order: nothing unless Discord
/// refused for a reason other than a ban that was not there.
pub open spec fn order_log(
    custom_id: ModerationCustomId,
    error: Option<Seq<char>>,
    target: Seq<char>,
    guild: Seq<char>,
) -> Option<Seq<char>> {
    match error {
        None => None,
        Some(e) => if is_unknown_ban(custom_id, e) {
            None
        } else {
            Some("Failed to "@ + custom_id.text() + " user "@ + target + " from "@ + guild)
        },
    }
}

/// The words of a refusal, if the outcome is one.
pub open spec fn outcome_error(outcome: OrderOutcome) -> Option<Seq<char>> {
    match outcome {
        OrderOutcome::Done => None,
        OrderOutcome::Failed { error } => Some(error@),
    }
}

/// Works out what to say after an order was carried out: the guild hears
/// who did what on success, and hears of the failure otherwise; a failure
/// also goes to the operations log, unless it is an unban of an account
/// that was not banned. `display_guild` is the guild as the operations log
/// names it.
pub fn handle_moderation_result(
    options: &HandleModerationOptions<'_>,
    outcome: &OrderOutcome,
    display_guild: &str,
) -> (report: OrderReport)
    ensures
        report.guild_message@ == order_guild_message(
            options.custom_id,
            outcome_error(*outcome),
            fdisplay_spec(options.interaction_user.name_spec(), options.interaction_user.id_spec()),
            fdisplay_spec(options.target_user.name_spec(), options.target_user.id_spec()),
        ),
        (match report.log {
            Some(l) => Some(l@),
            None => None,
        }) == order_log(
            options.custom_id,
            outcome_error(*outcome),
            display_spec(options.target_user.name_spec(), options.target_user.id_spec()),
            display_guild@,
        ),
{
    let target = fdisplay(options.target_user);
    let mut guild_message = String::new();
    match outcome {
        OrderOutcome::Done => {
            let moderator = fdisplay(options.interaction_user);
            guild_message.append(moderator.as_str());
            guild_message.append(" took moderation action `");
            guild_message.append(options.custom_id.as_str());
            guild_message.append("` against user ");
            guild_message.append(target.as_str());
            guild_message.append(" using the broadcast embed buttons.");
            OrderReport { guild_message, log: None }
        },
        OrderOutcome::Failed { error } => {
            if options.custom_id == ModerationCustomId::Unban && str_eq(
                error.as_str(),
                "Unknown Ban",
            ) {
                guild_message.append("Failed to unban user ");
                guild_message.append(target.as_str());
                guild_message.append(
                    ". Their ban was not found which most likely means they were not banned in the first place.",
                );
                OrderReport { guild_message, log: None }
            } else {
                guild_message.append("Failed to ");
                guild_message.append(options.custom_id.as_str());
                guild_message.append(" user ");
                guild_message.append(target.as_str());
                guild_message.append(" from your guild!");
                let mut log = String::new();
                log.append("Failed to ");
                log.append(options.custom_id.as_str());
                log.append(" user ");
                let who = display(options.target_user);
                log.append(who.as_str());
                log.append(" from ");
                log.append(display_guild);
                OrderReport { guild_message, log: Some(log) }
            }
        },
    }
}

/// The warning logged when a guild has no usable log channel.
pub fn missing_log_channel_warning(target_user: &User, display_guild: &str) -> (text: String)
    ensures
        text@ == "Cannot moderate "@ + display_spec(target_user.name_spec(), target_user.id_spec())
            + " in guild "@ + display_guild@ + " because of missing log channel"@,
{
    let mut text = String::new();
    text.append("Cannot moderate ");
    let who = display(target_user);
    text.append(who.as_str());
    text.append(" in guild ");
    text.append(display_guild);
    text.append(" because of missing log channel");
    text
}

/// What goes to the operations log when the buttons could not be taken
/// off a broadcast embed.
pub fn remove_buttons_failure_log(target_user: &User, display_guild: &str) -> (text: String)
    ensures
        text@ == "Failed to remove buttons from broadcast embed for target user "@ + display_spec(
            target_user.name_spec(),
            target_user.id_spec(),
        ) + " in "@ + display_guild@,
{
    let mut text = String::new();
    text.append("Failed to remove buttons from broadcast embed for target user ");
    let who = display(target_user);
    text.append(who.as_str());
    text.append(" in ");
    text.append(display_guild);
    text
}

/// Fingerprint of the bot's own embeds: an embed with six fields that
/// carry the six names in order passes as a broadcast embed.
pub proof fn law_broadcast_embed_fingerprint(embed: Embed)
    requires
        embed.fields@.len() == 6,
        forall|i: int| 0 <= i < 6 ==> (#[trigger] embed.fields@[i]).name@ == broadcast_field_names()[i],
    ensures
        is_broadcast_embed(embed),
{
    assert forall|j: int| 0 <= j < embed.fields@.len() implies is_broadcast_field_name(
        (#[trigger] embed.fields@[j]).name@,
    ) by {
        assert(broadcast_field_names()[j] == embed.fields@[j].name@);
    }
    assert forall|i: int| 0 <= i < 6 implies has_field(
        embed.fields@,
        #[trigger] broadcast_field_names()[i],
    ) by {
        assert(embed.fields@[i].name@ == broadcast_field_names()[i]);
    }
}

/// The title of a broadcast embed names its target: the account is read
/// back off the title that the bot wrote for it, provided the name shown
/// in the title holds no backtick.
pub proof fn law_title_names_target(target_user: Option<&User>, user_id: UserId)
    requires
        user_id != 0,
        target_user is Some ==> !username_spec(*target_user->0).contains('`'),
    ensures
        target_user_spec(Some(broadcast_title(target_user, user_id))) == Ok::<
            UserId,
            TargetUserError,
        >(user_id),
{
    reveal_strlit("Unknown User");
    reveal_strlit(" (`");
    reveal_strlit("`)");
    let name = match target_user {
        Some(u) => username_spec(*u),
        None => "Unknown User"@,
    };
    let digits = decimal(user_id as nat);
    let title = broadcast_title(target_user, user_id);
    lemma_decimal_digits(user_id as nat);
    assert(title == name + " (`"@ + digits + "`)"@);
    let start = (name.len() + 2) as int;
    assert forall|j: int| 0 <= j < start implies #[trigger] title[j] != '`' by {
        if j < name.len() {
            assert(title[j] == name[j]);
            if target_user is Some {
                assert(!name.contains(title[j]) || title[j] != '`');
            }
        } else {
            assert(title[j] == " (`"@[j - name.len()]);
        }
    }
    assert(title[start] == " (`"@[2]);
    lemma_first_index_of(title, '`', start);
    let rest = title.skip(start + 1);
    assert forall|j: int| 0 <= j < digits.len() implies #[trigger] rest[j] != '`' by {
        assert(rest[j] == digits[j]);
        assert(is_digit(digits[j]));
    }
    assert(rest[digits.len() as int] == "`)"@[0]);
    lemma_first_index_of(rest, '`', digits.len() as int);
    assert(rest.take(digits.len() as int) =~= digits);
    law_snowflake_round_trip(user_id);
}

/// Buttons are read back as written: the identifier of every button
/// stands for that button.
pub proof fn law_custom_id_round_trip(id: CustomId)
    ensures
        CustomId::from_text(id.text()) == Some(id),
{
    reveal_strlit("ban");
    reveal_strlit("softban");
    reveal_strlit("kick");
    reveal_strlit("unban");
    reveal_strlit("confirm");
    reveal_strlit("cancel");
    reveal_strlit("no_action");
    assert("ban"@.len() == 3);
    assert("softban"@.len() == 7);
    assert("kick"@.len() == 4);
    assert("unban"@.len() == 5);
    assert("confirm"@.len() == 7);
    assert("cancel"@.len() == 6);
    assert("no_action"@.len() == 9);
    assert("softban"@[0] != "confirm"@[0]);
}

} // verus!
