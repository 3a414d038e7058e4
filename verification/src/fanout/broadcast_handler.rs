//! The broadcast orchestrator: what a broadcast says, which buttons go
//! under it, and in which order its stages run.

use crate::database::badactor_model_controller::BadActor;
use crate::database::serverconfig_model_controller::ActionLevel;
use crate::moderation::interaction::CustomId;
use crate::util::discord::{GuildId, PartialGuild, User, UserId};
use crate::util::embeds::{CreateAttachment, Embed, EmbedColor};
use crate::util::format::{display, display_spec, HasNameAndID};
use crate::util::logger::LogLevel;
use vstd::prelude::*;
use vstd::string::*;

verus! {

/// The lifecycle events of a report that are broadcast.
#[derive(Debug, Clone, Copy, PartialEq, Eq, Structural)]
pub enum BroadcastType {
    Report,
    Deactivate,
    AddScreenshot,
    ReplaceScreenshot,
    UpdateExplanation,
    Honeypot,
}

impl BroadcastType {
    /// The sentence that announces the event.
    pub open spec fn message_spec(self) -> Seq<char> {
        match self {
            BroadcastType::Report => "A bad actor has been reported."@,
            BroadcastType::Deactivate => "A bad actor has been deactivated."@,
            BroadcastType::AddScreenshot =>
                "A screenshot proof has been added to a bad actor entry."@,
            BroadcastType::UpdateExplanation =>
                "The explanation for a bad actor has been updated."@,
            BroadcastType::ReplaceScreenshot => "A screenshot has been replaced for a bad actor."@,
            BroadcastType::Honeypot => "A bad actor was caught by the honeypot."@,
        }
    }

    /// Whether the event files a new report, by hand or by the honeypot.
    pub open spec fn new_report(self) -> bool {
        self == BroadcastType::Report || self == BroadcastType::Honeypot
    }

    /// The colour of the event's embed.
    pub open spec fn colour(self) -> EmbedColor {
        match self {
            BroadcastType::AddScreenshot => EmbedColor::Yellow,
            BroadcastType::Deactivate => EmbedColor::Green,
            BroadcastType::Honeypot => EmbedColor::DeepPink,
            BroadcastType::Report => EmbedColor::Red,
            BroadcastType::ReplaceScreenshot => EmbedColor::Orange,
            BroadcastType::UpdateExplanation => EmbedColor::Orange,
        }
    }

    /// The sentence that announces the event.
    pub fn message(&self) -> (text: &'static str)
        ensures
            text@ == self.message_spec(),
    {
        match self {
            BroadcastType::Report => "A bad actor has been reported.",
            BroadcastType::Deactivate => "A bad actor has been deactivated.",
            BroadcastType::AddScreenshot => {
                "A screenshot proof has been added to a bad actor entry."
            },
            BroadcastType::UpdateExplanation => "The explanation for a bad actor has been updated.",
            BroadcastType::ReplaceScreenshot => "A screenshot has been replaced for a bad actor.",
            BroadcastType::Honeypot => "A bad actor was caught by the honeypot.",
        }
    }

    /// Whether the event files a new report, by hand or by the honeypot.
    pub fn is_new_report(&self) -> (new_report: bool)
        ensures
            new_report == self.new_report(),
    {
        match self {
            BroadcastType::Report => true,
            BroadcastType::Honeypot => true,
            _ => false,
        }
    }
}

/// The colour of the embed for an event.
pub fn get_embed_colour(broadcast_type: BroadcastType) -> (colour: EmbedColor)
    ensures
        colour == broadcast_type.colour(),
{
    match broadcast_type {
        BroadcastType::AddScreenshot => EmbedColor::Yellow,
        BroadcastType::Deactivate => EmbedColor::Green,
        BroadcastType::Honeypot => EmbedColor::DeepPink,
        BroadcastType::Report => EmbedColor::Red,
        BroadcastType::ReplaceScreenshot => EmbedColor::Orange,
        BroadcastType::UpdateExplanation => EmbedColor::Orange,
    }
}

/// What one broadcast is about.
#[derive(Debug)]
pub struct BroadcastOptions<'a> {
    pub reporting_user: &'a User,
    pub reporting_bot_id: UserId,
    pub bad_actor: &'a BadActor,
    pub bad_actor_user: &'a User,
    pub origin_guild: Option<PartialGuild>,
    pub origin_guild_id: GuildId,
    pub broadcast_type: BroadcastType,
}

/// A button under a message.
#[derive(Debug, Clone, Copy)]
pub struct CreateButton {
    pub custom_id: CustomId,
    pub label: &'static str,
}

/// A message ready to be sent: its text, its embed, the file that goes
/// with it and the row of buttons under it.
#[derive(Debug, Clone)]
pub struct CreateMessage {
    pub content: String,
    pub embed: Embed,
    pub attachment: Option<CreateAttachment>,
    pub buttons: Vec<CreateButton>,
}

/// The text on a moderation button.
pub open spec fn button_label(custom_id: CustomId) -> Seq<char> {
    match custom_id {
        CustomId::Ban => "Ban"@,
        CustomId::SoftBan => "Softban"@,
        CustomId::Kick => "Kick"@,
        CustomId::Unban => "Unban"@,
        CustomId::Confirm => "Confirm"@,
        CustomId::Cancel => "Cancel"@,
        CustomId::NoAction => "No Action"@,
    }
}

/// The buttons that go under a listener's copy of a broadcast. Where a new
/// report meets a guild that only wants to be notified, a human has to
/// decide: ban, softban or kick. A deactivation offers to unban. Anything
/// else carries no buttons.
pub open spec fn broadcast_buttons(broadcast_type: BroadcastType, action_level: ActionLevel) -> Seq<
    CustomId,
> {
    if broadcast_type.new_report() && action_level == ActionLevel::Notify {
        seq![CustomId::Ban, CustomId::SoftBan, CustomId::Kick]
    } else if broadcast_type == BroadcastType::Deactivate {
        seq![CustomId::Unban]
    } else {
        Seq::empty()
    }
}

/// Whether the buttons of a message are exactly `ids`, in order, each with
/// its label.
pub open spec fn buttons_are(buttons: Seq<CreateButton>, ids: Seq<CustomId>) -> bool {
    &&& buttons.len() == ids.len()
    &&& forall|i: int|
        0 <= i < ids.len() ==> (#[trigger] buttons[i]).custom_id == ids[i] && buttons[i].label@
            == button_label(ids[i])
}

/// Builds a listener's copy of a broadcast, with the buttons that the
/// event and the guild's action level call for.
pub fn get_broadcast_message(
    content: &str,
    embed: Embed,
    attachment: Option<CreateAttachment>,
    action_level: ActionLevel,
    broadcast_type: BroadcastType,
) -> (message: CreateMessage)
    ensures
        message.content@ == content@,
        message.embed == embed,
        message.attachment == attachment,
        buttons_are(message.buttons@, broadcast_buttons(broadcast_type, action_level)),
{
    let mut buttons: Vec<CreateButton> = Vec::new();
    if broadcast_type.is_new_report() && action_level == ActionLevel::Notify {
        buttons.push(CreateButton { custom_id: CustomId::Ban, label: "Ban" });
        buttons.push(CreateButton { custom_id: CustomId::SoftBan, label: "Softban" });
        buttons.push(CreateButton { custom_id: CustomId::Kick, label: "Kick" });
    } else if broadcast_type == BroadcastType::Deactivate {
        buttons.push(CreateButton { custom_id: CustomId::Unban, label: "Unban" });
    }
    CreateMessage { content: String::from_str(content), embed, attachment, buttons }
}

/// Builds a copy of a broadcast that carries no buttons.
pub fn get_broadcast_message_no_buttons(
    content: &str,
    embed: Embed,
    attachment: Option<CreateAttachment>,
) -> (message: CreateMessage)
    ensures
        message.content@ == content@,
        message.embed == embed,
        message.attachment == attachment,
        message.buttons@.len() == 0,
{
    CreateMessage { content: String::from_str(content), embed, attachment, buttons: Vec::new() }
}

/// The notice sent to the reported account in a direct message.
pub fn notify_user_message() -> (content: &'static str)
    ensures
        content@
            == "It appears your account has been compromised and used as a spam bot.\n\nAs part of a collaborative effort to more efficiently moderate TMC servers, the actions as listed in the embed have been taken against your account.\nSince not all guilds have automatic moderation, it's possible that you have been banned from more servers than listed.\n\nIf you have now recovered your account, please join this server (https://discord.gg/7tp82FGk3n).\nFollow the instructions there to clear your name and remove the bans on your account."@,
{
    "It appears your account has been compromised and used as a spam bot.\n\nAs part of a collaborative effort to more efficiently moderate TMC servers, the actions as listed in the embed have been taken against your account.\nSince not all guilds have automatic moderation, it's possible that you have been banned from more servers than listed.\n\nIf you have now recovered your account, please join this server (https://discord.gg/7tp82FGk3n).\nFollow the instructions there to clear your name and remove the bans on your account."
}

/// The stages of one broadcast, in the order they run.
#[derive(Debug, Clone, Copy, PartialEq, Eq, Structural)]
pub enum BroadcastStage {
    /// Find the guilds that listen.
    ResolveListeners,
    /// Build the one embed that every copy shares.
    BuildEmbed,
    /// Post the embed to the admin server.
    SendAdmin,
    /// Tell the reported account in a direct message.
    NotifyUser,
    /// Serve every listener: message, moderation, webhooks.
    FanOut,
    /// Nothing is left to do.
    Done,
}

/// What to write to the operations log after a stage.
#[derive(Debug, Clone, Copy, PartialEq, Eq, Structural)]
pub enum BroadcastLog {
    /// Nothing.
    Quiet,
    /// The listeners could not be found; the broadcast is given up.
    ListenersFailed,
    /// The shared embed could not be built; the broadcast is given up.
    EmbedFailed,
    /// The admin server did not get its copy; the broadcast goes on.
    AdminFailed,
    /// The reported account could not be told; the broadcast goes on.
    NotifyFailed,
}

/// Where a broadcast goes after a stage, and what is logged.
#[derive(Debug, Clone, Copy, PartialEq, Eq, Structural)]
pub struct BroadcastStep {
    pub next: BroadcastStage,
    pub log: BroadcastLog,
}

/// The stage that follows `stage`, given whether `stage` succeeded. Only a
/// failure to find the listeners or to build the embed ends a broadcast
/// early; the direct message is attempted for new reports only.
pub open spec fn next_stage(stage: BroadcastStage, broadcast_type: BroadcastType, succeeded: bool) -> BroadcastStage {
    match stage {
        BroadcastStage::ResolveListeners => if succeeded {
            BroadcastStage::BuildEmbed
        } else {
            BroadcastStage::Done
        },
        BroadcastStage::BuildEmbed => if succeeded {
            BroadcastStage::SendAdmin
        } else {
            BroadcastStage::Done
        },
        BroadcastStage::SendAdmin => if broadcast_type.new_report() {
            BroadcastStage::NotifyUser
        } else {
            BroadcastStage::FanOut
        },
        BroadcastStage::NotifyUser => BroadcastStage::FanOut,
        BroadcastStage::FanOut => BroadcastStage::Done,
        BroadcastStage::Done => BroadcastStage::Done,
    }
}

/// What is logged after `stage`, given whether it succeeded.
pub open spec fn stage_log(stage: BroadcastStage, succeeded: bool) -> BroadcastLog {
    if succeeded {
        BroadcastLog::Quiet
    } else {
        match stage {
            BroadcastStage::ResolveListeners => BroadcastLog::ListenersFailed,
            BroadcastStage::BuildEmbed => BroadcastLog::EmbedFailed,
            BroadcastStage::SendAdmin => BroadcastLog::AdminFailed,
            BroadcastStage::NotifyUser => BroadcastLog::NotifyFailed,
            BroadcastStage::FanOut => BroadcastLog::Quiet,
            BroadcastStage::Done => BroadcastLog::Quiet,
        }
    }
}

/// The place of a stage in the order of a broadcast.
pub open spec fn stage_rank(stage: BroadcastStage) -> nat {
    match stage {
        BroadcastStage::ResolveListeners => 0,
        BroadcastStage::BuildEmbed => 1,
        BroadcastStage::SendAdmin => 2,
        BroadcastStage::NotifyUser => 3,
        BroadcastStage::FanOut => 4,
        BroadcastStage::Done => 5,
    }
}

/// The first stage of every broadcast.
pub fn broadcast_start() -> (stage: BroadcastStage)
    ensures
        stage == BroadcastStage::ResolveListeners,
{
    BroadcastStage::ResolveListeners
}

/// Advances a broadcast: given the stage that just ran and whether it
/// succeeded, says which stage runs next and what to log.
pub fn broadcast(stage: BroadcastStage, broadcast_type: BroadcastType, succeeded: bool) -> (step:
    BroadcastStep)
    ensures
        step.next == next_stage(stage, broadcast_type, succeeded),
        step.log == stage_log(stage, succeeded),
{
    let next = match stage {
        BroadcastStage::ResolveListeners => if succeeded {
            BroadcastStage::BuildEmbed
        } else {
            BroadcastStage::Done
        },
        BroadcastStage::BuildEmbed => if succeeded {
            BroadcastStage::SendAdmin
        } else {
            BroadcastStage::Done
        },
        BroadcastStage::SendAdmin => if broadcast_type.is_new_report() {
            BroadcastStage::NotifyUser
        } else {
            BroadcastStage::FanOut
        },
        BroadcastStage::NotifyUser => BroadcastStage::FanOut,
        BroadcastStage::FanOut => BroadcastStage::Done,
        BroadcastStage::Done => BroadcastStage::Done,
    };
    let log = if succeeded {
        BroadcastLog::Quiet
    } else {
        match stage {
            BroadcastStage::ResolveListeners => BroadcastLog::ListenersFailed,
            BroadcastStage::BuildEmbed => BroadcastLog::EmbedFailed,
            BroadcastStage::SendAdmin => BroadcastLog::AdminFailed,
            BroadcastStage::NotifyUser => BroadcastLog::NotifyFailed,
            BroadcastStage::FanOut => BroadcastLog::Quiet,
            BroadcastStage::Done => BroadcastLog::Quiet,
        }
    };
    BroadcastStep { next, log }
}

/// How serious a log entry of a broadcast is, where there is one: that the
/// reported account could not be told is a warning, for it may simply take
/// no direct messages; everything else is an error.
pub open spec fn broadcast_log_level_spec(log: BroadcastLog) -> Option<LogLevel> {
    match log {
        BroadcastLog::Quiet => None,
        BroadcastLog::NotifyFailed => Some(LogLevel::Warn),
        _ => Some(LogLevel::Error),
    }
}

/// How serious a log entry of a broadcast is, where there is one.
pub fn broadcast_log_level(log: BroadcastLog) -> (level: Option<LogLevel>)
    ensures
        level == broadcast_log_level_spec(log),
{
    match log {
        BroadcastLog::Quiet => None,
        BroadcastLog::NotifyFailed => Some(LogLevel::Warn),
        _ => Some(LogLevel::Error),
    }
}

/// The text of a log entry of a broadcast, where there is one. The
/// direct-message warning names the reported account.
pub open spec fn broadcast_log_text(log: BroadcastLog, bad_actor_user: User) -> Option<Seq<char>> {
    match log {
        BroadcastLog::Quiet => None,
        BroadcastLog::ListenersFailed => Some(
            "Failed to get valid listeners from the database"@,
        ),
        BroadcastLog::EmbedFailed => Some("Failed to build the broadcast embed"@),
        BroadcastLog::AdminFailed => Some("Failed to broadcast to admin server log channel"@),
        BroadcastLog::NotifyFailed => Some(
            "Failed to inform "@ + display_spec(
                bad_actor_user.name_spec(),
                bad_actor_user.id_spec(),
            ) + " about the moderation actions in DM"@,
        ),
    }
}

/// The text of a log entry of a broadcast, where there is one.
pub fn broadcast_log_message(log: BroadcastLog, bad_actor_user: &User) -> (text: Option<String>)
    ensures
        match text {
            Some(t) => broadcast_log_text(log, *bad_actor_user) == Some(t@),
            None => broadcast_log_text(log, *bad_actor_user) is None,
        },
{
    match log {
        BroadcastLog::Quiet => None,
        BroadcastLog::ListenersFailed => Some(
            String::from_str("Failed to get valid listeners from the database"),
        ),
        BroadcastLog::EmbedFailed => Some(String::from_str("Failed to build the broadcast embed")),
        BroadcastLog::AdminFailed => Some(
            String::from_str("Failed to broadcast to admin server log channel"),
        ),
        BroadcastLog::NotifyFailed => {
            let mut text = String::new();
            text.append("Failed to inform ");
            let who = display(bad_actor_user);
            text.append(who.as_str());
            text.append(" about the moderation actions in DM");
            Some(text)
        },
    }
}

/// Order of a broadcast: every stage leads to a later one, so the admin
/// server is served before the reported account is told, and the account
/// is told before any listener is served; and the reported account is told
/// only about new reports.
pub proof fn law_broadcast_order(stage: BroadcastStage, broadcast_type: BroadcastType, succeeded: bool)
    ensures
        stage != BroadcastStage::Done ==> stage_rank(next_stage(stage, broadcast_type, succeeded))
            > stage_rank(stage),
        next_stage(stage, broadcast_type, succeeded) == BroadcastStage::NotifyUser ==> stage
            == BroadcastStage::SendAdmin && broadcast_type.new_report(),
        next_stage(stage, broadcast_type, succeeded) == BroadcastStage::FanOut ==> stage
            == BroadcastStage::NotifyUser || (stage == BroadcastStage::SendAdmin
            && !broadcast_type.new_report()),
        next_stage(stage, broadcast_type, succeeded) == BroadcastStage::SendAdmin ==> stage
            == BroadcastStage::BuildEmbed && succeeded,
{
}

/// Buttons: a new report that meets a guild which only wants notice
/// carries the three buttons ban, softban and kick, in this order; a new
/// report on which the guild acts by itself carries none; a deactivation
/// carries the unban button, whatever the guild's level; every other event
/// carries none.
pub proof fn law_buttons(broadcast_type: BroadcastType, action_level: ActionLevel)
    ensures
        broadcast_type.new_report() && action_level == ActionLevel::Notify ==> broadcast_buttons(
            broadcast_type,
            action_level,
        ) == seq![CustomId::Ban, CustomId::SoftBan, CustomId::Kick],
        broadcast_type.new_report() && action_level != ActionLevel::Notify ==> broadcast_buttons(
            broadcast_type,
            action_level,
        ).len() == 0,
        broadcast_type == BroadcastType::Deactivate ==> broadcast_buttons(
            broadcast_type,
            action_level,
        ) == seq![CustomId::Unban],
        !broadcast_type.new_report() && broadcast_type != BroadcastType::Deactivate
            ==> broadcast_buttons(broadcast_type, action_level).len() == 0,
{
}

} // verus!
