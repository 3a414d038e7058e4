//! The `/badactor` commands: the checks a command makes before it acts,
//! and what it answers.

use crate::database::badactor_model_controller::BadActor;
use crate::text::str_eq;
use crate::util::discord::User;
use crate::util::format::{fdisplay, fdisplay_spec, HasNameAndID};
use vstd::prelude::*;
use vstd::string::*;

verus! {

/// How many reports a listing shows if the operator names no number.
pub const DEFAULT_LISTING: u8 = 5;

/// How many reports a listing shows at most.
pub const MAX_LISTING: u8 = 10;

/// How far a report by hand has come.
#[derive(Debug, Clone, Copy, PartialEq, Eq, Structural)]
pub enum ReportOutcome {
    Success,
    Cancel,
    Confirm,
}

/// Whether a report can be filed.
#[derive(Debug, Clone, Copy, PartialEq, Eq, Structural)]
pub enum ReportCheck {
    /// Neither a screenshot nor an explanation was given.
    MissingEvidence,
    /// The account has an active case already.
    ActiveCase,
    /// The operator is asked to confirm the account.
    Proceed,
}

/// Whether a report can be changed as asked.
#[derive(Debug, Clone, Copy, PartialEq, Eq, Structural)]
pub enum EntryCheck {
    /// There is no report of that number.
    NoSuchEntry,
    /// The report is in a state that the command does not apply to.
    WrongState,
    /// The command goes ahead.
    Proceed,
}

/// Whether a list of reports can be shown.
#[derive(Debug, Clone, Copy, PartialEq, Eq, Structural)]
pub enum ListingCheck {
    Empty,
    TooMany,
    Show,
}

/// What the operator chose when asked to confirm.
#[derive(Debug, Clone, Copy, PartialEq, Eq, Structural)]
pub enum CollectorChoice {
    Cancel,
    Confirm,
    /// Some other button: nothing is done.
    Ignore,
}

/// Checks that a report comes with evidence and that its target has no
/// active case. The evidence is checked first.
pub fn report(has_screenshot: bool, has_explanation: bool, has_active_case: bool) -> (check:
    ReportCheck)
    ensures
        check == (if !has_screenshot && !has_explanation {
            ReportCheck::MissingEvidence
        } else if has_active_case {
            ReportCheck::ActiveCase
        } else {
            ReportCheck::Proceed
        }),
{
    if !has_screenshot && !has_explanation {
        ReportCheck::MissingEvidence
    } else if has_active_case {
        ReportCheck::ActiveCase
    } else {
        ReportCheck::Proceed
    }
}

/// Checks that a report can be deactivated: it must exist and be active.
pub fn deactivate(old_entry: Option<&BadActor>) -> (check: EntryCheck)
    ensures
        check == (match old_entry {
            None => EntryCheck::NoSuchEntry,
            Some(entry) => if entry.is_active {
                EntryCheck::Proceed
            } else {
                EntryCheck::WrongState
            },
        }),
{
    match old_entry {
        None => EntryCheck::NoSuchEntry,
        Some(entry) => if entry.is_active {
            EntryCheck::Proceed
        } else {
            EntryCheck::WrongState
        },
    }
}

/// The number of reports that a listing shows: five unless the operator
/// asks otherwise, and never more than ten.
pub fn display_latest(limit: Option<u8>) -> (shown: u8)
    ensures
        shown == (match limit {
            None => DEFAULT_LISTING,
            Some(n) => if n > MAX_LISTING {
                MAX_LISTING
            } else {
                n
            },
        }),
{
    match limit {
        None => DEFAULT_LISTING,
        Some(n) => if n > MAX_LISTING {
            MAX_LISTING
        } else {
            n
        },
    }
}

/// Checks that a screenshot can be added to a report: the report must
/// exist and have none yet.
pub fn add_screenshot(old_entry: Option<&BadActor>) -> (check: EntryCheck)
    ensures
        check == (match old_entry {
            None => EntryCheck::NoSuchEntry,
            Some(entry) => if entry.screenshot_proof is Some {
                EntryCheck::WrongState
            } else {
                EntryCheck::Proceed
            },
        }),
{
    match old_entry {
        None => EntryCheck::NoSuchEntry,
        Some(entry) => if entry.screenshot_proof.is_some() {
            EntryCheck::WrongState
        } else {
            EntryCheck::Proceed
        },
    }
}

/// Checks that the screenshot of a report can be replaced: the report
/// must exist and have one.
pub fn replace_screenshot(old_entry: Option<&BadActor>) -> (check: EntryCheck)
    ensures
        check == (match old_entry {
            None => EntryCheck::NoSuchEntry,
            Some(entry) => if entry.screenshot_proof is None {
                EntryCheck::WrongState
            } else {
                EntryCheck::Proceed
            },
        }),
{
    match old_entry {
        None => EntryCheck::NoSuchEntry,
        Some(entry) => if entry.screenshot_proof.is_none() {
            EntryCheck::WrongState
        } else {
            EntryCheck::Proceed
        },
    }
}

/// Checks that a list of reports can be shown in one message: it must
/// hold at least one report and at most ten.
pub fn construct_embeds_message(count: usize) -> (check: ListingCheck)
    ensures
        check == (if count == 0 {
            ListingCheck::Empty
        } else if count > 10 {
            ListingCheck::TooMany
        } else {
            ListingCheck::Show
        }),
{
    if count == 0 {
        ListingCheck::Empty
    } else if count > 10 {
        ListingCheck::TooMany
    } else {
        ListingCheck::Show
    }
}

/// Reads the operator's choice off the button that was pressed. Cancel is
/// looked for first.
pub fn handle_collector(custom_id: &str) -> (choice: CollectorChoice)
    ensures
        choice == (if custom_id@ == "cancel"@ {
            CollectorChoice::Cancel
        } else if custom_id@ == "confirm"@ {
            CollectorChoice::Confirm
        } else {
            CollectorChoice::Ignore
        }),
{
    if str_eq(custom_id, "cancel") {
        CollectorChoice::Cancel
    } else if str_eq(custom_id, "confirm") {
        CollectorChoice::Confirm
    } else {
        CollectorChoice::Ignore
    }
}

/// What the operator is told as a report by hand goes on. `who` is the
/// reported account as written for the Discord client.
pub open spec fn outcome_text(outcome: ReportOutcome, who: Seq<char>) -> Seq<char> {
    match outcome {
        ReportOutcome::Cancel => "Cancelled reporting user "@ + who + "!"@,
        ReportOutcome::Confirm => "Reporting user "@ + who
            + " to the community and taking action..."@,
        ReportOutcome::Success => "Successfully reported "@ + who + " to the community!"@,
    }
}

/// What the operator is told as a report by hand goes on.
pub fn respond_outcome(target_user: &User, outcome: ReportOutcome) -> (message: String)
    ensures
        message@ == outcome_text(
            outcome,
            fdisplay_spec(target_user.name_spec(), target_user.id_spec()),
        ),
{
    let who = fdisplay(target_user);
    let mut message = String::new();
    match outcome {
        ReportOutcome::Cancel => {
            message.append("Cancelled reporting user ");
            message.append(who.as_str());
            message.append("!");
        },
        ReportOutcome::Confirm => {
            message.append("Reporting user ");
            message.append(who.as_str());
            message.append(" to the community and taking action...");
        },
        ReportOutcome::Success => {
            message.append("Successfully reported ");
            message.append(who.as_str());
            message.append(" to the community!");
        },
    }
    assert(message@ =~= outcome_text(
        outcome,
        fdisplay_spec(target_user.name_spec(), target_user.id_spec()),
    ));
    message
}

} // verus!
