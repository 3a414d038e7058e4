//! The `/scores` commands: how scores are put into words.

use crate::text::{decimal, push_u64, views};
use crate::util::discord::{PartialGuild, User};
use crate::util::format::{fdisplay, fdisplay_spec, HasNameAndID};
use vstd::prelude::*;
use vstd::string::*;

verus! {

/// The two leaderboards.
#[derive(Debug, Clone, Copy, PartialEq, Eq, Structural)]
pub enum ScoreboardType {
    Users,
    Servers,
}

/// What is said of a user's score: nothing filed yet, a good start (up to
/// twenty reports), or a hero (more).
pub open spec fn user_score_text(who: Seq<char>, score: u32) -> Seq<char> {
    if score == 0 {
        "User "@ + who + " has not created any reports for bad actors yet."@
    } else if score <= 20 {
        "User "@ + who + " has reported "@ + decimal(score as nat)
            + " bad actors so far. Keep up the good work!"@
    } else {
        "User "@ + who + " has reported "@ + decimal(score as nat)
            + " bad actors so far. What a hero!"@
    }
}

/// What is said of a guild's score.
pub open spec fn server_score_text(guild: Seq<char>, score: u32) -> Seq<char> {
    if score == 0 {
        "Admins from "@ + guild + " have not created any reports for bad actors yet."@
    } else {
        "Admins from "@ + guild + " have reported "@ + decimal(score as nat)
            + " bad actors. Thank you for keeping the community safe!"@
    }
}

/// Puts a user's score into words.
pub fn user(target: &User, score: u32) -> (reply: String)
    ensures
        reply@ == user_score_text(fdisplay_spec(target.name_spec(), target.id_spec()), score),
{
    let who = fdisplay(target);
    let mut reply = String::new();
    reply.append("User ");
    reply.append(who.as_str());
    if score == 0 {
        reply.append(" has not created any reports for bad actors yet.");
    } else {
        reply.append(" has reported ");
        push_u64(&mut reply, score as u64);
        if score <= 20 {
            reply.append(" bad actors so far. Keep up the good work!");
        } else {
            reply.append(" bad actors so far. What a hero!");
        }
    }
    assert(reply@ =~= user_score_text(fdisplay_spec(target.name_spec(), target.id_spec()), score));
    reply
}

/// Puts a guild's score into words.
pub fn server(guild: &PartialGuild, score: u32) -> (reply: String)
    ensures
        reply@ == server_score_text(fdisplay_spec(guild.name_spec(), guild.id_spec()), score),
{
    let who = fdisplay(guild);
    let mut reply = String::new();
    reply.append("Admins from ");
    reply.append(who.as_str());
    if score == 0 {
        reply.append(" have not created any reports for bad actors yet.");
    } else {
        reply.append(" have reported ");
        push_u64(&mut reply, score as u64);
        reply.append(" bad actors. Thank you for keeping the community safe!");
    }
    assert(reply@ =~= server_score_text(fdisplay_spec(guild.name_spec(), guild.id_spec()), score));
    reply
}

/// The title of a leaderboard.
pub fn leaderboard(scoreboard_type: ScoreboardType) -> (title: &'static str)
    ensures
        title@ == (match scoreboard_type {
            ScoreboardType::Users => "Top 10 Users with the most reports"@,
            ScoreboardType::Servers => "Top 10 Servers with the most reports"@,
        }),
{
    match scoreboard_type {
        ScoreboardType::Users => "Top 10 Users with the most reports",
        ScoreboardType::Servers => "Top 10 Servers with the most reports",
    }
}

/// One line of a leaderboard: `place. name: score`.
pub open spec fn leaderboard_line(place: nat, name: Seq<char>, score: u32) -> Seq<char> {
    decimal(place) + ". "@ + name + ": "@ + decimal(score as nat)
}

/// A score on a leaderboard, with its holder as the leaderboard shows it.
#[derive(Debug)]
pub struct RankedScore {
    pub name: String,
    pub score: u32,
}

/// The lines of a leaderboard: one for each of the first `n` scores that
/// is not zero, numbered by its place among all scores.
pub open spec fn leaderboard_lines(scores: Seq<RankedScore>, n: int) -> Seq<Seq<char>>
    decreases n,
{
    if n <= 0 {
        Seq::empty()
    } else {
        let rest = leaderboard_lines(scores, n - 1);
        if scores[n - 1].score == 0 {
            rest
        } else {
            rest.push(leaderboard_line(n as nat, scores[n - 1].name@, scores[n - 1].score))
        }
    }
}

/// Writes the lines of a leaderboard.
pub fn build_leaderboard(scores: &Vec<RankedScore>) -> (lines: Vec<String>)
    ensures
        views(lines@) == leaderboard_lines(scores@, scores.len() as int),
{
    let mut lines: Vec<String> = Vec::new();
    let mut i: usize = 0;
    assert(views(lines@) =~= leaderboard_lines(scores@, 0));
    while i < scores.len()
        invariant
            i <= scores.len(),
            views(lines@) == leaderboard_lines(scores@, i as int),
        decreases scores.len() - i,
    {
        if scores[i].score != 0 {
            let mut line = String::new();
            push_u64(&mut line, (i + 1) as u64);
            line.append(". ");
            line.append(scores[i].name.as_str());
            line.append(": ");
            push_u64(&mut line, scores[i].score as u64);
            assert(line@ =~= leaderboard_line(
                (i + 1) as nat,
                scores[i as int].name@,
                scores[i as int].score,
            ));
            let ghost before = views(lines@);
            lines.push(line);
            assert(views(lines@) =~= before.push(line@));
        }
        i += 1;
    }
    lines
}

} // verus!
