//! How many reports users and guilds have filed.

use crate::util::discord::{parse_id, parse_snowflake_spec, GuildId, SnowflakeError, UserId};
use vstd::prelude::*;

verus! {

/// The score of a user or of a guild.
#[derive(Debug, Clone, Copy, PartialEq, Eq, Structural)]
pub struct Scoreboard {
    pub id: u64,
    pub score: u32,
}

/// The scores of the user and of the guild behind one report.
#[derive(Debug, Clone, Copy, PartialEq, Eq, Structural)]
pub struct AllScoreboards {
    pub user_scoreboards: Scoreboard,
    pub guild_scoreboards: Scoreboard,
}

/// A row of the `user_scores` table, as stored.
#[derive(Debug)]
pub struct DbUserScoreboard {
    pub discord_id: String,
    pub score: i32,
}

/// A row of the `guild_scores` table, as stored.
#[derive(Debug)]
pub struct DbGuildScoreboard {
    pub guild_id: String,
    pub score: i32,
}

/// What is wrong with a score.
#[derive(Debug, Clone, Copy, PartialEq, Eq, Structural)]
pub enum ScoreError {
    /// The stored identifier is not a snowflake.
    InvalidId(SnowflakeError),
    /// The identifier asked for is zero.
    ZeroId,
}

/// How the scores of a report are written: both or neither.
#[derive(Debug, Clone, Copy, PartialEq, Eq, Structural)]
pub enum ScoreTransaction {
    Commit,
    Rollback,
}

/// A stored score as an unsigned number: the 32 bits of the stored number.
pub open spec fn score_of(stored: i32) -> u32 {
    if stored >= 0 {
        stored as u32
    } else {
        (stored + 0x1_0000_0000) as u32
    }
}

/// What reading a stored score gives.
pub open spec fn scoreboard_spec(id: Seq<char>, score: i32) -> Result<Scoreboard, ScoreError> {
    match parse_snowflake_spec(id) {
        Ok(id) => Ok(Scoreboard { id, score: score_of(score) }),
        Err(e) => Err(ScoreError::InvalidId(e)),
    }
}

fn score_from(stored: i32) -> (score: u32)
    ensures
        score == score_of(stored),
{
    if stored >= 0 {
        stored as u32
    } else {
        (stored as i64 + 0x1_0000_0000) as u32
    }
}

impl Scoreboard {
    /// Reads the score of a user out of a database row.
    pub fn try_from(db_user_scoreboard: DbUserScoreboard) -> (r: Result<Scoreboard, ScoreError>)
        ensures
            r == scoreboard_spec(db_user_scoreboard.discord_id@, db_user_scoreboard.score),
    {
        match parse_id(db_user_scoreboard.discord_id.as_str()) {
            Ok(id) => Ok(Scoreboard { id, score: score_from(db_user_scoreboard.score) }),
            Err(e) => Err(ScoreError::InvalidId(e)),
        }
    }

    /// Reads the score of a guild out of a database row.
    pub fn try_from_guild(db_guild_scoreboard: DbGuildScoreboard) -> (r: Result<
        Scoreboard,
        ScoreError,
    >)
        ensures
            r == scoreboard_spec(db_guild_scoreboard.guild_id@, db_guild_scoreboard.score),
    {
        match parse_id(db_guild_scoreboard.guild_id.as_str()) {
            Ok(id) => Ok(Scoreboard { id, score: score_from(db_guild_scoreboard.score) }),
            Err(e) => Err(ScoreError::InvalidId(e)),
        }
    }
}

/// Gateway to the score tables.
#[derive(Debug)]
pub struct ScoresModelController;

impl ScoresModelController {
    /// Decides how the transaction that raises the score of a user and of
    /// a guild ends: it is committed only if both scores were written.
    pub fn create_or_increase_scoreboards(user_written: bool, guild_written: bool) -> (end:
        ScoreTransaction)
        ensures
            end == (if user_written && guild_written {
                ScoreTransaction::Commit
            } else {
                ScoreTransaction::Rollback
            }),
    {
        if user_written && guild_written {
            ScoreTransaction::Commit
        } else {
            ScoreTransaction::Rollback
        }
    }

    /// The score of a user, given the user's stored row if there is one:
    /// a user without a row has filed no reports.
    pub fn get_user_score(db_score: Option<DbUserScoreboard>, user_id: UserId) -> (r: Result<
        Scoreboard,
        ScoreError,
    >)
        ensures
            r == (if user_id == 0 {
                Err(ScoreError::ZeroId)
            } else {
                match db_score {
                    Some(row) => scoreboard_spec(row.discord_id@, row.score),
                    None => Ok(Scoreboard { id: user_id, score: 0 }),
                }
            }),
    {
        if user_id == 0 {
            return Err(ScoreError::ZeroId);
        }
        match db_score {
            Some(row) => Scoreboard::try_from(row),
            None => Ok(Scoreboard { id: user_id, score: 0 }),
        }
    }

    /// The score of a guild, given the guild's stored row if there is one:
    /// a guild without a row has filed no reports.
    pub fn get_guild_score(db_score: Option<DbGuildScoreboard>, guild_id: GuildId) -> (r: Result<
        Scoreboard,
        ScoreError,
    >)
        ensures
            r == (if guild_id == 0 {
                Err(ScoreError::ZeroId)
            } else {
                match db_score {
                    Some(row) => scoreboard_spec(row.guild_id@, row.score),
                    None => Ok(Scoreboard { id: guild_id, score: 0 }),
                }
            }),
    {
        if guild_id == 0 {
            return Err(ScoreError::ZeroId);
        }
        match db_score {
            Some(row) => Scoreboard::try_from_guild(row),
            None => Ok(Scoreboard { id: guild_id, score: 0 }),
        }
    }
}

} // verus!
