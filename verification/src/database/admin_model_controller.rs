//! The bot's admins.

use crate::util::discord::{parse_id, parse_snowflake_spec, SnowflakeError, UserId};
use vstd::prelude::*;

verus! {

/// A row of the `admins` table, as stored.
#[derive(Debug)]
pub struct DbAdmin {
    pub id: String,
    pub created_at: i64,
}

/// An admin of the bot.
#[derive(Debug, Clone, Copy)]
pub struct Admin {
    pub user_id: UserId,
    pub created_at: i64,
}

impl Admin {
    /// Reads an admin out of a database row: the identifier must be a
    /// snowflake.
    pub fn try_from(db_admin: DbAdmin) -> (r: Result<Admin, SnowflakeError>)
        ensures
            match r {
                Ok(admin) => parse_snowflake_spec(db_admin.id@) == Ok::<u64, SnowflakeError>(
                    admin.user_id,
                ) && admin.created_at == db_admin.created_at,
                Err(e) => parse_snowflake_spec(db_admin.id@) == Err::<u64, SnowflakeError>(e),
            },
    {
        match parse_id(db_admin.id.as_str()) {
            Ok(user_id) => Ok(Admin { user_id, created_at: db_admin.created_at }),
            Err(e) => Err(e),
        }
    }
}

/// Gateway to the `admins` table.
#[derive(Debug)]
pub struct AdminModelController;

impl AdminModelController {
    /// Whether a user is an admin, given what looking the user up returned
    /// (`Ok(true)` if a row was found): a failed lookup counts as no.
    pub fn is_admin(lookup: Result<bool, ()>) -> (admin: bool)
        ensures
            admin == (lookup == Ok::<bool, ()>(true)),
    {
        match lookup {
            Ok(found) => found,
            Err(_) => false,
        }
    }
}

} // verus!
