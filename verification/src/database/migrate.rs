//! Migrations: the statements of a migration file.

use crate::text::{split_on_text, split_text, views};
use vstd::prelude::*;

verus! {

/// The statements of a migration file: the pieces of its content between
/// blank lines.
pub fn get_sql_statements(content: &str) -> (statements: Vec<String>)
    ensures
        views(statements@) == split_on_text(content@, "\n\n"@, 0),
{
    proof {
        reveal_strlit("\n\n");
    }
    split_text(content, "\n\n")
}

} // verus!
