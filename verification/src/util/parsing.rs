//! Lists of identifiers typed by operators: decimal snowflakes separated by
//! commas, with optional white space around each.

use crate::text::{
    chars_to_string, split_bounds, split_on, str_to_chars, trim, trim_bounds, views,
};
use crate::util::discord::{parse_id, parse_snowflake_spec, GuildId, RoleId, SnowflakeError};
use vstd::prelude::*;

verus! {

/// The identifiers spelled by `texts[from..]`, or the error of the first
/// text that is not a snowflake.
pub open spec fn parse_ids_from(texts: Seq<Seq<char>>, from: int) -> Result<
    Seq<u64>,
    SnowflakeError,
>
    decreases texts.len() - from,
{
    if from < 0 || from >= texts.len() {
        Ok(Seq::empty())
    } else {
        match parse_snowflake_spec(texts[from]) {
            Err(e) => Err(e),
            Ok(v) => match parse_ids_from(texts, from + 1) {
                Ok(rest) => Ok(seq![v] + rest),
                Err(e) => Err(e),
            },
        }
    }
}

/// `done` followed by what parsing the remaining texts gives.
pub open spec fn after(done: Seq<u64>, rest: Result<Seq<u64>, SnowflakeError>) -> Result<
    Seq<u64>,
    SnowflakeError,
> {
    match rest {
        Ok(ids) => Ok(done + ids),
        Err(e) => Err(e),
    }
}

/// The comma-separated pieces of `s`, each trimmed of surrounding white space.
pub open spec fn id_pieces(s: Seq<char>) -> Seq<Seq<char>> {
    Seq::new(split_on(s, ',').len(), |i: int| trim(split_on(s, ',')[i]))
}

/// What parsing a comma-separated list of snowflakes gives.
pub open spec fn parse_ids_spec(s: Seq<char>) -> Result<Seq<u64>, SnowflakeError> {
    parse_ids_from(id_pieces(s), 0)
}

/// Parses a comma-separated list of snowflakes. Fails with the error of the
/// first piece that is not a snowflake; an empty text has one empty piece
/// and so fails.
pub fn parse_ids(text: &str) -> (r: Result<Vec<u64>, SnowflakeError>)
    ensures
        match r {
            Ok(ids) => parse_ids_spec(text@) == Ok::<Seq<u64>, SnowflakeError>(ids@),
            Err(e) => parse_ids_spec(text@) == Err::<Seq<u64>, SnowflakeError>(e),
        },
        r is Ok ==> forall|i: int| 0 <= i < r->Ok_0.len() ==> #[trigger] r->Ok_0[i] != 0,
{
    let chars = str_to_chars(text);
    let pieces = split_bounds(&chars, ',');
    let ghost texts = id_pieces(text@);
    let mut ids: Vec<u64> = Vec::new();
    let mut i: usize = 0;
    assert(after(ids@, parse_ids_from(texts, 0)) == parse_ids_from(texts, 0)) by {
        match parse_ids_from(texts, 0) {
            Ok(all) => {
                assert(ids@ + all == all);
            },
            Err(_) => {},
        }
    }
    while i < pieces.len()
        invariant
            i <= pieces.len(),
            chars@ == text@,
            texts == id_pieces(text@),
            pieces.len() == split_on(chars@, ',').len(),
            forall|k: int|
                0 <= k < pieces.len() ==> (#[trigger] pieces[k]).0 <= pieces[k].1 <= chars.len()
                    && chars@.subrange(pieces[k].0 as int, pieces[k].1 as int) == split_on(
                    chars@,
                    ',',
                )[k],
            after(ids@, parse_ids_from(texts, i as int)) == parse_ids_spec(text@),
            forall|k: int| 0 <= k < ids.len() ==> #[trigger] ids[k] != 0,
        decreases pieces.len() - i,
    {
        let (from, to) = pieces[i];
        let (start, end) = trim_bounds(&chars, from, to);
        let piece = chars_to_string(&chars, start, end);
        assert(piece@ == texts[i as int]);
        match parse_id(piece.as_str()) {
            Ok(id) => {
                proof {
                    match parse_ids_from(texts, i + 1) {
                        Ok(rest) => {
                            assert(ids@ + (seq![id] + rest) == ids@.push(id) + rest);
                        },
                        Err(_) => {},
                    }
                }
                ids.push(id);
            },
            Err(e) => {
                return Err(e);
            },
        }
        i += 1;
    }
    assert(ids@ + Seq::<u64>::empty() == ids@);
    Ok(ids)
}

/// Parses a comma-separated list of guild identifiers.
pub fn parse_guild_ids(text: &str) -> (r: Result<Vec<GuildId>, SnowflakeError>)
    ensures
        match r {
            Ok(ids) => parse_ids_spec(text@) == Ok::<Seq<u64>, SnowflakeError>(ids@),
            Err(e) => parse_ids_spec(text@) == Err::<Seq<u64>, SnowflakeError>(e),
        },
        r is Ok ==> forall|i: int| 0 <= i < r->Ok_0.len() ==> #[trigger] r->Ok_0[i] != 0,
{
    parse_ids(text)
}

/// Parses a comma-separated list of role identifiers.
pub fn parse_role_ids(text: &str) -> (r: Result<Vec<RoleId>, SnowflakeError>)
    ensures
        match r {
            Ok(ids) => parse_ids_spec(text@) == Ok::<Seq<u64>, SnowflakeError>(ids@),
            Err(e) => parse_ids_spec(text@) == Err::<Seq<u64>, SnowflakeError>(e),
        },
        r is Ok ==> forall|i: int| 0 <= i < r->Ok_0.len() ==> #[trigger] r->Ok_0[i] != 0,
{
    parse_ids(text)
}

/// What an optional snowflake text spells: nothing where there is no text.
pub open spec fn optional_id_spec(text: Option<String>) -> Result<Option<u64>, SnowflakeError> {
    match text {
        None => Ok(None),
        Some(s) => match parse_snowflake_spec(s@) {
            Ok(v) => Ok(Some(v)),
            Err(e) => Err(e),
        },
    }
}

/// Parses a snowflake where there is a text.
pub fn parse_optional_id(text: &Option<String>) -> (r: Result<Option<u64>, SnowflakeError>)
    ensures
        r == optional_id_spec(*text),
{
    match text {
        None => Ok(None),
        Some(s) => match parse_id(s.as_str()) {
            Ok(v) => Ok(Some(v)),
            Err(e) => Err(e),
        },
    }
}

/// Parses each text as a snowflake. Fails with the error of the first text
/// that is not one.
pub fn parse_id_texts(texts: &Vec<String>) -> (r: Result<Vec<u64>, SnowflakeError>)
    ensures
        match r {
            Ok(ids) => parse_ids_from(views(texts@), 0) == Ok::<Seq<u64>, SnowflakeError>(ids@),
            Err(e) => parse_ids_from(views(texts@), 0) == Err::<Seq<u64>, SnowflakeError>(e),
        },
{
    let ghost all = views(texts@);
    let mut ids: Vec<u64> = Vec::new();
    let mut i: usize = 0;
    assert(after(ids@, parse_ids_from(all, 0)) == parse_ids_from(all, 0)) by {
        match parse_ids_from(all, 0) {
            Ok(rest) => {
                assert(ids@ + rest == rest);
            },
            Err(_) => {},
        }
    }
    while i < texts.len()
        invariant
            i <= texts.len(),
            all == views(texts@),
            after(ids@, parse_ids_from(all, i as int)) == parse_ids_from(all, 0),
        decreases texts.len() - i,
    {
        match parse_id(texts[i].as_str()) {
            Ok(id) => {
                proof {
                    match parse_ids_from(all, i + 1) {
                        Ok(rest) => {
                            assert(ids@ + (seq![id] + rest) == ids@.push(id) + rest);
                        },
                        Err(_) => {},
                    }
                }
                ids.push(id);
            },
            Err(e) => {
                return Err(e);
            },
        }
        i += 1;
    }
    assert(ids@ + Seq::<u64>::empty() == ids@);
    Ok(ids)
}

} // verus!
