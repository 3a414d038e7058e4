//! How names, identifiers, times and free text are written into messages.

use crate::text::{push_char, push_i64, signed_decimal, str_to_chars, u64_to_string, decimal};
use crate::util::discord::{PartialGuild, User};
use vstd::prelude::*;
use vstd::string::*;

verus! {

/// The ways Discord can render a point in time.
#[derive(Clone, Copy, Debug, PartialEq, Eq, Structural)]
pub enum TimestampStyle {
    ShortTime,
    LongTime,
    ShortDate,
    LongDate,
    ShortDateTime,
    LongDateTime,
    Relative,
}

impl TimestampStyle {
    /// The letter by which Discord knows the style.
    pub open spec fn letter(self) -> char {
        match self {
            TimestampStyle::ShortTime => 't',
            TimestampStyle::LongTime => 'T',
            TimestampStyle::ShortDate => 'd',
            TimestampStyle::LongDate => 'D',
            TimestampStyle::ShortDateTime => 'f',
            TimestampStyle::LongDateTime => 'F',
            TimestampStyle::Relative => 'R',
        }
    }

    /// The letter by which Discord knows the style.
    pub fn letter_char(self) -> (c: char)
        ensures
            c == self.letter(),
    {
        match self {
            TimestampStyle::ShortTime => 't',
            TimestampStyle::LongTime => 'T',
            TimestampStyle::ShortDate => 'd',
            TimestampStyle::LongDate => 'D',
            TimestampStyle::ShortDateTime => 'f',
            TimestampStyle::LongDateTime => 'F',
            TimestampStyle::Relative => 'R',
        }
    }
}

/// Something that is shown by a name and an identifier.
pub trait HasNameAndID {
    /// The name, as a sequence of characters.
    spec fn name_spec(&self) -> Seq<char>;

    /// The identifier, as text.
    spec fn id_spec(&self) -> Seq<char>;

    fn name(&self) -> (name: &str)
        ensures
            name@ == self.name_spec(),
    ;

    fn id(&self) -> (id: String)
        ensures
            id@ == self.id_spec(),
    ;
}

impl HasNameAndID for User {
    open spec fn name_spec(&self) -> Seq<char> {
        self.name@
    }

    open spec fn id_spec(&self) -> Seq<char> {
        decimal(self.id as nat)
    }

    fn name(&self) -> (name: &str) {
        self.name.as_str()
    }

    fn id(&self) -> (id: String) {
        u64_to_string(self.id)
    }
}

impl HasNameAndID for PartialGuild {
    open spec fn name_spec(&self) -> Seq<char> {
        self.name@
    }

    open spec fn id_spec(&self) -> Seq<char> {
        decimal(self.id as nat)
    }

    fn name(&self) -> (name: &str) {
        self.name.as_str()
    }

    fn id(&self) -> (id: String) {
        u64_to_string(self.id)
    }
}

/// `name (id)`.
pub open spec fn display_spec(name: Seq<char>, id: Seq<char>) -> Seq<char> {
    name + " ("@ + id + ")"@
}

/// Whether a character is written as it is in Markdown-safe text: ASCII
/// letters, ASCII digits and ASCII white space (space, tab, line feed, form
/// feed, carriage return).
pub open spec fn is_plain(c: char) -> bool {
    let u = c as int;
    (48 <= u <= 57) || (65 <= u <= 90) || (97 <= u <= 122) || u == 0x20 || u == 0x09 || u == 0x0A
        || u == 0x0C || u == 0x0D
}

/// `s` with a backslash in front of every character that is not plain.
pub open spec fn escaped(s: Seq<char>) -> Seq<char>
    decreases s.len(),
{
    if s.len() == 0 {
        Seq::empty()
    } else if is_plain(s.last()) {
        escaped(s.drop_last()).push(s.last())
    } else {
        escaped(s.drop_last()).push('\\').push(s.last())
    }
}

/// `` `s` ``.
pub open spec fn inline_code_spec(s: Seq<char>) -> Seq<char> {
    "`"@ + s + "`"@
}

/// `name (`id`)` with the name escaped for Markdown.
pub open spec fn fdisplay_spec(name: Seq<char>, id: Seq<char>) -> Seq<char> {
    escaped(name) + " ("@ + inline_code_spec(id) + ")"@
}

/// `<t:seconds:letter>`.
pub open spec fn time_spec(timestamp: i64, style: TimestampStyle) -> Seq<char> {
    "<t:"@ + signed_decimal(timestamp as int) + seq![':', style.letter(), '>']
}

/// The long date, then on a new line the relative time.
pub open spec fn display_time_spec(timestamp: i64) -> Seq<char> {
    time_spec(timestamp, TimestampStyle::LongDate) + "\n"@ + time_spec(
        timestamp,
        TimestampStyle::Relative,
    )
}

/// Writes something by its name and identifier, for logs: `name (id)`.
pub fn display<T: HasNameAndID>(input: &T) -> (out: String)
    ensures
        out@ == display_spec(input.name_spec(), input.id_spec()),
{
    let mut out = String::new();
    out.append(input.name());
    out.append(" (");
    let id = input.id();
    out.append(id.as_str());
    out.append(")");
    assert(out@ =~= display_spec(input.name_spec(), input.id_spec()));
    out
}

/// Writes something by its name and identifier, for the Discord client:
/// the name escaped, the identifier as inline code.
pub fn fdisplay<T: HasNameAndID>(input: &T) -> (out: String)
    ensures
        out@ == fdisplay_spec(input.name_spec(), input.id_spec()),
{
    let name = escape_markdown(input.name());
    let id = input.id();
    let code = inline_code(id.as_str());
    let mut out = String::new();
    out.append(name.as_str());
    out.append(" (");
    out.append(code.as_str());
    out.append(")");
    assert(out@ =~= fdisplay_spec(input.name_spec(), input.id_spec()));
    out
}

/// Wraps text in backticks.
pub fn inline_code(input: &str) -> (out: String)
    ensures
        out@ == inline_code_spec(input@),
{
    let mut out = String::new();
    out.append("`");
    out.append(input);
    out.append("`");
    assert(out@ =~= inline_code_spec(input@));
    out
}

fn char_is_plain(c: char) -> (plain: bool)
    ensures
        plain == is_plain(c),
{
    let u: u32 = c as u32;
    (48 <= u && u <= 57) || (65 <= u && u <= 90) || (97 <= u && u <= 122) || u == 0x20 || u == 0x09
        || u == 0x0A || u == 0x0C || u == 0x0D
}

/// Puts a backslash in front of every character that Markdown could read
/// as markup: everything but ASCII letters, digits and white space.
pub fn escape_markdown(input: &str) -> (out: String)
    ensures
        out@ == escaped(input@),
{
    let chars = str_to_chars(input);
    let mut out = String::new();
    let mut i: usize = 0;
    assert(chars@.take(0).len() == 0);
    while i < chars.len()
        invariant
            i <= chars.len(),
            out@ == escaped(chars@.take(i as int)),
        decreases chars.len() - i,
    {
        let c = chars[i];
        proof {
            let next = chars@.take(i + 1);
            assert(next.drop_last() == chars@.take(i as int));
            assert(next.last() == c);
        }
        if !char_is_plain(c) {
            push_char(&mut out, '\\');
        }
        push_char(&mut out, c);
        i += 1;
    }
    assert(chars@.take(chars.len() as int) == chars@);
    out
}

/// Writes a point in time (seconds since the Unix epoch) so that Discord
/// renders it in the given style.
pub fn time(timestamp: i64, style: TimestampStyle) -> (out: String)
    ensures
        out@ == time_spec(timestamp, style),
{
    let mut out = String::new();
    out.append("<t:");
    push_i64(&mut out, timestamp);
    push_char(&mut out, ':');
    push_char(&mut out, style.letter_char());
    push_char(&mut out, '>');
    assert(out@ =~= time_spec(timestamp, style));
    out
}

/// Writes a point in time as a long date followed by the relative time.
pub fn display_time(timestamp: i64) -> (out: String)
    ensures
        out@ == display_time_spec(timestamp),
{
    let date = time(timestamp, TimestampStyle::LongDate);
    let relative = time(timestamp, TimestampStyle::Relative);
    let mut out = String::new();
    out.append(date.as_str());
    out.append("\n");
    out.append(relative.as_str());
    assert(out@ =~= display_time_spec(timestamp));
    out
}

/// Answer shown to operators for a yes/no setting.
pub fn display_bool(boolean: bool) -> (text: &'static str)
    ensures
        text@ == (if boolean {
            "Yes"@
        } else {
            "No"@
        }),
{
    if boolean {
        "Yes"
    } else {
        "No"
    }
}

/// The name a user is shown under: the global name where there is one,
/// else the account name.
pub open spec fn username_spec(user: User) -> Seq<char> {
    match user.global_name {
        Some(global) => global@,
        None => user.name@,
    }
}

/// The name a user is shown under.
pub fn display_username(user: &User) -> (name: &str)
    ensures
        name@ == username_spec(*user),
{
    match &user.global_name {
        Some(global) => global.as_str(),
        None => user.name.as_str(),
    }
}

} // verus!
