//! Character-level text primitives shared by the rest of the crate.
//!
//! Every string the bot produces or inspects is reasoned about as a
//! `Seq<char>`: the functions here convert between `&str`, `String` and
//! `Vec<char>` and provide decimal formatting, decimal parsing and literal
//! substring replacement with exact contracts.

use vstd::prelude::*;
use vstd::string::*;

verus! {

/// Appends one character to a string.
///
/// Trusted: wraps `String::push` of the standard library, which adds exactly
/// the given `char` to the end of the string and touches nothing else.
#[verifier::external_body]
pub(crate) fn push_char(s: &mut String, c: char)
    ensures
        final(s)@ == old(s)@.push(c),
{
    s.push(c);
}

/// The characters of `s`, in order.
pub fn str_to_chars(s: &str) -> (v: Vec<char>)
    ensures
        v@ == s@,
{
    let mut v: Vec<char> = Vec::new();
    for c in it: s.chars()
        invariant
            v@ == it.seq().take(it.index() as int),
            it.seq() == s@,
    {
        v.push(c);
    }
    v
}

/// The string made of the characters `v[from..to]`.
pub(crate) fn chars_to_string(v: &Vec<char>, from: usize, to: usize) -> (s: String)
    requires
        from <= to <= v.len(),
    ensures
        s@ == v@.subrange(from as int, to as int),
{
    let mut s = String::new();
    let mut i: usize = from;
    while i < to
        invariant
            from <= i <= to <= v.len(),
            s@ == v@.subrange(from as int, i as int),
        decreases to - i,
    {
        push_char(&mut s, v[i]);
        i += 1;
    }
    s
}

/// Whether two string slices hold the same characters.
pub fn str_eq(a: &str, b: &str) -> (same: bool)
    ensures
        same == (a@ == b@),
{
    let x = a.to_owned();
    let y = b.to_owned();
    x == y
}

/// The decimal digit character for `d` in `0..=9`.
pub open spec fn digit_char(d: int) -> char {
    (d + 48) as char
}

/// Whether `c` is one of `'0'..='9'`.
pub open spec fn is_digit(c: char) -> bool {
    48 <= c as int <= 57
}

/// The value of the decimal digit `c`.
pub open spec fn digit_value(c: char) -> nat {
    (c as int - 48) as nat
}

/// Decimal representation of a natural number, without leading zeros.
pub open spec fn decimal(n: nat) -> Seq<char>
    decreases n,
{
    if n < 10 {
        seq![digit_char(n as int)]
    } else {
        decimal(n / 10).push(digit_char((n % 10) as int))
    }
}

/// Decimal representation of an integer: a minus sign in front of the
/// magnitude when negative.
pub open spec fn signed_decimal(n: int) -> Seq<char> {
    if n < 0 {
        seq!['-'] + decimal((-n) as nat)
    } else {
        decimal(n as nat)
    }
}

/// The number written by a sequence of decimal digits (0 for the empty one).
pub open spec fn digits_value(s: Seq<char>) -> nat
    decreases s.len(),
{
    if s.len() == 0 {
        0
    } else {
        digits_value(s.drop_last()) * 10 + digit_value(s.last())
    }
}

/// Whether every character of `s` is a decimal digit.
pub open spec fn all_digits(s: Seq<char>) -> bool {
    forall|i: int| 0 <= i < s.len() ==> is_digit(#[trigger] s[i])
}

fn digit_to_char(d: u8) -> (c: char)
    requires
        d < 10,
    ensures
        c == digit_char(d as int),
        is_digit(c),
        digit_value(c) == d,
{
    (d + 48) as char
}

/// Appends the decimal digits of `n` to `out`.
pub fn push_u64(out: &mut String, n: u64)
    ensures
        final(out)@ == old(out)@ + decimal(n as nat),
{
    let mut digits: Vec<char> = Vec::new();
    let mut m: u64 = n;
    while m >= 10
        invariant
            decimal(n as nat) == decimal(m as nat) + digits@,
        decreases m,
    {
        let d: u8 = (m % 10) as u8;
        let c = digit_to_char(d);
        proof {
            assert(decimal(m as nat) == decimal((m / 10) as nat).push(c));
            assert(decimal((m / 10) as nat).push(c) + digits@ == decimal((m / 10) as nat) + digits@.insert(
                0,
                c,
            ));
        }
        digits.insert(0, c);
        m = m / 10;
    }
    let c = digit_to_char(m as u8);
    proof {
        assert(decimal(m as nat) == seq![c]);
        assert(seq![c] + digits@ == digits@.insert(0, c));
    }
    digits.insert(0, c);
    let mut i: usize = 0;
    while i < digits.len()
        invariant
            i <= digits.len(),
            out@ == old(out)@ + digits@.take(i as int),
        decreases digits.len() - i,
    {
        push_char(out, digits[i]);
        i += 1;
    }
    proof {
        assert(digits@.take(digits@.len() as int) == digits@);
    }
}

/// Appends the decimal form of `n`, with a leading `-` when negative.
pub fn push_i64(out: &mut String, n: i64)
    ensures
        final(out)@ == old(out)@ + signed_decimal(n as int),
{
    if n < 0 {
        let magnitude: u64 = ((-(n + 1)) as u64) + 1;
        push_char(out, '-');
        push_u64(out, magnitude);
        proof {
            assert(old(out)@.push('-') + decimal(magnitude as nat) == old(out)@ + (seq!['-']
                + decimal(magnitude as nat)));
        }
    } else {
        push_u64(out, n as u64);
    }
}

/// Decimal text of `n`.
pub fn u64_to_string(n: u64) -> (s: String)
    ensures
        s@ == decimal(n as nat),
{
    let mut s = String::new();
    push_u64(&mut s, n);
    s
}

/// Decimal text of `n`, with a leading `-` when negative.
pub fn i64_to_string(n: i64) -> (s: String)
    ensures
        s@ == signed_decimal(n as int),
{
    let mut s = String::new();
    push_i64(&mut s, n);
    s
}

/// Why a piece of text is not a decimal number that fits the target type.
#[derive(Clone, Copy, Debug, PartialEq, Eq, Structural)]
pub enum NumberError {
    /// The text is empty.
    Empty,
    /// A character is not a decimal digit, or a sign stands alone.
    InvalidDigit,
    /// The digits are fine but the number is too large.
    Overflow,
}

/// The digits of an unsigned number: the text without one leading `+`.
pub open spec fn unsigned_digits(s: Seq<char>) -> Seq<char> {
    if s.len() > 0 && s[0] == '+' {
        s.drop_first()
    } else {
        s
    }
}

/// What parsing `s` as an unsigned 64-bit decimal number gives: an optional
/// `+`, then one or more digits whose value fits in a `u64`.
pub open spec fn parse_u64_spec(s: Seq<char>) -> Result<u64, NumberError> {
    let digits = unsigned_digits(s);
    if s.len() == 0 {
        Err(NumberError::Empty)
    } else if digits.len() == 0 || !all_digits(digits) {
        Err(NumberError::InvalidDigit)
    } else if digits_value(digits) > u64::MAX {
        Err(NumberError::Overflow)
    } else {
        Ok(digits_value(digits) as u64)
    }
}

/// A prefix of a digit string never denotes a larger number than the whole.
pub proof fn lemma_prefix_value(s: Seq<char>, i: int)
    requires
        0 <= i <= s.len(),
    ensures
        digits_value(s.take(i)) <= digits_value(s),
    decreases s.len() - i,
{
    if i < s.len() {
        lemma_prefix_value(s, i + 1);
        assert(s.take(i + 1).drop_last() == s.take(i));
    } else {
        assert(s.take(i) == s);
    }
}

fn is_digit_char(c: char) -> (b: bool)
    ensures
        b == is_digit(c),
{
    c >= '0' && c <= '9'
}

/// Parses an unsigned 64-bit decimal number from characters.
pub fn parse_u64_chars(chars: &Vec<char>) -> (r: Result<u64, NumberError>)
    ensures
        r == parse_u64_spec(chars@),
{
    let n = chars.len();
    if n == 0 {
        return Err(NumberError::Empty);
    }
    let start: usize = if chars[0] == '+' {
        1
    } else {
        0
    };
    let ghost digits = unsigned_digits(chars@);
    assert(digits == chars@.subrange(start as int, n as int));
    if start == n {
        return Err(NumberError::InvalidDigit);
    }
    let mut i: usize = start;
    while i < n
        invariant
            start <= i <= n == chars.len(),
            digits == chars@.subrange(start as int, n as int),
            digits == unsigned_digits(chars@),
            start < n,
            forall|k: int| 0 <= k < i - start ==> is_digit(#[trigger] digits[k]),
        decreases n - i,
    {
        if !is_digit_char(chars[i]) {
            assert(!is_digit(digits[i - start]));
            return Err(NumberError::InvalidDigit);
        }
        i += 1;
    }
    assert(all_digits(digits));
    let mut acc: u64 = 0;
    let mut j: usize = start;
    assert(digits.take(0).len() == 0);
    while j < n
        invariant
            start <= j <= n == chars.len(),
            digits == chars@.subrange(start as int, n as int),
            digits == unsigned_digits(chars@),
            start < n,
            all_digits(digits),
            acc == digits_value(digits.take(j - start)),
        decreases n - j,
    {
        let c = chars[j];
        assert(is_digit(digits[j - start]));
        let d: u64 = (c as u32 - 48) as u64;
        proof {
            let next = digits.take(j - start + 1);
            assert(next.drop_last() == digits.take(j - start));
            assert(next.last() == c);
            assert(digits_value(next) == acc * 10 + d);
            lemma_prefix_value(digits, j - start + 1);
        }
        if acc > (u64::MAX - d) / 10 {
            return Err(NumberError::Overflow);
        }
        acc = acc * 10 + d;
        j += 1;
    }
    assert(digits.take(n - start) == digits);
    Ok(acc)
}

/// Parses an unsigned 64-bit decimal number.
pub fn parse_u64(s: &str) -> (r: Result<u64, NumberError>)
    ensures
        r == parse_u64_spec(s@),
{
    let chars = str_to_chars(s);
    parse_u64_chars(&chars)
}

/// Whether `pat` occurs in `s` starting at index `i`.
pub open spec fn matches_at(s: Seq<char>, pat: Seq<char>, i: int) -> bool {
    0 <= i && i + pat.len() <= s.len() && s.subrange(i, i + pat.len()) == pat
}

/// `s[i..]` with every occurrence of the non-empty literal `pat` replaced by
/// `with`, scanning left to right; occurrences do not overlap.
pub open spec fn replace_from(s: Seq<char>, pat: Seq<char>, with: Seq<char>, i: int) -> Seq<char>
    decreases s.len() - i,
{
    if pat.len() == 0 || i < 0 || i >= s.len() {
        Seq::empty()
    } else if matches_at(s, pat, i) {
        with + replace_from(s, pat, with, i + pat.len())
    } else {
        seq![s[i]] + replace_from(s, pat, with, i + 1)
    }
}

/// `with`, then every character of `s[i..]` followed by `with`.
pub open spec fn interleaved(s: Seq<char>, with: Seq<char>, i: int) -> Seq<char>
    decreases s.len() - i,
{
    if i < 0 || i >= s.len() {
        with
    } else {
        with + seq![s[i]] + interleaved(s, with, i + 1)
    }
}

/// `s` with every occurrence of the literal `pat` replaced by `with`. The
/// empty pattern occurs before every character and at the end.
pub open spec fn replaced(s: Seq<char>, pat: Seq<char>, with: Seq<char>) -> Seq<char> {
    if pat.len() == 0 {
        interleaved(s, with, 0)
    } else {
        replace_from(s, pat, with, 0)
    }
}

/// Whether `pat` occurs in `s` at index `i`.
pub fn occurs_at(s: &Vec<char>, pat: &Vec<char>, i: usize) -> (found: bool)
    ensures
        found == matches_at(s@, pat@, i as int),
{
    if pat.len() > s.len() || i > s.len() - pat.len() {
        return false;
    }
    let mut k: usize = 0;
    while k < pat.len()
        invariant
            k <= pat.len(),
            i + pat.len() <= s.len(),
            forall|q: int| 0 <= q < k ==> s[i + q] == pat[q],
        decreases pat.len() - k,
    {
        if s[i + k] != pat[k] {
            assert(s@.subrange(i as int, i + pat.len())[k as int] != pat@[k as int]);
            return false;
        }
        k += 1;
    }
    assert(s@.subrange(i as int, i + pat.len()) =~= pat@);
    true
}

/// Replaces every occurrence of the literal `pat` in `s` by `with`.
pub fn replace_all(s: &str, pat: &str, with: &str) -> (out: String)
    ensures
        out@ == replaced(s@, pat@, with@),
{
    let text = str_to_chars(s);
    let needle = str_to_chars(pat);
    let mut out = String::new();
    let mut i: usize = 0;
    if needle.len() == 0 {
        while i < text.len()
            invariant
                i <= text.len(),
                text@ == s@,
                out@ + interleaved(s@, with@, i as int) == interleaved(s@, with@, 0),
            decreases text.len() - i,
        {
            proof {
                let rest = interleaved(s@, with@, i + 1);
                assert(out@ + (with@ + seq![s@[i as int]] + rest) == (out@ + with@).push(
                    s@[i as int],
                ) + rest);
            }
            out.append(with);
            push_char(&mut out, text[i]);
            i += 1;
        }
        out.append(with);
        return out;
    }
    while i < text.len()
        invariant
            i <= text.len(),
            text@ == s@,
            needle@ == pat@,
            pat@.len() > 0,
            out@ + replace_from(s@, pat@, with@, i as int) == replaced(s@, pat@, with@),
        decreases text.len() - i,
    {
        if occurs_at(&text, &needle, i) {
            proof {
                let rest = replace_from(s@, pat@, with@, i + pat@.len());
                assert(out@ + (with@ + rest) == (out@ + with@) + rest);
            }
            out.append(with);
            i += needle.len();
        } else {
            proof {
                let rest = replace_from(s@, pat@, with@, i + 1);
                assert(out@ + (seq![s@[i as int]] + rest) == out@.push(s@[i as int]) + rest);
            }
            push_char(&mut out, text[i]);
            i += 1;
        }
    }
    assert(out@ + Seq::<char>::empty() == out@);
    out
}

/// Whether `c` occurs in `s[from..to]`.
pub open spec fn contains_char(s: Seq<char>, c: char, from: int, to: int) -> bool {
    exists|k: int| from <= k < to && 0 <= k < s.len() && s[k] == c
}

/// Index of the first `c` in `s` at or after `from`, if there is one.
pub fn find_char(s: &Vec<char>, c: char, from: usize) -> (r: Option<usize>)
    ensures
        match r {
            Some(i) => from <= i < s.len() && s[i as int] == c && !contains_char(
                s@,
                c,
                from as int,
                i as int,
            ),
            None => !contains_char(s@, c, from as int, s.len() as int),
        },
{
    let mut i: usize = from;
    while i < s.len()
        invariant
            from <= i,
            !contains_char(s@, c, from as int, i as int),
        decreases s.len() - i,
    {
        if s[i] == c {
            return Some(i);
        }
        i += 1;
    }
    None
}

/// Whether `c` is Unicode white space (the `White_Space` property).
pub open spec fn is_whitespace(c: char) -> bool {
    let u = c as int;
    (0x09 <= u <= 0x0D) || u == 0x20 || u == 0x85 || u == 0xA0 || u == 0x1680 || (0x2000 <= u
        <= 0x200A) || u == 0x2028 || u == 0x2029 || u == 0x202F || u == 0x205F || u == 0x3000
}

/// Whether `c` is Unicode white space.
pub fn char_is_whitespace(c: char) -> (b: bool)
    ensures
        b == is_whitespace(c),
{
    let u: u32 = c as u32;
    (0x09 <= u && u <= 0x0D) || u == 0x20 || u == 0x85 || u == 0xA0 || u == 0x1680 || (0x2000 <= u
        && u <= 0x200A) || u == 0x2028 || u == 0x2029 || u == 0x202F || u == 0x205F || u == 0x3000
}

/// Number of white-space characters at the front of `s`.
pub open spec fn leading_whitespace(s: Seq<char>) -> nat
    decreases s.len(),
{
    if s.len() == 0 || !is_whitespace(s[0]) {
        0
    } else {
        1 + leading_whitespace(s.drop_first())
    }
}

/// `s` without the white space at its end.
pub open spec fn trim_end(s: Seq<char>) -> Seq<char>
    decreases s.len(),
{
    if s.len() == 0 || !is_whitespace(s.last()) {
        s
    } else {
        trim_end(s.drop_last())
    }
}

/// `s` without the white space at its front.
pub open spec fn trim_start(s: Seq<char>) -> Seq<char> {
    s.skip(leading_whitespace(s) as int)
}

/// `s` without the white space at either end.
pub open spec fn trim(s: Seq<char>) -> Seq<char> {
    trim_end(trim_start(s))
}

/// An index before which all is white space and at which white space stops
/// is the amount of leading white space.
pub proof fn lemma_leading_whitespace(s: Seq<char>, k: int)
    requires
        0 <= k <= s.len(),
        forall|j: int| 0 <= j < k ==> is_whitespace(#[trigger] s[j]),
        k < s.len() ==> !is_whitespace(s[k]),
    ensures
        leading_whitespace(s) == k,
    decreases s.len(),
{
    if k > 0 {
        assert(is_whitespace(s[0]));
        let rest = s.drop_first();
        assert forall|j: int| 0 <= j < k - 1 implies is_whitespace(#[trigger] rest[j]) by {
            assert(rest[j] == s[j + 1]);
        }
        lemma_leading_whitespace(rest, k - 1);
    }
}

/// An index from which all is white space and before which white space
/// stops cuts `s` at its trimmed end.
pub proof fn lemma_trim_end(s: Seq<char>, k: int)
    requires
        0 <= k <= s.len(),
        forall|j: int| k <= j < s.len() ==> is_whitespace(#[trigger] s[j]),
        k > 0 ==> !is_whitespace(s[k - 1]),
    ensures
        trim_end(s) == s.take(k),
    decreases s.len(),
{
    if k < s.len() {
        assert(is_whitespace(s.last()));
        let rest = s.drop_last();
        lemma_trim_end(rest, k);
        assert(rest.take(k) == s.take(k));
    } else {
        assert(s.take(k) == s);
    }
}

/// The bounds of `chars[from..to]` once white space is trimmed off both ends.
pub(crate) fn trim_bounds(chars: &Vec<char>, from: usize, to: usize) -> (bounds: (usize, usize))
    requires
        from <= to <= chars.len(),
    ensures
        from <= bounds.0 <= bounds.1 <= to,
        chars@.subrange(bounds.0 as int, bounds.1 as int) == trim(
            chars@.subrange(from as int, to as int),
        ),
{
    let ghost piece = chars@.subrange(from as int, to as int);
    let mut start: usize = from;
    while start < to && char_is_whitespace(chars[start])
        invariant
            from <= start <= to <= chars.len(),
            piece == chars@.subrange(from as int, to as int),
            forall|j: int| 0 <= j < start - from ==> is_whitespace(#[trigger] piece[j]),
        decreases to - start,
    {
        start += 1;
    }
    proof {
        lemma_leading_whitespace(piece, start - from);
    }
    let ghost rest = trim_start(piece);
    assert(rest == chars@.subrange(start as int, to as int));
    let mut end: usize = to;
    while end > start && char_is_whitespace(chars[end - 1])
        invariant
            start <= end <= to <= chars.len(),
            rest == chars@.subrange(start as int, to as int),
            forall|j: int| end - start <= j < rest.len() ==> is_whitespace(#[trigger] rest[j]),
        decreases end,
    {
        end -= 1;
    }
    proof {
        if end > start {
            assert(rest[end - start - 1] == chars[end - 1]);
        }
        lemma_trim_end(rest, end - start);
        assert(rest.take(end - start) == chars@.subrange(start as int, end as int));
    }
    (start, end)
}

/// The length of `chars[..to]` once white space is trimmed off its end.
pub(crate) fn trim_end_len(chars: &Vec<char>, to: usize) -> (end: usize)
    requires
        to <= chars.len(),
    ensures
        end <= to,
        chars@.take(end as int) == trim_end(chars@.take(to as int)),
{
    let ghost piece = chars@.take(to as int);
    let mut end: usize = to;
    while end > 0 && char_is_whitespace(chars[end - 1])
        invariant
            end <= to <= chars.len(),
            piece == chars@.take(to as int),
            forall|j: int| end <= j < piece.len() ==> is_whitespace(#[trigger] piece[j]),
        decreases end,
    {
        end -= 1;
    }
    proof {
        if end > 0 {
            assert(piece[end - 1] == chars[end - 1]);
        }
        lemma_trim_end(piece, end as int);
        assert(piece.take(end as int) == chars@.take(end as int));
    }
    end
}

/// Index of the first `c` in `s`, or the length of `s` if there is none.
pub open spec fn first_index_of(s: Seq<char>, c: char) -> int
    decreases s.len(),
{
    if s.len() == 0 || s[0] == c {
        0
    } else {
        1 + first_index_of(s.drop_first(), c)
    }
}

/// The pieces of `s` between occurrences of `sep`; there is always at least
/// one piece, and pieces may be empty.
pub open spec fn split_on(s: Seq<char>, sep: char) -> Seq<Seq<char>>
    decreases s.len(),
{
    let k = first_index_of(s, sep);
    if 0 <= k < s.len() {
        seq![s.take(k)] + split_on(s.skip(k + 1), sep)
    } else {
        seq![s]
    }
}

/// An index before which `c` does not occur and at which it does (or the
/// text ends) is the first index of `c`.
pub proof fn lemma_first_index_of(s: Seq<char>, c: char, k: int)
    requires
        0 <= k <= s.len(),
        forall|j: int| 0 <= j < k ==> #[trigger] s[j] != c,
        k < s.len() ==> s[k] == c,
    ensures
        first_index_of(s, c) == k,
    decreases s.len(),
{
    if k > 0 {
        assert(s[0] != c);
        let rest = s.drop_first();
        assert forall|j: int| 0 <= j < k - 1 implies #[trigger] rest[j] != c by {
            assert(rest[j] == s[j + 1]);
        }
        lemma_first_index_of(rest, c, k - 1);
    }
}

/// The bounds `(from, to)` of the pieces of `chars` between occurrences of
/// `sep`, in order.
pub fn split_bounds(chars: &Vec<char>, sep: char) -> (pieces: Vec<(usize, usize)>)
    ensures
        pieces.len() == split_on(chars@, sep).len(),
        forall|i: int|
            0 <= i < pieces.len() ==> (#[trigger] pieces[i]).0 <= pieces[i].1 <= chars.len()
                && chars@.subrange(pieces[i].0 as int, pieces[i].1 as int) == split_on(
                chars@,
                sep,
            )[i],
{
    let mut pieces: Vec<(usize, usize)> = Vec::new();
    let mut start: usize = 0;
    let mut i: usize = 0;
    let ghost whole = split_on(chars@, sep);
    let ghost mut done: Seq<Seq<char>> = Seq::empty();
    assert(chars@.skip(0) == chars@);
    while i < chars.len()
        invariant
            start <= i <= chars.len(),
            whole == split_on(chars@, sep),
            done + split_on(chars@.skip(start as int), sep) == whole,
            forall|j: int| start <= j < i ==> chars[j] != sep,
            pieces.len() == done.len(),
            forall|k: int|
                0 <= k < pieces.len() ==> (#[trigger] pieces[k]).0 <= pieces[k].1 <= chars.len()
                    && chars@.subrange(pieces[k].0 as int, pieces[k].1 as int) == done[k],
        decreases chars.len() - i,
    {
        if chars[i] == sep {
            proof {
                let rest = chars@.skip(start as int);
                assert forall|j: int| 0 <= j < i - start implies #[trigger] rest[j] != sep by {
                    assert(rest[j] == chars[start + j]);
                }
                lemma_first_index_of(rest, sep, i - start);
                assert(rest.take(i - start) == chars@.subrange(start as int, i as int));
                assert(rest.skip(i - start + 1) == chars@.skip(i + 1));
                assert(done + (seq![rest.take(i - start)] + split_on(chars@.skip(i + 1), sep))
                    == done.push(rest.take(i - start)) + split_on(chars@.skip(i + 1), sep));
                done = done.push(rest.take(i - start));
            }
            pieces.push((start, i));
            start = i + 1;
        }
        i += 1;
    }
    proof {
        let rest = chars@.skip(start as int);
        assert forall|j: int| 0 <= j < rest.len() implies #[trigger] rest[j] != sep by {
            assert(rest[j] == chars[start + j]);
        }
        lemma_first_index_of(rest, sep, rest.len() as int);
        assert(rest == chars@.subrange(start as int, chars.len() as int));
        assert(done + seq![rest] == done.push(rest));
        done = done.push(rest);
    }
    pieces.push((start, chars.len()));
    pieces
}

/// The texts of `parts` written one after another with `sep` between them.
pub open spec fn joined(parts: Seq<Seq<char>>, sep: Seq<char>) -> Seq<char>
    decreases parts.len(),
{
    if parts.len() == 0 {
        Seq::empty()
    } else if parts.len() == 1 {
        parts[0]
    } else {
        joined(parts.drop_last(), sep) + sep + parts.last()
    }
}

/// The views of a sequence of strings.
pub open spec fn views(items: Seq<String>) -> Seq<Seq<char>> {
    Seq::new(items.len(), |i: int| items[i]@)
}

/// Writes the strings of `parts` one after another with `sep` between them.
pub fn join(parts: &Vec<String>, sep: &str) -> (out: String)
    ensures
        out@ == joined(views(parts@), sep@),
{
    let mut out = String::new();
    let mut i: usize = 0;
    let ghost texts = views(parts@);
    assert(texts.take(0).len() == 0);
    while i < parts.len()
        invariant
            i <= parts.len(),
            texts == views(parts@),
            out@ == joined(texts.take(i as int), sep@),
        decreases parts.len() - i,
    {
        proof {
            let next = texts.take(i + 1);
            assert(next.drop_last() == texts.take(i as int));
            assert(next.last() == parts[i as int]@);
            if i == 0 {
                assert(next.len() == 1);
                assert(Seq::<char>::empty() + parts[i as int]@ == parts[i as int]@);
            }
        }
        if i > 0 {
            out.append(sep);
        }
        out.append(parts[i].as_str());
        i += 1;
    }
    assert(texts.take(parts.len() as int) == texts);
    out
}

/// Index of the first occurrence of `pat` in `s` at or after `from`, or the
/// length of `s` if there is none.
pub open spec fn first_match(s: Seq<char>, pat: Seq<char>, from: int) -> int
    decreases s.len() - from,
{
    if from < 0 || from >= s.len() {
        s.len() as int
    } else if matches_at(s, pat, from) {
        from
    } else {
        first_match(s, pat, from + 1)
    }
}

/// The pieces of `s[from..]` between occurrences of the non-empty text
/// `sep`, found left to right without overlap; there is always at least one
/// piece.
pub open spec fn split_on_text(s: Seq<char>, sep: Seq<char>, from: int) -> Seq<Seq<char>>
    decreases s.len() - from,
{
    let k = first_match(s, sep, from);
    if sep.len() > 0 && 0 <= from <= k && k + sep.len() <= s.len() {
        seq![s.subrange(from, k)] + split_on_text(s, sep, k + sep.len())
    } else if 0 <= from <= s.len() {
        seq![s.subrange(from, s.len() as int)]
    } else {
        seq![Seq::empty()]
    }
}

/// An index from `from` on before which `pat` does not occur and at which
/// it does (or which is the end of the text) is the first match.
pub proof fn lemma_first_match(s: Seq<char>, pat: Seq<char>, from: int, k: int)
    requires
        0 <= from <= k <= s.len(),
        forall|j: int| from <= j < k ==> !matches_at(s, pat, j),
        k < s.len() ==> matches_at(s, pat, k),
    ensures
        first_match(s, pat, from) == k,
    decreases k - from,
{
    if from < k {
        lemma_first_match(s, pat, from + 1, k);
    }
}

/// Splits a text at every occurrence of the non-empty text `sep`.
pub(crate) fn split_text(text: &str, sep: &str) -> (pieces: Vec<String>)
    requires
        sep@.len() > 0,
    ensures
        views(pieces@) == split_on_text(text@, sep@, 0),
{
    let chars = str_to_chars(text);
    let needle = str_to_chars(sep);
    let mut pieces: Vec<String> = Vec::new();
    let mut start: usize = 0;
    let mut i: usize = 0;
    let ghost whole = split_on_text(text@, sep@, 0);
    assert(views(pieces@) =~= Seq::<Seq<char>>::empty());
    while i < chars.len()
        invariant
            start <= i <= chars.len(),
            chars@ == text@,
            needle@ == sep@,
            sep@.len() > 0,
            whole == split_on_text(text@, sep@, 0),
            views(pieces@) + split_on_text(text@, sep@, start as int) == whole,
            forall|j: int| start <= j < i ==> !matches_at(text@, sep@, j),
        decreases chars.len() - i,
    {
        if occurs_at(&chars, &needle, i) {
            proof {
                lemma_first_match(text@, sep@, start as int, i as int);
            }
            let piece = chars_to_string(&chars, start, i);
            proof {
                let rest = split_on_text(text@, sep@, i + sep@.len());
                assert(views(pieces@) + (seq![piece@] + rest) == views(pieces@).push(piece@) + rest);
                assert(views(pieces@.push(piece)) =~= views(pieces@).push(piece@));
            }
            pieces.push(piece);
            i += needle.len();
            start = i;
        } else {
            i += 1;
        }
    }
    proof {
        assert forall|j: int| start <= j < chars.len() implies !matches_at(text@, sep@, j) by {}
        lemma_first_match(text@, sep@, start as int, chars.len() as int);
    }
    let piece = chars_to_string(&chars, start, chars.len());
    proof {
        assert(views(pieces@) + seq![piece@] == views(pieces@).push(piece@));
        assert(views(pieces@.push(piece)) =~= views(pieces@).push(piece@));
    }
    pieces.push(piece);
    pieces
}

/// Every decimal representation is made of digits, at least one, and
/// spells the number it represents.
pub proof fn lemma_decimal_digits(n: nat)
    ensures
        decimal(n).len() >= 1,
        all_digits(decimal(n)),
        digits_value(decimal(n)) == n,
    decreases n,
{
    if n < 10 {
        let s = decimal(n);
        assert(s.drop_last().len() == 0);
        assert(digits_value(s.drop_last()) == 0);
        assert(digit_value(s.last()) == n);
        assert(digits_value(s) == digits_value(s.drop_last()) * 10 + digit_value(s.last()));
    } else {
        lemma_decimal_digits(n / 10);
        let s = decimal(n);
        assert(s.drop_last() == decimal(n / 10));
        assert(digit_value(s.last()) == n % 10);
        assert(digits_value(s) == digits_value(s.drop_last()) * 10 + digit_value(s.last()));
        assert forall|i: int| 0 <= i < s.len() implies is_digit(#[trigger] s[i]) by {
            if i < s.len() - 1 {
                assert(s[i] == decimal(n / 10)[i]);
            }
        }
    }
}

/// Reading back what was written: the decimal text of a number parses to
/// the number.
pub proof fn law_decimal_round_trip(n: u64)
    ensures
        parse_u64_spec(decimal(n as nat)) == Ok::<u64, NumberError>(n),
{
    lemma_decimal_digits(n as nat);
    assert(is_digit(decimal(n as nat)[0]));
}

} // verus!
