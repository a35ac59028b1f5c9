//! Strings as sequences of characters: the small vocabulary that the
//! contracts of the other modules are written in.

use vstd::prelude::*;
use vstd::string::StrSliceExecFns;
use vstd::string::StringExecFns;

verus! {

/// The texts of a list of strings, in order.
pub open spec fn texts(list: Seq<String>) -> Seq<Seq<char>> {
    list.map_values(|s: String| s@)
}

/// The text of a string that may be absent.
pub open spec fn optional_text(held: Option<String>) -> Option<Seq<char>> {
    match held {
        Some(s) => Some(s@),
        None => None,
    }
}

/// The texts of a list of strings that may be absent.
pub open spec fn optional_texts(held: Option<Vec<String>>) -> Option<Seq<Seq<char>>> {
    match held {
        Some(list) => Some(texts(list@)),
        None => None,
    }
}

/// The parts written one after another with `sep` between each two.
pub open spec fn join(parts: Seq<Seq<char>>, sep: Seq<char>) -> Seq<char>
    decreases parts.len(),
{
    if parts.len() == 0 {
        Seq::empty()
    } else if parts.len() == 1 {
        parts[0]
    } else {
        join(parts.drop_last(), sep) + sep + parts.last()
    }
}

/// The character that writes the decimal digit `d`.
pub open spec fn digit_char(d: int) -> char {
    if d == 0 {
        '0'
    } else if d == 1 {
        '1'
    } else if d == 2 {
        '2'
    } else if d == 3 {
        '3'
    } else if d == 4 {
        '4'
    } else if d == 5 {
        '5'
    } else if d == 6 {
        '6'
    } else if d == 7 {
        '7'
    } else if d == 8 {
        '8'
    } else {
        '9'
    }
}

/// The decimal digits of a natural number, without leading zeros.
pub open spec fn digits(n: nat) -> Seq<char>
    decreases n,
{
    if n < 10 {
        seq![digit_char(n as int)]
    } else {
        digits(n / 10).push(digit_char((n % 10) as int))
    }
}

/// The decimal notation of an integer, with a minus sign before a negative one.
pub open spec fn decimal(n: int) -> Seq<char> {
    if n < 0 {
        seq!['-'] + digits((-n) as nat)
    } else {
        digits(n as nat)
    }
}

/// The lower-case form of a text: what `str::to_lowercase` returns for it.
pub uninterp spec fn lowercase(text: Seq<char>) -> Seq<char>;

/// Whether a character is white space: what `char::is_whitespace` returns for it.
pub uninterp spec fn is_whitespace(c: char) -> bool;

/// Whether every character of a text is white space.
pub open spec fn is_blank(text: Seq<char>) -> bool {
    forall|i: int| 0 <= i < text.len() ==> is_whitespace(#[trigger] text[i])
}

/// Where the first `mark` at or after `from` stands in `text`, or the length
/// of `text` if there is none.
pub open spec fn position_from(text: Seq<char>, mark: char, from: int) -> int
    decreases text.len() - from,
{
    if from < 0 || from >= text.len() {
        text.len() as int
    } else if text[from] == mark {
        from
    } else {
        position_from(text, mark, from + 1)
    }
}

/// The part of an address before its first `@`: all of it where it has none.
pub open spec fn before_at(address: Seq<char>) -> Seq<char> {
    address.subrange(0, position_from(address, '@', 0))
}

/// Calls `str::to_lowercase` of std. The contract names the result after the
/// text alone: std documents the conversion as the Unicode lower-case mapping,
/// which reads no locale and no other state.
#[verifier::external_body]
pub(crate) fn to_lowercase(text: &str) -> (lower: String)
    ensures
        lower@ == lowercase(text@),
{
    text.to_lowercase()
}

/// Calls `char::is_whitespace` of std, which tells whether the character has
/// the Unicode property White_Space. The contract names the answer after the
/// character.
#[verifier::external_body]
pub(crate) fn char_is_whitespace(c: char) -> (white: bool)
    ensures
        white == is_whitespace(c),
{
    c.is_whitespace()
}

/// Whether two strings hold the same text.
pub fn same_text(a: &str, b: &str) -> (same: bool)
    ensures
        same == (a@ == b@),
{
    let left = a.to_owned();
    let right = b.to_owned();
    left == right
}

/// Whether `wanted` is the text of one of the strings of `list`.
pub fn contains_text(list: &[String], wanted: &str) -> (found: bool)
    ensures
        found == texts(list@).contains(wanted@),
{
    let mut i: usize = 0;
    while i < list.len()
        invariant
            i <= list.len(),
            forall|j: int| 0 <= j < i ==> texts(list@)[j] != wanted@,
        decreases list.len() - i,
    {
        if same_text(list[i].as_str(), wanted) {
            assert(texts(list@)[i as int] == wanted@);
            return true;
        }
        i += 1;
    }
    false
}

/// Joins the strings of `parts` with `sep` between each two.
pub fn join_strings(parts: &[String], sep: &str) -> (joined: String)
    ensures
        joined@ == join(texts(parts@), sep@),
{
    let mut joined = String::new();
    let mut i: usize = 0;
    while i < parts.len()
        invariant
            i <= parts.len(),
            joined@ == join(texts(parts@).take(i as int), sep@),
        decreases parts.len() - i,
    {
        if i > 0 {
            joined.append(sep);
        }
        joined.append(parts[i].as_str());
        proof {
            let upto = texts(parts@).take(i + 1);
            assert(upto.drop_last() == texts(parts@).take(i as int));
        }
        i += 1;
    }
    assert(texts(parts@).take(parts.len() as int) == texts(parts@));
    joined
}

/// The string that writes one decimal digit.
fn digit_str(d: u32) -> (s: &'static str)
    requires
        d < 10,
    ensures
        s@ == seq![digit_char(d as int)],
{
    proof {
        reveal_strlit("0");
        reveal_strlit("1");
        reveal_strlit("2");
        reveal_strlit("3");
        reveal_strlit("4");
        reveal_strlit("5");
        reveal_strlit("6");
        reveal_strlit("7");
        reveal_strlit("8");
        reveal_strlit("9");
    }
    let s = if d == 0 {
        "0"
    } else if d == 1 {
        "1"
    } else if d == 2 {
        "2"
    } else if d == 3 {
        "3"
    } else if d == 4 {
        "4"
    } else if d == 5 {
        "5"
    } else if d == 6 {
        "6"
    } else if d == 7 {
        "7"
    } else if d == 8 {
        "8"
    } else {
        "9"
    };
    s
}

/// Appends the decimal digits of `n` to `out`.
fn push_digits(out: &mut String, n: u32)
    ensures
        final(out)@ == old(out)@ + digits(n as nat),
    decreases n,
{
    if n >= 10 {
        push_digits(out, n / 10);
    }
    out.append(digit_str(n % 10));
}

/// Writes an integer in decimal notation.
pub fn int_to_string(n: i32) -> (written: String)
    ensures
        written@ == decimal(n as int),
{
    let mut written = String::new();
    if n < 0 {
        written.append("-");
        proof {
            reveal_strlit("-");
        }
        let magnitude: u32 = (-(n as i64)) as u32;
        push_digits(&mut written, magnitude);
    } else {
        push_digits(&mut written, n as u32);
    }
    written
}

/// The characters of a string, one by one.
pub fn chars_of(text: &str) -> (chars: Vec<char>)
    ensures
        chars@ == text@,
{
    let mut chars: Vec<char> = Vec::new();
    for c in it: text.chars()
        invariant
            it.seq() == text@,
            chars@ == it.seq().take(it.index() as int),
    {
        chars.push(c);
    }
    chars
}

/// The part of an email address before its first `@`.
pub fn email_prefix(email: &str) -> (prefix: &str)
    ensures
        prefix@ == before_at(email@),
{
    let chars = chars_of(email);
    let mut i: usize = 0;
    while i < chars.len() && chars[i] != '@'
        invariant
            i <= chars.len(),
            chars@ == email@,
            position_from(email@, '@', 0) == position_from(email@, '@', i as int),
        decreases chars.len() - i,
    {
        i += 1;
    }
    email.substring_char(0, i)
}

} // verus!
