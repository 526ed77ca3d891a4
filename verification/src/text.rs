//! Text as sequences of characters: the specifications of the string operations
//! that the other modules use, and executable helpers proved against them.

use vstd::prelude::*;
use vstd::utf8::encode_utf8;

verus! {

/// The characters that have the Unicode property `White_Space`.
pub open spec fn is_white_space(c: char) -> bool {
    let code = c as u32;
    ||| 0x9 <= code <= 0xd
    ||| code == 0x20
    ||| code == 0x85
    ||| code == 0xa0
    ||| code == 0x1680
    ||| 0x2000 <= code <= 0x200a
    ||| code == 0x2028
    ||| code == 0x2029
    ||| code == 0x202f
    ||| code == 0x205f
    ||| code == 0x3000
}

/// `s` from its first character that is not white space.
pub open spec fn trimmed_start(s: Seq<char>) -> Seq<char>
    decreases s.len(),
{
    if s.len() > 0 && is_white_space(s.first()) {
        trimmed_start(s.drop_first())
    } else {
        s
    }
}

/// `s` up to its last character that is not white space.
pub open spec fn trimmed_end(s: Seq<char>) -> Seq<char>
    decreases s.len(),
{
    if s.len() > 0 && is_white_space(s.last()) {
        trimmed_end(s.drop_last())
    } else {
        s
    }
}

/// `s` without the white space around it.
pub open spec fn trimmed(s: Seq<char>) -> Seq<char> {
    trimmed_end(trimmed_start(s))
}

/// `s` without the copies of `c` that end it.
pub open spec fn without_trailing(s: Seq<char>, c: char) -> Seq<char>
    decreases s.len(),
{
    if s.len() > 0 && s.last() == c {
        without_trailing(s.drop_last(), c)
    } else {
        s
    }
}

/// `c` with an ASCII capital turned into the small letter.
pub open spec fn ascii_lower(c: char) -> char {
    if 'A' <= c <= 'Z' {
        ((c as u32 + 32) as u32) as char
    } else {
        c
    }
}

/// `s` with every ASCII capital turned into the small letter.
pub open spec fn ascii_lowered(s: Seq<char>) -> Seq<char> {
    s.map_values(|c: char| ascii_lower(c))
}

/// An optional string, taken by its characters.
pub open spec fn opt_view(s: Option<String>) -> Option<Seq<char>> {
    match s {
        Some(s) => Some(s@),
        None => None,
    }
}

/// `str::trim` removes leading and trailing white space, that is, characters
/// with the Unicode property `White_Space`.
pub assume_specification[ str::trim ](s: &str) -> (res: &str)
    ensures
        res@ == trimmed(s@),
;

/// `str::to_ascii_lowercase` maps `A` to `Z` to `a` to `z` and keeps every other
/// character.
pub assume_specification[ str::to_ascii_lowercase ](s: &str) -> (res: String)
    ensures
        res@ == ascii_lowered(s@),
;

/// `==` on string slices compares their characters.
pub assume_specification[ <str as PartialEq>::eq ](s: &str, other: &str) -> (res: bool)
    ensures
        res == (s@ == other@),
;

/// `String::push` appends one character.
pub assume_specification[ String::push ](s: &mut String, c: char)
    ensures
        final(s)@ == old(s)@.push(c),
;

/// `str::trim_end_matches` with a character as its pattern removes the copies of
/// that character that end the text.
#[verifier::external_body]
pub(crate) fn trim_end_char(s: &str, c: char) -> (res: &str)
    ensures
        res@ == without_trailing(s@, c),
{
    s.trim_end_matches(c)
}

/// The characters of `s`, one by one.
pub(crate) fn chars_of(s: &str) -> (res: Vec<char>)
    ensures
        res@ == s@,
{
    let mut out: Vec<char> = Vec::new();
    for c in it: s.chars()
        invariant
            out@ == s@.take(it.index() as int),
            it.seq() == s@,
    {
        out.push(c);
        assert(s@.take(it.index() + 1) =~= s@.take(it.index() as int).push(c));
    }
    assert(s@.take(s@.len() as int) =~= s@);
    out
}

/// A copy of an optional string.
pub(crate) fn copy_opt(s: &Option<String>) -> (res: Option<String>)
    ensures
        opt_view(res) == opt_view(*s),
{
    match s {
        Some(s) => Some(s.clone()),
        None => None,
    }
}

/// The number of bytes that `s` takes in UTF-8.
pub(crate) fn byte_len(s: &str) -> (res: usize)
    ensures
        res == encode_utf8(s@).len(),
{
    s.as_bytes().len()
}

/// What `trimmed_start` leaves is a tail of `s` that is empty or starts with no
/// white space.
pub proof fn lemma_trimmed_start(s: Seq<char>)
    ensures
        trimmed_start(s).len() <= s.len(),
        trimmed_start(s) == s.skip(s.len() - trimmed_start(s).len()),
        trimmed_start(s).len() > 0 ==> !is_white_space(trimmed_start(s).first()),
    decreases s.len(),
{
    if s.len() > 0 && is_white_space(s.first()) {
        let rest = s.drop_first();
        lemma_trimmed_start(rest);
        let n = trimmed_start(rest).len();
        assert(rest.skip(rest.len() - n) =~= s.skip(s.len() - n));
    } else {
        assert(s.skip(0) =~= s);
    }
}

/// What `trimmed_end` leaves is a prefix of `s` that is empty or ends with no white
/// space.
pub proof fn lemma_trimmed_end(s: Seq<char>)
    ensures
        trimmed_end(s).len() <= s.len(),
        trimmed_end(s) == s.take(trimmed_end(s).len() as int),
        trimmed_end(s).len() > 0 ==> !is_white_space(trimmed_end(s).last()),
    decreases s.len(),
{
    if s.len() > 0 && is_white_space(s.last()) {
        let rest = s.drop_last();
        lemma_trimmed_end(rest);
        let n = trimmed_end(rest).len() as int;
        assert(rest.take(n) =~= s.take(n));
    } else {
        assert(s.take(s.len() as int) =~= s);
    }
}

/// Trimmed text is empty or starts and ends with characters that are no white space,
/// and trimming it again changes nothing.
pub proof fn lemma_trimmed(s: Seq<char>)
    ensures
        trimmed(s).len() <= s.len(),
        trimmed(s).len() > 0 ==> {
            &&& !is_white_space(trimmed(s).first())
            &&& !is_white_space(trimmed(s).last())
        },
        trimmed(trimmed(s)) == trimmed(s),
{
    lemma_trimmed_start(s);
    lemma_trimmed_end(trimmed_start(s));
}

/// Text with no white space at its ends is left as it is.
pub proof fn lemma_trimmed_fixpoint(s: Seq<char>)
    requires
        s.len() > 0 ==> !is_white_space(s.first()) && !is_white_space(s.last()),
    ensures
        trimmed(s) == s,
{
}

/// What `without_trailing` leaves is a prefix of `s` that does not end with `c`.
pub proof fn lemma_without_trailing(s: Seq<char>, c: char)
    ensures
        without_trailing(s, c).len() <= s.len(),
        without_trailing(s, c) == s.take(without_trailing(s, c).len() as int),
        without_trailing(s, c).len() > 0 ==> without_trailing(s, c).last() != c,
    decreases s.len(),
{
    if s.len() > 0 && s.last() == c {
        let rest = s.drop_last();
        lemma_without_trailing(rest, c);
        let n = without_trailing(rest, c).len() as int;
        assert(rest.take(n) =~= s.take(n));
    } else {
        assert(s.take(s.len() as int) =~= s);
    }
}

proof fn lemma_trimmed_start_at(s: Seq<char>, a: int)
    requires
        0 <= a <= s.len(),
        forall|i: int| 0 <= i < a ==> is_white_space(#[trigger] s[i]),
        a < s.len() ==> !is_white_space(s[a]),
    ensures
        trimmed_start(s) == s.skip(a),
    decreases a,
{
    if a > 0 {
        let rest = s.drop_first();
        assert forall|i: int| 0 <= i < a - 1 implies is_white_space(#[trigger] rest[i]) by {
            assert(rest[i] == s[i + 1]);
        }
        lemma_trimmed_start_at(rest, a - 1);
        assert(rest.skip(a - 1) =~= s.skip(a));
    } else {
        assert(s.skip(0) =~= s);
    }
}

proof fn lemma_trimmed_end_at(s: Seq<char>, c: int)
    requires
        0 <= c <= s.len(),
        forall|i: int| c <= i < s.len() ==> is_white_space(#[trigger] s[i]),
        c > 0 ==> !is_white_space(s[c - 1]),
    ensures
        trimmed_end(s) == s.take(c),
    decreases s.len() - c,
{
    if c < s.len() {
        let rest = s.drop_last();
        lemma_trimmed_end_at(rest, c);
        assert(rest.take(c) =~= s.take(c));
    } else {
        assert(s.take(c) =~= s);
    }
}

/// Trimmed text is the part of `s` from its first to its last character that is no white
/// space, character for character.
pub proof fn law_trimmed_is_the_part_between(s: Seq<char>, a: int, c: int)
    requires
        0 <= a < c <= s.len(),
        forall|i: int| 0 <= i < a ==> is_white_space(#[trigger] s[i]),
        forall|i: int| c <= i < s.len() ==> is_white_space(#[trigger] s[i]),
        !is_white_space(s[a]),
        !is_white_space(s[c - 1]),
    ensures
        trimmed(s) == s.subrange(a, c),
{
    lemma_trimmed_start_at(s, a);
    let rest = s.skip(a);
    assert forall|i: int| c - a <= i < rest.len() implies is_white_space(#[trigger] rest[i]) by {
        assert(rest[i] == s[i + a]);
    }
    lemma_trimmed_end_at(rest, c - a);
    assert(rest.take(c - a) =~= s.subrange(a, c));
}

/// Nothing is left of text that is all white space.
pub proof fn law_nothing_is_left_of_white_space(s: Seq<char>)
    requires
        forall|i: int| 0 <= i < s.len() ==> is_white_space(#[trigger] s[i]),
    ensures
        trimmed(s).len() == 0,
{
    lemma_trimmed_start_at(s, s.len() as int);
}

/// What is left without the copies of `c` at the end is the part before them, character
/// for character.
pub proof fn law_without_trailing_is_the_part_before(s: Seq<char>, c: char, b: int)
    requires
        0 <= b <= s.len(),
        forall|i: int| b <= i < s.len() ==> #[trigger] s[i] == c,
        b > 0 ==> s[b - 1] != c,
    ensures
        without_trailing(s, c) == s.subrange(0, b),
    decreases s.len() - b,
{
    if b < s.len() {
        let rest = s.drop_last();
        assert(s.last() == c);
        law_without_trailing_is_the_part_before(rest, c, b);
        assert(rest.subrange(0, b) =~= s.subrange(0, b));
    } else {
        assert(s.subrange(0, b) =~= s);
    }
}

/// Taking an optional string by its characters keeps every character, and what is missing
/// stays missing.
pub proof fn law_opt_view_keeps_the_text(s: Option<String>)
    ensures
        s matches Some(text) ==> opt_view(s) == Some(text@),
        s is None ==> opt_view(s) is None,
{
}

/// Turning capitals into small letters keeps the length of a text and every character but
/// the 26 ASCII capitals, which lie 32 before their small letters.
pub proof fn law_only_ascii_capitals_are_lowered(s: Seq<char>, i: int)
    requires
        0 <= i < s.len(),
    ensures
        ascii_lowered(s).len() == s.len(),
        !('A' <= s[i] <= 'Z') ==> ascii_lowered(s)[i] == s[i],
        'A' <= s[i] <= 'Z' ==> ascii_lowered(s)[i] as u32 == s[i] as u32 + 32,
{
}

} // verus!
