//! Excerpts of error bodies that are fit to be shown: the credential is taken
//! out, line breaks are flattened and the length is bounded.

use crate::text::chars_of;
use vstd::prelude::*;

verus! {

/// What stands in an excerpt in the place of a credential.
pub const REDACTION_PLACEHOLDER: &'static str = "[REDACTED]";

/// The most characters that an excerpt holds.
pub const MAX_EXCERPT_CHARS: usize = 512;

/// `s` with `to` before every character and at the end.
pub open spec fn interleaved(s: Seq<char>, to: Seq<char>) -> Seq<char>
    decreases s.len(),
{
    if s.len() == 0 {
        to
    } else {
        to + seq![s.first()] + interleaved(s.drop_first(), to)
    }
}

/// `s` with every copy of `from` replaced by `to`. Copies are found from left to
/// right and do not overlap; the empty text is found at every boundary between
/// characters.
pub open spec fn replaced(s: Seq<char>, from: Seq<char>, to: Seq<char>) -> Seq<char>
    decreases s.len(),
{
    if from.len() == 0 {
        interleaved(s, to)
    } else if s.len() == 0 {
        s
    } else if from.is_prefix_of(s) {
        to + replaced(s.skip(from.len() as int), from, to)
    } else {
        seq![s.first()] + replaced(s.drop_first(), from, to)
    }
}

/// Whether `c` ends a line.
pub open spec fn is_line_break(c: char) -> bool {
    c == '\r' || c == '\n'
}

/// `c`, or a space where `c` is a line break.
pub open spec fn flattened_char(c: char) -> char {
    if is_line_break(c) {
        ' '
    } else {
        c
    }
}

/// `s` with a space for every line break.
pub open spec fn flattened(s: Seq<char>) -> Seq<char> {
    s.map_values(|c: char| flattened_char(c))
}

/// The first `n` characters of `s`, or all of it where it is shorter.
pub open spec fn clipped(s: Seq<char>, n: int) -> Seq<char> {
    if s.len() <= n {
        s
    } else {
        s.take(n)
    }
}

/// The excerpt of `body` that hides `api_key`.
pub open spec fn error_excerpt(body: Seq<char>, api_key: Seq<char>) -> Seq<char> {
    clipped(
        flattened(replaced(body, api_key, REDACTION_PLACEHOLDER@)),
        MAX_EXCERPT_CHARS as int,
    )
}

/// Appends `more` to `out`.
fn push_all(out: &mut Vec<char>, more: &Vec<char>)
    ensures
        final(out)@ == old(out)@ + more@,
{
    let ghost before = out@;
    let mut i: usize = 0;
    while i < more.len()
        invariant
            i <= more.len(),
            out@ == before + more@.take(i as int),
        decreases more.len() - i,
    {
        out.push(more[i]);
        i += 1;
        assert(more@.take(i as int) =~= more@.take(i - 1).push(more@[i - 1]));
    }
    assert(more@.take(i as int) =~= more@);
}

/// Whether `pattern` stands in `text` at `at`.
fn stands_at(text: &Vec<char>, at: usize, pattern: &Vec<char>) -> (res: bool)
    requires
        at <= text.len(),
    ensures
        res == pattern@.is_prefix_of(text@.skip(at as int)),
{
    if text.len() - at < pattern.len() {
        return false;
    }
    let mut i: usize = 0;
    while i < pattern.len()
        invariant
            i <= pattern.len() <= text.len() - at,
            forall|j: int| 0 <= j < i ==> text@[at + j] == pattern@[j],
        decreases pattern.len() - i,
    {
        if text[at + i] != pattern[i] {
            assert(text@.skip(at as int)[i as int] != pattern@[i as int]);
            return false;
        }
        i += 1;
    }
    assert(pattern@ =~= text@.skip(at as int).subrange(0, pattern@.len() as int));
    true
}

/// Replaces every copy of `from` in `text` by `to`.
fn replace_all(text: &Vec<char>, from: &Vec<char>, to: &Vec<char>) -> (res: Vec<char>)
    ensures
        res@ == replaced(text@, from@, to@),
{
    let mut out: Vec<char> = Vec::new();
    let mut i: usize = 0;
    assert(text@.skip(0) =~= text@);
    if from.len() == 0 {
        while i < text.len()
            invariant
                i <= text.len(),
                out@ + interleaved(text@.skip(i as int), to@) == interleaved(text@, to@),
            decreases text.len() - i,
        {
            let ghost before = out@;
            let ghost rest = text@.skip(i as int);
            push_all(&mut out, to);
            out.push(text[i]);
            i += 1;
            assert(rest.drop_first() =~= text@.skip(i as int));
            assert(out@ + interleaved(text@.skip(i as int), to@) =~= before + interleaved(
                rest,
                to@,
            ));
        }
        push_all(&mut out, to);
    } else {
        while i < text.len()
            invariant
                i <= text.len(),
                from.len() > 0,
                out@ + replaced(text@.skip(i as int), from@, to@) == replaced(text@, from@, to@),
            decreases text.len() - i,
        {
            let ghost before = out@;
            let ghost rest = text@.skip(i as int);
            if stands_at(text, i, from) {
                push_all(&mut out, to);
                i += from.len();
                assert(rest.skip(from@.len() as int) =~= text@.skip(i as int));
            } else {
                out.push(text[i]);
                i += 1;
                assert(rest.drop_first() =~= text@.skip(i as int));
            }
            assert(out@ + replaced(text@.skip(i as int), from@, to@) =~= before + replaced(
                rest,
                from@,
                to@,
            ));
        }
        assert(out@ + replaced(text@.skip(i as int), from@, to@) =~= out@);
    }
    out
}

/// The excerpt of an error `body` that may be shown: every copy of `api_key` is
/// replaced by a placeholder, line breaks become spaces, and only the first
/// characters are kept.
pub fn safe_error_excerpt(body: &str, api_key: &str) -> (res: String)
    ensures
        res@ == error_excerpt(body@, api_key@),
{
    let placeholder = chars_of(REDACTION_PLACEHOLDER);
    let sanitized = replace_all(&chars_of(body), &chars_of(api_key), &placeholder);
    let mut excerpt = String::new();
    let mut i: usize = 0;
    let ghost flat = flattened(sanitized@);
    while i < sanitized.len() && i < MAX_EXCERPT_CHARS
        invariant
            i <= sanitized.len(),
            i <= MAX_EXCERPT_CHARS,
            flat == flattened(sanitized@),
            excerpt@ == flat.take(i as int),
        decreases sanitized.len() - i,
    {
        let c = sanitized[i];
        if c == '\r' || c == '\n' {
            excerpt.push(' ');
        } else {
            excerpt.push(c);
        }
        i += 1;
        assert(flat.take(i as int) =~= flat.take(i - 1).push(flat[i - 1]));
    }
    assert(excerpt@ =~= clipped(flat, MAX_EXCERPT_CHARS as int));
    excerpt
}

/// Whether `pattern` stands in `s` at `at`.
pub open spec fn occurs_at(pattern: Seq<char>, s: Seq<char>, at: int) -> bool {
    &&& 0 <= at
    &&& at + pattern.len() <= s.len()
    &&& s.subrange(at, at + pattern.len()) == pattern
}

/// For each character of `replaced(s, from, to)`, whether it is a character of `s`
/// that stays as it is: not part of a `to`, and not a line break.
pub open spec fn kept(s: Seq<char>, from: Seq<char>, to: Seq<char>) -> Seq<bool>
    decreases s.len(),
{
    if from.len() == 0 {
        Seq::new(interleaved(s, to).len(), |i: int| false)
    } else if s.len() == 0 {
        Seq::empty()
    } else if from.is_prefix_of(s) {
        Seq::new(to.len(), |i: int| false) + kept(s.skip(from.len() as int), from, to)
    } else {
        seq![!is_line_break(s.first())] + kept(s.drop_first(), from, to)
    }
}

/// Whether `pattern` can be laid over `other`, shifted by `shift`, so that the
/// characters that lie on each other are the same.
pub open spec fn agrees_at(pattern: Seq<char>, other: Seq<char>, shift: int) -> bool {
    forall|i: int|
        0 <= i < pattern.len() && 0 <= i + shift < other.len() ==> #[trigger] pattern[i] == other[i
            + shift]
}

/// Whether a copy of `pattern` can share characters with a copy of `other`. The
/// empty pattern counts as one that can.
pub open spec fn can_overlap(pattern: Seq<char>, other: Seq<char>) -> bool {
    exists|shift: int|
        -pattern.len() < shift < other.len() && #[trigger] agrees_at(pattern, other, shift)
}

proof fn lemma_kept_len(s: Seq<char>, from: Seq<char>, to: Seq<char>)
    ensures
        kept(s, from, to).len() == replaced(s, from, to).len(),
    decreases s.len(),
{
    if from.len() > 0 && s.len() > 0 {
        if from.is_prefix_of(s) {
            lemma_kept_len(s.skip(from.len() as int), from, to);
        } else {
            lemma_kept_len(s.drop_first(), from, to);
        }
    }
}

/// Where the first `m` characters are kept, they are the first `m` of `s`.
proof fn lemma_kept_prefix(s: Seq<char>, from: Seq<char>, to: Seq<char>, m: int)
    requires
        from.len() > 0,
        to.len() > 0,
        0 <= m <= replaced(s, from, to).len(),
        forall|j: int| 0 <= j < m ==> kept(s, from, to)[j],
    ensures
        m <= s.len(),
        forall|j: int|
            0 <= j < m ==> #[trigger] replaced(s, from, to)[j] == s[j] && !is_line_break(s[j]),
    decreases s.len(),
{
    if m > 0 && s.len() > 0 {
        lemma_kept_len(s, from, to);
        if from.is_prefix_of(s) {
            assert(!kept(s, from, to)[0]);
        } else {
            let rest = s.drop_first();
            assert forall|j: int| 0 <= j < m - 1 implies kept(rest, from, to)[j] by {
                assert(kept(s, from, to)[j + 1] == kept(rest, from, to)[j]);
            }
            lemma_kept_prefix(rest, from, to, m - 1);
            assert(kept(s, from, to)[0] == !is_line_break(s[0]));
            assert forall|j: int| 0 <= j < m implies #[trigger] replaced(s, from, to)[j] == s[j]
                && !is_line_break(s[j]) by {
                if j > 0 {
                    assert(replaced(s, from, to)[j] == replaced(rest, from, to)[j - 1]);
                    assert(s[j] == rest[j - 1]);
                }
            }
        }
    }
}

/// No copy of `from` is made of kept characters alone.
proof fn lemma_no_kept_copy(s: Seq<char>, from: Seq<char>, to: Seq<char>, at: int)
    requires
        from.len() > 0,
        to.len() > 0,
        occurs_at(from, flattened(replaced(s, from, to)), at),
    ensures
        exists|i: int| at <= i < at + from.len() && !#[trigger] kept(s, from, to)[i],
    decreases s.len(),
{
    let whole = replaced(s, from, to);
    let mask = kept(s, from, to);
    lemma_kept_len(s, from, to);
    if s.len() > 0 {
        assert forall|j: int| 0 <= j < from.len() implies flattened_char(#[trigger] whole[at + j])
            == from[j] by {
            assert(flattened(whole).subrange(at, at + from.len())[j] == from[j]);
        }
        if from.is_prefix_of(s) {
            let tail = s.skip(from.len() as int);
            let rest = replaced(tail, from, to);
            if at < to.len() {
                assert(!mask[at]);
            } else {
                let shifted = at - to.len();
                assert(flattened(rest).subrange(shifted, shifted + from.len()) =~= from) by {
                    assert forall|j: int| 0 <= j < from.len() implies flattened(rest)[shifted + j]
                        == #[trigger] from[j] by {
                        assert(whole[at + j] == rest[shifted + j]);
                    }
                }
                lemma_no_kept_copy(tail, from, to, shifted);
                let i = choose|i: int|
                    shifted <= i < shifted + from.len() && !#[trigger] kept(tail, from, to)[i];
                assert(mask[i + to.len()] == kept(tail, from, to)[i]);
            }
        } else if at == 0 {
            if forall|i: int| 0 <= i < from.len() ==> mask[i] {
                lemma_kept_prefix(s, from, to, from.len() as int);
                assert forall|j: int| 0 <= j < from.len() implies s[j] == #[trigger] from[j] by {
                    assert(whole[j] == s[j]);
                    assert(flattened_char(whole[0 + j]) == from[j]);
                }
                assert(from =~= s.subrange(0, from.len() as int));
            }
        } else {
            let tail = s.drop_first();
            let rest = replaced(tail, from, to);
            assert(flattened(rest).subrange(at - 1, at - 1 + from.len()) =~= from) by {
                assert forall|j: int| 0 <= j < from.len() implies flattened(rest)[at - 1 + j]
                    == #[trigger] from[j] by {
                    assert(whole[at + j] == rest[at - 1 + j]);
                }
            }
            lemma_no_kept_copy(tail, from, to, at - 1);
            let i = choose|i: int|
                at - 1 <= i < at - 1 + from.len() && !#[trigger] kept(tail, from, to)[i];
            assert(mask[i + 1] == kept(tail, from, to)[i]);
        }
    }
}

/// A character that is not kept is a line break or lies in a copy of `to`.
proof fn lemma_not_kept(s: Seq<char>, from: Seq<char>, to: Seq<char>, i: int) -> (start: int)
    requires
        from.len() > 0,
        0 <= i < replaced(s, from, to).len(),
        !kept(s, from, to)[i],
    ensures
        is_line_break(replaced(s, from, to)[i]) || {
            &&& start <= i < start + to.len()
            &&& occurs_at(to, replaced(s, from, to), start)
        },
    decreases s.len(),
{
    let whole = replaced(s, from, to);
    lemma_kept_len(s, from, to);
    if from.is_prefix_of(s) {
        let tail = s.skip(from.len() as int);
        let rest = replaced(tail, from, to);
        if i < to.len() {
            assert(whole.subrange(0, to.len() as int) =~= to);
            0
        } else {
            let before = lemma_not_kept(tail, from, to, i - to.len());
            let start = before + to.len();
            if occurs_at(to, rest, before) {
                assert(whole.subrange(start, start + to.len()) =~= rest.subrange(
                    before,
                    before + to.len(),
                ));
            }
            start
        }
    } else if i == 0 {
        0
    } else {
        let tail = s.drop_first();
        let rest = replaced(tail, from, to);
        let before = lemma_not_kept(tail, from, to, i - 1);
        let start = before + 1;
        if occurs_at(to, rest, before) {
            assert(whole.subrange(start, start + to.len()) =~= rest.subrange(
                before,
                before + to.len(),
            ));
        }
        start
    }
}

/// Every copy of a credential in the excerpt of a body, if there is one at all,
/// takes at least one of its characters from a placeholder or from a flattened
/// line break: no copy that stood in the body survives.
pub proof fn law_reflected_credential_is_removed(body: Seq<char>, api_key: Seq<char>, at: int)
    requires
        api_key.len() > 0,
        occurs_at(api_key, error_excerpt(body, api_key), at),
    ensures
        exists|i: int|
            at <= i < at + api_key.len() && !#[trigger] kept(
                body,
                api_key,
                REDACTION_PLACEHOLDER@,
            )[i],
{
    let to = REDACTION_PLACEHOLDER@;
    reveal_strlit("[REDACTED]");
    let flat = flattened(replaced(body, api_key, to));
    assert(flat.subrange(at, at + api_key.len()) =~= error_excerpt(body, api_key).subrange(
        at,
        at + api_key.len(),
    ));
    lemma_no_kept_copy(body, api_key, to, at);
}

/// The excerpt never holds a credential that cannot share characters with the
/// placeholder and has no space in it. A credential with a line break, or one that
/// is longer than an excerpt, is never held either.
pub proof fn law_excerpt_hides_credential(body: Seq<char>, api_key: Seq<char>, at: int)
    requires
        ({
            ||| api_key.len() > MAX_EXCERPT_CHARS
            ||| exists|i: int| 0 <= i < api_key.len() && is_line_break(#[trigger] api_key[i])
            ||| !api_key.contains(' ') && !can_overlap(api_key, REDACTION_PLACEHOLDER@)
        }),
    ensures
        !occurs_at(api_key, error_excerpt(body, api_key), at),
{
    let to = REDACTION_PLACEHOLDER@;
    let excerpt = error_excerpt(body, api_key);
    let whole = replaced(body, api_key, to);
    reveal_strlit("[REDACTED]");
    if occurs_at(api_key, excerpt, at) {
        assert forall|j: int| 0 <= j < api_key.len() implies #[trigger] api_key[j]
            == flattened_char(whole[at + j]) by {
            assert(excerpt.subrange(at, at + api_key.len())[j] == api_key[j]);
        }
        if api_key.len() == 0 {
            assert(agrees_at(api_key, to, 1));
        } else if !api_key.contains(' ') && !can_overlap(api_key, to) {
            law_reflected_credential_is_removed(body, api_key, at);
            let i = choose|i: int|
                at <= i < at + api_key.len() && !#[trigger] kept(body, api_key, to)[i];
            let start = lemma_not_kept(body, api_key, to, i);
            assert(api_key[i - at] == flattened_char(whole[at + (i - at)]));
            if !is_line_break(whole[i]) {
                let shift = at - start;
                assert forall|j: int|
                    0 <= j < api_key.len() && 0 <= j + shift < to.len() implies #[trigger] api_key[j]
                    == to[j + shift] by {
                    assert(whole.subrange(start, start + to.len())[j + shift] == to[j + shift]);
                    assert(whole[at + j] == to[j + shift]);
                }
                assert(agrees_at(api_key, to, shift));
            }
        }
    }
}

/// An excerpt holds at most `MAX_EXCERPT_CHARS` characters, and no line break.
pub proof fn law_excerpt_is_one_short_line(body: Seq<char>, api_key: Seq<char>)
    ensures
        error_excerpt(body, api_key).len() <= MAX_EXCERPT_CHARS,
        forall|i: int|
            0 <= i < error_excerpt(body, api_key).len() ==> !is_line_break(
                #[trigger] error_excerpt(body, api_key)[i],
            ),
{
}

proof fn lemma_replaced_without_copy(s: Seq<char>, from: Seq<char>, to: Seq<char>)
    requires
        from.len() > 0,
        forall|at: int| !#[trigger] occurs_at(from, s, at),
    ensures
        replaced(s, from, to) == s,
    decreases s.len(),
{
    if s.len() > 0 {
        if from.is_prefix_of(s) {
            assert(occurs_at(from, s, 0));
        }
        let tail = s.drop_first();
        assert forall|at: int| !#[trigger] occurs_at(from, tail, at) by {
            if occurs_at(from, tail, at) {
                assert(s.subrange(at + 1, at + 1 + from.len()) =~= tail.subrange(
                    at,
                    at + from.len(),
                ));
                assert(occurs_at(from, s, at + 1));
            }
        }
        lemma_replaced_without_copy(tail, from, to);
        assert(seq![s.first()] + tail =~= s);
    }
}

/// A body that does not reflect the credential is shown as it is, but for its line
/// breaks and its length.
pub proof fn law_excerpt_keeps_other_text(body: Seq<char>, api_key: Seq<char>)
    requires
        api_key.len() > 0,
        forall|at: int| !#[trigger] occurs_at(api_key, body, at),
    ensures
        error_excerpt(body, api_key) == clipped(flattened(body), MAX_EXCERPT_CHARS as int),
{
    lemma_replaced_without_copy(body, api_key, REDACTION_PLACEHOLDER@);
}

/// The excerpt of a body that does not reflect the credential is the body, character for
/// character: only a carriage return or a line feed becomes a space, and only what comes
/// after 512 characters is left out.
pub proof fn law_excerpt_changes_nothing_but_line_breaks(body: Seq<char>, api_key: Seq<char>)
    requires
        api_key.len() > 0,
        forall|at: int| !#[trigger] occurs_at(api_key, body, at),
    ensures
        error_excerpt(body, api_key).len() == if body.len() <= 512 {
            body.len()
        } else {
            512
        },
        forall|i: int|
            0 <= i < error_excerpt(body, api_key).len() ==> #[trigger] error_excerpt(
                body,
                api_key,
            )[i] == if body[i] == '\r' || body[i] == '\n' {
                ' '
            } else {
                body[i]
            },
{
    lemma_replaced_without_copy(body, api_key, REDACTION_PLACEHOLDER@);
}

proof fn lemma_replaced_first_copy(
    before: Seq<char>,
    after: Seq<char>,
    from: Seq<char>,
    to: Seq<char>,
)
    requires
        from.len() > 0,
        forall|at: int|
            0 <= at < before.len() ==> !#[trigger] occurs_at(from, before + from + after, at),
    ensures
        replaced(before + from + after, from, to) == before + to + replaced(after, from, to),
    decreases before.len(),
{
    let whole = before + from + after;
    if before.len() == 0 {
        assert(from =~= whole.subrange(0, from.len() as int));
        assert(whole.skip(from.len() as int) =~= after);
        assert(before + to + replaced(after, from, to) =~= to + replaced(after, from, to));
    } else {
        let rest = before.drop_first();
        if from.is_prefix_of(whole) {
            assert(occurs_at(from, whole, 0));
        }
        assert(whole.drop_first() =~= rest + from + after);
        assert forall|at: int| 0 <= at < rest.len() implies !#[trigger] occurs_at(
            from,
            rest + from + after,
            at,
        ) by {
            if occurs_at(from, rest + from + after, at) {
                assert(whole.subrange(at + 1, at + 1 + from.len()) =~= (rest + from
                    + after).subrange(at, at + from.len()));
                assert(occurs_at(from, whole, at + 1));
            }
        }
        lemma_replaced_first_copy(rest, after, from, to);
        assert(seq![whole.first()] + (rest + to + replaced(after, from, to)) =~= before + to
            + replaced(after, from, to));
    }
}

/// Where the first copy of the credential in a body stands after `before`, the excerpt is
/// `before`, the placeholder, and the excerpt of what comes after the copy, as far as 512
/// characters go. Line breaks of `before` become spaces.
pub proof fn law_excerpt_replaces_the_first_copy(
    before: Seq<char>,
    after: Seq<char>,
    api_key: Seq<char>,
)
    requires
        api_key.len() > 0,
        forall|at: int|
            0 <= at < before.len() ==> !#[trigger] occurs_at(api_key, before + api_key + after, at),
    ensures
        ({
            let shown = before.map_values(
                |c: char|
                    if c == '\r' || c == '\n' {
                        ' '
                    } else {
                        c
                    },
            ) + "[REDACTED]"@ + error_excerpt(after, api_key);
            error_excerpt(before + api_key + after, api_key) == if shown.len() <= 512 {
                shown
            } else {
                shown.take(512)
            }
        }),
{
    let to = "[REDACTED]"@;
    reveal_strlit("[REDACTED]");
    lemma_replaced_first_copy(before, after, api_key, to);
    let rest = flattened(replaced(after, api_key, to));
    let whole = flattened(replaced(before + api_key + after, api_key, to));
    let shown = before.map_values(
        |c: char|
            if c == '\r' || c == '\n' {
                ' '
            } else {
                c
            },
    ) + to + error_excerpt(after, api_key);
    assert(flattened(to) =~= to);
    assert(whole =~= flattened(before) + to + rest);
    assert(shown =~= flattened(before) + to + error_excerpt(after, api_key));
    assert(error_excerpt(before + api_key + after, api_key) =~= if shown.len() <= 512 {
        shown
    } else {
        shown.take(512)
    });
}

/// Without a credential to look for, the placeholder stands before every character of the
/// excerpt and at its end, as far as 512 characters go.
pub proof fn law_excerpt_without_a_credential(c: char, rest: Seq<char>)
    ensures
        error_excerpt(Seq::empty(), Seq::empty()) == "[REDACTED]"@,
        ({
            let shown = "[REDACTED]"@.push(
                if c == '\r' || c == '\n' {
                    ' '
                } else {
                    c
                },
            ) + error_excerpt(rest, Seq::empty());
            error_excerpt(seq![c] + rest, Seq::empty()) == if shown.len() <= 512 {
                shown
            } else {
                shown.take(512)
            }
        }),
{
    let to = "[REDACTED]"@;
    let none = Seq::<char>::empty();
    reveal_strlit("[REDACTED]");
    assert(flattened(to) =~= to);
    assert((seq![c] + rest).drop_first() =~= rest);
    let inner = flattened(interleaved(rest, to));
    let whole = flattened(interleaved(seq![c] + rest, to));
    assert(whole =~= to.push(flattened_char(c)) + inner);
    let shown = to.push(flattened_char(c)) + error_excerpt(rest, none);
    assert(error_excerpt(seq![c] + rest, none) =~= if shown.len() <= 512 {
        shown
    } else {
        shown.take(512)
    });
}

} // verus!
