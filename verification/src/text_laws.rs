//! What holds of the text functions, told by putting texts together.
use crate::text;
use vstd::prelude::*;

verus! {

/// A text contains another exactly where it is something, that text, and something.
pub proof fn law_contains_is_in_the_middle(
    before: Seq<char>,
    needle: Seq<char>,
    after: Seq<char>,
    hay: Seq<char>,
)
    ensures
        text::contains(before + needle + after, needle),
        text::contains(hay, needle) ==> exists|a: Seq<char>, b: Seq<char>|
            hay == #[trigger] (a + needle + b),
{
    let whole = before + needle + after;
    let at = before.len() as int;
    assert(whole.subrange(at, at + needle.len()) =~= needle);
    assert(text::occurs_at(whole, needle, at));
    if text::contains(hay, needle) {
        let k = choose|k: int| #[trigger] text::occurs_at(hay, needle, k);
        let a = hay.take(k);
        let b = hay.skip(k + needle.len());
        assert(hay.subrange(k, k + needle.len()) == needle);
        assert forall|i: int| 0 <= i < hay.len() implies #[trigger] hay[i] == (a + needle
            + b)[i] by {
            if k <= i < k + needle.len() {
                assert(hay.subrange(k, k + needle.len())[i - k] == hay[i]);
            }
        }
        assert(hay =~= a + needle + b);
    }
}

/// Every character is white space.
pub open spec fn blank(s: Seq<char>) -> bool {
    forall|i: int| 0 <= i < s.len() ==> text::is_space(#[trigger] s[i])
}

/// Trimming takes white space off both ends and nothing else: what is left neither
/// starts nor ends with white space.
pub proof fn law_trimmed_is_the_core(s: Seq<char>)
    ensures
        exists|a: Seq<char>, b: Seq<char>|
            blank(a) && blank(b) && s == #[trigger] (a + text::trimmed(s) + b),
        text::trimmed(s).len() > 0 ==> !text::is_space(text::trimmed(s)[0]) && !text::is_space(
            text::trimmed(s).last(),
        ),
{
    let lead = text::leading_spaces(s) as int;
    lemma_leading(s);
    let tail = s.subrange(lead, s.len() as int);
    let trail = text::trailing_spaces(tail) as int;
    lemma_trailing(tail);
    let core = text::trimmed(s);
    let a = s.take(lead);
    let b = s.skip(s.len() - trail);
    assert(core =~= s.subrange(lead, s.len() - trail));
    assert(s =~= a + core + b);
    assert forall|i: int| 0 <= i < b.len() implies text::is_space(#[trigger] b[i]) by {
        assert(b[i] == tail[tail.len() - trail + i]);
    }
    if core.len() > 0 {
        assert(tail[0] == s[lead]);
        assert(core[0] == s[lead]);
        assert(core.last() == tail[tail.len() - trail - 1]);
    }
}

proof fn lemma_leading(s: Seq<char>)
    ensures
        text::leading_spaces(s) <= s.len(),
        forall|i: int| 0 <= i < text::leading_spaces(s) ==> text::is_space(#[trigger] s[i]),
        text::leading_spaces(s) < s.len() ==> !text::is_space(s[text::leading_spaces(s) as int]),
    decreases s.len(),
{
    if s.len() > 0 && text::is_space(s[0]) {
        let rest = s.subrange(1, s.len() as int);
        lemma_leading(rest);
        let n = text::leading_spaces(rest);
        assert forall|i: int| 0 <= i < n + 1 implies text::is_space(#[trigger] s[i]) by {
            if i > 0 {
                assert(rest[i - 1] == s[i]);
            }
        }
        if n < rest.len() {
            assert(rest[n as int] == s[n as int + 1]);
        }
    }
}

proof fn lemma_trailing(s: Seq<char>)
    ensures
        text::trailing_spaces(s) <= s.len(),
        forall|i: int|
            s.len() - text::trailing_spaces(s) <= i < s.len() ==> text::is_space(#[trigger] s[i]),
        text::trailing_spaces(s) < s.len() ==> !text::is_space(
            s[s.len() - text::trailing_spaces(s) - 1],
        ),
    decreases s.len(),
{
    if s.len() > 0 && text::is_space(s.last()) {
        let rest = s.drop_last();
        lemma_trailing(rest);
        let n = text::trailing_spaces(rest);
        assert forall|i: int| s.len() - (n + 1) <= i < s.len() implies text::is_space(
            #[trigger] s[i],
        ) by {
            if i < s.len() - 1 {
                assert(rest[i] == s[i]);
            }
        }
        if n < rest.len() {
            assert(rest[rest.len() - n - 1] == s[s.len() - (n + 1) - 1]);
        }
    }
}

/// Blank, tab, line feed and carriage return are white space, as are the other
/// characters that Unicode gives that property; printable ASCII characters are not.
pub proof fn law_white_space(c: char)
    ensures
        text::is_space(' ') && text::is_space('\t') && text::is_space('\n') && text::is_space(
            '\r',
        ),
        0x21 <= c as u32 <= 0x7e ==> !text::is_space(c),
        c as u32 > 0x3000 ==> !text::is_space(c),
        text::is_space(c) <==> (9 <= c as u32 <= 13 || c as u32 == 32 || c as u32 == 133 || c as u32
            == 160 || c as u32 == 5760 || 8192 <= c as u32 <= 8202 || c as u32 == 8232 || c as u32
            == 8233 || c as u32 == 8239 || c as u32 == 8287 || c as u32 == 12288),
{
}

/// In lower case a text keeps its length, its capitals become the small letters 32
/// places on, and everything else stays.
pub proof fn law_lower_case_letters(s: Seq<char>, i: int)
    requires
        0 <= i < s.len(),
    ensures
        text::ascii_lower(s).len() == s.len(),
        65 <= s[i] as u32 <= 90 ==> text::ascii_lower(s)[i] as u32 == s[i] as u32 + 32,
        !(65 <= s[i] as u32 <= 90) ==> text::ascii_lower(s)[i] == s[i],
{
}

/// The texts put together again, with `sep` between them.
pub open spec fn joined(parts: Seq<Seq<char>>, sep: char) -> Seq<char>
    decreases parts.len(),
{
    if parts.len() == 0 {
        Seq::empty()
    } else if parts.len() == 1 {
        parts[0]
    } else {
        joined(parts.drop_last(), sep).push(sep) + parts.last()
    }
}

/// Cutting a text at a separator gives at least one piece, no piece holds the
/// separator, and the pieces with separators between them are the text again.
pub proof fn law_pieces_join_again(s: Seq<char>, sep: char)
    ensures
        text::pieces(s, sep).len() >= 1,
        joined(text::pieces(s, sep), sep) == s,
        forall|i: int|
            0 <= i < text::pieces(s, sep).len() ==> !(#[trigger] text::pieces(
                s,
                sep,
            )[i]).contains(sep),
    decreases s.len(),
{
    let all = text::pieces(s, sep);
    if s.len() == 0 {
        assert(all[0] =~= s);
    } else {
        let init = s.drop_last();
        let c = s.last();
        law_pieces_join_again(init, sep);
        let before = text::pieces(init, sep);
        let n = before.len() - 1;
        if c == sep {
            assert(all.drop_last() =~= before);
            assert(joined(all, sep) =~= init.push(sep));
            assert(init.push(c) =~= s);
        } else {
            assert(all.drop_last() =~= before.drop_last());
            assert(all.last() == before.last().push(c));
            assert forall|i: int| 0 <= i < all.len() implies !(#[trigger] all[i]).contains(
                sep,
            ) by {
                assert(!before[i].contains(sep));
                if i == n && all[i].contains(sep) {
                    let k = choose|k: int| 0 <= k < all[i].len() && all[i][k] == sep;
                    if k < before[i].len() {
                        assert(before[i][k] == sep);
                    }
                }
            }
            assert(joined(all, sep) =~= joined(before, sep).push(c));
            assert(init.push(c) =~= s);
        }
    }
}

} // verus!
