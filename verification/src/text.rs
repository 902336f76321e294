//! Text helpers over the characters of a string.
use vstd::prelude::*;
use vstd::string::*;

verus! {

/// `needle` occurs in `hay` at position `at`.
pub open spec fn occurs_at(hay: Seq<char>, needle: Seq<char>, at: int) -> bool {
    0 <= at && at + needle.len() <= hay.len() && hay.subrange(at, at + needle.len()) == needle
}

/// `needle` occurs somewhere in `hay`.
pub open spec fn contains(hay: Seq<char>, needle: Seq<char>) -> bool {
    exists|at: int| #[trigger] occurs_at(hay, needle, at)
}

/// Unicode white space.
pub open spec fn is_space(c: char) -> bool {
    let x = c as u32;
    ||| 0x09 <= x <= 0x0d
    ||| x == 0x20
    ||| x == 0x85
    ||| x == 0xa0
    ||| x == 0x1680
    ||| 0x2000 <= x <= 0x200a
    ||| x == 0x2028
    ||| x == 0x2029
    ||| x == 0x202f
    ||| x == 0x205f
    ||| x == 0x3000
}

/// Number of white-space characters that `s` starts with.
pub open spec fn leading_spaces(s: Seq<char>) -> nat
    decreases s.len(),
{
    if s.len() == 0 || !is_space(s[0]) {
        0
    } else {
        1 + leading_spaces(s.subrange(1, s.len() as int))
    }
}

/// Number of white-space characters that `s` ends with.
pub open spec fn trailing_spaces(s: Seq<char>) -> nat
    decreases s.len(),
{
    if s.len() == 0 || !is_space(s.last()) {
        0
    } else {
        1 + trailing_spaces(s.drop_last())
    }
}

/// `s` without leading and trailing white space.
pub open spec fn trimmed(s: Seq<char>) -> Seq<char> {
    let tail = s.subrange(leading_spaces(s) as int, s.len() as int);
    tail.subrange(0, tail.len() - trailing_spaces(tail))
}

/// Upper-case ASCII letters become lower-case, everything else stays.
pub open spec fn lower_char(c: char) -> char {
    if 'A' <= c && c <= 'Z' {
        ((c as u32 + 32) as u32) as char
    } else {
        c
    }
}

/// `s` with every ASCII letter in lower case.
pub open spec fn ascii_lower(s: Seq<char>) -> Seq<char> {
    s.map_values(|c: char| lower_char(c))
}

/// The pieces of `s` between the occurrences of `sep`; always at least one.
pub open spec fn pieces(s: Seq<char>, sep: char) -> Seq<Seq<char>>
    decreases s.len(),
{
    if s.len() == 0 {
        seq![Seq::<char>::empty()]
    } else {
        let init = pieces(s.drop_last(), sep);
        if s.last() == sep {
            init.push(Seq::empty())
        } else {
            init.update(init.len() - 1, init.last().push(s.last()))
        }
    }
}

/// The characters of a string.
pub fn chars_of(s: &str) -> (r: Vec<char>)
    ensures
        r@ == s@,
{
    let mut v: Vec<char> = Vec::new();
    for c in it: s.chars()
        invariant
            it.seq() == s@,
            v@ == s@.take(it.index() as int),
    {
        v.push(c);
    }
    v
}

/// Whether two strings hold the same characters.
pub fn same(a: &str, b: &str) -> (r: bool)
    ensures
        r == (a@ == b@),
{
    a.to_owned() == b.to_owned()
}

/// Whether `needle` occurs in `hay`.
pub fn has(hay: &str, needle: &str) -> (r: bool)
    ensures
        r == contains(hay@, needle@),
{
    let h: Vec<char> = chars_of(hay);
    let n: Vec<char> = chars_of(needle);
    if n.len() > h.len() {
        return false;
    }
    let mut at: usize = 0;
    while at <= h.len() - n.len()
        invariant
            h@ == hay@,
            n@ == needle@,
            n.len() <= h.len(),
            at <= h.len() - n.len() + 1,
            forall|k: int| 0 <= k < at ==> !occurs_at(h@, n@, k),
        decreases h.len() - n.len() + 1 - at,
    {
        let mut j: usize = 0;
        while j < n.len() && h[at + j] == n[j]
            invariant
                n.len() <= h.len(),
                at <= h.len() - n.len(),
                j <= n.len(),
                forall|k: int| 0 <= k < j ==> h@[at + k] == n@[k],
            decreases n.len() - j,
        {
            j = j + 1;
        }
        if j == n.len() {
            assert(h@.subrange(at as int, at + n@.len()) =~= n@);
            assert(occurs_at(h@, n@, at as int));
            return true;
        }
        assert(!occurs_at(h@, n@, at as int)) by {
            if occurs_at(h@, n@, at as int) {
                assert(h@.subrange(at as int, at + n@.len())[j as int] == n@[j as int]);
            }
        }
        if at == h.len() - n.len() {
            return false;
        }
        at = at + 1;
    }
    false
}

/// Whether a character is Unicode white space.
pub fn space(c: char) -> (r: bool)
    ensures
        r == is_space(c),
{
    let x: u32 = c as u32;
    (0x09 <= x && x <= 0x0d) || x == 0x20 || x == 0x85 || x == 0xa0 || x == 0x1680 || (0x2000 <= x
        && x <= 0x200a) || x == 0x2028 || x == 0x2029 || x == 0x202f || x == 0x205f || x == 0x3000
}

/// `s` without leading and trailing white space.
pub fn trim(s: &str) -> (r: String)
    ensures
        r@ == trimmed(s@),
{
    let c: Vec<char> = chars_of(s);
    let mut lo: usize = 0;
    proof {
        assert(c@.subrange(0, c@.len() as int) =~= c@);
    }
    while lo < c.len() && space(c[lo])
        invariant
            c@ == s@,
            lo <= c.len(),
            leading_spaces(s@) == lo + leading_spaces(s@.subrange(lo as int, s@.len() as int)),
        decreases c.len() - lo,
    {
        proof {
            let rest = s@.subrange(lo as int, s@.len() as int);
            assert(rest[0] == c@[lo as int]);
            assert(rest.subrange(1, rest.len() as int) =~= s@.subrange(lo + 1, s@.len() as int));
        }
        lo = lo + 1;
    }
    let ghost tail = s@.subrange(lo as int, s@.len() as int);
    proof {
        if lo < c.len() {
            assert(tail[0] == c@[lo as int]);
        }
        assert(leading_spaces(tail) == 0);
        assert(tail.subrange(0, tail.len() as int) =~= tail);
    }
    let mut hi: usize = c.len();
    while hi > lo && space(c[hi - 1])
        invariant
            c@ == s@,
            lo <= hi <= c.len(),
            tail == s@.subrange(lo as int, s@.len() as int),
            trailing_spaces(tail) == (c.len() - hi) + trailing_spaces(
                tail.subrange(0, hi - lo),
            ),
        decreases hi - lo,
    {
        proof {
            let rest = tail.subrange(0, hi - lo);
            assert(rest.last() == c@[hi - 1]);
            assert(rest.drop_last() =~= tail.subrange(0, hi - 1 - lo));
        }
        hi = hi - 1;
    }
    proof {
        let rest = tail.subrange(0, hi - lo);
        if hi > lo {
            assert(rest.last() == c@[hi - 1]);
        }
        assert(trailing_spaces(rest) == 0);
        assert(s@.subrange(lo as int, hi as int) =~= tail.subrange(0, hi - lo));
    }
    s.substring_char(lo, hi).to_owned()
}

/// Whether `s`, with its ASCII letters in lower case, is `key`.
pub fn lower_is(s: &str, key: &str) -> (r: bool)
    ensures
        r == (ascii_lower(s@) == key@),
{
    let c: Vec<char> = chars_of(s);
    let k: Vec<char> = chars_of(key);
    if c.len() != k.len() {
        assert(ascii_lower(s@).len() != key@.len());
        return false;
    }
    let mut i: usize = 0;
    while i < c.len()
        invariant
            c@ == s@,
            k@ == key@,
            c.len() == k.len(),
            i <= c.len(),
            forall|j: int| 0 <= j < i ==> lower_char(c@[j]) == k@[j],
        decreases c.len() - i,
    {
        if lower(c[i]) != k[i] {
            assert(ascii_lower(s@)[i as int] != key@[i as int]);
            return false;
        }
        i = i + 1;
    }
    assert(ascii_lower(s@) =~= key@);
    true
}

/// One character in lower case, if it is an ASCII letter.
pub fn lower(c: char) -> (r: char)
    ensures
        r == lower_char(c),
{
    if 'A' <= c && c <= 'Z' {
        (c as u8 + 32u8) as char
    } else {
        c
    }
}

/// Cuts `s` at every occurrence of `sep`.
pub fn split(s: &str, sep: char) -> (r: Vec<String>)
    ensures
        r@.len() == pieces(s@, sep).len(),
        forall|i: int| 0 <= i < r@.len() ==> (#[trigger] r@[i])@ == pieces(s@, sep)[i],
{
    let c: Vec<char> = chars_of(s);
    let mut out: Vec<String> = Vec::new();
    let mut from: usize = 0;
    let mut i: usize = 0;
    proof {
        assert(pieces(s@.take(0), sep) =~= seq![Seq::<char>::empty()]);
        assert(s@.subrange(0, 0) =~= Seq::<char>::empty());
    }
    while i < c.len()
        invariant
            c@ == s@,
            from <= i <= c.len(),
            pieces(s@.take(i as int), sep).len() == out.len() + 1,
            pieces(s@.take(i as int), sep).last() == s@.subrange(from as int, i as int),
            forall|k: int|
                0 <= k < out.len() ==> (#[trigger] out@[k])@ == pieces(s@.take(i as int), sep)[k],
        decreases c.len() - i,
    {
        let ghost old_pieces = pieces(s@.take(i as int), sep);
        proof {
            assert(s@.take(i + 1).drop_last() =~= s@.take(i as int));
            assert(s@.take(i + 1).last() == c@[i as int]);
        }
        if c[i] == sep {
            let piece: String = s.substring_char(from, i).to_owned();
            out.push(piece);
            from = i + 1;
            assert(s@.subrange(from as int, i + 1) =~= Seq::<char>::empty());
        } else {
            assert(s@.subrange(from as int, i + 1) =~= s@.subrange(from as int, i as int).push(
                c@[i as int],
            ));
        }
        i = i + 1;
    }
    assert(s@.take(c@.len() as int) =~= s@);
    out.push(s.substring_char(from, c.len()).to_owned());
    out
}

} // verus!
