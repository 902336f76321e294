//! Name patterns, as the `regex` crate understands them.
use crate::sidecar;
use vstd::prelude::*;

verus! {

/// A compiled pattern of the `regex` crate.
#[verifier::external_type_specification]
#[verifier::external_body]
pub struct ExRegex(regex::Regex);

/// Why a pattern does not compile.
#[verifier::external_type_specification]
#[verifier::external_body]
pub struct ExRegexError(regex::Error);

/// The texts in which a compiled pattern finds a match.
pub uninterp spec fn matched_by(re: regex::Regex) -> Set<Seq<char>>;

/// The texts in which a pattern finds a match; none where it does not compile.
pub uninterp spec fn language(pattern: Seq<char>) -> Option<Set<Seq<char>>>;

/// Wraps `regex::Regex::new`. Whether a pattern compiles, and what it then
/// matches, depends on the pattern alone.
#[verifier::external_body]
fn compile(pattern: &str) -> (r: Result<regex::Regex, regex::Error>)
    ensures
        match r {
            Ok(re) => language(pattern@) == Some(matched_by(re)),
            Err(_) => language(pattern@) is None,
        },
{
    regex::Regex::new(pattern)
}

/// Wraps `regex::Regex::is_match`: whether there is a match anywhere in `text`.
#[verifier::external_body]
fn is_match(re: &regex::Regex, text: &str) -> (r: bool)
    ensures
        r == matched_by(*re).contains(text@),
{
    re.is_match(text)
}

/// The languages of some compiled patterns.
pub open spec fn all_matched(patterns: Seq<regex::Regex>) -> Seq<Set<Seq<char>>> {
    patterns.map_values(|re: regex::Regex| matched_by(re))
}

/// The languages of those patterns that compile, in order.
pub open spec fn languages(patterns: Seq<Seq<char>>) -> Seq<Set<Seq<char>>>
    decreases patterns.len(),
{
    if patterns.len() == 0 {
        Seq::empty()
    } else {
        let init = languages(patterns.drop_last());
        match language(patterns.last()) {
            Some(l) => init.push(l),
            None => init,
        }
    }
}

/// Some language holds `name`.
pub open spec fn hit(langs: Seq<Set<Seq<char>>>, name: Seq<char>) -> bool {
    exists|i: int| 0 <= i < langs.len() && (#[trigger] langs[i]).contains(name)
}

/// Compiles the patterns that can be compiled and passes over the others.
pub fn compile_all(patterns: &Vec<String>) -> (r: Vec<regex::Regex>)
    ensures
        all_matched(r@) == languages(sidecar::strings_view(patterns@)),
{
    let ghost all = sidecar::strings_view(patterns@);
    let mut compiled: Vec<regex::Regex> = Vec::new();
    let mut i: usize = 0;
    assert(all.take(0) =~= Seq::<Seq<char>>::empty());
    assert(all_matched(compiled@) =~= Seq::empty());
    while i < patterns.len()
        invariant
            i <= patterns.len(),
            all == sidecar::strings_view(patterns@),
            all_matched(compiled@) == languages(all.take(i as int)),
        decreases patterns.len() - i,
    {
        let ghost before = compiled@;
        assert(all.take(i + 1).drop_last() =~= all.take(i as int));
        match compile(patterns[i].as_str()) {
            Ok(re) => {
                compiled.push(re);
                assert(all_matched(compiled@) =~= all_matched(before).push(matched_by(re)));
            },
            Err(_) => {},
        }
        i = i + 1;
    }
    assert(all.take(all.len() as int) =~= all);
    compiled
}

/// Whether some pattern finds a match in `name`.
pub fn any_match(patterns: &Vec<regex::Regex>, name: &str) -> (r: bool)
    ensures
        r == hit(all_matched(patterns@), name@),
{
    let mut i: usize = 0;
    while i < patterns.len()
        invariant
            i <= patterns.len(),
            forall|k: int| 0 <= k < i ==> !(#[trigger] all_matched(patterns@)[k]).contains(name@),
        decreases patterns.len() - i,
    {
        assert(all_matched(patterns@)[i as int] == matched_by(patterns@[i as int]));
        if is_match(&patterns[i], name) {
            return true;
        }
        i = i + 1;
    }
    false
}

/// Without patterns nothing matches.
pub proof fn law_no_patterns_no_match(name: Seq<char>)
    ensures
        !hit(Seq::empty(), name),
        !hit(languages(Seq::empty()), name),
{
}

/// More patterns never match less.
pub proof fn law_patterns_add_up(a: Seq<Set<Seq<char>>>, b: Seq<Set<Seq<char>>>, name: Seq<char>)
    ensures
        hit(a + b, name) == (hit(a, name) || hit(b, name)),
{
    if hit(a, name) {
        let i = choose|i: int| 0 <= i < a.len() && (#[trigger] a[i]).contains(name);
        assert((a + b)[i] == a[i]);
    }
    if hit(b, name) {
        let i = choose|i: int| 0 <= i < b.len() && (#[trigger] b[i]).contains(name);
        assert((a + b)[a.len() + i] == b[i]);
    }
    if hit(a + b, name) {
        let i = choose|i: int| 0 <= i < (a + b).len() && (#[trigger] (a + b)[i]).contains(name);
        if i < a.len() {
            assert(a[i].contains(name));
        } else {
            assert(b[i - a.len()].contains(name));
        }
    }
}

} // verus!
