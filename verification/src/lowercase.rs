//! Lower case.
use crate::text;
use vstd::prelude::*;
use vstd::string::*;

verus! {

/// `s` in lower case, as Unicode defines it.
pub uninterp spec fn lowered(s: Seq<char>) -> Seq<char>;

/// Wraps `str::to_lowercase`. The result depends on the text alone; on ASCII
/// text it turns the letters `A` to `Z` into `a` to `z` and keeps the rest.
#[verifier::external_body]
fn to_lowercase(s: &str) -> (r: String)
    ensures
        r@ == lowered(s@),
        is_ascii(s) ==> r@ == text::ascii_lower(s@),
{
    s.to_lowercase()
}

/// `s` in lower case.
pub fn lower(s: &str) -> (r: String)
    ensures
        r@ == lowered(s@),
        is_ascii(s) ==> lowered(s@) == text::ascii_lower(s@),
{
    to_lowercase(s)
}

} // verus!
