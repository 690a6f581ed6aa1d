use vstd::prelude::*;

verus! {

/// `s` with leading and trailing Unicode whitespace removed, exactly as
/// `str::trim` removes it. The whitespace property is Unicode-defined, so
/// the result is named rather than spelled out; it depends on the
/// characters of `s` alone.
pub uninterp spec fn trim_of(s: Seq<char>) -> Seq<char>;

/// Relies on `str::trim`: the same characters always trim to the same
/// result.
#[verifier::external_body]
pub fn trim_str(s: &str) -> (r: String)
    ensures
        r@ == trim_of(s@),
{
    s.trim().to_string()
}

} // verus!
