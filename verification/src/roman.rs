use vstd::prelude::*;

verus! {

/// The uppercase Roman-numeral rendering of `n`, as the `xvii` crate
/// formats it. Meaningful for `1 <= n <= 4999`, the range that crate
/// accepts; what the function yields elsewhere is never relied upon.
pub uninterp spec fn roman_upper(n: int) -> Seq<char>;

/// Relies on `xvii::Roman::new`, which accepts exactly 1..=4999, and on
/// `xvii::Roman::to_uppercase`, whose result depends on the value alone.
#[verifier::external_body]
fn roman_upper_opt(n: u16) -> (r: Option<String>)
    ensures
        r is Some <==> 1 <= n <= 4999,
        r is Some ==> r->Some_0@ == roman_upper(n as int),
{
    match xvii::Roman::new(n) {
        Ok(numeral) => Some(numeral.to_uppercase()),
        Err(_) => None,
    }
}

/// Whether `id` can be written as a Roman numeral by the formatter in use.
pub open spec fn representable(id: u32) -> bool {
    1 <= id <= 4999
}

/// The URL path segment that stands for comic `id`: its uppercase
/// Roman-numeral rendering, or the literal `cover` outside the
/// representable range.
pub open spec fn spec_segment(id: u32) -> Seq<char> {
    if representable(id) {
        roman_upper(id as int)
    } else {
        "cover"@
    }
}

/// Turn a comic number into its URL path segment.
pub fn comic_segment(id: u32) -> (s: String)
    ensures
        s@ == spec_segment(id),
{
    if 1 <= id && id <= 4999 {
        match roman_upper_opt(id as u16) {
            Some(numeral) => numeral,
            None => unreached(),
        }
    } else {
        String::from_str("cover")
    }
}

} // verus!
