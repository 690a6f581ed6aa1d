use vstd::prelude::*;
use crate::roman::comic_segment;
use crate::roman::spec_segment;

verus! {

/// The site every comic page hangs off.
pub const BASE_URL: &'static str = "https://www.swordscomic.com";

/// The request path for comic `id`: the fixed prefix followed by the
/// comic's Roman-numeral segment (or `cover`).
pub open spec fn spec_comic_path(id: u32) -> Seq<char> {
    "/swords/"@ + spec_segment(id)
}

/// The full request URL for comic `id`.
pub open spec fn spec_comic_url(id: u32) -> Seq<char> {
    BASE_URL@ + spec_comic_path(id)
}

/// Build the request path for comic `id`.
pub fn comic_path(id: u32) -> (p: String)
    ensures
        p@ == spec_comic_path(id),
{
    let prefix = String::from_str("/swords/");
    let segment = comic_segment(id);
    prefix.concat(segment.as_str())
}

/// Build the full request URL for comic `id`.
pub fn comic_url(id: u32) -> (u: String)
    ensures
        u@ == spec_comic_url(id),
{
    let base = String::from_str(BASE_URL);
    let path = comic_path(id);
    base.concat(path.as_str())
}

} // verus!
