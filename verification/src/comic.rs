use vstd::prelude::*;

verus! {

/// A calendar date held as plain year, month and day numbers.
///
/// The month ranges over 1..=12 and the day over 1..=31 whenever the value
/// was produced by parsing a post date.
#[derive(Clone, Copy, Debug, PartialEq, Eq, Structural)]
pub struct ComicDate {
    pub year: i32,
    pub month: u32,
    pub day: u32,
}

impl ComicDate {
    /// The month and day numbers lie in their calendar ranges.
    pub open spec fn wf(self) -> bool {
        &&& 1 <= self.month <= 12
        &&& 1 <= self.day <= 31
    }
}

/// One comic page: the requested number together with everything extracted
/// from its page. Built once per fetch and immutable afterwards.
#[derive(Debug)]
pub struct Comic {
    pub id: u32,
    pub title: String,
    pub date: ComicDate,
    pub image: String,
    pub characters: Vec<String>,
    pub locations: Vec<String>,
    pub creatures: Vec<String>,
    pub swords: Vec<String>,
}

/// Everything that can end a fetch early. A fetch either returns a complete
/// `Comic` or exactly one of these; there is no partial result and no retry.
#[derive(Clone, Copy, Debug, PartialEq, Eq, Structural)]
pub enum FetchError {
    /// The connection or the request itself failed.
    Transport,
    /// The response carried a client or server error status (4xx or 5xx).
    HttpStatus(u16),
    /// A required element of the page was absent.
    MissingElement,
    /// A required attribute was absent on an element that was found.
    MissingAttribute,
    /// The post date text did not match the expected format.
    DateFormat,
}

/// The views of a sequence of strings, one per element.
pub open spec fn views(ss: Seq<String>) -> Seq<Seq<char>> {
    ss.map_values(|s: String| s@)
}

} // verus!
