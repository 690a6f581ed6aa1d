//! Fetch data for a single page of the Swords web comic.
//!
//! A comic is addressed by number; the number becomes an uppercase
//! Roman-numeral path segment (or the literal `cover` when it is out of the
//! representable range), the page is retrieved over HTTP by a thin shell
//! around this crate, and its HTML is taken apart here into a [`Comic`]
//! record: title, post date, image path and four tagged category lists.

mod comic;
mod dates;
mod dom;
mod parse;
mod roman;
mod text;
mod url;

pub use comic::Comic;
pub use comic::ComicDate;
pub use comic::FetchError;
pub use comic::views;
pub use dom::MAX_HTML_LEN;
pub use parse::category_tags;
pub use parse::category_tags_upto;
pub use parse::collect_tags;
pub use parse::extract_comic;
pub use parse::extract_ok;
pub use parse::group_elems;
pub use parse::group_label;
pub use parse::group_tags;
pub use parse::http_error;
pub use parse::is_http_error;
pub use parse::labels_present;
pub use parse::parse_response;
pub use parse::spec_extract_err;
pub use parse::TagLists;
pub use roman::comic_segment;
pub use roman::representable;
pub use roman::roman_upper;
pub use roman::spec_segment;
pub use url::comic_path;
pub use url::comic_url;
pub use url::spec_comic_path;
pub use url::spec_comic_url;
pub use url::BASE_URL;
