use vstd::prelude::*;
use crate::comic::Comic;
use crate::comic::FetchError;
use crate::comic::views;
use crate::dates::date_format;
use crate::dates::date_of;
use crate::dates::parse_post_date;
use crate::dom::attr_by_id;
use crate::dom::elems_of_class;
use crate::dom::find_attr_by_id;
use crate::dom::find_elems_of_class;
use crate::dom::find_first_text_by_name_in;
use crate::dom::find_text_by_id;
use crate::dom::find_texts_by_class_in;
use crate::dom::first_text_by_name_in;
use crate::dom::text_by_id;
use crate::dom::texts_by_class_in;
use crate::dom::MAX_HTML_LEN;
use crate::text::trim_of;
use crate::text::trim_str;

verus! {

/// The node indices of the page's tag groups, in document order.
pub open spec fn group_elems(html: Seq<char>) -> Seq<int> {
    elems_of_class(html, "tag-group"@)
}

/// The category label of the tag group at `node`: the text of its first
/// paragraph element, when it has one.
pub open spec fn group_label(html: Seq<char>, node: int) -> Option<Seq<char>> {
    first_text_by_name_in(html, node, "p"@)
}

/// The trimmed texts of the tag elements inside the tag group at `node`,
/// in document order.
pub open spec fn group_tags(html: Seq<char>, node: int) -> Seq<Seq<char>> {
    texts_by_class_in(html, node, "tag"@).map_values(|t: Seq<char>| trim_of(t))
}

/// Every tag group on the page carries a category label.
pub open spec fn labels_present(html: Seq<char>) -> bool {
    forall|i: int|
        0 <= i < group_elems(html).len() ==> group_label(
            html,
            #[trigger] group_elems(html)[i],
        ) is Some
}

/// The tags of the groups among the first `k` whose label is exactly
/// `label`, group after group in document order, trimmed, in document
/// order within each group.
pub open spec fn category_tags_upto(html: Seq<char>, label: Seq<char>, k: int) -> Seq<Seq<char>>
    decreases k,
{
    if k <= 0 {
        Seq::empty()
    } else {
        let node = group_elems(html)[k - 1];
        let prev = category_tags_upto(html, label, k - 1);
        if group_label(html, node) == Some(label) {
            prev + group_tags(html, node)
        } else {
            prev
        }
    }
}

/// The full tag list of the category labelled `label`.
pub open spec fn category_tags(html: Seq<char>, label: Seq<char>) -> Seq<Seq<char>> {
    category_tags_upto(html, label, group_elems(html).len() as int)
}

/// The four category lists of a page, still unassembled.
pub struct TagLists {
    pub characters: Vec<String>,
    pub locations: Vec<String>,
    pub creatures: Vec<String>,
    pub swords: Vec<String>,
}

/// Compare two string slices by their characters.
fn str_eq(a: &str, b: &str) -> (r: bool)
    ensures
        r == (a@ == b@),
{
    let sa = String::from_str(a);
    let sb = String::from_str(b);
    sa == sb
}

/// Push the trimmed form of every text in `tags` onto `dst`, in order.
fn append_trimmed(dst: &mut Vec<String>, tags: &Vec<String>)
    ensures
        views(final(dst)@) == views(old(dst)@) + views(tags@).map_values(
            |t: Seq<char>| trim_of(t),
        ),
{
    let ghost goal = views(tags@).map_values(|t: Seq<char>| trim_of(t));
    let mut j: usize = 0;
    while j < tags.len()
        invariant
            j <= tags.len(),
            goal == views(tags@).map_values(|t: Seq<char>| trim_of(t)),
            views(dst@) == views(old(dst)@) + goal.subrange(0, j as int),
        decreases tags.len() - j,
    {
        let trimmed = trim_str(tags[j].as_str());
        proof {
            assert(views(dst@).push(trimmed@) =~= views(old(dst)@) + goal.subrange(
                0,
                j + 1 as int,
            ));
        }
        dst.push(trimmed);
        proof {
            assert(views(dst@) =~= views(dst@).drop_last().push(trimmed@));
        }
        j += 1;
    }
    proof {
        assert(goal.subrange(0, tags@.len() as int) =~= goal);
    }
}

/// Walk the page's tag groups in document order and sort each group's
/// trimmed tags into the category its label names; a group with an
/// unrecognized label is silently ignored. A group without a label
/// element ends the walk with a missing-element error.
pub fn collect_tags(html: &str) -> (r: Result<TagLists, FetchError>)
    requires
        html@.len() < MAX_HTML_LEN,
    ensures
        r is Ok <==> labels_present(html@),
        r is Err ==> r->Err_0 == FetchError::MissingElement,
        r is Ok ==> {
            let t = r->Ok_0;
            &&& views(t.characters@) == category_tags(html@, "Characters:"@)
            &&& views(t.locations@) == category_tags(html@, "Locations:"@)
            &&& views(t.creatures@) == category_tags(html@, "Creatures:"@)
            &&& views(t.swords@) == category_tags(html@, "Swords:"@)
        },
{
    let groups = find_elems_of_class(html, "tag-group");
    let mut characters: Vec<String> = Vec::new();
    let mut locations: Vec<String> = Vec::new();
    let mut creatures: Vec<String> = Vec::new();
    let mut swords: Vec<String> = Vec::new();
    let mut i: usize = 0;
    while i < groups.len()
        invariant
            i <= groups.len(),
            html@.len() < MAX_HTML_LEN,
            groups@.map_values(|u: usize| u as int) == group_elems(html@),
            forall|k: int|
                0 <= k < i ==> group_label(html@, #[trigger] group_elems(html@)[k]) is Some,
            views(characters@) == category_tags_upto(html@, "Characters:"@, i as int),
            views(locations@) == category_tags_upto(html@, "Locations:"@, i as int),
            views(creatures@) == category_tags_upto(html@, "Creatures:"@, i as int),
            views(swords@) == category_tags_upto(html@, "Swords:"@, i as int),
        decreases groups.len() - i,
    {
        let node = groups[i];
        proof {
            assert(group_elems(html@)[i as int] == groups@.map_values(|u: usize| u as int)[i as int]);
        }
        let label = match find_first_text_by_name_in(html, node, "p") {
            Some(label) => label,
            None => {
                return Err(FetchError::MissingElement);
            },
        };
        let tags = find_texts_by_class_in(html, node, "tag");
        if str_eq(label.as_str(), "Characters:") {
            append_trimmed(&mut characters, &tags);
        }
        if str_eq(label.as_str(), "Locations:") {
            append_trimmed(&mut locations, &tags);
        }
        if str_eq(label.as_str(), "Creatures:") {
            append_trimmed(&mut creatures, &tags);
        }
        if str_eq(label.as_str(), "Swords:") {
            append_trimmed(&mut swords, &tags);
        }
        i += 1;
    }
    Ok(TagLists { characters, locations, creatures, swords })
}

/// The error that extraction reports on `html`, or `None` when a complete
/// record is owed. The order of the tests is the order the page is read
/// in: title found, title non-empty once trimmed, date text, date format,
/// image element, image attribute, then the tag-group labels. A record's
/// title is never empty, so a title element holding only whitespace
/// counts as missing.
pub open spec fn spec_extract_err(html: Seq<char>) -> Option<FetchError> {
    if text_by_id(html, "comic-title"@) is None {
        Some(FetchError::MissingElement)
    } else if trim_of(text_by_id(html, "comic-title"@)->Some_0).len() == 0 {
        Some(FetchError::MissingElement)
    } else if text_by_id(html, "comic-post-date"@) is None {
        Some(FetchError::MissingElement)
    } else if date_of(text_by_id(html, "comic-post-date"@)->Some_0, date_format()) is None {
        Some(FetchError::DateFormat)
    } else if attr_by_id(html, "comic-image"@, "src"@) is None {
        Some(FetchError::MissingElement)
    } else if attr_by_id(html, "comic-image"@, "src"@)->Some_0 is None {
        Some(FetchError::MissingAttribute)
    } else if !labels_present(html) {
        Some(FetchError::MissingElement)
    } else {
        None
    }
}

/// What a successfully extracted record holds: the requested number, the
/// trimmed title text, the parsed post date, the image source, and the
/// four category lists read off the page's tag groups.
pub open spec fn extract_ok(id: u32, html: Seq<char>, c: Comic) -> bool {
    &&& c.id == id
    &&& text_by_id(html, "comic-title"@) is Some
    &&& c.title@ == trim_of(text_by_id(html, "comic-title"@)->Some_0)
    &&& c.title@.len() > 0
    &&& text_by_id(html, "comic-post-date"@) is Some
    &&& date_of(text_by_id(html, "comic-post-date"@)->Some_0, date_format()) == Some(
        (c.date.year as int, c.date.month as int, c.date.day as int),
    )
    &&& c.date.wf()
    &&& attr_by_id(html, "comic-image"@, "src"@) == Some(Some(c.image@))
    &&& labels_present(html)
    &&& views(c.characters@) == category_tags(html, "Characters:"@)
    &&& views(c.locations@) == category_tags(html, "Locations:"@)
    &&& views(c.creatures@) == category_tags(html, "Creatures:"@)
    &&& views(c.swords@) == category_tags(html, "Swords:"@)
}

/// Take a comic page apart into a complete record, or report the first
/// thing wrong with it. No partial record ever leaves this function.
pub fn extract_comic(id: u32, html: &str) -> (r: Result<Comic, FetchError>)
    requires
        html@.len() < MAX_HTML_LEN,
    ensures
        r is Ok <==> spec_extract_err(html@) is None,
        r is Err ==> Some(r->Err_0) == spec_extract_err(html@),
        r is Ok ==> extract_ok(id, html@, r->Ok_0),
{
    let title_text = match find_text_by_id(html, "comic-title") {
        Some(t) => t,
        None => {
            return Err(FetchError::MissingElement);
        },
    };
    let title = trim_str(title_text.as_str());
    if title.as_str().is_empty() {
        return Err(FetchError::MissingElement);
    }
    let date_text = match find_text_by_id(html, "comic-post-date") {
        Some(t) => t,
        None => {
            return Err(FetchError::MissingElement);
        },
    };
    let date = match parse_post_date(date_text.as_str()) {
        Some(d) => d,
        None => {
            return Err(FetchError::DateFormat);
        },
    };
    let image = match find_attr_by_id(html, "comic-image", "src") {
        Some(Some(v)) => v,
        Some(None) => {
            return Err(FetchError::MissingAttribute);
        },
        None => {
            return Err(FetchError::MissingElement);
        },
    };
    let tags = match collect_tags(html) {
        Ok(t) => t,
        Err(e) => {
            return Err(e);
        },
    };
    Ok(
        Comic {
            id,
            title,
            date,
            image,
            characters: tags.characters,
            locations: tags.locations,
            creatures: tags.creatures,
            swords: tags.swords,
        },
    )
}

/// A response status that ends the fetch: a client or server error.
pub open spec fn http_error(status: u16) -> bool {
    400 <= status < 600
}

/// Decide whether a response status ends the fetch by itself.
pub fn is_http_error(status: u16) -> (r: bool)
    ensures
        r == http_error(status),
{
    400 <= status && status < 600
}

/// Turn one HTTP response — status and body — into a comic record. A
/// client or server error status fails the fetch by itself, before the
/// body is looked at; otherwise the body is taken apart as a comic page.
pub fn parse_response(id: u32, status: u16, body: &str) -> (r: Result<Comic, FetchError>)
    requires
        body@.len() < MAX_HTML_LEN,
    ensures
        http_error(status) ==> r == Err::<Comic, FetchError>(FetchError::HttpStatus(status)),
        !http_error(status) ==> {
            &&& r is Ok <==> spec_extract_err(body@) is None
            &&& r is Err ==> Some(r->Err_0) == spec_extract_err(body@)
            &&& r is Ok ==> extract_ok(id, body@, r->Ok_0)
        },
{
    if 400 <= status && status < 600 {
        return Err(FetchError::HttpStatus(status));
    }
    extract_comic(id, body)
}

} // verus!
