use ruswords::extract_comic;
use ruswords::parse_response;
use ruswords::ComicDate;
use ruswords::FetchError;

fn fixture() -> &'static str {
    "<html><head></head><body>\
     <h1 id=\"comic-title\">Test Comic</h1>\
     <span id=\"comic-post-date\">January 5, 2015</span>\
     <img id=\"comic-image\" src=\"/img/x.png\">\
     <div class=\"tag-group\"><p>Characters:</p><span class=\"tag\">Alice</span></div>\
     <div class=\"tag-group\"><p>Swords:</p><span class=\"tag\">Excalibur</span></div>\
     </body></html>"
}

#[test]
fn well_formed_fixture_yields_full_record() {
    let comic = parse_response(7, 200, fixture()).unwrap();
    assert_eq!(comic.id, 7);
    assert_eq!(comic.title, "Test Comic");
    assert_eq!(comic.date, ComicDate { year: 2015, month: 1, day: 5 });
    assert_eq!(comic.image, "/img/x.png");
    assert_eq!(comic.characters, vec!["Alice".to_string()]);
    assert_eq!(comic.swords, vec!["Excalibur".to_string()]);
    assert!(comic.locations.is_empty());
    assert!(comic.creatures.is_empty());
}

#[test]
fn missing_title_is_missing_element() {
    let html = "<html><body>\
        <span id=\"comic-post-date\">January 5, 2015</span>\
        <img id=\"comic-image\" src=\"/img/x.png\">\
        </body></html>";
    assert_eq!(extract_comic(1, html).unwrap_err(), FetchError::MissingElement);
}

#[test]
fn empty_page_is_missing_element() {
    assert_eq!(extract_comic(1, "").unwrap_err(), FetchError::MissingElement);
}

#[test]
fn whitespace_only_title_is_missing_element() {
    let html = "<html><body>\
        <h1 id=\"comic-title\">   </h1>\
        <span id=\"comic-post-date\">January 5, 2015</span>\
        <img id=\"comic-image\" src=\"/img/x.png\">\
        </body></html>";
    assert_eq!(extract_comic(1, html).unwrap_err(), FetchError::MissingElement);
}

#[test]
fn empty_title_is_missing_element() {
    let html = "<html><body>\
        <h1 id=\"comic-title\"></h1>\
        <span id=\"comic-post-date\">January 5, 2015</span>\
        <img id=\"comic-image\" src=\"/img/x.png\">\
        </body></html>";
    assert_eq!(extract_comic(1, html).unwrap_err(), FetchError::MissingElement);
}

#[test]
fn bad_date_is_date_format_error() {
    let html = "<html><body>\
        <h1 id=\"comic-title\">Test Comic</h1>\
        <span id=\"comic-post-date\">13/13/2020</span>\
        <img id=\"comic-image\" src=\"/img/x.png\">\
        </body></html>";
    assert_eq!(extract_comic(1, html).unwrap_err(), FetchError::DateFormat);
}

#[test]
fn error_status_fails_before_parsing() {
    // even a body that would itself fail parsing is never looked at
    assert_eq!(parse_response(2, 404, "no comic here").unwrap_err(), FetchError::HttpStatus(404));
    assert_eq!(parse_response(2, 404, fixture()).unwrap_err(), FetchError::HttpStatus(404));
    assert_eq!(parse_response(2, 500, fixture()).unwrap_err(), FetchError::HttpStatus(500));
}

#[test]
fn non_error_status_parses_body() {
    assert!(parse_response(2, 200, fixture()).is_ok());
    assert!(parse_response(2, 304, fixture()).is_ok());
}

#[test]
fn tag_text_is_trimmed() {
    let html = "<html><body>\
        <h1 id=\"comic-title\">Test Comic</h1>\
        <span id=\"comic-post-date\">January 5, 2015</span>\
        <img id=\"comic-image\" src=\"/img/x.png\">\
        <div class=\"tag-group\"><p>Characters:</p><span class=\"tag\">  Bob  </span></div>\
        </body></html>";
    let comic = extract_comic(1, html).unwrap();
    assert_eq!(comic.characters, vec!["Bob".to_string()]);
}

#[test]
fn title_is_trimmed() {
    let html = "<html><body>\
        <h1 id=\"comic-title\">  Test Comic  </h1>\
        <span id=\"comic-post-date\">January 5, 2015</span>\
        <img id=\"comic-image\" src=\"/img/x.png\">\
        </body></html>";
    let comic = extract_comic(1, html).unwrap();
    assert_eq!(comic.title, "Test Comic");
}

#[test]
fn missing_src_is_missing_attribute() {
    let html = "<html><body>\
        <h1 id=\"comic-title\">Test Comic</h1>\
        <span id=\"comic-post-date\">January 5, 2015</span>\
        <img id=\"comic-image\">\
        </body></html>";
    assert_eq!(extract_comic(1, html).unwrap_err(), FetchError::MissingAttribute);
}

#[test]
fn missing_image_is_missing_element() {
    let html = "<html><body>\
        <h1 id=\"comic-title\">Test Comic</h1>\
        <span id=\"comic-post-date\">January 5, 2015</span>\
        </body></html>";
    assert_eq!(extract_comic(1, html).unwrap_err(), FetchError::MissingElement);
}

#[test]
fn unknown_category_is_silently_ignored() {
    let html = "<html><body>\
        <h1 id=\"comic-title\">Test Comic</h1>\
        <span id=\"comic-post-date\">January 5, 2015</span>\
        <img id=\"comic-image\" src=\"/img/x.png\">\
        <div class=\"tag-group\"><p>Villains:</p><span class=\"tag\">Mordred</span></div>\
        </body></html>";
    let comic = extract_comic(1, html).unwrap();
    assert!(comic.characters.is_empty());
    assert!(comic.locations.is_empty());
    assert!(comic.creatures.is_empty());
    assert!(comic.swords.is_empty());
}

#[test]
fn unlabelled_group_is_missing_element() {
    let html = "<html><body>\
        <h1 id=\"comic-title\">Test Comic</h1>\
        <span id=\"comic-post-date\">January 5, 2015</span>\
        <img id=\"comic-image\" src=\"/img/x.png\">\
        <div class=\"tag-group\"><span class=\"tag\">Alice</span></div>\
        </body></html>";
    assert_eq!(extract_comic(1, html).unwrap_err(), FetchError::MissingElement);
}

#[test]
fn groups_of_one_category_append_in_document_order() {
    let html = "<html><body>\
        <h1 id=\"comic-title\">Test Comic</h1>\
        <span id=\"comic-post-date\">March 14, 2019</span>\
        <img id=\"comic-image\" src=\"/img/y.png\">\
        <div class=\"tag-group\"><p>Locations:</p>\
        <span class=\"tag\">Castle</span><span class=\"tag\">Forest</span></div>\
        <div class=\"tag-group\"><p>Locations:</p><span class=\"tag\">Cave</span></div>\
        </body></html>";
    let comic = extract_comic(1, html).unwrap();
    assert_eq!(
        comic.locations,
        vec!["Castle".to_string(), "Forest".to_string(), "Cave".to_string()]
    );
    assert_eq!(comic.date, ComicDate { year: 2019, month: 3, day: 14 });
}

#[test]
fn duplicate_tags_are_kept() {
    let html = "<html><body>\
        <h1 id=\"comic-title\">Test Comic</h1>\
        <span id=\"comic-post-date\">January 5, 2015</span>\
        <img id=\"comic-image\" src=\"/img/x.png\">\
        <div class=\"tag-group\"><p>Creatures:</p>\
        <span class=\"tag\">Dragon</span><span class=\"tag\">Dragon</span></div>\
        </body></html>";
    let comic = extract_comic(1, html).unwrap();
    assert_eq!(comic.creatures, vec!["Dragon".to_string(), "Dragon".to_string()]);
}
