use ruswords::comic_path;
use ruswords::comic_segment;
use ruswords::comic_url;
use ruswords::BASE_URL;

#[test]
fn segment_is_uppercase_roman_in_range() {
    assert_eq!(comic_segment(1), "I");
    assert_eq!(comic_segment(2), "II");
    assert_eq!(comic_segment(4), "IV");
    assert_eq!(comic_segment(42), "XLII");
    assert_eq!(comic_segment(2015), "MMXV");
    assert_eq!(comic_segment(3999), "MMMCMXCIX");
    assert_eq!(comic_segment(4999), "MMMMCMXCIX");
}

#[test]
fn segment_is_cover_out_of_range() {
    assert_eq!(comic_segment(0), "cover");
    assert_eq!(comic_segment(5000), "cover");
    assert_eq!(comic_segment(u32::MAX), "cover");
}

#[test]
fn path_prefixes_swords() {
    assert_eq!(comic_path(2), "/swords/II");
    assert_eq!(comic_path(0), "/swords/cover");
}

#[test]
fn url_prefixes_base() {
    assert_eq!(BASE_URL, "https://www.swordscomic.com");
    assert_eq!(comic_url(2), "https://www.swordscomic.com/swords/II");
    assert_eq!(comic_url(0), "https://www.swordscomic.com/swords/cover");
}
