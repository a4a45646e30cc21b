//! Tests for the WeebCentral extractor.

use rakuyomi_core::model::MangaStatus;
use rakuyomi_core::weebcentral::{
    chapter_list_url, decode_html_entities, pages_url, parse_chapters, parse_manga_details,
    parse_pages, parse_search_results, search_url,
};

fn sample_listing() -> Vec<u8> {
    let mut h = Vec::new();
    h.extend_from_slice(
        b"<article class=\"item\"><section><img src=\"https://cdn.w/c1.jpg\"><a href=\"https://weebcentral.com/series/1/one\">Official One Piece</a></section></article>\n",
    );
    h.extend_from_slice(
        b"<article><section><img src=\"https://cdn.w/c2.jpg\"><a href=\"https://weebcentral.com/series/2/two\">Two</a></section></article>\n",
    );
    // a link that points outside the source is dropped
    h.extend_from_slice(
        b"<article><section><img src=\"https://cdn.w/c3.jpg\"><a href=\"https://elsewhere.example/x\">Three</a></section></article>\n",
    );
    h
}

#[test]
fn search_results_extracts_items_and_strips_official() {
    let h = sample_listing();
    let listing = parse_search_results(&h, 1);
    assert_eq!(listing.page, 1);
    assert!(!listing.has_more);
    assert_eq!(listing.results.len(), 2);
    assert_eq!(listing.results[0].id, b"/series/1/one".to_vec());
    assert_eq!(listing.results[0].title, b"One Piece".to_vec());
    assert_eq!(listing.results[0].cover_url, b"https://cdn.w/c1.jpg".to_vec());
    // a listing carries no status marker: the documented default
    assert_eq!(listing.results[0].status, MangaStatus::Unknown);
    assert_eq!(listing.results[1].id, b"/series/2/two".to_vec());
    assert_eq!(listing.results[1].title, b"Two".to_vec());
}

#[test]
fn weebcentral_search_is_deterministic() {
    let h = sample_listing();
    let a = parse_search_results(&h, 1);
    let b = parse_search_results(&h, 1);
    assert_eq!(a.results.len(), b.results.len());
    for (x, y) in a.results.iter().zip(b.results.iter()) {
        assert_eq!(x.id, y.id);
        assert_eq!(x.title, y.title);
    }
}

#[test]
fn decode_handles_the_extended_entity_set() {
    assert_eq!(
        decode_html_entities(b"&#x27;a&#x2F;b&amp;&nbsp;"),
        b"'a/b& ".to_vec()
    );
}

#[test]
fn weebcentral_details_extract_fields() {
    let h = b"<html><h1> The Title </h1>\
<img src=\"https://cdn.w/cover.png\">\
<strong>Description\">  <p>A quiet story.</p></strong>\
<strong>Author\"> by <a class=\"x\">Jane Doe</a></strong>\
<span>Ongoing</span></html>"
        .to_vec();
    let d = parse_manga_details(&h, b"/series/1/one");
    assert_eq!(d.id, b"/series/1/one".to_vec());
    assert_eq!(d.title, b"The Title".to_vec());
    assert_eq!(d.cover_url, b"https://cdn.w/cover.png".to_vec());
    assert_eq!(d.description, b"A quiet story.".to_vec());
    assert_eq!(d.author, b"Jane Doe".to_vec());
    assert_eq!(d.status, MangaStatus::Ongoing);
    assert!(!d.nsfw);
}

#[test]
fn weebcentral_details_fall_back_to_defaults() {
    let d = parse_manga_details(b"<p>blank page</p>", b"/series/9");
    assert_eq!(d.title, b"Unknown".to_vec());
    assert_eq!(d.author, Vec::<u8>::new());
    assert_eq!(d.description, Vec::<u8>::new());
    assert_eq!(d.cover_url, Vec::<u8>::new());
    assert_eq!(d.status, MangaStatus::Unknown);
    assert!(!d.nsfw);
}

#[test]
fn manga_details_flags_content_tags() {
    let d = parse_manga_details(b"<h1>X</h1><span>Mature</span>", b"/series/1");
    assert!(d.nsfw);
}

#[test]
fn chapters_parse_numbers_and_volumes() {
    let h = b"<div x-data=\"c\"><a href=\"https://weebcentral.com/chapters/10\"><span>Chapter 10.5</span></a></div>\
<div x-data=\"c\"><a href=\"https://weebcentral.com/chapters/v2\"><span>Volume 2</span></a></div>\
<div x-data=\"c\"><a href=\"https://weebcentral.com/chapters/sp\"><span>Special</span></a></div>"
        .to_vec();
    let chs = parse_chapters(&h, b"/series/1/one");
    assert_eq!(chs.len(), 3);
    // sorted by number descending: 10.5, then the volume 2, then the
    // unparsed label that fell back to its scan index 2
    assert_eq!(chs[0].number_milli, 10500);
    assert_eq!(chs[0].title, b"Chapter 10.5".to_vec());
    assert_eq!(chs[0].volume_milli, None);
    assert_eq!(chs[1].number_milli, 2000);
    assert_eq!(chs[1].title, b"Volume 2".to_vec());
    assert_eq!(chs[1].volume_milli, Some(2000));
    assert_eq!(chs[2].number_milli, 2000);
    assert_eq!(chs[2].title, b"Special".to_vec());
    for w in chs.windows(2) {
        assert!(w[0].number_milli >= w[1].number_milli);
    }
}

#[test]
fn chapters_drop_foreign_urls_but_keep_their_index() {
    let h = b"<div x-data=\"c\"><a href=\"https://elsewhere.example/c1\"><span>Chapter 1</span></a></div>\
<div x-data=\"c\"><a href=\"https://weebcentral.com/chapters/z\"><span>zzz</span></a></div>"
        .to_vec();
    let chs = parse_chapters(&h, b"/series/1");
    // the first entry is dropped, but the second still counts as index 1
    assert_eq!(chs.len(), 1);
    assert_eq!(chs[0].number_milli, 1000);
    assert_eq!(chs[0].title, b"zzz".to_vec());
}

#[test]
fn pages_filter_image_suffixes() {
    let h = b"<img src=\"https://cdn.w/banner.svg\">\
<img src=\"https://cdn.w/p1.jpg\">\
<img src=\"https://cdn.w/p2.webp\">\
<img src=\"https://cdn.w/p3.jpeg\">\
<img src=\"https://cdn.w/p4.png\">"
        .to_vec();
    let pages = parse_pages(&h);
    assert_eq!(pages.len(), 4);
    assert_eq!(pages[0].index, 1);
    assert_eq!(pages[0].url, b"https://cdn.w/p1.jpg".to_vec());
    assert_eq!(pages[3].index, 4);
    assert_eq!(pages[3].url, b"https://cdn.w/p4.png".to_vec());
}

#[test]
fn pages_fall_back_to_the_reader_section() {
    let h = b"<section class=\"r\" x-data=\"scroll()\"><img src=\"https://cdn.w/frame\"></section>"
        .to_vec();
    let pages = parse_pages(&h);
    assert_eq!(pages.len(), 1);
    assert_eq!(pages[0].index, 1);
    assert_eq!(pages[0].url, b"https://cdn.w/frame".to_vec());
}

#[test]
fn search_url_builds_both_modes() {
    assert_eq!(
        search_url(b"", 1),
        b"https://weebcentral.com/search/data?limit=24&offset=0&display_mode=Full%20Display&sort=Latest%20Updates&order=Descending".to_vec()
    );
    assert_eq!(
        search_url(b"solo", 3),
        b"https://weebcentral.com/search/data?limit=24&offset=48&display_mode=Full%20Display&text=solo&sort=Relevance&order=Descending".to_vec()
    );
}

#[test]
fn chapter_list_url_truncates_the_last_segment() {
    assert_eq!(
        chapter_list_url(b"/series/1/one"),
        b"https://weebcentral.com/series/1/full-chapter-list".to_vec()
    );
    assert_eq!(
        chapter_list_url(b"/series"),
        b"https://weebcentral.com/full-chapter-list".to_vec()
    );
}

#[test]
fn pages_url_appends_the_reader_query() {
    assert_eq!(
        pages_url(b"/chapters/10"),
        b"https://weebcentral.com/chapters/10/images?is_prev=False&reading_style=long_strip".to_vec()
    );
}

#[test]
fn chapter_number_tokens_cover_the_decimal_grammar() {
    let h = b"<div x-data=\"c\"><a href=\"https://weebcentral.com/chapters/a\"><span>Part .5</span></a></div>\
<div x-data=\"c\"><a href=\"https://weebcentral.com/chapters/b\"><span>Part 123.</span></a></div>\
<div x-data=\"c\"><a href=\"https://weebcentral.com/chapters/c\"><span>Part 12.3.4</span></a></div>"
        .to_vec();
    let chs = parse_chapters(&h, b"/series/1");
    assert_eq!(chs.len(), 3);
    // sorted descending: 123, then .5, then the malformed token that fell
    // back to its scan index 2
    assert_eq!(chs[0].number_milli, 123_000);
    assert_eq!(chs[1].number_milli, 2_000);
    assert_eq!(chs[2].number_milli, 500);
}
