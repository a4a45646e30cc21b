//! Tests for the MangaPill extractor.

use rakuyomi_core::mangapill::{
    decode_html_entities, page_url, parse_chapters, parse_manga_details, parse_pages,
    parse_search_results, search_url,
};
use rakuyomi_core::model::MangaStatus;

fn sample_listing() -> Vec<u8> {
    let mut h = Vec::new();
    h.extend_from_slice(
        b"<html><body>\n<a href=\"/manga/1/one\" class=\"block\"><img src=\"https://cdn.x/1.jpg\"><h3>First &amp; Best</h3></a>\n",
    );
    h.extend_from_slice(
        b"<a href=\"/manga/2/two\"><img src=\"https://cdn.x/2.jpg\"><h3>Second</h3></a>\n",
    );
    // an anchor that does not point at a manga is skipped
    h.extend_from_slice(
        b"<a href=\"/chapters/9/c\"><img src=\"https://cdn.x/3.jpg\"><h3>Not a manga</h3></a>\n",
    );
    // an empty title is skipped
    h.extend_from_slice(
        b"<a href=\"/manga/3/three\"><img src=\"https://cdn.x/4.jpg\"><h3></h3></a>\n</body></html>",
    );
    h
}

#[test]
fn search_results_extracts_items() {
    let h = sample_listing();
    let listing = parse_search_results(&h, 1);
    assert_eq!(listing.page, 1);
    assert!(!listing.has_more);
    assert_eq!(listing.results.len(), 2);
    assert_eq!(listing.results[0].id, b"/manga/1/one".to_vec());
    assert_eq!(listing.results[0].title, b"First & Best".to_vec());
    assert_eq!(listing.results[0].cover_url, b"https://cdn.x/1.jpg".to_vec());
    assert_eq!(listing.results[0].author, Vec::<u8>::new());
    assert_eq!(listing.results[0].description, Vec::<u8>::new());
    // a listing carries no status marker: the documented default
    assert_eq!(listing.results[0].status, MangaStatus::Unknown);
    assert_eq!(listing.results[1].id, b"/manga/2/two".to_vec());
    assert_eq!(listing.results[1].title, b"Second".to_vec());
}

#[test]
fn search_results_are_deterministic() {
    let h = sample_listing();
    let a = parse_search_results(&h, 3);
    let b = parse_search_results(&h, 3);
    assert_eq!(a.results.len(), b.results.len());
    for (x, y) in a.results.iter().zip(b.results.iter()) {
        assert_eq!(x.id, y.id);
        assert_eq!(x.title, y.title);
        assert_eq!(x.cover_url, y.cover_url);
    }
    assert_eq!(a.has_more, b.has_more);
}

#[test]
fn search_results_items_split_across_lines_do_not_match() {
    let h = b"<a href=\"/manga/1/one\">\n<img src=\"https://cdn.x/1.jpg\"><h3>T</h3></a>".to_vec();
    let listing = parse_search_results(&h, 1);
    assert_eq!(listing.results.len(), 0);
}

#[test]
fn decode_handles_the_entity_set() {
    assert_eq!(
        decode_html_entities(b"&amp; &lt; &gt; &quot; &#39; a&nbsp;b"),
        b"& < > \" ' a b".to_vec()
    );
    // decoding is sequential: an entity produced by an earlier pass decodes
    assert_eq!(decode_html_entities(b"&amp;lt;"), b"<".to_vec());
}

#[test]
fn manga_details_extracts_fields() {
    let h = b"<html><h1>My Title &amp; More</h1>\
<div class=\"text description\"> A <b>bold</b>  story.  </div>\
<p>Author: Some One </p>\
<img class=\"manga cover\" src=\"https://cdn.x/c.png\">\
<span>Completed</span></html>"
        .to_vec();
    let d = parse_manga_details(&h, b"/manga/1/one");
    assert_eq!(d.id, b"/manga/1/one".to_vec());
    assert_eq!(d.title, b"My Title & More".to_vec());
    assert_eq!(d.description, b"A bold story.".to_vec());
    assert_eq!(d.author, b"Some One".to_vec());
    assert_eq!(d.cover_url, b"https://cdn.x/c.png".to_vec());
    assert_eq!(d.status, MangaStatus::Completed);
    assert!(!d.nsfw);
}

#[test]
fn manga_details_falls_back_to_defaults() {
    let d = parse_manga_details(b"<p>nothing of interest here</p>", b"/manga/9");
    assert_eq!(d.id, b"/manga/9".to_vec());
    assert_eq!(d.title, b"Unknown".to_vec());
    assert_eq!(d.author, Vec::<u8>::new());
    assert_eq!(d.description, Vec::<u8>::new());
    assert_eq!(d.cover_url, Vec::<u8>::new());
    assert_eq!(d.status, MangaStatus::Unknown);
    assert!(!d.nsfw);
}

#[test]
fn chapters_are_sorted_descending() {
    let h = b"<a href=\"/chapters/1-10/one\">Chapter 1</a>\
<a href=\"/chapters/55-10/x\">Chapter 5.5</a>\
<a href=\"/chapters/2-10/two\">Chapter 2</a>"
        .to_vec();
    let chs = parse_chapters(&h, b"/manga/1/one");
    assert_eq!(chs.len(), 3);
    assert_eq!(chs[0].number_milli, 5500);
    assert_eq!(chs[0].title, b"Chapter 5.5".to_vec());
    assert_eq!(chs[0].id, b"/chapters/55-10/x".to_vec());
    assert_eq!(chs[1].number_milli, 2000);
    assert_eq!(chs[2].number_milli, 1000);
    for w in chs.windows(2) {
        assert!(w[0].number_milli >= w[1].number_milli);
    }
    assert_eq!(chs[0].manga_id, b"/manga/1/one".to_vec());
    assert_eq!(chs[0].language, b"en".to_vec());
    assert_eq!(chs[0].volume_milli, None);
    assert_eq!(chs[0].published_at, None);
    assert!(!chs[0].is_read);
    assert_eq!(chs[0].pages, 0);
}

#[test]
fn chapters_equal_numbers_keep_input_order() {
    let h = b"<a href=\"/chapters/a\">Chapter 3</a>\
<a href=\"/chapters/b\">Chapter 3</a>\
<a href=\"/chapters/c\">Chapter 1</a>"
        .to_vec();
    let chs = parse_chapters(&h, b"/manga/1");
    assert_eq!(chs.len(), 3);
    assert_eq!(chs[0].id, b"/chapters/a".to_vec());
    assert_eq!(chs[1].id, b"/chapters/b".to_vec());
    assert_eq!(chs[2].id, b"/chapters/c".to_vec());
}

#[test]
fn pages_keep_cdn_urls_with_contiguous_indices() {
    let h = b"<img data-src=\"https://cdn.x/p1.jpg\" alt=\"1\">\
<img data-src=\"https://other.x/skip.jpg\" alt=\"x\">\
<img data-src=\"https://cdn.x/p2.png\" alt=\"2\">"
        .to_vec();
    let pages = parse_pages(&h);
    assert_eq!(pages.len(), 2);
    assert_eq!(pages[0].index, 1);
    assert_eq!(pages[0].url, b"https://cdn.x/p1.jpg".to_vec());
    assert_eq!(pages[1].index, 2);
    assert_eq!(pages[1].url, b"https://cdn.x/p2.png".to_vec());
    assert_eq!(pages[0].width, 0);
    assert_eq!(pages[0].height, 0);
}

#[test]
fn search_url_encodes_the_query() {
    assert_eq!(
        search_url(b"hello world!", 2),
        b"https://www.mangapill.com/search?q=hello%20world%21&page=2".to_vec()
    );
    assert_eq!(
        search_url(b"", 1),
        b"https://www.mangapill.com/updates?page=1".to_vec()
    );
}

#[test]
fn page_url_joins_the_base() {
    assert_eq!(
        page_url(b"/manga/1/one"),
        b"https://www.mangapill.com/manga/1/one".to_vec()
    );
}

#[test]
fn chapter_number_with_trailing_point_keeps_the_whole_part() {
    let h = b"<a href=\"/chapters/12-1/x\">Chapter 12.</a>".to_vec();
    let chs = parse_chapters(&h, b"/manga/1");
    assert_eq!(chs.len(), 1);
    assert_eq!(chs[0].number_milli, 12000);
    assert_eq!(chs[0].title, b"Chapter 12".to_vec());
}

#[test]
fn chapter_number_saturates_instead_of_overflowing() {
    let h = b"<a href=\"/chapters/x-1/x\">Chapter 99999999999999999999</a>".to_vec();
    let chs = parse_chapters(&h, b"/manga/1");
    assert_eq!(chs.len(), 1);
    assert_eq!(chs[0].number_milli, 1_000_000_000_000_000);
}

#[test]
fn full_listing_page_reports_more() {
    let mut h = Vec::new();
    for i in 0..50 {
        h.extend_from_slice(b"<a href=\"/manga/");
        h.extend_from_slice(format!("{}", i).as_bytes());
        h.extend_from_slice(b"\"><img src=\"https://cdn.x/c.jpg\"><h3>T</h3></a>\n");
    }
    let listing = parse_search_results(&h, 1);
    assert_eq!(listing.results.len(), 50);
    assert!(listing.has_more);
}
