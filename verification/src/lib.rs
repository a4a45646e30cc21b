//! Core library for a manga-reading client: per-source markup extractors
//! that turn semi-structured markup into a typed data model, the
//! page-acquisition pipeline that names and tallies downloaded pages, and
//! deterministic archive packaging.

pub mod archive;
pub mod mangapill;
pub mod markup;
pub mod model;
pub mod pipeline;
pub mod registry;
pub mod settings;
pub mod text;
pub mod urlenc;
pub mod weebcentral;

use vstd::prelude::*;

verus! {

/// Determinism law: the extractors are functions of the markup alone. Two
/// results that both satisfy an extractor's contract on the same markup
/// are equal; repeated calls on fixed input return identical output.
pub proof fn lemma_extraction_deterministic(
    html: Seq<u8>,
    manga_id: Seq<u8>,
    a: Seq<model::SearchResultView>,
    b: Seq<model::SearchResultView>,
    c: model::MangaDetailView,
    d: model::MangaDetailView,
    e: Seq<model::ChapterView>,
    f: Seq<model::ChapterView>,
    g: Seq<model::PageView>,
    h: Seq<model::PageView>,
)
    requires
        a == mangapill::mp_search_seq(html),
        b == mangapill::mp_search_seq(html),
        c == mangapill::mp_details(html, manga_id),
        d == mangapill::mp_details(html, manga_id),
        e == model::spec_sort_desc(mangapill::mp_chapter_seq(html, manga_id)),
        f == model::spec_sort_desc(mangapill::mp_chapter_seq(html, manga_id)),
        g == mangapill::mp_pages_seq(html),
        h == mangapill::mp_pages_seq(html),
    ensures
        a == b,
        c == d,
        e == f,
        g == h,
{
}

/// Determinism law for the WeebCentral extractor, stated the same way.
pub proof fn lemma_wc_extraction_deterministic(
    html: Seq<u8>,
    manga_id: Seq<u8>,
    a: Seq<model::SearchResultView>,
    b: Seq<model::SearchResultView>,
    c: model::MangaDetailView,
    d: model::MangaDetailView,
    e: Seq<model::ChapterView>,
    f: Seq<model::ChapterView>,
    g: Seq<model::PageView>,
    h: Seq<model::PageView>,
)
    requires
        a == weebcentral::wc_search_seq(html),
        b == weebcentral::wc_search_seq(html),
        c == weebcentral::wc_details(html, manga_id),
        d == weebcentral::wc_details(html, manga_id),
        e == model::spec_sort_desc(weebcentral::wc_chapter_seq(html, manga_id)),
        f == model::spec_sort_desc(weebcentral::wc_chapter_seq(html, manga_id)),
        g == weebcentral::wc_pages_seq(html),
        h == weebcentral::wc_pages_seq(html),
    ensures
        a == b,
        c == d,
        e == f,
        g == h,
{
}

} // verus!
