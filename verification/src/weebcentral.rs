//! Extractor for the WeebCentral source.
//!
//! The same committed scanning discipline as the MangaPill extractor, with
//! this source's own anchors: listing entries live in `<article>` blocks,
//! chapter entries in `<div x-data ...>` blocks reached through a dedicated
//! chapter-list endpoint, and page images in plain `<img>` tags filtered by
//! image-file suffix.

use vstd::prelude::*;

use crate::markup::{
    lit_a_open, lit_adult_word, lit_amp, lit_apos, lit_article, lit_author_word,
    lit_canceled_word, lit_chapter_space, lit_close_a, lit_close_article, lit_close_h1,
    lit_close_p, lit_close_section, lit_close_span, lit_complete_word, lit_description_cap,
    lit_div, lit_e_39, lit_e_amp, lit_e_gt, lit_e_lt, lit_e_nbsp, lit_e_quot, lit_e_x27,
    lit_e_x2f, lit_ext_jpeg, lit_ext_jpg, lit_ext_png, lit_ext_webp, lit_gt, lit_h1,
    lit_hentai_word, lit_hiatus_word, lit_href, lit_img, lit_lang_en, lit_lt, lit_mature_word,
    lit_nl, lit_official, lit_ongoing_word, lit_p_open, lit_quote, lit_scroll_word,
    lit_section_tag, lit_section_word, lit_slash, lit_space, lit_span_tag, lit_src,
    lit_unknown_word, lit_volume_word, lit_wc_base, lit_wc_chlist, lit_wc_images,
    lit_wc_search_a, lit_wc_search_latest, lit_wc_search_rel, lit_wc_search_text, lit_x_data,
    pat_a_open, pat_adult_word, pat_amp, pat_apos, pat_article, pat_author_word,
    pat_canceled_word, pat_chapter_space, pat_close_a, pat_close_article, pat_close_h1,
    pat_close_p, pat_close_section, pat_close_span, pat_complete_word, pat_description_cap,
    pat_div, pat_e_39, pat_e_amp, pat_e_gt, pat_e_lt, pat_e_nbsp, pat_e_quot, pat_e_x27,
    pat_e_x2f, pat_ext_jpeg, pat_ext_jpg, pat_ext_png, pat_ext_webp, pat_gt, pat_h1,
    pat_hentai_word, pat_hiatus_word, pat_href, pat_img, pat_lang_en, pat_lt, pat_mature_word,
    pat_nl, pat_official, pat_ongoing_word, pat_p_open, pat_quote, pat_scroll_word,
    pat_section_tag, pat_section_word, pat_slash, pat_space, pat_span_tag, pat_src,
    pat_unknown_word, pat_volume_word, pat_wc_base, pat_wc_chlist, pat_wc_images,
    pat_wc_search_a, pat_wc_search_latest, pat_wc_search_rel, pat_wc_search_text, pat_x_data,
};
use crate::model::{
    chapters_view, lemma_chapter_views_push, lemma_search_views_push, pages_view,
    search_results_view, sort_chapters_desc, sorted_desc, spec_sort_desc, Chapter, ChapterView,
    MangaDetail, MangaDetailView, MangaStatus, Page, PageView, SearchListing, SearchResult,
    SearchResultView, SourceKind,
};
use crate::text::{
    contains, find_from, is_match_at, match_at, parse_decimal, push_all, push_dec_signed,
    push_render_milli, replace_all, rlast, spec_dec_signed, spec_find, spec_ltrim_idx,
    spec_parse_decimal, spec_render_milli, spec_replace, spec_rlast, spec_trim, starts_with,
    sub_vec, to_vec, trim, ws_end, NUM_CAP,
};
use crate::urlenc::{spec_urlencoded, urlencode};

verus! {

/// WeebCentral answers at most this many entries per listing request;
/// reaching it is the pagination heuristic for `has_more`.
pub const WC_PAGE_SIZE: usize = 24;

/// True when the option holds a position before `x`.
pub open spec fn opt_lt(o: Option<int>, x: int) -> bool {
    match o {
        Some(n) => n < x,
        None => false,
    }
}

/// The entity decoding this source applies: the MangaPill set plus the
/// hexadecimal apostrophe and slash entities, replaced in this order.
pub open spec fn wc_decode(s: Seq<u8>) -> Seq<u8> {
    spec_replace(
        spec_replace(
            spec_replace(
                spec_replace(
                    spec_replace(
                        spec_replace(
                            spec_replace(spec_replace(s, pat_e_amp(), pat_amp()), pat_e_lt(), pat_lt()),
                            pat_e_gt(),
                            pat_gt(),
                        ),
                        pat_e_quot(),
                        pat_quote(),
                    ),
                    pat_e_39(),
                    pat_apos(),
                ),
                pat_e_x27(),
                pat_apos(),
            ),
            pat_e_x2f(),
            pat_slash(),
        ),
        pat_e_nbsp(),
        pat_space(),
    )
}

/// Decodes the HTML entities this source emits in text fields.
pub fn decode_html_entities(input: &[u8]) -> (r: Vec<u8>)
    ensures
        r@ == wc_decode(input@),
{
    let e_amp = lit_e_amp();
    let amp = lit_amp();
    let e_lt = lit_e_lt();
    let lt = lit_lt();
    let e_gt = lit_e_gt();
    let gt = lit_gt();
    let e_quot = lit_e_quot();
    let quote = lit_quote();
    let e_39 = lit_e_39();
    let apos = lit_apos();
    let e_x27 = lit_e_x27();
    let e_x2f = lit_e_x2f();
    let slash = lit_slash();
    let e_nbsp = lit_e_nbsp();
    let space = lit_space();
    let a = replace_all(input, &e_amp, &amp);
    let b = replace_all(a.as_slice(), &e_lt, &lt);
    let c = replace_all(b.as_slice(), &e_gt, &gt);
    let d = replace_all(c.as_slice(), &e_quot, &quote);
    let e = replace_all(d.as_slice(), &e_39, &apos);
    let f = replace_all(e.as_slice(), &e_x27, &apos);
    let g = replace_all(f.as_slice(), &e_x2f, &slash);
    replace_all(g.as_slice(), &e_nbsp, &space)
}

/// The id of a listing entry: its absolute URL with the source's base
/// stripped; empty (and so dropped) when the URL points elsewhere.
pub open spec fn wc_strip_base(url: Seq<u8>) -> Seq<u8> {
    if url.len() >= 23 && url.subrange(0, 23) == pat_wc_base() {
        url.skip(23)
    } else {
        Seq::empty()
    }
}

// ---------------------------------------------------------------------------
// Search listing
// ---------------------------------------------------------------------------

/// One listing entry as found in the markup.
pub ghost struct WcHit {
    pub cover: Seq<u8>,
    pub url: Seq<u8>,
    pub title_raw: Seq<u8>,
    pub next: int,
}

/// Outcome of trying one `<article` anchor.
pub ghost enum WcStep {
    Hit(WcHit),
    Skip(int),
    Stop,
}

/// Tries one `<article` block at `art`: a `<section` on the same line.
pub open spec fn wc_try_at(h: Seq<u8>, art: int) -> WcStep {
    match spec_find(h, pat_gt(), art) {
        None => WcStep::Stop,
        Some(t0) => match (spec_find(h, pat_section_tag(), t0), spec_find(h, pat_nl(), t0)) {
            (None, _) => WcStep::Stop,
            (Some(sec), nl) => if opt_lt(nl, sec) {
                WcStep::Skip(art + 8)
            } else {
                match spec_find(h, pat_gt(), sec) {
                    None => WcStep::Stop,
                    Some(t1) => wc_try_img(h, art, t1),
                }
            },
        },
    }
}

/// Second stage: the cover `<img` with its `src` capture.
pub open spec fn wc_try_img(h: Seq<u8>, art: int, t1: int) -> WcStep {
    match (spec_find(h, pat_img(), t1), spec_find(h, pat_nl(), t1)) {
        (None, _) => WcStep::Stop,
        (Some(im), nl) => if opt_lt(nl, im) {
            WcStep::Skip(art + 8)
        } else {
            match (spec_find(h, pat_gt(), im), spec_find(h, pat_src(), im)) {
                (Some(g2), Some(sq)) => if sq > g2 {
                    WcStep::Skip(art + 8)
                } else {
                    let cs = sq + 5;
                    match spec_find(h, pat_quote(), cs) {
                        None => WcStep::Stop,
                        Some(q3) => match spec_find(h, pat_gt(), q3) {
                            None => WcStep::Stop,
                            Some(t2) => wc_try_anchor(h, art, h.subrange(cs, q3), t2),
                        },
                    }
                },
                _ => WcStep::Stop,
            }
        },
    }
}

/// Third stage: the title anchor with its `href` capture.
pub open spec fn wc_try_anchor(h: Seq<u8>, art: int, cover: Seq<u8>, t2: int) -> WcStep {
    match (spec_find(h, pat_a_open(), t2), spec_find(h, pat_nl(), t2)) {
        (None, _) => WcStep::Stop,
        (Some(a), nl) => if opt_lt(nl, a) {
            WcStep::Skip(art + 8)
        } else {
            match (spec_find(h, pat_gt(), a), spec_find(h, pat_href(), a)) {
                (Some(g3), Some(hq)) => if hq > g3 {
                    WcStep::Skip(art + 8)
                } else {
                    let us = hq + 6;
                    match spec_find(h, pat_quote(), us) {
                        None => WcStep::Stop,
                        Some(q4) => match spec_find(h, pat_gt(), q4) {
                            None => WcStep::Stop,
                            Some(t3) => wc_try_close(h, art, cover, h.subrange(us, q4), t3),
                        },
                    }
                },
                _ => WcStep::Stop,
            }
        },
    }
}

/// Fourth stage: the anchor text up to `</a>`, then the closing
/// `</section>` and `</article>`, all on the same line.
pub open spec fn wc_try_close(h: Seq<u8>, art: int, cover: Seq<u8>, url: Seq<u8>, t3: int) -> WcStep {
    match (spec_find(h, pat_close_a(), t3), spec_find(h, pat_nl(), t3)) {
        (None, _) => WcStep::Stop,
        (Some(ca), nl) => if opt_lt(nl, ca) {
            WcStep::Skip(art + 8)
        } else {
            match (spec_find(h, pat_close_section(), ca), spec_find(h, pat_nl(), ca)) {
                (None, _) => WcStep::Stop,
                (Some(cs2), nl5) => if opt_lt(nl5, cs2) {
                    WcStep::Skip(art + 8)
                } else {
                    match (spec_find(h, pat_close_article(), cs2), spec_find(h, pat_nl(), cs2)) {
                        (None, _) => WcStep::Stop,
                        (Some(car), nl6) => if opt_lt(nl6, car) {
                            WcStep::Skip(art + 8)
                        } else {
                            WcStep::Hit(
                                WcHit {
                                    cover,
                                    url,
                                    title_raw: h.subrange(t3 + 1, ca),
                                    next: car + 10,
                                },
                            )
                        },
                    }
                },
            }
        },
    }
}

/// The first listing entry found at or after `p`.
pub open spec fn wc_next_hit(h: Seq<u8>, p: int) -> Option<WcHit>
    decreases h.len() - p,
    via wc_next_hit_dec
{
    match spec_find(h, pat_article(), p) {
        None => None,
        Some(art) => match wc_try_at(h, art) {
            WcStep::Hit(x) => Some(x),
            WcStep::Stop => None,
            WcStep::Skip(q) => if art < q <= h.len() {
                wc_next_hit(h, q)
            } else {
                None
            },
        },
    }
}

#[via_fn]
proof fn wc_next_hit_dec(h: Seq<u8>, p: int) {
    crate::text::lemma_spec_find_bounds(h, pat_article(), p);
}

/// All listing entries found from `p` on, in order.
pub open spec fn wc_hits(h: Seq<u8>, p: int) -> Seq<WcHit>
    decreases h.len() - p,
{
    match wc_next_hit(h, p) {
        None => Seq::empty(),
        Some(x) => if p < x.next <= h.len() {
            seq![x] + wc_hits(h, x.next)
        } else {
            seq![x]
        },
    }
}

/// The displayed title of a listing entry: trimmed, entity-decoded, and with
/// a leading `Official ` marker removed.
pub open spec fn wc_hit_title(x: WcHit) -> Seq<u8> {
    let t = wc_decode(spec_trim(x.title_raw));
    if t.len() >= 9 && t.subrange(0, 9) == pat_official() {
        spec_trim(t.skip(9))
    } else {
        t
    }
}

/// An entry is kept when both its id and its title are non-empty.
pub open spec fn wc_keep(x: WcHit) -> bool {
    wc_strip_base(x.url).len() > 0 && wc_hit_title(x).len() > 0
}

/// The search-result view of one kept entry: a listing carries no status
/// marker, so the status is the documented default `Unknown`.
pub open spec fn wc_hit_view(x: WcHit) -> SearchResultView {
    SearchResultView {
        id: wc_strip_base(x.url),
        title: wc_hit_title(x),
        author: Seq::empty(),
        description: Seq::empty(),
        cover_url: x.cover,
        status: MangaStatus::Unknown,
        source: SourceKind::WeebCentral,
    }
}

/// The kept entries of a hit sequence, as search-result views.
pub open spec fn wc_search_filtered(hits: Seq<WcHit>) -> Seq<SearchResultView>
    decreases hits.len(),
{
    if hits.len() == 0 {
        Seq::empty()
    } else {
        (if wc_keep(hits[0]) {
            seq![wc_hit_view(hits[0])]
        } else {
            Seq::<SearchResultView>::empty()
        }) + wc_search_filtered(hits.drop_first())
    }
}

/// Every search result extracted from a listing response, in scan order.
pub open spec fn wc_search_seq(h: Seq<u8>) -> Seq<SearchResultView> {
    wc_search_filtered(wc_hits(h, 0))
}

/// Raw captures of one listing entry.
struct WcRawHit {
    cover: Vec<u8>,
    url: Vec<u8>,
    title_raw: Vec<u8>,
}

/// Executable counterpart of `WcStep`.
enum WcStepE {
    Hit(WcRawHit, usize),
    Skip(usize),
    Stop,
}

/// The executable step agrees with the specification step.
spec fn wc_step_ok(h: Seq<u8>, art: int, r: WcStepE) -> bool {
    match r {
        WcStepE::Hit(raw, next) => {
            &&& wc_try_at(h, art) == WcStep::Hit(
                WcHit {
                    cover: raw.cover@,
                    url: raw.url@,
                    title_raw: raw.title_raw@,
                    next: next as int,
                },
            )
            &&& art < next <= h.len()
        },
        WcStepE::Skip(q) => wc_try_at(h, art) == WcStep::Skip(q as int) && art < q <= h.len(),
        WcStepE::Stop => wc_try_at(h, art) == WcStep::Stop,
    }
}

/// Tries one `<article` block, mirroring `wc_try_at`.
#[verifier::rlimit(60)]
fn wc_try_at_exec(h: &[u8], art: usize) -> (r: WcStepE)
    requires
        art + 8 <= h.len(),
    ensures
        wc_step_ok(h@, art as int, r),
{
    let p_gt = lit_gt();
    let p_nl = lit_nl();
    let p_sec = lit_section_tag();
    let p_img = lit_img();
    let p_src = lit_src();
    let p_quote = lit_quote();
    let p_a = lit_a_open();
    let p_href = lit_href();
    let p_ca = lit_close_a();
    let p_cs = lit_close_section();
    let p_car = lit_close_article();

    let t0 = match find_from(h, &p_gt, art) {
        Some(x) => x,
        None => {
            return WcStepE::Stop;
        },
    };
    let sec = match find_from(h, &p_sec, t0) {
        Some(x) => x,
        None => {
            return WcStepE::Stop;
        },
    };
    match find_from(h, &p_nl, t0) {
        Some(n) => if n < sec {
            return WcStepE::Skip(art + 8);
        },
        None => {},
    }
    let t1 = match find_from(h, &p_gt, sec) {
        Some(x) => x,
        None => {
            return WcStepE::Stop;
        },
    };
    let im = match find_from(h, &p_img, t1) {
        Some(x) => x,
        None => {
            return WcStepE::Stop;
        },
    };
    match find_from(h, &p_nl, t1) {
        Some(n) => if n < im {
            return WcStepE::Skip(art + 8);
        },
        None => {},
    }
    let g2 = match find_from(h, &p_gt, im) {
        Some(x) => x,
        None => {
            return WcStepE::Stop;
        },
    };
    let sq = match find_from(h, &p_src, im) {
        Some(x) => x,
        None => {
            return WcStepE::Stop;
        },
    };
    if sq > g2 {
        return WcStepE::Skip(art + 8);
    }
    let cs = sq + 5;
    let q3 = match find_from(h, &p_quote, cs) {
        Some(x) => x,
        None => {
            return WcStepE::Stop;
        },
    };
    let t2 = match find_from(h, &p_gt, q3) {
        Some(x) => x,
        None => {
            return WcStepE::Stop;
        },
    };
    let a = match find_from(h, &p_a, t2) {
        Some(x) => x,
        None => {
            return WcStepE::Stop;
        },
    };
    match find_from(h, &p_nl, t2) {
        Some(n) => if n < a {
            return WcStepE::Skip(art + 8);
        },
        None => {},
    }
    let g3 = match find_from(h, &p_gt, a) {
        Some(x) => x,
        None => {
            return WcStepE::Stop;
        },
    };
    let hq = match find_from(h, &p_href, a) {
        Some(x) => x,
        None => {
            return WcStepE::Stop;
        },
    };
    if hq > g3 {
        return WcStepE::Skip(art + 8);
    }
    let us = hq + 6;
    let q4 = match find_from(h, &p_quote, us) {
        Some(x) => x,
        None => {
            return WcStepE::Stop;
        },
    };
    let t3 = match find_from(h, &p_gt, q4) {
        Some(x) => x,
        None => {
            return WcStepE::Stop;
        },
    };
    let ca = match find_from(h, &p_ca, t3) {
        Some(x) => x,
        None => {
            return WcStepE::Stop;
        },
    };
    match find_from(h, &p_nl, t3) {
        Some(n) => if n < ca {
            return WcStepE::Skip(art + 8);
        },
        None => {},
    }
    let cs2 = match find_from(h, &p_cs, ca) {
        Some(x) => x,
        None => {
            return WcStepE::Stop;
        },
    };
    match find_from(h, &p_nl, ca) {
        Some(n) => if n < cs2 {
            return WcStepE::Skip(art + 8);
        },
        None => {},
    }
    let car = match find_from(h, &p_car, cs2) {
        Some(x) => x,
        None => {
            return WcStepE::Stop;
        },
    };
    match find_from(h, &p_nl, cs2) {
        Some(n) => if n < car {
            return WcStepE::Skip(art + 8);
        },
        None => {},
    }
    let raw = WcRawHit {
        cover: sub_vec(h, cs, q3),
        url: sub_vec(h, us, q4),
        title_raw: sub_vec(h, t3 + 1, ca),
    };
    WcStepE::Hit(raw, car + 10)
}

/// Finds the next listing entry at or after `p`, mirroring `wc_next_hit`.
fn wc_next_hit_exec(h: &[u8], p: usize) -> (r: Option<(WcRawHit, usize)>)
    ensures
        match r {
            Some(pair) => {
                &&& wc_next_hit(h@, p as int) == Some(
                    WcHit {
                        cover: pair.0.cover@,
                        url: pair.0.url@,
                        title_raw: pair.0.title_raw@,
                        next: pair.1 as int,
                    },
                )
                &&& p < pair.1 <= h.len()
            },
            None => wc_next_hit(h@, p as int) is None,
        },
{
    let p_art = lit_article();
    let mut cur: usize = p;
    loop
        invariant
            p <= cur,
            p_art@ == pat_article(),
            wc_next_hit(h@, p as int) == wc_next_hit(h@, cur as int),
        decreases h.len() - cur,
    {
        let art = match find_from(h, &p_art, cur) {
            Some(x) => x,
            None => {
                return None;
            },
        };
        match wc_try_at_exec(h, art) {
            WcStepE::Hit(raw, next) => {
                return Some((raw, next));
            },
            WcStepE::Skip(q) => {
                cur = q;
            },
            WcStepE::Stop => {
                return None;
            },
        }
    }
}

/// Computes the displayed title of one raw entry.
fn wc_title_of(raw_title: &[u8]) -> (r: Vec<u8>)
    ensures
        r@ == wc_hit_title(
            WcHit { cover: Seq::empty(), url: Seq::empty(), title_raw: raw_title@, next: 0 },
        ),
{
    let t0 = trim(raw_title);
    let t = decode_html_entities(t0.as_slice());
    let p_off = lit_official();
    if starts_with(t.as_slice(), &p_off) {
        let rest = trim(&t.as_slice()[9..t.len()]);
        assert(t@.subrange(9, t@.len() as int) =~= t@.skip(9));
        rest
    } else {
        t
    }
}

/// Computes the id of one raw entry: the URL with the base stripped.
fn wc_id_of(url: &[u8]) -> (r: Vec<u8>)
    ensures
        r@ == wc_strip_base(url@),
{
    let base = lit_wc_base();
    if starts_with(url, &base) {
        let r = sub_vec(url, 23, url.len());
        assert(r@ =~= wc_strip_base(url@));
        r
    } else {
        Vec::new()
    }
}

/// Extracts the search results of one listing response. Entries whose URL
/// points outside the source or whose title is empty are dropped.
pub fn parse_search_results(html: &[u8], page: i32) -> (r: SearchListing)
    ensures
        search_results_view(r.results@) == wc_search_seq(html@),
        r.has_more == (wc_search_seq(html@).len() >= WC_PAGE_SIZE),
        r.page == page,
{
    let mut results: Vec<SearchResult> = Vec::new();
    let mut p: usize = 0;
    let mut done: bool = false;
    while !done
        invariant
            p <= html.len(),
            search_results_view(results@) + (if done {
                Seq::<SearchResultView>::empty()
            } else {
                wc_search_filtered(wc_hits(html@, p as int))
            }) == wc_search_seq(html@),
        decreases html.len() - p + (if done {
            0int
        } else {
            1int
        }),
    {
        match wc_next_hit_exec(html, p) {
            Some((raw, next)) => {
                let ghost hit = WcHit {
                    cover: raw.cover@,
                    url: raw.url@,
                    title_raw: raw.title_raw@,
                    next: next as int,
                };
                proof {
                    assert(wc_hits(html@, p as int) =~= seq![hit] + wc_hits(html@, next as int));
                    assert((seq![hit] + wc_hits(html@, next as int)).drop_first() =~= wc_hits(
                        html@,
                        next as int,
                    ));
                }
                let title = wc_title_of(raw.title_raw.as_slice());
                let id = wc_id_of(raw.url.as_slice());
                assert(title@ == wc_hit_title(hit));
                assert(id@ == wc_strip_base(hit.url));
                if id.len() > 0 && title.len() > 0 {
                    let sr = SearchResult {
                        id,
                        title,
                        author: Vec::new(),
                        description: Vec::new(),
                        cover_url: raw.cover,
                        status: MangaStatus::Unknown,
                        source: SourceKind::WeebCentral,
                    };
                    assert(sr@ == wc_hit_view(hit));
                    proof {
                        lemma_search_views_push(results@, sr);
                        assert(search_results_view(results@.push(sr)) + wc_search_filtered(
                            wc_hits(html@, next as int),
                        ) =~= search_results_view(results@) + wc_search_filtered(
                            wc_hits(html@, p as int),
                        ));
                    }
                    results.push(sr);
                } else {
                    proof {
                        assert(!wc_keep(hit));
                        assert(search_results_view(results@) + wc_search_filtered(
                            wc_hits(html@, next as int),
                        ) =~= search_results_view(results@) + wc_search_filtered(
                            wc_hits(html@, p as int),
                        ));
                    }
                }
                p = next;
            },
            None => {
                proof {
                    assert(wc_hits(html@, p as int) =~= Seq::<WcHit>::empty());
                    assert(search_results_view(results@) + wc_search_filtered(
                        wc_hits(html@, p as int),
                    ) =~= search_results_view(results@));
                }
                done = true;
            },
        }
    }
    assert(search_results_view(results@) =~= search_results_view(results@) + Seq::<
        SearchResultView,
    >::empty());
    assert(wc_search_seq(html@).len() == results@.len());
    let has_more = results.len() >= WC_PAGE_SIZE;
    SearchListing { results, has_more, page }
}

// ---------------------------------------------------------------------------
// Manga details
// ---------------------------------------------------------------------------

/// The raw title capture: the text of the first `<h1>` heading, when that
/// heading is closed by `</h1>` and not empty.
pub open spec fn wc_title_opt(h: Seq<u8>) -> Option<Seq<u8>> {
    match spec_find(h, pat_h1(), 0) {
        None => None,
        Some(a) => match spec_find(h, pat_gt(), a) {
            None => None,
            Some(t) => match spec_find(h, pat_lt(), t + 1) {
                None => None,
                Some(l) => if l > t + 1 && is_match_at(h, pat_close_h1(), l) {
                    Some(h.subrange(t + 1, l))
                } else {
                    None
                },
            },
        },
    }
}

/// The cover capture: the `src` of the first `<img>` tag.
pub open spec fn wc_find_cover(h: Seq<u8>, p: int) -> Option<Seq<u8>>
    decreases h.len() - p,
    via wc_find_cover_dec
{
    match spec_find(h, pat_img(), p) {
        None => None,
        Some(i) => match (spec_find(h, pat_gt(), i), spec_find(h, pat_src(), i)) {
            (Some(g), Some(sq)) => if sq > g {
                if i < i + 4 <= h.len() {
                    wc_find_cover(h, i + 4)
                } else {
                    None
                }
            } else {
                let cs = sq + 5;
                match spec_find(h, pat_quote(), cs) {
                    None => None,
                    Some(q) => Some(h.subrange(cs, q)),
                }
            },
            _ => None,
        },
    }
}

#[via_fn]
proof fn wc_find_cover_dec(h: Seq<u8>, p: int) {
    crate::text::lemma_spec_find_bounds(h, pat_img(), p);
}

/// The description capture: a `Description` label, an optional quote, then
/// `>` and a `<p>` paragraph whose text runs to `</p>`; trimmed and decoded.
pub open spec fn wc_find_desc(h: Seq<u8>, p: int) -> Option<Seq<u8>>
    decreases h.len() - p,
    via wc_find_desc_dec
{
    match spec_find(h, pat_description_cap(), p) {
        None => None,
        Some(d) => {
            let q = if d + 11 < h.len() && (h[d + 11] == 34 || h[d + 11] == 39) {
                d + 12
            } else {
                d + 11
            };
            let ws = spec_ltrim_idx(h, q);
            let hit = if ws < h.len() && h[ws] == 62 {
                let ws2 = spec_ltrim_idx(h, ws + 1);
                if is_match_at(h, pat_p_open(), ws2) {
                    let start = ws2 + 3;
                    match spec_find(h, pat_lt(), start) {
                        None => None,
                        Some(e) => if e > start && is_match_at(h, pat_close_p(), e) {
                            Some(wc_decode(spec_trim(h.subrange(start, e))))
                        } else {
                            None
                        },
                    }
                } else {
                    None
                }
            } else {
                None
            };
            match hit {
                Some(x) => Some(x),
                None => if p < d + 11 <= h.len() {
                    wc_find_desc(h, d + 11)
                } else {
                    None
                },
            }
        },
    }
}

#[via_fn]
proof fn wc_find_desc_dec(h: Seq<u8>, p: int) {
    crate::text::lemma_spec_find_bounds(h, pat_description_cap(), p);
}

/// The author capture: an `Author` label, an optional quote, whitespace and
/// `>`, one complete tag, then the following text; trimmed and decoded.
pub open spec fn wc_find_author(h: Seq<u8>, p: int) -> Option<Seq<u8>>
    decreases h.len() - p,
    via wc_find_author_dec
{
    match spec_find(h, pat_author_word(), p) {
        None => None,
        Some(a) => {
            let q = if a + 6 < h.len() && (h[a + 6] == 34 || h[a + 6] == 39) {
                a + 7
            } else {
                a + 6
            };
            let ws = spec_ltrim_idx(h, q);
            let hit = if ws < h.len() && h[ws] == 62 {
                match spec_find(h, pat_lt(), ws + 1) {
                    None => None,
                    Some(l1) => match spec_find(h, pat_gt(), l1) {
                        None => None,
                        Some(g1) => {
                            let e = match spec_find(h, pat_lt(), g1 + 1) {
                                None => h.len() as int,
                                Some(x) => x,
                            };
                            if e > g1 + 1 {
                                Some(wc_decode(spec_trim(h.subrange(g1 + 1, e))))
                            } else {
                                None
                            }
                        },
                    },
                }
            } else {
                None
            };
            match hit {
                Some(x) => Some(x),
                None => if p < a + 6 <= h.len() {
                    wc_find_author(h, a + 6)
                } else {
                    None
                },
            }
        },
    }
}

#[via_fn]
proof fn wc_find_author_dec(h: Seq<u8>, p: int) {
    crate::text::lemma_spec_find_bounds(h, pat_author_word(), p);
}

/// The status markers this source uses, checked in order.
pub open spec fn wc_status(h: Seq<u8>) -> MangaStatus {
    if spec_find(h, pat_complete_word(), 0) is Some {
        MangaStatus::Completed
    } else if spec_find(h, pat_ongoing_word(), 0) is Some {
        MangaStatus::Ongoing
    } else if spec_find(h, pat_hiatus_word(), 0) is Some {
        MangaStatus::Hiatus
    } else if spec_find(h, pat_canceled_word(), 0) is Some {
        MangaStatus::Canceled
    } else {
        MangaStatus::Unknown
    }
}

/// Content tags that mark a title as not safe for work.
pub open spec fn wc_nsfw(h: Seq<u8>) -> bool {
    ||| spec_find(h, pat_adult_word(), 0) is Some
    ||| spec_find(h, pat_hentai_word(), 0) is Some
    ||| spec_find(h, pat_mature_word(), 0) is Some
}

/// The manga details extracted from a detail page; every absent pattern
/// degrades to its documented default: title `Unknown`, other text fields
/// empty, status `Unknown` without a marker, nsfw from content tags.
pub open spec fn wc_details(h: Seq<u8>, manga_id: Seq<u8>) -> MangaDetailView {
    MangaDetailView {
        id: manga_id,
        title: match wc_title_opt(h) {
            Some(t) => wc_decode(spec_trim(t)),
            None => pat_unknown_word(),
        },
        author: match wc_find_author(h, 0) {
            Some(x) => x,
            None => Seq::empty(),
        },
        description: match wc_find_desc(h, 0) {
            Some(x) => x,
            None => Seq::empty(),
        },
        cover_url: match wc_find_cover(h, 0) {
            Some(x) => x,
            None => Seq::empty(),
        },
        status: wc_status(h),
        nsfw: wc_nsfw(h),
        source: SourceKind::WeebCentral,
    }
}

/// Fallback completeness: markup in which no field pattern matches yields
/// the fully default detail record, without error.
pub proof fn lemma_wc_details_fallback(h: Seq<u8>, manga_id: Seq<u8>)
    requires
        wc_title_opt(h) is None,
        wc_find_author(h, 0) is None,
        wc_find_desc(h, 0) is None,
        wc_find_cover(h, 0) is None,
        spec_find(h, pat_complete_word(), 0) is None,
        spec_find(h, pat_ongoing_word(), 0) is None,
        spec_find(h, pat_hiatus_word(), 0) is None,
        spec_find(h, pat_canceled_word(), 0) is None,
        !wc_nsfw(h),
    ensures
        wc_details(h, manga_id) == (MangaDetailView {
            id: manga_id,
            title: pat_unknown_word(),
            author: Seq::empty(),
            description: Seq::empty(),
            cover_url: Seq::empty(),
            status: MangaStatus::Unknown,
            nsfw: false,
            source: SourceKind::WeebCentral,
        }),
{
}

/// Extracts the details of one manga's page; every missing field falls back
/// to its documented default.
#[verifier::rlimit(60)]
pub fn parse_manga_details(html: &[u8], manga_id: &[u8]) -> (r: MangaDetail)
    ensures
        r@ == wc_details(html@, manga_id@),
{
    let p_gt = lit_gt();
    let p_lt = lit_lt();
    let p_quote = lit_quote();
    // title
    let p_h1 = lit_h1();
    let p_ch1 = lit_close_h1();
    let p_unknown = lit_unknown_word();
    let mut raw_title: Option<Vec<u8>> = None;
    match find_from(html, &p_h1, 0) {
        None => {},
        Some(a) => {
            match find_from(html, &p_gt, a) {
                None => {},
                Some(t) => {
                    if t < html.len() {
                        match find_from(html, &p_lt, t + 1) {
                            None => {},
                            Some(l) => {
                                if l > t + 1 && match_at(html, &p_ch1, l) {
                                    raw_title = Some(sub_vec(html, t + 1, l));
                                }
                            },
                        }
                    } else {
                        assert(spec_find(html@, pat_lt(), t + 1 as int) is None);
                    }
                },
            }
        },
    }
    let title: Vec<u8> = match raw_title {
        Some(v) => {
            let tv = trim(v.as_slice());
            decode_html_entities(tv.as_slice())
        },
        None => to_vec(&p_unknown),
    };
    assert(title@ == (match wc_title_opt(html@) {
        Some(t) => wc_decode(spec_trim(t)),
        None => pat_unknown_word(),
    }));
    // cover: the first `<img` with a `src` inside the tag
    let p_img = lit_img();
    let p_src = lit_src();
    let mut cover_url: Vec<u8> = Vec::new();
    let mut cp: usize = 0;
    let mut cdone: bool = false;
    while !cdone
        invariant
            cp <= html.len(),
            p_img@ == pat_img(),
            p_gt@ == pat_gt(),
            p_src@ == pat_src(),
            p_quote@ == pat_quote(),
            !cdone ==> wc_find_cover(html@, 0) == wc_find_cover(html@, cp as int),
            !cdone ==> cover_url@ == Seq::<u8>::empty(),
            cdone ==> cover_url@ == (match wc_find_cover(html@, 0) {
                Some(x) => x,
                None => Seq::<u8>::empty(),
            }),
        decreases html.len() - cp + (if cdone {
            0int
        } else {
            1int
        }),
    {
        match find_from(html, &p_img, cp) {
            None => {
                cdone = true;
            },
            Some(i) => {
                let g = match find_from(html, &p_gt, i) {
                    Some(x) => Some(x),
                    None => None,
                };
                let sq = match find_from(html, &p_src, i) {
                    Some(x) => Some(x),
                    None => None,
                };
                match (g, sq) {
                    (Some(gv), Some(sqv)) => {
                        if sqv > gv {
                            cp = i + 4;
                        } else {
                            let cs = sqv + 5;
                            match find_from(html, &p_quote, cs) {
                                None => {
                                    cdone = true;
                                },
                                Some(q) => {
                                    cover_url = sub_vec(html, cs, q);
                                    cdone = true;
                                },
                            }
                        }
                    },
                    _ => {
                        cdone = true;
                    },
                }
            },
        }
    }
    // description
    let p_desc = lit_description_cap();
    let p_p = lit_p_open();
    let p_cp = lit_close_p();
    let mut description: Vec<u8> = Vec::new();
    let mut dp: usize = 0;
    let mut ddone: bool = false;
    while !ddone
        invariant
            dp <= html.len(),
            p_desc@ == pat_description_cap(),
            p_gt@ == pat_gt(),
            p_lt@ == pat_lt(),
            p_p@ == pat_p_open(),
            p_cp@ == pat_close_p(),
            !ddone ==> wc_find_desc(html@, 0) == wc_find_desc(html@, dp as int),
            !ddone ==> description@ == Seq::<u8>::empty(),
            ddone ==> description@ == (match wc_find_desc(html@, 0) {
                Some(x) => x,
                None => Seq::<u8>::empty(),
            }),
        decreases html.len() - dp + (if ddone {
            0int
        } else {
            1int
        }),
    {
        match find_from(html, &p_desc, dp) {
            None => {
                ddone = true;
            },
            Some(d) => {
                let q: usize = if d + 11 < html.len() && (html[d + 11] == 34 || html[d + 11]
                    == 39) {
                    d + 12
                } else {
                    d + 11
                };
                let ws = ws_end(html, q);
                let mut hit = false;
                if ws < html.len() && html[ws] == 62 {
                    let ws2 = ws_end(html, ws + 1);
                    if match_at(html, &p_p, ws2) {
                        let start = ws2 + 3;
                        match find_from(html, &p_lt, start) {
                            None => {},
                            Some(e) => {
                                if e > start && match_at(html, &p_cp, e) {
                                    let tv = trim(&html[start..e]);
                                    description = decode_html_entities(tv.as_slice());
                                    hit = true;
                                }
                            },
                        }
                    }
                }
                if hit {
                    assert(wc_find_desc(html@, dp as int) == Some(description@));
                    ddone = true;
                } else {
                    assert(wc_find_desc(html@, dp as int) == wc_find_desc(
                        html@,
                        d + 11 as int,
                    ));
                    description = Vec::new();
                    dp = d + 11;
                }
            },
        }
    }
    // author
    let p_author = lit_author_word();
    let mut author: Vec<u8> = Vec::new();
    let mut ap: usize = 0;
    let mut adone: bool = false;
    while !adone
        invariant
            ap <= html.len(),
            p_author@ == pat_author_word(),
            p_gt@ == pat_gt(),
            p_lt@ == pat_lt(),
            !adone ==> wc_find_author(html@, 0) == wc_find_author(html@, ap as int),
            !adone ==> author@ == Seq::<u8>::empty(),
            adone ==> author@ == (match wc_find_author(html@, 0) {
                Some(x) => x,
                None => Seq::<u8>::empty(),
            }),
        decreases html.len() - ap + (if adone {
            0int
        } else {
            1int
        }),
    {
        match find_from(html, &p_author, ap) {
            None => {
                adone = true;
            },
            Some(a) => {
                let q: usize = if a + 6 < html.len() && (html[a + 6] == 34 || html[a + 6] == 39) {
                    a + 7
                } else {
                    a + 6
                };
                let ws = ws_end(html, q);
                let mut hit = false;
                if ws < html.len() && html[ws] == 62 {
                    match find_from(html, &p_lt, ws + 1) {
                        None => {},
                        Some(l1) => match find_from(html, &p_gt, l1) {
                            None => {},
                            Some(g1) => {
                                let e: usize = if g1 < html.len() {
                                    match find_from(html, &p_lt, g1 + 1) {
                                        None => html.len(),
                                        Some(x) => x,
                                    }
                                } else {
                                    assert(spec_find(html@, pat_lt(), g1 + 1 as int) is None);
                                    html.len()
                                };
                                if e > g1 + 1 {
                                    let tv = trim(&html[g1 + 1..e]);
                                    author = decode_html_entities(tv.as_slice());
                                    hit = true;
                                }
                            },
                        },
                    }
                }
                if hit {
                    assert(wc_find_author(html@, ap as int) == Some(author@));
                    adone = true;
                } else {
                    assert(wc_find_author(html@, ap as int) == wc_find_author(
                        html@,
                        a + 6 as int,
                    ));
                    author = Vec::new();
                    ap = a + 6;
                }
            },
        }
    }
    // status and content tags
    let p_complete = lit_complete_word();
    let p_ongoing = lit_ongoing_word();
    let p_hiatus = lit_hiatus_word();
    let p_canceled = lit_canceled_word();
    let status = if contains(html, &p_complete) {
        MangaStatus::Completed
    } else if contains(html, &p_ongoing) {
        MangaStatus::Ongoing
    } else if contains(html, &p_hiatus) {
        MangaStatus::Hiatus
    } else if contains(html, &p_canceled) {
        MangaStatus::Canceled
    } else {
        MangaStatus::Unknown
    };
    let p_adult = lit_adult_word();
    let p_hentai = lit_hentai_word();
    let p_mature = lit_mature_word();
    let nsfw = contains(html, &p_adult) || contains(html, &p_hentai) || contains(
        html,
        &p_mature,
    );
    MangaDetail {
        id: to_vec(manga_id),
        title,
        author,
        description,
        cover_url,
        status,
        nsfw,
        source: SourceKind::WeebCentral,
    }
}

// ---------------------------------------------------------------------------
// Chapter list
// ---------------------------------------------------------------------------

/// One chapter entry as found in the markup.
pub ghost struct WcCh {
    pub url: Seq<u8>,
    pub title_raw: Seq<u8>,
    pub next: int,
}

/// Outcome of trying one `<div` chapter anchor.
pub ghost enum WcChStep {
    Hit(WcCh),
    Skip(int),
    Stop,
}

/// Tries one chapter block at `d`: a `<div` whose tag holds `x-data`, then
/// on the same line an `<a` with an `href` capture and a `<span>` title.
pub open spec fn wc_ch_try_at(h: Seq<u8>, d: int) -> WcChStep {
    match (spec_find(h, pat_gt(), d), spec_find(h, pat_x_data(), d)) {
        (Some(g), Some(xd)) => if xd > g {
            WcChStep::Skip(d + 4)
        } else {
            wc_ch_anchor(h, d, g)
        },
        _ => WcChStep::Stop,
    }
}

/// Second stage: the chapter link anchor.
pub open spec fn wc_ch_anchor(h: Seq<u8>, d: int, t1: int) -> WcChStep {
    match (spec_find(h, pat_a_open(), t1), spec_find(h, pat_nl(), t1)) {
        (None, _) => WcChStep::Stop,
        (Some(a), nl) => if opt_lt(nl, a) {
            WcChStep::Skip(d + 4)
        } else {
            match (spec_find(h, pat_gt(), a), spec_find(h, pat_href(), a)) {
                (Some(g2), Some(hq)) => if hq > g2 {
                    WcChStep::Skip(d + 4)
                } else {
                    let us = hq + 6;
                    match spec_find(h, pat_quote(), us) {
                        None => WcChStep::Stop,
                        Some(q2) => match spec_find(h, pat_gt(), q2) {
                            None => WcChStep::Stop,
                            Some(t2) => wc_ch_span(h, d, h.subrange(us, q2), t2),
                        },
                    }
                },
                _ => WcChStep::Stop,
            }
        },
    }
}

/// Third stage: the `<span>` holding the chapter label, closed by `</span>`.
pub open spec fn wc_ch_span(h: Seq<u8>, d: int, url: Seq<u8>, t2: int) -> WcChStep {
    match (spec_find(h, pat_span_tag(), t2), spec_find(h, pat_nl(), t2)) {
        (None, _) => WcChStep::Stop,
        (Some(sp), nl) => if opt_lt(nl, sp) {
            WcChStep::Skip(d + 4)
        } else {
            match spec_find(h, pat_gt(), sp) {
                None => WcChStep::Stop,
                Some(t3) => match spec_find(h, pat_lt(), t3 + 1) {
                    None => WcChStep::Stop,
                    Some(e) => if is_match_at(h, pat_close_span(), e) {
                        WcChStep::Hit(WcCh { url, title_raw: h.subrange(t3 + 1, e), next: e + 7 })
                    } else {
                        WcChStep::Skip(d + 4)
                    },
                },
            }
        },
    }
}

/// The first chapter entry found at or after `p`.
pub open spec fn wc_next_ch(h: Seq<u8>, p: int) -> Option<WcCh>
    decreases h.len() - p,
    via wc_next_ch_dec
{
    match spec_find(h, pat_div(), p) {
        None => None,
        Some(d) => match wc_ch_try_at(h, d) {
            WcChStep::Hit(x) => Some(x),
            WcChStep::Stop => None,
            WcChStep::Skip(q) => if d < q <= h.len() {
                wc_next_ch(h, q)
            } else {
                None
            },
        },
    }
}

#[via_fn]
proof fn wc_next_ch_dec(h: Seq<u8>, p: int) {
    crate::text::lemma_spec_find_bounds(h, pat_div(), p);
}

/// All chapter entries found from `p` on, in input order.
pub open spec fn wc_chs(h: Seq<u8>, p: int) -> Seq<WcCh>
    decreases h.len() - p,
{
    match wc_next_ch(h, p) {
        None => Seq::empty(),
        Some(x) => if p < x.next <= h.len() {
            seq![x] + wc_chs(h, x.next)
        } else {
            seq![x]
        },
    }
}

/// The chapter-number fallback when the label holds no number: the entry's
/// 0-based scan index, saturated like every parsed number.
pub open spec fn wc_fallback_num(idx: int) -> int {
    (if idx > NUM_CAP {
        NUM_CAP as int
    } else {
        idx
    }) * 1000
}

/// The chapter number of one entry, in thousandths: the token after the last
/// space of the trimmed label when that token is a decimal number, the scan
/// index otherwise.
pub open spec fn wc_ch_num(x: WcCh, idx: int) -> int {
    let t = spec_trim(x.title_raw);
    match spec_rlast(t, 32u8) {
        Some(sp) => match spec_parse_decimal(t.subrange(sp + 1, t.len() as int)) {
            Some(m) => m,
            None => wc_fallback_num(idx),
        },
        None => wc_fallback_num(idx),
    }
}

/// The chapter view built from one entry at scan index `idx`: labels that
/// name a `Volume` carry their number as the volume number; an empty label
/// is rebuilt as `Chapter N`.
pub open spec fn wc_ch_view(x: WcCh, idx: int, manga_id: Seq<u8>) -> ChapterView {
    let t = spec_trim(x.title_raw);
    let num = wc_ch_num(x, idx);
    ChapterView {
        id: wc_strip_base(x.url),
        manga_id: manga_id,
        source: SourceKind::WeebCentral,
        number_milli: num as u64,
        title: if t.len() == 0 {
            pat_chapter_space() + spec_render_milli(num as nat)
        } else {
            t
        },
        language: pat_lang_en(),
        volume_milli: if spec_find(t, pat_volume_word(), 0) is Some {
            Some(num as u64)
        } else {
            None
        },
        published_at: None,
        is_read: false,
        pages: 0,
    }
}

/// The chapters built from a hit sequence starting at scan index `idx`;
/// entries whose URL points outside the source are dropped, but still count
/// an index.
pub open spec fn wc_build_chapters(hits: Seq<WcCh>, idx: int, manga_id: Seq<u8>) -> Seq<
    ChapterView,
>
    decreases hits.len(),
{
    if hits.len() == 0 {
        Seq::empty()
    } else {
        (if wc_strip_base(hits[0].url).len() > 0 {
            seq![wc_ch_view(hits[0], idx, manga_id)]
        } else {
            Seq::<ChapterView>::empty()
        }) + wc_build_chapters(hits.drop_first(), idx + 1, manga_id)
    }
}

/// Every chapter extracted from a chapter-list response, in scan order
/// (unsorted).
pub open spec fn wc_chapter_seq(h: Seq<u8>, manga_id: Seq<u8>) -> Seq<ChapterView> {
    wc_build_chapters(wc_chs(h, 0), 0, manga_id)
}

/// Raw captures of one chapter entry.
struct WcChRaw {
    url: Vec<u8>,
    title_raw: Vec<u8>,
}

/// Executable counterpart of `WcChStep`.
enum WcChStepE {
    Hit(WcChRaw, usize),
    Skip(usize),
    Stop,
}

/// The executable chapter step agrees with the specification step.
spec fn wc_ch_step_ok(h: Seq<u8>, d: int, r: WcChStepE) -> bool {
    match r {
        WcChStepE::Hit(raw, next) => {
            &&& wc_ch_try_at(h, d) == WcChStep::Hit(
                WcCh { url: raw.url@, title_raw: raw.title_raw@, next: next as int },
            )
            &&& d < next <= h.len()
        },
        WcChStepE::Skip(q) => wc_ch_try_at(h, d) == WcChStep::Skip(q as int) && d < q <= h.len(),
        WcChStepE::Stop => wc_ch_try_at(h, d) == WcChStep::Stop,
    }
}

/// Tries one chapter block, mirroring `wc_ch_try_at`.
#[verifier::rlimit(60)]
fn wc_ch_try_at_exec(h: &[u8], d: usize) -> (r: WcChStepE)
    requires
        d + 4 <= h.len(),
    ensures
        wc_ch_step_ok(h@, d as int, r),
{
    let p_gt = lit_gt();
    let p_xd = lit_x_data();
    let p_nl = lit_nl();
    let p_a = lit_a_open();
    let p_href = lit_href();
    let p_quote = lit_quote();
    let p_span = lit_span_tag();
    let p_lt = lit_lt();
    let p_cspan = lit_close_span();

    let g = match find_from(h, &p_gt, d) {
        Some(x) => x,
        None => {
            return WcChStepE::Stop;
        },
    };
    let xd = match find_from(h, &p_xd, d) {
        Some(x) => x,
        None => {
            return WcChStepE::Stop;
        },
    };
    if xd > g {
        return WcChStepE::Skip(d + 4);
    }
    let a = match find_from(h, &p_a, g) {
        Some(x) => x,
        None => {
            return WcChStepE::Stop;
        },
    };
    match find_from(h, &p_nl, g) {
        Some(n) => if n < a {
            return WcChStepE::Skip(d + 4);
        },
        None => {},
    }
    let g2 = match find_from(h, &p_gt, a) {
        Some(x) => x,
        None => {
            return WcChStepE::Stop;
        },
    };
    let hq = match find_from(h, &p_href, a) {
        Some(x) => x,
        None => {
            return WcChStepE::Stop;
        },
    };
    if hq > g2 {
        return WcChStepE::Skip(d + 4);
    }
    let us = hq + 6;
    let q2 = match find_from(h, &p_quote, us) {
        Some(x) => x,
        None => {
            return WcChStepE::Stop;
        },
    };
    let t2 = match find_from(h, &p_gt, q2) {
        Some(x) => x,
        None => {
            return WcChStepE::Stop;
        },
    };
    let sp = match find_from(h, &p_span, t2) {
        Some(x) => x,
        None => {
            return WcChStepE::Stop;
        },
    };
    match find_from(h, &p_nl, t2) {
        Some(n) => if n < sp {
            return WcChStepE::Skip(d + 4);
        },
        None => {},
    }
    let t3 = match find_from(h, &p_gt, sp) {
        Some(x) => x,
        None => {
            return WcChStepE::Stop;
        },
    };
    let e = match find_from(h, &p_lt, t3 + 1) {
        Some(x) => x,
        None => {
            return WcChStepE::Stop;
        },
    };
    if match_at(h, &p_cspan, e) {
        let raw = WcChRaw { url: sub_vec(h, us, q2), title_raw: sub_vec(h, t3 + 1, e) };
        WcChStepE::Hit(raw, e + 7)
    } else {
        WcChStepE::Skip(d + 4)
    }
}

/// Finds the next chapter entry at or after `p`, mirroring `wc_next_ch`.
fn wc_next_ch_exec(h: &[u8], p: usize) -> (r: Option<(WcChRaw, usize)>)
    ensures
        match r {
            Some(pair) => {
                &&& wc_next_ch(h@, p as int) == Some(
                    WcCh { url: pair.0.url@, title_raw: pair.0.title_raw@, next: pair.1 as int },
                )
                &&& p < pair.1 <= h.len()
            },
            None => wc_next_ch(h@, p as int) is None,
        },
{
    let p_div = lit_div();
    let mut cur: usize = p;
    loop
        invariant
            p <= cur,
            p_div@ == pat_div(),
            wc_next_ch(h@, p as int) == wc_next_ch(h@, cur as int),
        decreases h.len() - cur,
    {
        let d = match find_from(h, &p_div, cur) {
            Some(x) => x,
            None => {
                return None;
            },
        };
        match wc_ch_try_at_exec(h, d) {
            WcChStepE::Hit(raw, next) => {
                return Some((raw, next));
            },
            WcChStepE::Skip(q) => {
                cur = q;
            },
            WcChStepE::Stop => {
                return None;
            },
        }
    }
}

/// Extracts the chapter list of a chapter-list response, sorted by
/// descending chapter number; ties keep their scan order.
pub fn parse_chapters(html: &[u8], manga_id: &[u8]) -> (r: Vec<Chapter>)
    ensures
        chapters_view(r@) == spec_sort_desc(wc_chapter_seq(html@, manga_id@)),
        sorted_desc(chapters_view(r@)),
{
    let mut found: Vec<Chapter> = Vec::new();
    let mut p: usize = 0;
    let mut idx: usize = 0;
    let mut done: bool = false;
    while !done
        invariant
            p <= html.len(),
            idx <= p,
            chapters_view(found@) + (if done {
                Seq::<ChapterView>::empty()
            } else {
                wc_build_chapters(wc_chs(html@, p as int), idx as int, manga_id@)
            }) == wc_chapter_seq(html@, manga_id@),
        decreases html.len() - p + (if done {
            0int
        } else {
            1int
        }),
    {
        match wc_next_ch_exec(html, p) {
            Some((raw, next)) => {
                let ghost hit = WcCh {
                    url: raw.url@,
                    title_raw: raw.title_raw@,
                    next: next as int,
                };
                proof {
                    assert(wc_chs(html@, p as int) =~= seq![hit] + wc_chs(html@, next as int));
                    assert((seq![hit] + wc_chs(html@, next as int)).drop_first() =~= wc_chs(
                        html@,
                        next as int,
                    ));
                }
                let t = trim(raw.title_raw.as_slice());
                // the chapter number: the token after the last space, when
                // it is a decimal number
                let fallback: u64 = {
                    let iv = idx as u64;
                    (if iv > NUM_CAP {
                        NUM_CAP
                    } else {
                        iv
                    }) * 1000
                };
                let number: u64 = match rlast(t.as_slice(), 32) {
                    Some(spi) => {
                        let tok = sub_vec(t.as_slice(), spi + 1, t.len());
                        assert(tok@ =~= spec_trim(hit.title_raw).subrange(
                            spi + 1,
                            spec_trim(hit.title_raw).len() as int,
                        ));
                        match parse_decimal(tok.as_slice()) {
                            Some(m) => m,
                            None => fallback,
                        }
                    },
                    None => fallback,
                };
                assert(number == wc_ch_num(hit, idx as int));
                let id = wc_id_of(raw.url.as_slice());
                if id.len() > 0 {
                    let p_vol = lit_volume_word();
                    let volume: Option<u64> = if contains(t.as_slice(), &p_vol) {
                        Some(number)
                    } else {
                        None
                    };
                    let title: Vec<u8> = if t.len() == 0 {
                        let p_chsp = lit_chapter_space();
                        let mut tt: Vec<u8> = Vec::new();
                        push_all(&mut tt, &p_chsp);
                        push_render_milli(&mut tt, number);
                        tt
                    } else {
                        t
                    };
                    let p_en = lit_lang_en();
                    let ch = Chapter {
                        id,
                        manga_id: to_vec(manga_id),
                        source: SourceKind::WeebCentral,
                        number_milli: number,
                        title,
                        language: to_vec(&p_en),
                        volume_milli: volume,
                        published_at: None,
                        is_read: false,
                        pages: 0,
                    };
                    assert(ch@ == wc_ch_view(hit, idx as int, manga_id@));
                    proof {
                        lemma_chapter_views_push(found@, ch);
                        assert(chapters_view(found@.push(ch)) + wc_build_chapters(
                            wc_chs(html@, next as int),
                            idx + 1 as int,
                            manga_id@,
                        ) =~= chapters_view(found@) + wc_build_chapters(
                            wc_chs(html@, p as int),
                            idx as int,
                            manga_id@,
                        ));
                    }
                    found.push(ch);
                } else {
                    proof {
                        assert(chapters_view(found@) + wc_build_chapters(
                            wc_chs(html@, next as int),
                            idx + 1 as int,
                            manga_id@,
                        ) =~= chapters_view(found@) + wc_build_chapters(
                            wc_chs(html@, p as int),
                            idx as int,
                            manga_id@,
                        ));
                    }
                }
                idx = idx + 1;
                p = next;
            },
            None => {
                proof {
                    assert(wc_chs(html@, p as int) =~= Seq::<WcCh>::empty());
                    assert(chapters_view(found@) + wc_build_chapters(
                        wc_chs(html@, p as int),
                        idx as int,
                        manga_id@,
                    ) =~= chapters_view(found@));
                }
                done = true;
            },
        }
    }
    assert(chapters_view(found@) =~= chapters_view(found@) + Seq::<ChapterView>::empty());
    sort_chapters_desc(found)
}

// ---------------------------------------------------------------------------
// Page list
// ---------------------------------------------------------------------------

/// One page image as found in the markup.
pub ghost struct WcPg {
    pub url: Seq<u8>,
    pub next: int,
}

/// Outcome of trying one page-image anchor.
pub ghost enum WcPgStep {
    Hit(WcPg),
    Skip(int),
    Stop,
}

/// Tries one `<img` at `i`: its `src` capture inside the tag, and the tag
/// must close.
pub open spec fn wc_pg_try_at(h: Seq<u8>, i: int) -> WcPgStep {
    match (spec_find(h, pat_gt(), i), spec_find(h, pat_src(), i)) {
        (Some(g), Some(sq)) => if sq > g {
            WcPgStep::Skip(i + 4)
        } else {
            let cs = sq + 5;
            match spec_find(h, pat_quote(), cs) {
                None => WcPgStep::Stop,
                Some(q) => match spec_find(h, pat_gt(), q) {
                    None => WcPgStep::Stop,
                    Some(g2) => WcPgStep::Hit(WcPg { url: h.subrange(cs, q), next: g2 + 1 }),
                },
            }
        },
        _ => WcPgStep::Stop,
    }
}

/// The first page image found at or after `p`.
pub open spec fn wc_next_pg(h: Seq<u8>, p: int) -> Option<WcPg>
    decreases h.len() - p,
    via wc_next_pg_dec
{
    match spec_find(h, pat_img(), p) {
        None => None,
        Some(i) => match wc_pg_try_at(h, i) {
            WcPgStep::Hit(x) => Some(x),
            WcPgStep::Stop => None,
            WcPgStep::Skip(q) => if i < q <= h.len() {
                wc_next_pg(h, q)
            } else {
                None
            },
        },
    }
}

#[via_fn]
proof fn wc_next_pg_dec(h: Seq<u8>, p: int) {
    crate::text::lemma_spec_find_bounds(h, pat_img(), p);
}

/// All page images found from `p` on, in order.
pub open spec fn wc_pgs(h: Seq<u8>, p: int) -> Seq<WcPg>
    decreases h.len() - p,
{
    match wc_next_pg(h, p) {
        None => Seq::empty(),
        Some(x) => if p < x.next <= h.len() {
            seq![x] + wc_pgs(h, x.next)
        } else {
            seq![x]
        },
    }
}

/// True when the URL ends in one of the image-file suffixes this source
/// serves pages under.
pub open spec fn wc_ext_ok(u: Seq<u8>) -> bool {
    ||| (u.len() >= 4 && u.subrange(u.len() - 4, u.len() as int) == pat_ext_jpg())
    ||| (u.len() >= 5 && u.subrange(u.len() - 5, u.len() as int) == pat_ext_jpeg())
    ||| (u.len() >= 4 && u.subrange(u.len() - 4, u.len() as int) == pat_ext_png())
    ||| (u.len() >= 5 && u.subrange(u.len() - 5, u.len() as int) == pat_ext_webp())
}

/// The URLs of the hits whose suffix names an image file.
pub open spec fn wc_filter_ext(hits: Seq<WcPg>) -> Seq<Seq<u8>>
    decreases hits.len(),
{
    if hits.len() == 0 {
        Seq::empty()
    } else {
        (if wc_ext_ok(hits[0].url) {
            seq![hits[0].url]
        } else {
            Seq::<Seq<u8>>::empty()
        }) + wc_filter_ext(hits.drop_first())
    }
}

/// Tries one reader `section` at `s`: its tag must hold `x-data` and then
/// `scroll`, and an `<img` with a `src` capture follows on the same line.
pub open spec fn wc_sp_try_at(h: Seq<u8>, s: int) -> WcPgStep {
    match (spec_find(h, pat_gt(), s), spec_find(h, pat_x_data(), s)) {
        (Some(g), Some(xd)) => if xd > g {
            WcPgStep::Skip(s + 7)
        } else {
            match spec_find(h, pat_scroll_word(), xd) {
                None => WcPgStep::Stop,
                Some(sc) => if sc > g {
                    WcPgStep::Skip(s + 7)
                } else {
                    wc_sp_img(h, s, g)
                },
            }
        },
        _ => WcPgStep::Stop,
    }
}

/// Second stage of the reader-section scan: the `<img` on the same line.
pub open spec fn wc_sp_img(h: Seq<u8>, s: int, t: int) -> WcPgStep {
    match (spec_find(h, pat_img(), t), spec_find(h, pat_nl(), t)) {
        (None, _) => WcPgStep::Stop,
        (Some(im), nl) => if opt_lt(nl, im) {
            WcPgStep::Skip(s + 7)
        } else {
            match (spec_find(h, pat_gt(), im), spec_find(h, pat_src(), im)) {
                (Some(g2), Some(sq)) => if sq > g2 {
                    WcPgStep::Skip(s + 7)
                } else {
                    let cs = sq + 5;
                    match spec_find(h, pat_quote(), cs) {
                        None => WcPgStep::Stop,
                        Some(q) => match spec_find(h, pat_gt(), q) {
                            None => WcPgStep::Stop,
                            Some(g3) => WcPgStep::Hit(
                                WcPg { url: h.subrange(cs, q), next: g3 + 1 },
                            ),
                        },
                    }
                },
                _ => WcPgStep::Stop,
            }
        },
    }
}

/// The first reader-section image found at or after `p`.
pub open spec fn wc_next_sp(h: Seq<u8>, p: int) -> Option<WcPg>
    decreases h.len() - p,
    via wc_next_sp_dec
{
    match spec_find(h, pat_section_word(), p) {
        None => None,
        Some(s) => match wc_sp_try_at(h, s) {
            WcPgStep::Hit(x) => Some(x),
            WcPgStep::Stop => None,
            WcPgStep::Skip(q) => if s < q <= h.len() {
                wc_next_sp(h, q)
            } else {
                None
            },
        },
    }
}

#[via_fn]
proof fn wc_next_sp_dec(h: Seq<u8>, p: int) {
    crate::text::lemma_spec_find_bounds(h, pat_section_word(), p);
}

/// All reader-section images found from `p` on, in order.
pub open spec fn wc_spgs(h: Seq<u8>, p: int) -> Seq<WcPg>
    decreases h.len() - p,
{
    match wc_next_sp(h, p) {
        None => Seq::empty(),
        Some(x) => if p < x.next <= h.len() {
            seq![x] + wc_spgs(h, x.next)
        } else {
            seq![x]
        },
    }
}

/// The URLs of a hit sequence, unfiltered.
pub open spec fn wc_pg_urls(hits: Seq<WcPg>) -> Seq<Seq<u8>> {
    hits.map_values(|x: WcPg| x.url)
}

/// Page views numbered 1-based and contiguous over a URL sequence.
pub open spec fn wc_number(urls: Seq<Seq<u8>>) -> Seq<PageView> {
    Seq::new(
        urls.len(),
        |i: int| PageView { index: (i + 1) as usize, url: urls[i], width: 0, height: 0 },
    )
}

/// Every page extracted from a reader response: the image-suffixed `<img>`
/// sources; when none match, the reader-section fallback scan.
pub open spec fn wc_pages_seq(h: Seq<u8>) -> Seq<PageView> {
    let first = wc_filter_ext(wc_pgs(h, 0));
    if first.len() > 0 {
        wc_number(first)
    } else {
        wc_number(wc_pg_urls(wc_spgs(h, 0)))
    }
}

/// Finds the next plain page image at or after `p`, mirroring `wc_next_pg`.
fn wc_next_pg_exec(h: &[u8], p: usize) -> (r: Option<(Vec<u8>, usize)>)
    ensures
        match r {
            Some(pair) => {
                &&& wc_next_pg(h@, p as int) == Some(WcPg { url: pair.0@, next: pair.1 as int })
                &&& p < pair.1 <= h.len()
            },
            None => wc_next_pg(h@, p as int) is None,
        },
{
    let p_img = lit_img();
    let p_gt = lit_gt();
    let p_src = lit_src();
    let p_quote = lit_quote();
    let mut cur: usize = p;
    loop
        invariant
            p <= cur,
            p_img@ == pat_img(),
            p_gt@ == pat_gt(),
            p_src@ == pat_src(),
            p_quote@ == pat_quote(),
            wc_next_pg(h@, p as int) == wc_next_pg(h@, cur as int),
        decreases h.len() - cur,
    {
        let i = match find_from(h, &p_img, cur) {
            Some(x) => x,
            None => {
                return None;
            },
        };
        let g = match find_from(h, &p_gt, i) {
            Some(x) => x,
            None => {
                return None;
            },
        };
        let sq = match find_from(h, &p_src, i) {
            Some(x) => x,
            None => {
                return None;
            },
        };
        if sq > g {
            cur = i + 4;
            continue ;
        }
        let cs = sq + 5;
        let q = match find_from(h, &p_quote, cs) {
            Some(x) => x,
            None => {
                return None;
            },
        };
        let g2 = match find_from(h, &p_gt, q) {
            Some(x) => x,
            None => {
                return None;
            },
        };
        return Some((sub_vec(h, cs, q), g2 + 1));
    }
}

/// Finds the next reader-section image at or after `p`, mirroring
/// `wc_next_sp`.
#[verifier::rlimit(40)]
fn wc_next_sp_exec(h: &[u8], p: usize) -> (r: Option<(Vec<u8>, usize)>)
    ensures
        match r {
            Some(pair) => {
                &&& wc_next_sp(h@, p as int) == Some(WcPg { url: pair.0@, next: pair.1 as int })
                &&& p < pair.1 <= h.len()
            },
            None => wc_next_sp(h@, p as int) is None,
        },
{
    let p_sec = lit_section_word();
    let p_gt = lit_gt();
    let p_xd = lit_x_data();
    let p_scroll = lit_scroll_word();
    let p_img = lit_img();
    let p_nl = lit_nl();
    let p_src = lit_src();
    let p_quote = lit_quote();
    let mut cur: usize = p;
    loop
        invariant
            p <= cur,
            p_sec@ == pat_section_word(),
            p_gt@ == pat_gt(),
            p_xd@ == pat_x_data(),
            p_scroll@ == pat_scroll_word(),
            p_img@ == pat_img(),
            p_nl@ == pat_nl(),
            p_src@ == pat_src(),
            p_quote@ == pat_quote(),
            wc_next_sp(h@, p as int) == wc_next_sp(h@, cur as int),
        decreases h.len() - cur,
    {
        let s = match find_from(h, &p_sec, cur) {
            Some(x) => x,
            None => {
                return None;
            },
        };
        let g = match find_from(h, &p_gt, s) {
            Some(x) => x,
            None => {
                return None;
            },
        };
        let xd = match find_from(h, &p_xd, s) {
            Some(x) => x,
            None => {
                return None;
            },
        };
        if xd > g {
            cur = s + 7;
            continue ;
        }
        let sc = match find_from(h, &p_scroll, xd) {
            Some(x) => x,
            None => {
                return None;
            },
        };
        if sc > g {
            cur = s + 7;
            continue ;
        }
        let im = match find_from(h, &p_img, g) {
            Some(x) => x,
            None => {
                return None;
            },
        };
        match find_from(h, &p_nl, g) {
            Some(n) => if n < im {
                cur = s + 7;
                continue ;
            },
            None => {},
        }
        let g2 = match find_from(h, &p_gt, im) {
            Some(x) => x,
            None => {
                return None;
            },
        };
        let sq = match find_from(h, &p_src, im) {
            Some(x) => x,
            None => {
                return None;
            },
        };
        if sq > g2 {
            cur = s + 7;
            continue ;
        }
        let cs = sq + 5;
        let q = match find_from(h, &p_quote, cs) {
            Some(x) => x,
            None => {
                return None;
            },
        };
        let g3 = match find_from(h, &p_gt, q) {
            Some(x) => x,
            None => {
                return None;
            },
        };
        return Some((sub_vec(h, cs, q), g3 + 1));
    }
}

/// Tests a URL for the image-file suffixes this source serves pages under.
fn ext_ok(u: &[u8]) -> (r: bool)
    ensures
        r == wc_ext_ok(u@),
{
    let p_jpg = lit_ext_jpg();
    let p_jpeg = lit_ext_jpeg();
    let p_png = lit_ext_png();
    let p_webp = lit_ext_webp();
    let a = crate::text::ends_with(u, &p_jpg);
    let b = crate::text::ends_with(u, &p_jpeg);
    let c = crate::text::ends_with(u, &p_png);
    let d = crate::text::ends_with(u, &p_webp);
    a || b || c || d
}

/// Extracts the page list of a reader response.
pub fn parse_pages(html: &[u8]) -> (r: Vec<Page>)
    ensures
        pages_view(r@) == wc_pages_seq(html@),
        forall|i: int| 0 <= i < r@.len() ==> #[trigger] r@[i]@.index == i + 1,
{
    let mut results: Vec<Page> = Vec::new();
    let ghost mut pre: Seq<Seq<u8>> = Seq::empty();
    let mut p: usize = 0;
    let mut done: bool = false;
    while !done
        invariant
            p <= html.len(),
            results@.len() == pre.len(),
            results@.len() <= p,
            wc_filter_ext(wc_pgs(html@, 0)) == pre + (if done {
                Seq::<Seq<u8>>::empty()
            } else {
                wc_filter_ext(wc_pgs(html@, p as int))
            }),
            forall|i: int|
                0 <= i < pre.len() ==> #[trigger] results@[i]@ == (PageView {
                    index: (i + 1) as usize,
                    url: pre[i],
                    width: 0,
                    height: 0,
                }),
        decreases html.len() - p + (if done {
            0int
        } else {
            1int
        }),
    {
        match wc_next_pg_exec(html, p) {
            Some((url, next)) => {
                let ghost hit = WcPg { url: url@, next: next as int };
                proof {
                    assert(wc_pgs(html@, p as int) =~= seq![hit] + wc_pgs(html@, next as int));
                    assert((seq![hit] + wc_pgs(html@, next as int)).drop_first() =~= wc_pgs(
                        html@,
                        next as int,
                    ));
                }
                if ext_ok(url.as_slice()) {
                    let idx = results.len();
                    let pg = Page { index: idx + 1, url, width: 0, height: 0 };
                    proof {
                        assert(pre + wc_filter_ext(wc_pgs(html@, p as int)) =~= pre.push(hit.url)
                            + wc_filter_ext(wc_pgs(html@, next as int)));
                    }
                    results.push(pg);
                    proof {
                        pre = pre.push(hit.url);
                    }
                } else {
                    proof {
                        assert(pre + wc_filter_ext(wc_pgs(html@, p as int)) =~= pre
                            + wc_filter_ext(wc_pgs(html@, next as int)));
                    }
                }
                p = next;
            },
            None => {
                proof {
                    assert(wc_pgs(html@, p as int) =~= Seq::<WcPg>::empty());
                    assert(pre + wc_filter_ext(wc_pgs(html@, p as int)) =~= pre);
                }
                done = true;
            },
        }
    }
    proof {
        assert(pre + Seq::<Seq<u8>>::empty() =~= pre);
    }
    if results.len() > 0 {
        proof {
            assert(pages_view(results@) =~= wc_pages_seq(html@));
        }
        assert(forall|i: int|
            0 <= i < results@.len() ==> #[trigger] results@[i]@.index == i + 1);
        return results;
    }
    // fallback: the reader-section scan
    let mut results2: Vec<Page> = Vec::new();
    let ghost mut pre2: Seq<WcPg> = Seq::empty();
    let mut p2: usize = 0;
    let mut done2: bool = false;
    while !done2
        invariant
            p2 <= html.len(),
            results2@.len() == pre2.len(),
            results2@.len() <= p2,
            wc_spgs(html@, 0) == pre2 + (if done2 {
                Seq::<WcPg>::empty()
            } else {
                wc_spgs(html@, p2 as int)
            }),
            forall|i: int|
                0 <= i < pre2.len() ==> #[trigger] results2@[i]@ == (PageView {
                    index: (i + 1) as usize,
                    url: pre2[i].url,
                    width: 0,
                    height: 0,
                }),
        decreases html.len() - p2 + (if done2 {
            0int
        } else {
            1int
        }),
    {
        match wc_next_sp_exec(html, p2) {
            Some((url, next)) => {
                let ghost hit = WcPg { url: url@, next: next as int };
                proof {
                    assert(wc_spgs(html@, p2 as int) =~= seq![hit] + wc_spgs(html@, next as int));
                    assert(pre2 + wc_spgs(html@, p2 as int) =~= pre2.push(hit) + wc_spgs(
                        html@,
                        next as int,
                    ));
                }
                let idx = results2.len();
                let pg = Page { index: idx + 1, url, width: 0, height: 0 };
                results2.push(pg);
                proof {
                    pre2 = pre2.push(hit);
                }
                p2 = next;
            },
            None => {
                proof {
                    assert(wc_spgs(html@, p2 as int) =~= Seq::<WcPg>::empty());
                    assert(pre2 + wc_spgs(html@, p2 as int) =~= pre2);
                }
                done2 = true;
            },
        }
    }
    proof {
        assert(pre2 + Seq::<WcPg>::empty() =~= pre2);
        assert(pages_view(results2@) =~= wc_pages_seq(html@));
    }
    assert(forall|i: int|
        0 <= i < results2@.len() ==> #[trigger] results2@[i]@.index == i + 1);
    results2
}

// ---------------------------------------------------------------------------
// Request URLs
// ---------------------------------------------------------------------------

/// The listing-request URL: the latest-updates listing when the query is
/// empty, a relevance-ordered text search otherwise; the offset encodes the
/// 1-based page number.
pub open spec fn wc_search_url(q: Seq<u8>, page: int) -> Seq<u8> {
    pat_wc_base() + pat_wc_search_a() + spec_dec_signed((page - 1) * 24) + (if q.len() == 0 {
        pat_wc_search_latest()
    } else {
        pat_wc_search_text() + spec_urlencoded(q) + pat_wc_search_rel()
    })
}

/// Builds the listing-request URL for a query and 1-based page number.
pub fn search_url(query: &[u8], page: i32) -> (r: Vec<u8>)
    ensures
        r@ == wc_search_url(query@, page as int),
{
    let base = lit_wc_base();
    let pa = lit_wc_search_a();
    let mut out: Vec<u8> = Vec::new();
    push_all(&mut out, &base);
    push_all(&mut out, &pa);
    let off: i64 = (page as i64 - 1) * 24;
    push_dec_signed(&mut out, off);
    if query.len() == 0 {
        let pl = lit_wc_search_latest();
        push_all(&mut out, &pl);
        assert(out@ =~= wc_search_url(query@, page as int));
    } else {
        let pt = lit_wc_search_text();
        push_all(&mut out, &pt);
        let enc = urlencode(query);
        push_all(&mut out, enc.as_slice());
        let pr = lit_wc_search_rel();
        push_all(&mut out, &pr);
        assert(out@ =~= wc_search_url(query@, page as int));
    }
    out
}

/// A page address under this source's base URL.
pub open spec fn wc_page_url(path: Seq<u8>) -> Seq<u8> {
    pat_wc_base() + path
}

/// Builds the URL of a source-relative path.
pub fn page_url(path: &[u8]) -> (r: Vec<u8>)
    ensures
        r@ == wc_page_url(path@),
{
    let base = lit_wc_base();
    let mut out: Vec<u8> = Vec::new();
    push_all(&mut out, &base);
    push_all(&mut out, path);
    out
}

/// The chapter-list endpoint of a manga: the id up to its last `/`, under
/// the base URL, with the list suffix.
pub open spec fn wc_chapter_list_url(manga_id: Seq<u8>) -> Seq<u8> {
    let stem = match spec_rlast(manga_id, 47u8) {
        Some(sl) => manga_id.subrange(0, sl),
        None => manga_id,
    };
    pat_wc_base() + stem + pat_wc_chlist()
}

/// Builds the chapter-list endpoint URL for a manga id.
pub fn chapter_list_url(manga_id: &[u8]) -> (r: Vec<u8>)
    ensures
        r@ == wc_chapter_list_url(manga_id@),
{
    let base = lit_wc_base();
    let suffix = lit_wc_chlist();
    let mut out: Vec<u8> = Vec::new();
    push_all(&mut out, &base);
    match rlast(manga_id, 47) {
        Some(sl) => {
            crate::text::push_range(&mut out, manga_id, 0, sl);
        },
        None => {
            push_all(&mut out, manga_id);
        },
    }
    push_all(&mut out, &suffix);
    assert(out@ =~= wc_chapter_list_url(manga_id@));
    out
}

/// The reader endpoint of a chapter: its id under the base URL with the
/// long-strip query.
pub open spec fn wc_pages_url(chapter_id: Seq<u8>) -> Seq<u8> {
    pat_wc_base() + chapter_id + pat_wc_images()
}

/// Builds the reader endpoint URL for a chapter id.
pub fn pages_url(chapter_id: &[u8]) -> (r: Vec<u8>)
    ensures
        r@ == wc_pages_url(chapter_id@),
{
    let base = lit_wc_base();
    let suffix = lit_wc_images();
    let mut out: Vec<u8> = Vec::new();
    push_all(&mut out, &base);
    push_all(&mut out, chapter_id);
    push_all(&mut out, &suffix);
    out
}

} // verus!
