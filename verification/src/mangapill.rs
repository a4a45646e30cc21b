//! Extractor for the MangaPill source.
//!
//! Markup is scanned with a committed left-to-right discipline: each listing
//! item is anchored on its opening tag, every inner token is located by a
//! first-occurrence search, and an anchor whose inner tokens do not line up
//! is skipped. The specification functions here define that grammar; the
//! executable scanners are proved to return exactly what it describes.

use vstd::prelude::*;

use crate::markup::{
    lit_a_open, lit_amp, lit_amp_page, lit_apos, lit_cdn, lit_chapter_space, lit_chapter_word,
    lit_chapters_prefix, lit_class_attr, lit_close_div, lit_close_h1, lit_close_h3,
    lit_completed_word, lit_cover_word, lit_data_src, lit_description_cls, lit_div, lit_e_39,
    lit_e_amp, lit_e_gt, lit_e_lt, lit_e_nbsp, lit_e_quot, lit_gt, lit_h1, lit_h3, lit_href,
    lit_img, lit_lang_en, lit_lt, lit_manga_prefix, lit_mp_base, lit_mp_search, lit_mp_updates,
    lit_nl, lit_quote, lit_space, lit_src, lit_unknown_word, lit_author_word, pat_a_open,
    pat_amp, pat_amp_page, pat_apos, pat_author_word, pat_cdn, pat_chapter_space,
    pat_chapter_word, pat_chapters_prefix, pat_class_attr, pat_close_div, pat_close_h1,
    pat_close_h3, pat_completed_word, pat_cover_word, pat_data_src, pat_description_cls,
    pat_div, pat_e_39, pat_e_amp, pat_e_gt, pat_e_lt, pat_e_nbsp, pat_e_quot, pat_gt, pat_h1,
    pat_h3, pat_href, pat_img, pat_lang_en, pat_lt, pat_manga_prefix, pat_mp_base,
    pat_mp_search, pat_mp_updates, pat_nl, pat_quote, pat_space, pat_src, pat_unknown_word,
};
use crate::model::{
    chapters_view, lemma_chapter_views_push, lemma_search_views_push, search_results_view,
    pages_view, sort_chapters_desc, sorted_desc, spec_sort_desc, Chapter, ChapterView, MangaDetail,
    MangaDetailView, MangaStatus, Page, PageView, SearchListing, SearchResult, SearchResultView,
    SourceKind,
};
use crate::text::{
    all_digits, contains, digits_end, find_from, is_match_at, lemma_digits_end_digits, match_at,
    milli_of, push_all, push_dec_signed, replace_all, spec_dec_signed,
    spec_digits_end, spec_find, spec_ltrim_idx, spec_milli, spec_replace, spec_trim, sub_vec,
    to_vec, trim, ws_end, clean_markup, spec_clean,
};
use crate::urlenc::{spec_urlencoded, urlencode};

verus! {

/// MangaPill listing pages hold up to this many entries; reaching it is the
/// pagination heuristic for `has_more`.
pub const MP_PAGE_SIZE: usize = 50;

/// The entity decoding this source applies to extracted text: the ampersand,
/// angle bracket, quote, numeric-apostrophe and non-breaking-space entities,
/// replaced in that order.
pub open spec fn mp_decode(s: Seq<u8>) -> Seq<u8> {
    spec_replace(
        spec_replace(
            spec_replace(
                spec_replace(
                    spec_replace(spec_replace(s, pat_e_amp(), pat_amp()), pat_e_lt(), pat_lt()),
                    pat_e_gt(),
                    pat_gt(),
                ),
                pat_e_quot(),
                pat_quote(),
            ),
            pat_e_39(),
            pat_apos(),
        ),
        pat_e_nbsp(),
        pat_space(),
    )
}

/// Decodes the HTML entities this source emits in titles and labels.
pub fn decode_html_entities(input: &[u8]) -> (r: Vec<u8>)
    ensures
        r@ == mp_decode(input@),
{
    let e_amp = lit_e_amp();
    let amp = lit_amp();
    let e_lt = lit_e_lt();
    let lt = lit_lt();
    let e_gt = lit_e_gt();
    let gt = lit_gt();
    let e_quot = lit_e_quot();
    let quote = lit_quote();
    let e_39 = lit_e_39();
    let apos = lit_apos();
    let e_nbsp = lit_e_nbsp();
    let space = lit_space();
    let a = replace_all(input, &e_amp, &amp);
    let b = replace_all(a.as_slice(), &e_lt, &lt);
    let c = replace_all(b.as_slice(), &e_gt, &gt);
    let d = replace_all(c.as_slice(), &e_quot, &quote);
    let e = replace_all(d.as_slice(), &e_39, &apos);
    replace_all(e.as_slice(), &e_nbsp, &space)
}

/// One listing entry as found in the markup: the raw captured fields and the
/// position scanning continues from.
pub ghost struct MpHit {
    pub id: Seq<u8>,
    pub cover: Seq<u8>,
    pub title: Seq<u8>,
    pub next: int,
}

/// Outcome of trying one `<a` anchor: a complete entry, a skip to a later
/// position, or the end of the scan.
pub ghost enum MpStep {
    Hit(MpHit),
    Skip(int),
    Stop,
}

/// Tries to read one listing entry whose anchor starts at `a`: an `<a` tag
/// holding `href="/manga/..."`, then on the same line an `<img` tag with a
/// `src` capture and an `<h3>` title.
pub open spec fn mp_try_at(h: Seq<u8>, a: int) -> MpStep {
    match (spec_find(h, pat_gt(), a), spec_find(h, pat_href(), a)) {
        (Some(g), Some(hq)) => if hq > g {
            MpStep::Skip(a + 2)
        } else {
            let idstart = hq + 6;
            match spec_find(h, pat_quote(), idstart) {
                None => MpStep::Stop,
                Some(q2) => if !(q2 - idstart >= 7 && is_match_at(h, pat_manga_prefix(), idstart)) {
                    MpStep::Skip(a + 2)
                } else {
                    match spec_find(h, pat_gt(), q2) {
                        None => MpStep::Stop,
                        Some(t1) => mp_try_img(h, a, h.subrange(idstart, q2), t1),
                    }
                },
            }
        },
        _ => MpStep::Stop,
    }
}

/// Second stage of `mp_try_at`: the `<img` tag on the anchor's line and its
/// `src` capture.
pub open spec fn mp_try_img(h: Seq<u8>, a: int, id: Seq<u8>, t1: int) -> MpStep {
    match (spec_find(h, pat_img(), t1), spec_find(h, pat_nl(), t1)) {
        (None, _) => MpStep::Stop,
        (Some(im), nl) => if (match nl {
            Some(n) => n < im,
            None => false,
        }) {
            MpStep::Skip(a + 2)
        } else {
            match (spec_find(h, pat_gt(), im), spec_find(h, pat_src(), im)) {
                (Some(g2), Some(sq)) => if sq > g2 {
                    MpStep::Skip(a + 2)
                } else {
                    let cs = sq + 5;
                    match spec_find(h, pat_quote(), cs) {
                        None => MpStep::Stop,
                        Some(q3) => match spec_find(h, pat_gt(), q3) {
                            None => MpStep::Stop,
                            Some(t2) => mp_try_title(h, a, id, h.subrange(cs, q3), t2),
                        },
                    }
                },
                _ => MpStep::Stop,
            }
        },
    }
}

/// Third stage of `mp_try_at`: the `<h3>` title on the same line, closed by
/// `</h3>`; an empty title skips the entry.
pub open spec fn mp_try_title(h: Seq<u8>, a: int, id: Seq<u8>, cover: Seq<u8>, t2: int) -> MpStep {
    match (spec_find(h, pat_h3(), t2), spec_find(h, pat_nl(), t2)) {
        (None, _) => MpStep::Stop,
        (Some(h3), nl2) => if (match nl2 {
            Some(n) => n < h3,
            None => false,
        }) {
            MpStep::Skip(a + 2)
        } else {
            match spec_find(h, pat_gt(), h3) {
                None => MpStep::Stop,
                Some(t3) => match spec_find(h, pat_lt(), t3 + 1) {
                    None => MpStep::Stop,
                    Some(ltv) => if is_match_at(h, pat_close_h3(), ltv) {
                        if ltv == t3 + 1 {
                            MpStep::Skip(ltv + 5)
                        } else {
                            MpStep::Hit(
                                MpHit { id, cover, title: h.subrange(t3 + 1, ltv), next: ltv + 5 },
                            )
                        }
                    } else {
                        MpStep::Skip(a + 2)
                    },
                },
            }
        },
    }
}

/// The first listing entry found at or after `p`. The range guard keeps the
/// recursion well-founded; scanning always moves forward.
pub open spec fn mp_next_hit(h: Seq<u8>, p: int) -> Option<MpHit>
    decreases h.len() - p,
    via mp_next_hit_dec
{
    match spec_find(h, pat_a_open(), p) {
        None => None,
        Some(a) => match mp_try_at(h, a) {
            MpStep::Hit(x) => Some(x),
            MpStep::Stop => None,
            MpStep::Skip(q) => if a < q <= h.len() {
                mp_next_hit(h, q)
            } else {
                None
            },
        },
    }
}

#[via_fn]
proof fn mp_next_hit_dec(h: Seq<u8>, p: int) {
    crate::text::lemma_spec_find_bounds(h, pat_a_open(), p);
}

/// All listing entries found from `p` on, in order.
pub open spec fn mp_hits(h: Seq<u8>, p: int) -> Seq<MpHit>
    decreases h.len() - p,
{
    match mp_next_hit(h, p) {
        None => Seq::empty(),
        Some(x) => if p < x.next <= h.len() {
            seq![x] + mp_hits(h, x.next)
        } else {
            seq![x]
        },
    }
}

/// The raw captures of one listing entry.
struct MpRawHit {
    id: Vec<u8>,
    cover: Vec<u8>,
    title: Vec<u8>,
}

/// Executable counterpart of `MpStep`.
enum MpStepE {
    Hit(MpRawHit, usize),
    Skip(usize),
    Stop,
}

/// The executable step agrees with the specification step at anchor `a`.
spec fn mp_step_ok(h: Seq<u8>, a: int, r: MpStepE) -> bool {
    match r {
        MpStepE::Hit(raw, next) => {
            &&& mp_try_at(h, a) == MpStep::Hit(
                MpHit { id: raw.id@, cover: raw.cover@, title: raw.title@, next: next as int },
            )
            &&& a < next <= h.len()
        },
        MpStepE::Skip(q) => mp_try_at(h, a) == MpStep::Skip(q as int) && a < q <= h.len(),
        MpStepE::Stop => mp_try_at(h, a) == MpStep::Stop,
    }
}

/// Tries one anchor, mirroring `mp_try_at`.
#[verifier::rlimit(40)]
fn mp_try_at_exec(h: &[u8], a: usize) -> (r: MpStepE)
    requires
        a + 2 <= h.len(),
    ensures
        mp_step_ok(h@, a as int, r),
{
    let p_gt = lit_gt();
    let p_href = lit_href();
    let p_quote = lit_quote();
    let p_manga = lit_manga_prefix();
    let p_img = lit_img();
    let p_src = lit_src();
    let p_nl = lit_nl();
    let p_h3 = lit_h3();
    let p_lt = lit_lt();
    let p_ch3 = lit_close_h3();

    let g = match find_from(h, &p_gt, a) {
        Some(x) => x,
        None => {
            return MpStepE::Stop;
        },
    };
    let hq = match find_from(h, &p_href, a) {
        Some(x) => x,
        None => {
            return MpStepE::Stop;
        },
    };
    if hq > g {
        return MpStepE::Skip(a + 2);
    }
    let idstart = hq + 6;
    let q2 = match find_from(h, &p_quote, idstart) {
        Some(x) => x,
        None => {
            return MpStepE::Stop;
        },
    };
    if !(q2 - idstart >= 7 && match_at(h, &p_manga, idstart)) {
        return MpStepE::Skip(a + 2);
    }
    let t1 = match find_from(h, &p_gt, q2) {
        Some(x) => x,
        None => {
            return MpStepE::Stop;
        },
    };
    // the image tag must sit on the anchor's line
    let im = match find_from(h, &p_img, t1) {
        Some(x) => x,
        None => {
            return MpStepE::Stop;
        },
    };
    match find_from(h, &p_nl, t1) {
        Some(n) => if n < im {
            return MpStepE::Skip(a + 2);
        },
        None => {},
    }
    let g2 = match find_from(h, &p_gt, im) {
        Some(x) => x,
        None => {
            return MpStepE::Stop;
        },
    };
    let sq = match find_from(h, &p_src, im) {
        Some(x) => x,
        None => {
            return MpStepE::Stop;
        },
    };
    if sq > g2 {
        return MpStepE::Skip(a + 2);
    }
    let cs = sq + 5;
    let q3 = match find_from(h, &p_quote, cs) {
        Some(x) => x,
        None => {
            return MpStepE::Stop;
        },
    };
    let t2 = match find_from(h, &p_gt, q3) {
        Some(x) => x,
        None => {
            return MpStepE::Stop;
        },
    };
    // the title heading must sit on the same line
    let h3 = match find_from(h, &p_h3, t2) {
        Some(x) => x,
        None => {
            return MpStepE::Stop;
        },
    };
    match find_from(h, &p_nl, t2) {
        Some(n) => if n < h3 {
            return MpStepE::Skip(a + 2);
        },
        None => {},
    }
    let t3 = match find_from(h, &p_gt, h3) {
        Some(x) => x,
        None => {
            return MpStepE::Stop;
        },
    };
    let ltv = match find_from(h, &p_lt, t3 + 1) {
        Some(x) => x,
        None => {
            return MpStepE::Stop;
        },
    };
    if match_at(h, &p_ch3, ltv) {
        if ltv == t3 + 1 {
            return MpStepE::Skip(ltv + 5);
        }
        let raw = MpRawHit {
            id: sub_vec(h, idstart, q2),
            cover: sub_vec(h, cs, q3),
            title: sub_vec(h, t3 + 1, ltv),
        };
        MpStepE::Hit(raw, ltv + 5)
    } else {
        MpStepE::Skip(a + 2)
    }
}

/// Finds the next listing entry at or after `p`, mirroring `mp_next_hit`.
fn mp_next_hit_exec(h: &[u8], p: usize) -> (r: Option<(MpRawHit, usize)>)
    ensures
        match r {
            Some(pair) => {
                &&& mp_next_hit(h@, p as int) == Some(
                    MpHit {
                        id: pair.0.id@,
                        cover: pair.0.cover@,
                        title: pair.0.title@,
                        next: pair.1 as int,
                    },
                )
                &&& p < pair.1 <= h.len()
            },
            None => mp_next_hit(h@, p as int) is None,
        },
{
    let p_a = lit_a_open();
    let mut cur: usize = p;
    loop
        invariant
            p <= cur,
            p_a@ == pat_a_open(),
            mp_next_hit(h@, p as int) == mp_next_hit(h@, cur as int),
        decreases h.len() - cur,
    {
        let a = match find_from(h, &p_a, cur) {
            Some(x) => x,
            None => {
                return None;
            },
        };
        match mp_try_at_exec(h, a) {
            MpStepE::Hit(raw, next) => {
                return Some((raw, next));
            },
            MpStepE::Skip(q) => {
                cur = q;
            },
            MpStepE::Stop => {
                return None;
            },
        }
    }
}

/// The search-result view built from one listing entry: decoded title,
/// listing-page defaults for the fields a listing does not carry. A
/// listing carries no status marker, so the status is the documented
/// default `Unknown`.
pub open spec fn mp_hit_result(x: MpHit) -> SearchResultView {
    SearchResultView {
        id: x.id,
        title: mp_decode(x.title),
        author: Seq::empty(),
        description: Seq::empty(),
        cover_url: x.cover,
        status: MangaStatus::Unknown,
        source: SourceKind::MangaPill,
    }
}

/// Every search result extracted from a listing page, in scan order.
pub open spec fn mp_search_seq(h: Seq<u8>) -> Seq<SearchResultView> {
    mp_hits(h, 0).map_values(|x: MpHit| mp_hit_result(x))
}

/// Extracts the search results of one listing page. `has_more` is the
/// pagination heuristic: the page is full.
pub fn parse_search_results(html: &[u8], page: i32) -> (r: SearchListing)
    ensures
        search_results_view(r.results@) == mp_search_seq(html@),
        r.has_more == (mp_search_seq(html@).len() >= MP_PAGE_SIZE),
        r.page == page,
{
    let ghost f = |x: MpHit| mp_hit_result(x);
    let mut results: Vec<SearchResult> = Vec::new();
    let mut p: usize = 0;
    let mut done: bool = false;
    while !done
        invariant
            p <= html.len(),
            search_results_view(results@) + (if done {
                Seq::<SearchResultView>::empty()
            } else {
                mp_hits(html@, p as int).map_values(f)
            }) == mp_search_seq(html@),
            f == (|x: MpHit| mp_hit_result(x)),
        decreases html.len() - p + (if done {
            0int
        } else {
            1int
        }),
    {
        match mp_next_hit_exec(html, p) {
            Some((raw, next)) => {
                let ghost hit = MpHit {
                    id: raw.id@,
                    cover: raw.cover@,
                    title: raw.title@,
                    next: next as int,
                };
                let title = decode_html_entities(raw.title.as_slice());
                let sr = SearchResult {
                    id: raw.id,
                    title,
                    author: Vec::new(),
                    description: Vec::new(),
                    cover_url: raw.cover,
                    status: MangaStatus::Unknown,
                    source: SourceKind::MangaPill,
                };
                assert(sr@ == mp_hit_result(hit));
                proof {
                    assert(mp_hits(html@, p as int) =~= seq![hit] + mp_hits(html@, next as int));
                    assert(mp_hits(html@, p as int).map_values(f) =~= seq![mp_hit_result(hit)]
                        + mp_hits(html@, next as int).map_values(f));
                    lemma_search_views_push(results@, sr);
                    assert(search_results_view(results@.push(sr)) + mp_hits(
                        html@,
                        next as int,
                    ).map_values(f) =~= search_results_view(results@) + mp_hits(
                        html@,
                        p as int,
                    ).map_values(f));
                }
                results.push(sr);
                p = next;
            },
            None => {
                proof {
                    assert(mp_hits(html@, p as int) =~= Seq::<MpHit>::empty());
                    assert(mp_hits(html@, p as int).map_values(f) =~= Seq::<
                        SearchResultView,
                    >::empty());
                    assert(search_results_view(results@) + mp_hits(html@, p as int).map_values(f)
                        =~= search_results_view(results@));
                }
                done = true;
            },
        }
    }
    assert(search_results_view(results@) =~= search_results_view(results@) + Seq::<
        SearchResultView,
    >::empty());
    assert(mp_search_seq(html@).len() == results@.len());
    let has_more = results.len() >= MP_PAGE_SIZE;
    SearchListing { results, has_more, page }
}

// ---------------------------------------------------------------------------
// Chapter list
// ---------------------------------------------------------------------------

/// One chapter entry as found in the markup: the raw id and the digit runs
/// of the chapter number, and the position scanning continues from.
pub ghost struct MpCh {
    pub id: Seq<u8>,
    pub whole: Seq<u8>,
    pub frac: Seq<u8>,
    pub next: int,
}

/// Outcome of trying one chapter anchor.
pub ghost enum MpChStep {
    Hit(MpCh),
    Skip(int),
    Stop,
}

/// Tries to read one chapter entry whose anchor starts at `a`: an `<a` tag
/// holding `href="/chapters/..."`, then the word `Chapter` in the link text
/// followed by a chapter number.
pub open spec fn mp_ch_try_at(h: Seq<u8>, a: int) -> MpChStep {
    match (spec_find(h, pat_gt(), a), spec_find(h, pat_href(), a)) {
        (Some(g), Some(hq)) => if hq > g {
            MpChStep::Skip(a + 2)
        } else {
            let idstart = hq + 6;
            match spec_find(h, pat_quote(), idstart) {
                None => MpChStep::Stop,
                Some(q2) => if !(q2 - idstart >= 10 && is_match_at(
                    h,
                    pat_chapters_prefix(),
                    idstart,
                )) {
                    MpChStep::Skip(a + 2)
                } else {
                    match spec_find(h, pat_gt(), q2) {
                        None => MpChStep::Stop,
                        Some(t1) => mp_ch_number(h, a, h.subrange(idstart, q2), t1),
                    }
                },
            }
        },
        _ => MpChStep::Stop,
    }
}

/// Second stage of `mp_ch_try_at`: the word `Chapter` must follow the
/// anchor's `>` within its link text (no tag in between), and then a digit
/// run, optionally continued by a point and more digits.
pub open spec fn mp_ch_number(h: Seq<u8>, a: int, id: Seq<u8>, t1: int) -> MpChStep {
    match spec_find(h, pat_chapter_word(), t1 + 1) {
        None => MpChStep::Stop,
        Some(cw) => {
            if (match spec_find(h, pat_lt(), t1 + 1) {
                Some(l) => l < cw,
                None => false,
            }) {
                MpChStep::Skip(a + 2)
            } else {
                let ds = spec_ltrim_idx(h, cw + 7);
                let de = spec_digits_end(h, ds);
                if de == ds {
                    MpChStep::Skip(a + 2)
                } else if de < h.len() && h[de] == 46 {
                    MpChStep::Hit(
                        MpCh {
                            id,
                            whole: h.subrange(ds, de),
                            frac: h.subrange(de + 1, spec_digits_end(h, de + 1)),
                            next: spec_digits_end(h, de + 1),
                        },
                    )
                } else {
                    MpChStep::Hit(MpCh { id, whole: h.subrange(ds, de), frac: Seq::empty(), next: de })
                }
            }
        },
    }
}

/// The first chapter entry found at or after `p`.
pub open spec fn mp_next_ch(h: Seq<u8>, p: int) -> Option<MpCh>
    decreases h.len() - p,
    via mp_next_ch_dec
{
    match spec_find(h, pat_a_open(), p) {
        None => None,
        Some(a) => match mp_ch_try_at(h, a) {
            MpChStep::Hit(x) => Some(x),
            MpChStep::Stop => None,
            MpChStep::Skip(q) => if a < q <= h.len() {
                mp_next_ch(h, q)
            } else {
                None
            },
        },
    }
}

#[via_fn]
proof fn mp_next_ch_dec(h: Seq<u8>, p: int) {
    crate::text::lemma_spec_find_bounds(h, pat_a_open(), p);
}

/// All chapter entries found from `p` on, in input order.
pub open spec fn mp_chs(h: Seq<u8>, p: int) -> Seq<MpCh>
    decreases h.len() - p,
{
    match mp_next_ch(h, p) {
        None => Seq::empty(),
        Some(x) => if p < x.next <= h.len() {
            seq![x] + mp_chs(h, x.next)
        } else {
            seq![x]
        },
    }
}

/// The chapter view built from one entry: the number in thousandths, the
/// rebuilt `Chapter N[.M]` title, and the documented defaults.
pub open spec fn mp_ch_view(c: MpCh, manga_id: Seq<u8>) -> ChapterView {
    ChapterView {
        id: c.id,
        manga_id: manga_id,
        source: SourceKind::MangaPill,
        number_milli: spec_milli(c.whole, c.frac) as u64,
        title: pat_chapter_space() + c.whole + (if c.frac.len() > 0 {
            seq![46u8] + c.frac
        } else {
            Seq::<u8>::empty()
        }),
        language: pat_lang_en(),
        volume_milli: None,
        published_at: None,
        is_read: false,
        pages: 0,
    }
}

/// Every chapter extracted from a detail page, in scan order (unsorted).
pub open spec fn mp_chapter_seq(h: Seq<u8>, manga_id: Seq<u8>) -> Seq<ChapterView> {
    mp_chs(h, 0).map_values(|c: MpCh| mp_ch_view(c, manga_id))
}

/// Raw captures of one chapter entry.
struct MpChRaw {
    id: Vec<u8>,
    whole: Vec<u8>,
    frac: Vec<u8>,
}

/// Executable counterpart of `MpChStep`.
enum MpChStepE {
    Hit(MpChRaw, usize),
    Skip(usize),
    Stop,
}

/// The executable chapter step agrees with the specification step.
spec fn mp_ch_step_ok(h: Seq<u8>, a: int, r: MpChStepE) -> bool {
    match r {
        MpChStepE::Hit(raw, next) => {
            &&& mp_ch_try_at(h, a) == MpChStep::Hit(
                MpCh { id: raw.id@, whole: raw.whole@, frac: raw.frac@, next: next as int },
            )
            &&& a < next <= h.len()
            &&& all_digits(raw.whole@)
            &&& all_digits(raw.frac@)
        },
        MpChStepE::Skip(q) => mp_ch_try_at(h, a) == MpChStep::Skip(q as int) && a < q <= h.len(),
        MpChStepE::Stop => mp_ch_try_at(h, a) == MpChStep::Stop,
    }
}

/// Tries one chapter anchor, mirroring `mp_ch_try_at`.
#[verifier::rlimit(40)]
fn mp_ch_try_at_exec(h: &[u8], a: usize) -> (r: MpChStepE)
    requires
        a + 2 <= h.len(),
    ensures
        mp_ch_step_ok(h@, a as int, r),
{
    let p_gt = lit_gt();
    let p_href = lit_href();
    let p_quote = lit_quote();
    let p_ch = lit_chapters_prefix();
    let p_word = lit_chapter_word();
    let p_lt = lit_lt();

    let g = match find_from(h, &p_gt, a) {
        Some(x) => x,
        None => {
            return MpChStepE::Stop;
        },
    };
    let hq = match find_from(h, &p_href, a) {
        Some(x) => x,
        None => {
            return MpChStepE::Stop;
        },
    };
    if hq > g {
        return MpChStepE::Skip(a + 2);
    }
    let idstart = hq + 6;
    let q2 = match find_from(h, &p_quote, idstart) {
        Some(x) => x,
        None => {
            return MpChStepE::Stop;
        },
    };
    if !(q2 - idstart >= 10 && match_at(h, &p_ch, idstart)) {
        return MpChStepE::Skip(a + 2);
    }
    let t1 = match find_from(h, &p_gt, q2) {
        Some(x) => x,
        None => {
            return MpChStepE::Stop;
        },
    };
    let cw = match find_from(h, &p_word, t1 + 1) {
        Some(x) => x,
        None => {
            return MpChStepE::Stop;
        },
    };
    match find_from(h, &p_lt, t1 + 1) {
        Some(l) => if l < cw {
            return MpChStepE::Skip(a + 2);
        },
        None => {},
    }
    let ds = ws_end(h, cw + 7);
    let de = digits_end(h, ds);
    if de == ds {
        return MpChStepE::Skip(a + 2);
    }
    proof {
        lemma_digits_end_digits(h@, ds as int);
    }
    let whole = sub_vec(h, ds, de);
    assert(all_digits(whole@));
    if de < h.len() && h[de] == 46 {
        let fe = digits_end(h, de + 1);
        proof {
            lemma_digits_end_digits(h@, de + 1 as int);
        }
        let frac = sub_vec(h, de + 1, fe);
        assert(all_digits(frac@));
        MpChStepE::Hit(MpChRaw { id: sub_vec(h, idstart, q2), whole, frac }, fe)
    } else {
        MpChStepE::Hit(MpChRaw { id: sub_vec(h, idstart, q2), whole, frac: Vec::new() }, de)
    }
}

/// Finds the next chapter entry at or after `p`, mirroring `mp_next_ch`.
fn mp_next_ch_exec(h: &[u8], p: usize) -> (r: Option<(MpChRaw, usize)>)
    ensures
        match r {
            Some(pair) => {
                &&& mp_next_ch(h@, p as int) == Some(
                    MpCh {
                        id: pair.0.id@,
                        whole: pair.0.whole@,
                        frac: pair.0.frac@,
                        next: pair.1 as int,
                    },
                )
                &&& p < pair.1 <= h.len()
                &&& all_digits(pair.0.whole@)
                &&& all_digits(pair.0.frac@)
            },
            None => mp_next_ch(h@, p as int) is None,
        },
{
    let p_a = lit_a_open();
    let mut cur: usize = p;
    loop
        invariant
            p <= cur,
            p_a@ == pat_a_open(),
            mp_next_ch(h@, p as int) == mp_next_ch(h@, cur as int),
        decreases h.len() - cur,
    {
        let a = match find_from(h, &p_a, cur) {
            Some(x) => x,
            None => {
                return None;
            },
        };
        match mp_ch_try_at_exec(h, a) {
            MpChStepE::Hit(raw, next) => {
                return Some((raw, next));
            },
            MpChStepE::Skip(q) => {
                cur = q;
            },
            MpChStepE::Stop => {
                return None;
            },
        }
    }
}

/// Extracts the chapter list of a manga's detail page, sorted by descending
/// chapter number; ties keep their scan order.
pub fn parse_chapters(html: &[u8], manga_id: &[u8]) -> (r: Vec<Chapter>)
    ensures
        chapters_view(r@) == spec_sort_desc(mp_chapter_seq(html@, manga_id@)),
        sorted_desc(chapters_view(r@)),
{
    let ghost f = |c: MpCh| mp_ch_view(c, manga_id@);
    let mut found: Vec<Chapter> = Vec::new();
    let mut p: usize = 0;
    let mut done: bool = false;
    while !done
        invariant
            p <= html.len(),
            chapters_view(found@) + (if done {
                Seq::<ChapterView>::empty()
            } else {
                mp_chs(html@, p as int).map_values(f)
            }) == mp_chapter_seq(html@, manga_id@),
            f == (|c: MpCh| mp_ch_view(c, manga_id@)),
        decreases html.len() - p + (if done {
            0int
        } else {
            1int
        }),
    {
        match mp_next_ch_exec(html, p) {
            Some((raw, next)) => {
                let ghost hit = MpCh {
                    id: raw.id@,
                    whole: raw.whole@,
                    frac: raw.frac@,
                    next: next as int,
                };
                let number = milli_of(raw.whole.as_slice(), raw.frac.as_slice());
                let p_chsp = lit_chapter_space();
                let mut title: Vec<u8> = Vec::new();
                push_all(&mut title, &p_chsp);
                push_all(&mut title, raw.whole.as_slice());
                if raw.frac.len() > 0 {
                    title.push(46);
                    push_all(&mut title, raw.frac.as_slice());
                }
                assert(title@ =~= pat_chapter_space() + hit.whole + (if hit.frac.len() > 0 {
                    seq![46u8] + hit.frac
                } else {
                    Seq::<u8>::empty()
                }));
                let p_en = lit_lang_en();
                let ch = Chapter {
                    id: raw.id,
                    manga_id: to_vec(manga_id),
                    source: SourceKind::MangaPill,
                    number_milli: number,
                    title,
                    language: to_vec(&p_en),
                    volume_milli: None,
                    published_at: None,
                    is_read: false,
                    pages: 0,
                };
                assert(ch@ == mp_ch_view(hit, manga_id@));
                proof {
                    assert(mp_chs(html@, p as int) =~= seq![hit] + mp_chs(html@, next as int));
                    assert(mp_chs(html@, p as int).map_values(f) =~= seq![mp_ch_view(
                        hit,
                        manga_id@,
                    )] + mp_chs(html@, next as int).map_values(f));
                    lemma_chapter_views_push(found@, ch);
                    assert(chapters_view(found@.push(ch)) + mp_chs(html@, next as int).map_values(
                        f,
                    ) =~= chapters_view(found@) + mp_chs(html@, p as int).map_values(f));
                }
                found.push(ch);
                p = next;
            },
            None => {
                proof {
                    assert(mp_chs(html@, p as int) =~= Seq::<MpCh>::empty());
                    assert(mp_chs(html@, p as int).map_values(f) =~= Seq::<ChapterView>::empty());
                    assert(chapters_view(found@) + mp_chs(html@, p as int).map_values(f)
                        =~= chapters_view(found@));
                }
                done = true;
            },
        }
    }
    assert(chapters_view(found@) =~= chapters_view(found@) + Seq::<ChapterView>::empty());
    sort_chapters_desc(found)
}

// ---------------------------------------------------------------------------
// Page list
// ---------------------------------------------------------------------------

/// One page image as found in the markup.
pub ghost struct MpPg {
    pub url: Seq<u8>,
    pub next: int,
}

/// Outcome of trying one `data-src` attribute.
pub ghost enum MpPgStep {
    Hit(MpPg),
    Skip(int),
    Stop,
}

/// Tries to read one page image whose `data-src="` starts at `d`: the quoted
/// URL must name the content delivery host (`cdn`), and the tag must close.
pub open spec fn mp_pg_try_at(h: Seq<u8>, d: int) -> MpPgStep {
    let cs = d + 10;
    match spec_find(h, pat_quote(), cs) {
        None => MpPgStep::Stop,
        Some(q2) => match spec_find(h, pat_gt(), q2) {
            None => MpPgStep::Stop,
            Some(g) => if spec_find(h.subrange(cs, q2), pat_cdn(), 0) is Some {
                MpPgStep::Hit(MpPg { url: h.subrange(cs, q2), next: g + 1 })
            } else {
                MpPgStep::Skip(d + 1)
            },
        },
    }
}

/// The first page image found at or after `p`.
pub open spec fn mp_next_pg(h: Seq<u8>, p: int) -> Option<MpPg>
    decreases h.len() - p,
    via mp_next_pg_dec
{
    match spec_find(h, pat_data_src(), p) {
        None => None,
        Some(d) => match mp_pg_try_at(h, d) {
            MpPgStep::Hit(x) => Some(x),
            MpPgStep::Stop => None,
            MpPgStep::Skip(q) => if d < q <= h.len() {
                mp_next_pg(h, q)
            } else {
                None
            },
        },
    }
}

#[via_fn]
proof fn mp_next_pg_dec(h: Seq<u8>, p: int) {
    crate::text::lemma_spec_find_bounds(h, pat_data_src(), p);
}

/// All page image URLs found from `p` on, in order.
pub open spec fn mp_pgs(h: Seq<u8>, p: int) -> Seq<MpPg>
    decreases h.len() - p,
{
    match mp_next_pg(h, p) {
        None => Seq::empty(),
        Some(x) => if p < x.next <= h.len() {
            seq![x] + mp_pgs(h, x.next)
        } else {
            seq![x]
        },
    }
}

/// Every page extracted from a chapter page: 1-based contiguous indices in
/// scan order, dimensions always the placeholder zero.
pub open spec fn mp_pages_seq(h: Seq<u8>) -> Seq<PageView> {
    Seq::new(
        mp_pgs(h, 0).len(),
        |i: int|
            PageView { index: (i + 1) as usize, url: mp_pgs(h, 0)[i].url, width: 0, height: 0 },
    )
}

/// Finds the next page image at or after `p`, mirroring `mp_next_pg`.
fn mp_next_pg_exec(h: &[u8], p: usize) -> (r: Option<(Vec<u8>, usize)>)
    ensures
        match r {
            Some(pair) => {
                &&& mp_next_pg(h@, p as int) == Some(MpPg { url: pair.0@, next: pair.1 as int })
                &&& p < pair.1 <= h.len()
            },
            None => mp_next_pg(h@, p as int) is None,
        },
{
    let p_ds = lit_data_src();
    let p_quote = lit_quote();
    let p_gt = lit_gt();
    let p_cdn = lit_cdn();
    let mut cur: usize = p;
    loop
        invariant
            p <= cur,
            p_ds@ == pat_data_src(),
            p_quote@ == pat_quote(),
            p_gt@ == pat_gt(),
            p_cdn@ == pat_cdn(),
            mp_next_pg(h@, p as int) == mp_next_pg(h@, cur as int),
        decreases h.len() - cur,
    {
        let d = match find_from(h, &p_ds, cur) {
            Some(x) => x,
            None => {
                return None;
            },
        };
        let cs = d + 10;
        let q2 = match find_from(h, &p_quote, cs) {
            Some(x) => x,
            None => {
                return None;
            },
        };
        let g = match find_from(h, &p_gt, q2) {
            Some(x) => x,
            None => {
                return None;
            },
        };
        if contains(&h[cs..q2], &p_cdn) {
            return Some((sub_vec(h, cs, q2), g + 1));
        }
        cur = d + 1;
    }
}

/// Extracts the page list of a chapter page.
pub fn parse_pages(html: &[u8]) -> (r: Vec<Page>)
    ensures
        pages_view(r@) == mp_pages_seq(html@),
        forall|i: int| 0 <= i < r@.len() ==> #[trigger] r@[i]@.index == i + 1,
{
    let mut results: Vec<Page> = Vec::new();
    let ghost mut pre: Seq<MpPg> = Seq::empty();
    let mut p: usize = 0;
    let mut done: bool = false;
    while !done
        invariant
            p <= html.len(),
            results@.len() == pre.len(),
            results@.len() <= p,
            mp_pgs(html@, 0) == pre + (if done {
                Seq::<MpPg>::empty()
            } else {
                mp_pgs(html@, p as int)
            }),
            forall|i: int|
                0 <= i < pre.len() ==> #[trigger] results@[i]@ == (PageView {
                    index: (i + 1) as usize,
                    url: pre[i].url,
                    width: 0,
                    height: 0,
                }),
        decreases html.len() - p + (if done {
            0int
        } else {
            1int
        }),
    {
        match mp_next_pg_exec(html, p) {
            Some((url, next)) => {
                let ghost hit = MpPg { url: url@, next: next as int };
                let idx = results.len();
                let pg = Page { index: idx + 1, url, width: 0, height: 0 };
                proof {
                    assert(mp_pgs(html@, p as int) =~= seq![hit] + mp_pgs(html@, next as int));
                    assert(pre + mp_pgs(html@, p as int) =~= pre.push(hit) + mp_pgs(
                        html@,
                        next as int,
                    ));
                }
                results.push(pg);
                proof {
                    pre = pre.push(hit);
                }
                p = next;
            },
            None => {
                proof {
                    assert(mp_pgs(html@, p as int) =~= Seq::<MpPg>::empty());
                    assert(pre + mp_pgs(html@, p as int) =~= pre);
                }
                done = true;
            },
        }
    }
    proof {
        assert(pre + Seq::<MpPg>::empty() =~= pre);
        assert(pages_view(results@) =~= mp_pages_seq(html@));
    }
    assert(forall|i: int|
        0 <= i < results@.len() ==> #[trigger] results@[i]@.index == i + 1);
    results
}

// ---------------------------------------------------------------------------
// Manga details
// ---------------------------------------------------------------------------

/// The raw title capture: the text of the first `<h1>` heading, when that
/// heading is closed by `</h1>` and not empty.
pub open spec fn mp_title_opt(h: Seq<u8>) -> Option<Seq<u8>> {
    match spec_find(h, pat_h1(), 0) {
        None => None,
        Some(a) => match spec_find(h, pat_gt(), a) {
            None => None,
            Some(t) => match spec_find(h, pat_lt(), t + 1) {
                None => None,
                Some(l) => if l > t + 1 && is_match_at(h, pat_close_h1(), l) {
                    Some(h.subrange(t + 1, l))
                } else {
                    None
                },
            },
        },
    }
}

/// Outcome of trying one candidate position for an optional capture.
pub ghost enum MpFindStep {
    Found(Seq<u8>),
    Skip(int),
    Stop,
}

/// Tries one `<div` at `d` as the description container: its `class`
/// attribute must name `description`, and the capture runs from the tag's
/// `>` to the first `</div>` on the same line.
pub open spec fn mp_desc_at(h: Seq<u8>, d: int) -> MpFindStep {
    match (spec_find(h, pat_gt(), d), spec_find(h, pat_class_attr(), d)) {
        (Some(g), Some(c)) => if c > g {
            MpFindStep::Skip(d + 4)
        } else {
            let vs = c + 7;
            match spec_find(h, pat_quote(), vs) {
                None => MpFindStep::Stop,
                Some(q2) => if spec_find(h.subrange(vs, q2), pat_description_cls(), 0) is None {
                    MpFindStep::Skip(d + 4)
                } else {
                    match spec_find(h, pat_gt(), q2) {
                        None => MpFindStep::Stop,
                        Some(t) => match (
                            spec_find(h, pat_close_div(), t),
                            spec_find(h, pat_nl(), t),
                        ) {
                            (None, _) => MpFindStep::Stop,
                            (Some(e), nl) => if (match nl {
                                Some(n) => n < e,
                                None => false,
                            }) {
                                MpFindStep::Skip(d + 4)
                            } else {
                                MpFindStep::Found(h.subrange(t + 1, e))
                            },
                        },
                    }
                },
            }
        },
        _ => MpFindStep::Stop,
    }
}

/// The raw description capture: the body of the first `<div>` whose class
/// names `description`.
pub open spec fn mp_find_desc(h: Seq<u8>, p: int) -> Option<Seq<u8>>
    decreases h.len() - p,
    via mp_find_desc_dec
{
    match spec_find(h, pat_div(), p) {
        None => None,
        Some(d) => match mp_desc_at(h, d) {
            MpFindStep::Found(x) => Some(x),
            MpFindStep::Stop => None,
            MpFindStep::Skip(q) => if d < q <= h.len() {
                mp_find_desc(h, q)
            } else {
                None
            },
        },
    }
}

#[via_fn]
proof fn mp_find_desc_dec(h: Seq<u8>, p: int) {
    crate::text::lemma_spec_find_bounds(h, pat_div(), p);
}

/// The author capture: the text after an `Author:` or `Authors:` label up
/// to the next tag, trimmed; the label must be followed by a colon and at
/// least one character of text.
pub open spec fn mp_find_author(h: Seq<u8>, p: int) -> Option<Seq<u8>>
    decreases h.len() - p,
    via mp_find_author_dec
{
    match spec_find(h, pat_author_word(), p) {
        None => None,
        Some(a) => {
            let q = if a + 6 < h.len() && h[a + 6] == 115 {
                a + 7
            } else {
                a + 6
            };
            let hit = if q < h.len() && h[q] == 58 {
                let start = q + 1;
                let e = match spec_find(h, pat_lt(), start) {
                    None => h.len() as int,
                    Some(x) => x,
                };
                if e > start {
                    Some(spec_trim(h.subrange(start, e)))
                } else {
                    None
                }
            } else {
                None
            };
            match hit {
                Some(x) => Some(x),
                None => if a + 6 <= h.len() && p < a + 6 {
                    mp_find_author(h, a + 6)
                } else {
                    None
                },
            }
        },
    }
}

#[via_fn]
proof fn mp_find_author_dec(h: Seq<u8>, p: int) {
    crate::text::lemma_spec_find_bounds(h, pat_author_word(), p);
}

/// Tries one `<img` at `i` as the cover image: its `class` attribute must
/// name `cover`, and a `src` capture must follow inside the tag.
pub open spec fn mp_cover_at(h: Seq<u8>, i: int) -> MpFindStep {
    match (spec_find(h, pat_gt(), i), spec_find(h, pat_class_attr(), i)) {
        (Some(g), Some(c)) => if c > g {
            MpFindStep::Skip(i + 4)
        } else {
            let vs = c + 7;
            match spec_find(h, pat_quote(), vs) {
                None => MpFindStep::Stop,
                Some(q2) => if spec_find(h.subrange(vs, q2), pat_cover_word(), 0) is None {
                    MpFindStep::Skip(i + 4)
                } else {
                    match (spec_find(h, pat_gt(), q2), spec_find(h, pat_src(), q2)) {
                        (Some(g2), Some(sq)) => if sq > g2 {
                            MpFindStep::Skip(i + 4)
                        } else {
                            let cs = sq + 5;
                            match spec_find(h, pat_quote(), cs) {
                                None => MpFindStep::Stop,
                                Some(q3) => MpFindStep::Found(h.subrange(cs, q3)),
                            }
                        },
                        _ => MpFindStep::Stop,
                    }
                },
            }
        },
        _ => MpFindStep::Stop,
    }
}

/// The cover capture: the `src` of the first `<img>` whose class names
/// `cover`.
pub open spec fn mp_find_cover(h: Seq<u8>, p: int) -> Option<Seq<u8>>
    decreases h.len() - p,
    via mp_find_cover_dec
{
    match spec_find(h, pat_img(), p) {
        None => None,
        Some(i) => match mp_cover_at(h, i) {
            MpFindStep::Found(x) => Some(x),
            MpFindStep::Stop => None,
            MpFindStep::Skip(q) => if i < q <= h.len() {
                mp_find_cover(h, q)
            } else {
                None
            },
        },
    }
}

#[via_fn]
proof fn mp_find_cover_dec(h: Seq<u8>, p: int) {
    crate::text::lemma_spec_find_bounds(h, pat_img(), p);
}

/// The manga details extracted from a detail page. Every absent pattern
/// degrades to its documented default instead of failing: title `Unknown`,
/// other text fields empty, status `Completed` when the page carries that
/// marker and the documented default `Unknown` otherwise; this source
/// never marks content as nsfw.
pub open spec fn mp_details(h: Seq<u8>, manga_id: Seq<u8>) -> MangaDetailView {
    MangaDetailView {
        id: manga_id,
        title: match mp_title_opt(h) {
            Some(t) => mp_decode(t),
            None => pat_unknown_word(),
        },
        author: match mp_find_author(h, 0) {
            Some(x) => x,
            None => Seq::empty(),
        },
        description: match mp_find_desc(h, 0) {
            Some(x) => spec_clean(x),
            None => Seq::empty(),
        },
        cover_url: match mp_find_cover(h, 0) {
            Some(x) => x,
            None => Seq::empty(),
        },
        status: if spec_find(h, pat_completed_word(), 0) is Some {
            MangaStatus::Completed
        } else {
            MangaStatus::Unknown
        },
        nsfw: false,
        source: SourceKind::MangaPill,
    }
}

/// Fallback completeness: markup in which no field pattern matches yields
/// the fully default detail record, without error.
pub proof fn lemma_mp_details_fallback(h: Seq<u8>, manga_id: Seq<u8>)
    requires
        mp_title_opt(h) is None,
        mp_find_author(h, 0) is None,
        mp_find_desc(h, 0) is None,
        mp_find_cover(h, 0) is None,
        spec_find(h, pat_completed_word(), 0) is None,
    ensures
        mp_details(h, manga_id) == (MangaDetailView {
            id: manga_id,
            title: pat_unknown_word(),
            author: Seq::empty(),
            description: Seq::empty(),
            cover_url: Seq::empty(),
            status: MangaStatus::Unknown,
            nsfw: false,
            source: SourceKind::MangaPill,
        }),
{
}

/// Executable counterpart of `MpFindStep`.
enum MpFindStepE {
    Found(Vec<u8>),
    Skip(usize),
    Stop,
}

/// The executable description step agrees with `mp_desc_at`.
spec fn mp_desc_step_ok(h: Seq<u8>, d: int, r: MpFindStepE) -> bool {
    match r {
        MpFindStepE::Found(v) => mp_desc_at(h, d) == MpFindStep::Found(v@),
        MpFindStepE::Skip(q) => mp_desc_at(h, d) == MpFindStep::Skip(q as int) && d < q <= h.len(),
        MpFindStepE::Stop => mp_desc_at(h, d) == MpFindStep::Stop,
    }
}

/// Tries one description container, mirroring `mp_desc_at`.
#[verifier::rlimit(40)]
fn mp_desc_at_exec(h: &[u8], d: usize) -> (r: MpFindStepE)
    requires
        d + 4 <= h.len(),
    ensures
        mp_desc_step_ok(h@, d as int, r),
{
    let p_gt = lit_gt();
    let p_class = lit_class_attr();
    let p_quote = lit_quote();
    let p_desc = lit_description_cls();
    let p_cdiv = lit_close_div();
    let p_nl = lit_nl();
    let g = match find_from(h, &p_gt, d) {
        Some(x) => x,
        None => {
            return MpFindStepE::Stop;
        },
    };
    let c = match find_from(h, &p_class, d) {
        Some(x) => x,
        None => {
            return MpFindStepE::Stop;
        },
    };
    if c > g {
        return MpFindStepE::Skip(d + 4);
    }
    let vs = c + 7;
    let q2 = match find_from(h, &p_quote, vs) {
        Some(x) => x,
        None => {
            return MpFindStepE::Stop;
        },
    };
    if !contains(&h[vs..q2], &p_desc) {
        return MpFindStepE::Skip(d + 4);
    }
    let t = match find_from(h, &p_gt, q2) {
        Some(x) => x,
        None => {
            return MpFindStepE::Stop;
        },
    };
    let e = match find_from(h, &p_cdiv, t) {
        Some(x) => x,
        None => {
            return MpFindStepE::Stop;
        },
    };
    match find_from(h, &p_nl, t) {
        Some(n) => if n < e {
            return MpFindStepE::Skip(d + 4);
        },
        None => {},
    }
    MpFindStepE::Found(sub_vec(h, t + 1, e))
}

/// The executable cover step agrees with `mp_cover_at`.
spec fn mp_cover_step_ok(h: Seq<u8>, i: int, r: MpFindStepE) -> bool {
    match r {
        MpFindStepE::Found(v) => mp_cover_at(h, i) == MpFindStep::Found(v@),
        MpFindStepE::Skip(q) => mp_cover_at(h, i) == MpFindStep::Skip(q as int) && i < q
            <= h.len(),
        MpFindStepE::Stop => mp_cover_at(h, i) == MpFindStep::Stop,
    }
}

/// Tries one cover image, mirroring `mp_cover_at`.
#[verifier::rlimit(40)]
fn mp_cover_at_exec(h: &[u8], i: usize) -> (r: MpFindStepE)
    requires
        i + 4 <= h.len(),
    ensures
        mp_cover_step_ok(h@, i as int, r),
{
    let p_gt = lit_gt();
    let p_class = lit_class_attr();
    let p_quote = lit_quote();
    let p_cover = lit_cover_word();
    let p_src = lit_src();
    let g = match find_from(h, &p_gt, i) {
        Some(x) => x,
        None => {
            return MpFindStepE::Stop;
        },
    };
    let c = match find_from(h, &p_class, i) {
        Some(x) => x,
        None => {
            return MpFindStepE::Stop;
        },
    };
    if c > g {
        return MpFindStepE::Skip(i + 4);
    }
    let vs = c + 7;
    let q2 = match find_from(h, &p_quote, vs) {
        Some(x) => x,
        None => {
            return MpFindStepE::Stop;
        },
    };
    if !contains(&h[vs..q2], &p_cover) {
        return MpFindStepE::Skip(i + 4);
    }
    let g2 = match find_from(h, &p_gt, q2) {
        Some(x) => x,
        None => {
            return MpFindStepE::Stop;
        },
    };
    let sq = match find_from(h, &p_src, q2) {
        Some(x) => x,
        None => {
            return MpFindStepE::Stop;
        },
    };
    if sq > g2 {
        return MpFindStepE::Skip(i + 4);
    }
    let cs = sq + 5;
    match find_from(h, &p_quote, cs) {
        Some(q3) => MpFindStepE::Found(sub_vec(h, cs, q3)),
        None => MpFindStepE::Stop,
    }
}

/// Extracts the details of one manga's page; every missing field falls back
/// to its documented default.
#[verifier::rlimit(40)]
pub fn parse_manga_details(html: &[u8], manga_id: &[u8]) -> (r: MangaDetail)
    ensures
        r@ == mp_details(html@, manga_id@),
{
    // title
    let p_h1 = lit_h1();
    let p_gt = lit_gt();
    let p_lt = lit_lt();
    let p_ch1 = lit_close_h1();
    let p_unknown = lit_unknown_word();
    let mut raw_title: Option<Vec<u8>> = None;
    match find_from(html, &p_h1, 0) {
        None => {},
        Some(a) => {
            match find_from(html, &p_gt, a) {
                None => {},
                Some(t) => {
                    if t < html.len() {
                        match find_from(html, &p_lt, t + 1) {
                            None => {},
                            Some(l) => {
                                if l > t + 1 && match_at(html, &p_ch1, l) {
                                    raw_title = Some(sub_vec(html, t + 1, l));
                                }
                            },
                        }
                    } else {
                        assert(spec_find(html@, pat_lt(), t + 1 as int) is None);
                    }
                },
            }
        },
    }
    let title: Vec<u8> = match raw_title {
        Some(v) => decode_html_entities(v.as_slice()),
        None => to_vec(&p_unknown),
    };
    assert(title@ == (match mp_title_opt(html@) {
        Some(t) => mp_decode(t),
        None => pat_unknown_word(),
    }));
    // description
    let p_div = lit_div();
    let mut description: Vec<u8> = Vec::new();
    let mut p: usize = 0;
    let mut done: bool = false;
    while !done
        invariant
            p <= html.len(),
            p_div@ == pat_div(),
            !done ==> mp_find_desc(html@, 0) == mp_find_desc(html@, p as int),
            !done ==> description@ == Seq::<u8>::empty(),
            done ==> description@ == (match mp_find_desc(html@, 0) {
                Some(x) => spec_clean(x),
                None => Seq::<u8>::empty(),
            }),
        decreases html.len() - p + (if done {
            0int
        } else {
            1int
        }),
    {
        match find_from(html, &p_div, p) {
            None => {
                assert(mp_find_desc(html@, p as int) is None);
                done = true;
            },
            Some(d) => match mp_desc_at_exec(html, d) {
                MpFindStepE::Found(v) => {
                    assert(mp_find_desc(html@, p as int) == Some(v@));
                    description = clean_markup(v.as_slice());
                    done = true;
                },
                MpFindStepE::Skip(q) => {
                    assert(mp_find_desc(html@, p as int) == mp_find_desc(html@, q as int));
                    p = q;
                },
                MpFindStepE::Stop => {
                    assert(mp_find_desc(html@, p as int) is None);
                    done = true;
                },
            },
        }
    }
    // author
    let p_author = lit_author_word();
    let mut author: Vec<u8> = Vec::new();
    let mut ap: usize = 0;
    let mut adone: bool = false;
    while !adone
        invariant
            ap <= html.len(),
            p_author@ == pat_author_word(),
            p_lt@ == pat_lt(),
            !adone ==> mp_find_author(html@, 0) == mp_find_author(html@, ap as int),
            !adone ==> author@ == Seq::<u8>::empty(),
            adone ==> author@ == (match mp_find_author(html@, 0) {
                Some(x) => x,
                None => Seq::<u8>::empty(),
            }),
        decreases html.len() - ap + (if adone {
            0int
        } else {
            1int
        }),
    {
        match find_from(html, &p_author, ap) {
            None => {
                assert(mp_find_author(html@, ap as int) is None);
                adone = true;
            },
            Some(a) => {
                let q: usize = if a + 6 < html.len() && html[a + 6] == 115 {
                    a + 7
                } else {
                    a + 6
                };
                let mut hit = false;
                if q < html.len() && html[q] == 58 {
                    let start = q + 1;
                    let e: usize = match find_from(html, &p_lt, start) {
                        None => html.len(),
                        Some(x) => x,
                    };
                    if e > start {
                        author = trim(&html[start..e]);
                        hit = true;
                    }
                }
                if hit {
                    assert(mp_find_author(html@, ap as int) == Some(author@));
                    adone = true;
                } else {
                    assert(mp_find_author(html@, ap as int) == mp_find_author(
                        html@,
                        a + 6 as int,
                    ));
                    ap = a + 6;
                }
            },
        }
    }
    // cover
    let p_img = lit_img();
    let mut cover_url: Vec<u8> = Vec::new();
    let mut cp: usize = 0;
    let mut cdone: bool = false;
    while !cdone
        invariant
            cp <= html.len(),
            p_img@ == pat_img(),
            !cdone ==> mp_find_cover(html@, 0) == mp_find_cover(html@, cp as int),
            !cdone ==> cover_url@ == Seq::<u8>::empty(),
            cdone ==> cover_url@ == (match mp_find_cover(html@, 0) {
                Some(x) => x,
                None => Seq::<u8>::empty(),
            }),
        decreases html.len() - cp + (if cdone {
            0int
        } else {
            1int
        }),
    {
        match find_from(html, &p_img, cp) {
            None => {
                assert(mp_find_cover(html@, cp as int) is None);
                cdone = true;
            },
            Some(i) => match mp_cover_at_exec(html, i) {
                MpFindStepE::Found(v) => {
                    assert(mp_find_cover(html@, cp as int) == Some(v@));
                    cover_url = v;
                    cdone = true;
                },
                MpFindStepE::Skip(q) => {
                    assert(mp_find_cover(html@, cp as int) == mp_find_cover(html@, q as int));
                    cp = q;
                },
                MpFindStepE::Stop => {
                    assert(mp_find_cover(html@, cp as int) is None);
                    cdone = true;
                },
            },
        }
    }
    // status
    let p_completed = lit_completed_word();
    let status = if contains(html, &p_completed) {
        MangaStatus::Completed
    } else {
        MangaStatus::Unknown
    };
    MangaDetail {
        id: to_vec(manga_id),
        title,
        author,
        description,
        cover_url,
        status,
        nsfw: false,
        source: SourceKind::MangaPill,
    }
}

// ---------------------------------------------------------------------------
// Request URLs
// ---------------------------------------------------------------------------

/// The listing-request URL: the updates page when the query is empty, the
/// search page with the percent-encoded query otherwise.
pub open spec fn mp_search_url(q: Seq<u8>, page: int) -> Seq<u8> {
    if q.len() == 0 {
        pat_mp_base() + pat_mp_updates() + spec_dec_signed(page)
    } else {
        pat_mp_base() + pat_mp_search() + spec_urlencoded(q) + pat_amp_page() + spec_dec_signed(
            page,
        )
    }
}

/// Builds the listing-request URL for a query and 1-based page number.
pub fn search_url(query: &[u8], page: i32) -> (r: Vec<u8>)
    ensures
        r@ == mp_search_url(query@, page as int),
{
    let base = lit_mp_base();
    let mut out: Vec<u8> = Vec::new();
    push_all(&mut out, &base);
    if query.len() == 0 {
        let upd = lit_mp_updates();
        push_all(&mut out, &upd);
        push_dec_signed(&mut out, page as i64);
        assert(out@ =~= mp_search_url(query@, page as int));
    } else {
        let srch = lit_mp_search();
        push_all(&mut out, &srch);
        let enc = urlencode(query);
        push_all(&mut out, enc.as_slice());
        let ap = lit_amp_page();
        push_all(&mut out, &ap);
        push_dec_signed(&mut out, page as i64);
        assert(out@ =~= mp_search_url(query@, page as int));
    }
    out
}

/// A page address under this source's base URL: detail pages, chapter lists
/// and chapter reader pages are all fetched this way.
pub open spec fn mp_page_url(path: Seq<u8>) -> Seq<u8> {
    pat_mp_base() + path
}

/// Builds the URL of a source-relative path.
pub fn page_url(path: &[u8]) -> (r: Vec<u8>)
    ensures
        r@ == mp_page_url(path@),
{
    let base = lit_mp_base();
    let mut out: Vec<u8> = Vec::new();
    push_all(&mut out, &base);
    push_all(&mut out, path);
    out
}

} // verus!
