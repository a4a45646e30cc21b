//! The canonical data model produced by the extractors.
//!
//! Text fields hold raw UTF-8 bytes. Chapter numbers are decimal values kept
//! in thousandths (`12.5` is `12_500`), so ordering is plain integer
//! ordering; a missing volume number is `None`.

use vstd::prelude::*;

verus! {

/// Publication status derived from textual markers on a detail page.
#[derive(Clone, Copy, PartialEq, Eq, Structural, Debug)]
pub enum MangaStatus {
    Ongoing,
    Completed,
    Hiatus,
    Canceled,
    Unknown,
}

/// One of the built-in sources.
#[derive(Clone, Copy, PartialEq, Eq, Structural, Debug)]
pub enum SourceKind {
    MangaPill,
    WeebCentral,
}

/// One entry of a search or listing page.
pub struct SearchResult {
    pub id: Vec<u8>,
    pub title: Vec<u8>,
    pub author: Vec<u8>,
    pub description: Vec<u8>,
    pub cover_url: Vec<u8>,
    pub status: MangaStatus,
    pub source: SourceKind,
}

/// Mathematical value of a `SearchResult`.
pub ghost struct SearchResultView {
    pub id: Seq<u8>,
    pub title: Seq<u8>,
    pub author: Seq<u8>,
    pub description: Seq<u8>,
    pub cover_url: Seq<u8>,
    pub status: MangaStatus,
    pub source: SourceKind,
}

impl View for SearchResult {
    type V = SearchResultView;

    open spec fn view(&self) -> SearchResultView {
        SearchResultView {
            id: self.id@,
            title: self.title@,
            author: self.author@,
            description: self.description@,
            cover_url: self.cover_url@,
            status: self.status,
            source: self.source,
        }
    }
}

/// Full details of one manga, as extracted from its detail page.
pub struct MangaDetail {
    pub id: Vec<u8>,
    pub title: Vec<u8>,
    pub author: Vec<u8>,
    pub description: Vec<u8>,
    pub cover_url: Vec<u8>,
    pub status: MangaStatus,
    pub nsfw: bool,
    pub source: SourceKind,
}

/// Mathematical value of a `MangaDetail`.
pub ghost struct MangaDetailView {
    pub id: Seq<u8>,
    pub title: Seq<u8>,
    pub author: Seq<u8>,
    pub description: Seq<u8>,
    pub cover_url: Seq<u8>,
    pub status: MangaStatus,
    pub nsfw: bool,
    pub source: SourceKind,
}

impl View for MangaDetail {
    type V = MangaDetailView;

    open spec fn view(&self) -> MangaDetailView {
        MangaDetailView {
            id: self.id@,
            title: self.title@,
            author: self.author@,
            description: self.description@,
            cover_url: self.cover_url@,
            status: self.status,
            nsfw: self.nsfw,
            source: self.source,
        }
    }
}

/// One readable installment, ordered by its decimal chapter number.
pub struct Chapter {
    pub id: Vec<u8>,
    pub manga_id: Vec<u8>,
    pub source: SourceKind,
    /// Chapter number in thousandths.
    pub number_milli: u64,
    pub title: Vec<u8>,
    pub language: Vec<u8>,
    /// Volume number in thousandths; `None` when the entry is not a volume.
    pub volume_milli: Option<u64>,
    pub published_at: Option<i64>,
    pub is_read: bool,
    pub pages: u32,
}

/// Mathematical value of a `Chapter`.
pub ghost struct ChapterView {
    pub id: Seq<u8>,
    pub manga_id: Seq<u8>,
    pub source: SourceKind,
    pub number_milli: u64,
    pub title: Seq<u8>,
    pub language: Seq<u8>,
    pub volume_milli: Option<u64>,
    pub published_at: Option<i64>,
    pub is_read: bool,
    pub pages: u32,
}

impl View for Chapter {
    type V = ChapterView;

    open spec fn view(&self) -> ChapterView {
        ChapterView {
            id: self.id@,
            manga_id: self.manga_id@,
            source: self.source,
            number_milli: self.number_milli,
            title: self.title@,
            language: self.language@,
            volume_milli: self.volume_milli,
            published_at: self.published_at,
            is_read: self.is_read,
            pages: self.pages,
        }
    }
}

/// One page image of a chapter.
pub struct Page {
    /// 1-based position within the chapter.
    pub index: usize,
    pub url: Vec<u8>,
    pub width: u32,
    pub height: u32,
}

/// Mathematical value of a `Page`.
pub ghost struct PageView {
    pub index: usize,
    pub url: Seq<u8>,
    pub width: u32,
    pub height: u32,
}

impl View for Page {
    type V = PageView;

    open spec fn view(&self) -> PageView {
        PageView { index: self.index, url: self.url@, width: self.width, height: self.height }
    }
}

/// One page of search results together with the pagination heuristic.
pub struct SearchListing {
    pub results: Vec<SearchResult>,
    pub has_more: bool,
    pub page: i32,
}

/// The views of a sequence of search results.
pub open spec fn search_results_view(s: Seq<SearchResult>) -> Seq<SearchResultView> {
    s.map_values(|r: SearchResult| r@)
}

/// The views of a sequence of chapters.
pub open spec fn chapters_view(s: Seq<Chapter>) -> Seq<ChapterView> {
    s.map_values(|c: Chapter| c@)
}

/// The views of a sequence of pages.
pub open spec fn pages_view(s: Seq<Page>) -> Seq<PageView> {
    s.map_values(|p: Page| p@)
}

/// Mapping to views commutes with appending one search result.
pub proof fn lemma_search_views_push(s: Seq<SearchResult>, x: SearchResult)
    ensures
        search_results_view(s.push(x)) == search_results_view(s).push(x@),
{
    assert(search_results_view(s.push(x)) =~= search_results_view(s).push(x@));
}

/// Mapping to views commutes with appending one chapter.
pub proof fn lemma_chapter_views_push(s: Seq<Chapter>, x: Chapter)
    ensures
        chapters_view(s.push(x)) == chapters_view(s).push(x@),
{
    assert(chapters_view(s.push(x)) =~= chapters_view(s).push(x@));
}

/// Stable insertion of a chapter into a list already sorted by descending
/// chapter number: the new element goes after every element whose number is
/// at least as large.
pub open spec fn spec_insert_desc(x: ChapterView, s: Seq<ChapterView>) -> Seq<ChapterView>
    decreases s.len(),
{
    if s.len() == 0 {
        seq![x]
    } else if s[0].number_milli >= x.number_milli {
        seq![s[0]] + spec_insert_desc(x, s.drop_first())
    } else {
        seq![x] + s
    }
}

/// Stable sort by descending chapter number: elements are inserted in input
/// order, each after all equal numbers already present.
pub open spec fn spec_sort_desc(s: Seq<ChapterView>) -> Seq<ChapterView>
    decreases s.len(),
{
    if s.len() == 0 {
        Seq::empty()
    } else {
        spec_insert_desc(s.last(), spec_sort_desc(s.drop_last()))
    }
}

/// Sorted by descending chapter number.
pub open spec fn sorted_desc(s: Seq<ChapterView>) -> bool {
    forall|i: int| 0 <= i < s.len() - 1 ==> #[trigger] s[i].number_milli >= s[i + 1].number_milli
}

/// Inserting preserves descending order.
pub proof fn lemma_insert_desc_sorted(x: ChapterView, s: Seq<ChapterView>)
    requires
        sorted_desc(s),
    ensures
        sorted_desc(spec_insert_desc(x, s)),
        spec_insert_desc(x, s).len() == s.len() + 1,
    decreases s.len(),
{
    if s.len() == 0 {
    } else if s[0].number_milli >= x.number_milli {
        assert(sorted_desc(s.drop_first()));
        lemma_insert_desc_sorted(x, s.drop_first());
        let t = seq![s[0]] + spec_insert_desc(x, s.drop_first());
        let u = spec_insert_desc(x, s.drop_first());
        assert forall|i: int| 0 <= i < t.len() - 1 implies #[trigger] t[i].number_milli >= t[
            i + 1
        ].number_milli by {
            if i == 0 {
                if s.drop_first().len() == 0 {
                    assert(t[1] == x);
                } else if s.drop_first()[0].number_milli >= x.number_milli {
                    assert(u[0] == s.drop_first()[0]);
                    assert(s[1] == s.drop_first()[0]);
                } else {
                    assert(u[0] == x);
                }
            } else {
                assert(t[i] == u[i - 1]);
                assert(t[i + 1] == u[i]);
            }
        }
    } else {
    }
}

/// The stable sort indeed sorts by descending chapter number.
///
/// Chapter ordering law: in any sorted chapter list, every element's number
/// is at least the next one's.
pub proof fn lemma_sort_desc_sorted(s: Seq<ChapterView>)
    ensures
        sorted_desc(spec_sort_desc(s)),
        spec_sort_desc(s).len() == s.len(),
    decreases s.len(),
{
    if s.len() == 0 {
    } else {
        lemma_sort_desc_sorted(s.drop_last());
        lemma_insert_desc_sorted(s.last(), spec_sort_desc(s.drop_last()));
    }
}

/// Splitting `spec_insert_desc` at the insertion point.
proof fn lemma_insert_desc_at(x: ChapterView, s: Seq<ChapterView>, j: int)
    requires
        0 <= j <= s.len(),
        forall|m: int| 0 <= m < j ==> #[trigger] s[m].number_milli >= x.number_milli,
        j < s.len() ==> s[j].number_milli < x.number_milli,
    ensures
        spec_insert_desc(x, s) == s.subrange(0, j) + seq![x] + s.subrange(j, s.len() as int),
    decreases s.len(),
{
    if s.len() == 0 {
        assert(spec_insert_desc(x, s) =~= s.subrange(0, j) + seq![x] + s.subrange(
            j,
            s.len() as int,
        ));
    } else if j == 0 {
        assert(s[0].number_milli < x.number_milli);
        assert(spec_insert_desc(x, s) =~= s.subrange(0, 0) + seq![x] + s.subrange(
            0,
            s.len() as int,
        ));
    } else {
        assert(s[0].number_milli >= x.number_milli);
        lemma_insert_desc_at(x, s.drop_first(), j - 1);
        assert(spec_insert_desc(x, s) =~= s.subrange(0, j) + seq![x] + s.subrange(
            j,
            s.len() as int,
        )) by {
            assert(s.drop_first().subrange(0, j - 1) =~= s.subrange(1, j));
            assert(s.drop_first().subrange(j - 1, s.drop_first().len() as int) =~= s.subrange(
                j,
                s.len() as int,
            ));
            assert(seq![s[0]] + (s.subrange(1, j) + seq![x] + s.subrange(j, s.len() as int))
                =~= s.subrange(0, j) + seq![x] + s.subrange(j, s.len() as int));
        }
    }
}

/// Sorts chapters by descending chapter number, keeping input order among
/// equal numbers.
pub fn sort_chapters_desc(input: Vec<Chapter>) -> (r: Vec<Chapter>)
    ensures
        chapters_view(r@) == spec_sort_desc(chapters_view(input@)),
        sorted_desc(chapters_view(r@)),
{
    let mut out: Vec<Chapter> = Vec::new();
    let mut rest = input;
    let ghost all = chapters_view(rest@);
    let mut taken: usize = 0;
    while taken < rest.len()
        invariant
            taken <= rest.len(),
            chapters_view(rest@) == all,
            chapters_view(out@) == spec_sort_desc(all.subrange(0, taken as int)),
            sorted_desc(chapters_view(out@)),
        decreases rest.len() - taken,
    {
        let ghost prefix = all.subrange(0, taken as int);
        let x = rest[taken].clone_chapter();
        assert(x@ == all[taken as int]);
        // find the insertion point: after every element with number >= x's
        let mut j: usize = 0;
        while j < out.len() && out[j].number_milli >= x.number_milli
            invariant
                j <= out.len(),
                forall|m: int|
                    0 <= m < j ==> #[trigger] chapters_view(out@)[m].number_milli
                        >= x.number_milli,
            decreases out.len() - j,
        {
            assert(chapters_view(out@)[j as int].number_milli == out@[j as int].number_milli);
            j += 1;
        }
        assert(j < out.len() ==> chapters_view(out@)[j as int].number_milli
            < x.number_milli) by {
            if j < out.len() {
                assert(chapters_view(out@)[j as int].number_milli == out@[
                    j as int
                ].number_milli);
            }
        }
        let ghost before = chapters_view(out@);
        out.insert(j, x);
        proof {
            lemma_insert_desc_at(x@, before, j as int);
            assert(chapters_view(out@) =~= before.subrange(0, j as int) + seq![x@]
                + before.subrange(j as int, before.len() as int));
            lemma_insert_desc_sorted(x@, before);
            assert(all.subrange(0, taken + 1 as int).drop_last() =~= prefix);
            assert(all.subrange(0, taken + 1 as int).last() == all[taken as int]);
        }
        taken += 1;
    }
    assert(all.subrange(0, taken as int) =~= all);
    out
}

impl Chapter {
    /// A field-for-field copy.
    pub fn clone_chapter(&self) -> (r: Chapter)
        ensures
            r@ == self@,
    {
        Chapter {
            id: clone_bytes(&self.id),
            manga_id: clone_bytes(&self.manga_id),
            source: self.source,
            number_milli: self.number_milli,
            title: clone_bytes(&self.title),
            language: clone_bytes(&self.language),
            volume_milli: self.volume_milli,
            published_at: self.published_at,
            is_read: self.is_read,
            pages: self.pages,
        }
    }
}

/// A copy of a byte string.
pub fn clone_bytes(v: &Vec<u8>) -> (r: Vec<u8>)
    ensures
        r@ == v@,
{
    let mut out: Vec<u8> = Vec::new();
    let mut k: usize = 0;
    while k < v.len()
        invariant
            k <= v.len(),
            out@ == v@.subrange(0, k as int),
        decreases v.len() - k,
    {
        out.push(v[k]);
        assert(out@ =~= v@.subrange(0, k + 1 as int));
        k += 1;
    }
    assert(out@ =~= v@);
    out
}

} // verus!
