//! The acquisition pipeline's decisions: target filenames for each page
//! position, the per-position outcome summary, and the ordered list of
//! successfully retrieved files.
//!
//! The retrieval itself is network work and lives with the caller; every
//! rule about what gets stored where, and when the whole call fails, is
//! decided here.

use vstd::prelude::*;

use crate::markup::{
    lit_first_page, lit_jpg_default, pat_first_page, pat_jpg_default,
};
use crate::text::{
    push_all, push_dec3, rlast, spec_dec3, spec_rlast, sub_vec, to_vec,
};

verus! {

/// `url` with trailing `/` bytes removed.
pub open spec fn spec_rtrim_slash(s: Seq<u8>) -> Seq<u8>
    decreases s.len(),
{
    if s.len() > 0 && s[s.len() - 1] == 47 {
        spec_rtrim_slash(s.drop_last())
    } else {
        s
    }
}

/// The extension a page URL carries: in its last path segment, everything
/// after the last `.` (when that dot exists and is not the segment's first
/// byte); `jpg` when there is none.
pub open spec fn spec_ext_of(url: Seq<u8>) -> Seq<u8> {
    let t = spec_rtrim_slash(url);
    let c = match spec_rlast(t, 47u8) {
        Some(sl) => t.subrange(sl + 1, t.len() as int),
        None => t,
    };
    match spec_rlast(c, 46u8) {
        Some(d) => if d > 0 {
            c.subrange(d + 1, c.len() as int)
        } else {
            pat_jpg_default()
        },
        None => pat_jpg_default(),
    }
}

/// The stored filename of the page at 0-based `position`: the 1-based
/// position zero-padded to three digits, a dot, and the URL's extension.
pub open spec fn spec_page_filename(position: int, url: Seq<u8>) -> Seq<u8> {
    spec_dec3((position + 1) as nat) + seq![46u8] + spec_ext_of(url)
}

/// The stored filename when the extension policy is fixed to `jpg`
/// regardless of the URL.
pub open spec fn spec_page_filename_jpg(position: int) -> Seq<u8> {
    spec_dec3((position + 1) as nat) + seq![46u8] + pat_jpg_default()
}

/// Computes the URL's extension, `jpg` when it has none.
pub fn ext_of_url(url: &[u8]) -> (r: Vec<u8>)
    ensures
        r@ == spec_ext_of(url@),
{
    let default = lit_jpg_default();
    assert(url@.subrange(0, url@.len() as int) =~= url@);
    let mut end: usize = url.len();
    while end > 0 && url[end - 1] == 47
        invariant
            end <= url.len(),
            spec_rtrim_slash(url@.subrange(0, end as int)) == spec_rtrim_slash(url@),
        decreases end,
    {
        assert(url@.subrange(0, end as int).drop_last() =~= url@.subrange(0, end - 1 as int));
        end -= 1;
    }
    assert(url@.subrange(0, url@.len() as int) =~= url@);
    let ghost t = spec_rtrim_slash(url@);
    assert(t =~= url@.subrange(0, end as int)) by {
        if end > 0 {
            assert(url@.subrange(0, end as int)[end - 1] == url@[end - 1]);
        }
    }
    let trimmed = sub_vec(url, 0, end);
    let seg: Vec<u8> = match rlast(trimmed.as_slice(), 47) {
        Some(sl) => sub_vec(trimmed.as_slice(), sl + 1, trimmed.len()),
        None => trimmed,
    };
    match rlast(seg.as_slice(), 46) {
        Some(d) => {
            if d > 0 {
                sub_vec(seg.as_slice(), d + 1, seg.len())
            } else {
                to_vec(&default)
            }
        },
        None => to_vec(&default),
    }
}

/// Builds the stored filename for the page at 0-based `position`.
pub fn page_filename(position: usize, url: &[u8]) -> (r: Vec<u8>)
    requires
        position < usize::MAX,
    ensures
        r@ == spec_page_filename(position as int, url@),
{
    let mut out: Vec<u8> = Vec::new();
    push_dec3(&mut out, (position + 1) as u64);
    out.push(46);
    let ext = ext_of_url(url);
    push_all(&mut out, ext.as_slice());
    assert(out@ =~= spec_page_filename(position as int, url@));
    out
}

/// Builds the stored filename under the fixed-`jpg` policy.
pub fn page_filename_jpg(position: usize) -> (r: Vec<u8>)
    requires
        position < usize::MAX,
    ensures
        r@ == spec_page_filename_jpg(position as int),
{
    let mut out: Vec<u8> = Vec::new();
    push_dec3(&mut out, (position + 1) as u64);
    out.push(46);
    let default = lit_jpg_default();
    push_all(&mut out, &default);
    assert(out@ =~= spec_page_filename_jpg(position as int));
    out
}

/// The stored filenames of every position, in input order.
pub fn plan_filenames(urls: &Vec<Vec<u8>>) -> (r: Vec<Vec<u8>>)
    ensures
        r@.len() == urls@.len(),
        forall|i: int|
            0 <= i < r@.len() ==> #[trigger] r@[i]@ == spec_page_filename(i, urls@[i]@),
{
    let mut out: Vec<Vec<u8>> = Vec::new();
    let mut i: usize = 0;
    while i < urls.len()
        invariant
            i <= urls.len(),
            out@.len() == i,
            forall|k: int|
                0 <= k < i ==> #[trigger] out@[k]@ == spec_page_filename(k, urls@[k]@),
        decreases urls.len() - i,
    {
        let name = page_filename(i, urls[i].as_slice());
        out.push(name);
        i += 1;
    }
    out
}

/// The number of `true` entries.
pub open spec fn count_true(s: Seq<bool>) -> int
    decreases s.len(),
{
    if s.len() == 0 {
        0
    } else {
        count_true(s.drop_last()) + (if s.last() {
            1int
        } else {
            0int
        })
    }
}

/// The outcome of one acquisition call: how many positions were requested
/// and how many were stored.
#[derive(Clone, Copy, PartialEq, Eq, Structural, Debug)]
pub struct AcquisitionReport {
    pub requested: usize,
    pub succeeded: usize,
}

impl AcquisitionReport {
    /// The call counts as successful exactly when at least one page was
    /// stored.
    pub fn is_success(&self) -> (r: bool)
        ensures
            r == (self.succeeded > 0),
    {
        self.succeeded > 0
    }
}

/// The count of `true` entries never exceeds the length.
pub proof fn lemma_count_true_le(s: Seq<bool>)
    ensures
        0 <= count_true(s) <= s.len(),
    decreases s.len(),
{
    if s.len() > 0 {
        lemma_count_true_le(s.drop_last());
    }
}

/// Total-failure law: no position succeeded exactly when every outcome is
/// `false`; the report then counts zero stored pages and the call fails.
pub proof fn lemma_total_failure(s: Seq<bool>)
    ensures
        (count_true(s) == 0) <==> (forall|i: int| 0 <= i < s.len() ==> !s[i]),
    decreases s.len(),
{
    if s.len() > 0 {
        lemma_total_failure(s.drop_last());
        lemma_count_true_le(s.drop_last());
        if count_true(s) == 0 {
            assert forall|i: int| 0 <= i < s.len() implies !s[i] by {
                if i < s.len() - 1 {
                    assert(s.drop_last()[i] == s[i]);
                }
            }
        } else {
            if forall|i: int| 0 <= i < s.len() ==> !s[i] {
                assert(!s.last());
                assert(forall|i: int|
                    0 <= i < s.drop_last().len() ==> !(#[trigger] s.drop_last()[i]));
            }
        }
    }
}

/// Summarizes the per-position outcomes of one acquisition call.
pub fn summarize(outcomes: &Vec<bool>) -> (r: AcquisitionReport)
    ensures
        r.requested == outcomes@.len(),
        r.succeeded == count_true(outcomes@),
        r.succeeded <= r.requested,
{
    proof {
        lemma_count_true_le(outcomes@);
    }
    let mut n: usize = 0;
    let mut i: usize = 0;
    while i < outcomes.len()
        invariant
            i <= outcomes.len(),
            n == count_true(outcomes@.subrange(0, i as int)),
            n <= i,
        decreases outcomes.len() - i,
    {
        proof {
            assert(outcomes@.subrange(0, i + 1 as int).drop_last() =~= outcomes@.subrange(
                0,
                i as int,
            ));
            assert(outcomes@.subrange(0, i + 1 as int).last() == outcomes@[i as int]);
        }
        if outcomes[i] {
            n += 1;
        }
        i += 1;
    }
    assert(outcomes@.subrange(0, outcomes@.len() as int) =~= outcomes@);
    AcquisitionReport { requested: outcomes.len(), succeeded: n }
}

/// The number of filled entries.
pub open spec fn count_some(bodies: Seq<Option<Vec<u8>>>) -> int
    decreases bodies.len(),
{
    if bodies.len() == 0 {
        0
    } else {
        (if bodies[0] is Some {
            1int
        } else {
            0int
        }) + count_some(bodies.drop_first())
    }
}

/// The `(filename, bytes)` pairs of the positions whose body arrived, in
/// position order.
pub open spec fn spec_successes(names: Seq<Seq<u8>>, bodies: Seq<Option<Vec<u8>>>) -> Seq<
    (Seq<u8>, Seq<u8>),
>
    decreases bodies.len(),
{
    if names.len() == 0 || bodies.len() == 0 {
        Seq::empty()
    } else {
        (match bodies[0] {
            Some(b) => seq![(names[0], b@)],
            None => Seq::<(Seq<u8>, Seq<u8>)>::empty(),
        }) + spec_successes(names.drop_first(), bodies.drop_first())
    }
}

/// The views of a filename vector.
pub open spec fn names_view(names: Seq<Vec<u8>>) -> Seq<Seq<u8>> {
    names.map_values(|n: Vec<u8>| n@)
}

/// Pairs each stored body with its position's filename, keeping position
/// order and dropping failed positions.
pub fn collect_successes(names: &Vec<Vec<u8>>, bodies: &Vec<Option<Vec<u8>>>) -> (r: Vec<
    (Vec<u8>, Vec<u8>),
>)
    requires
        names@.len() == bodies@.len(),
    ensures
        crate::archive::entries_view(r@) == spec_successes(names_view(names@), bodies@),
{
    let ghost all_names = names_view(names@);
    let ghost all_bodies = bodies@;
    let mut out: Vec<(Vec<u8>, Vec<u8>)> = Vec::new();
    proof {
        assert(all_names.skip(0) =~= all_names);
        assert(all_bodies.skip(0) =~= all_bodies);
        assert(crate::archive::entries_view(out@) + spec_successes(all_names, all_bodies)
            =~= spec_successes(all_names, all_bodies));
    }
    let mut i: usize = 0;
    while i < bodies.len()
        invariant
            i <= bodies.len(),
            names@.len() == bodies@.len(),
            all_bodies == bodies@,
            all_names == names_view(names@),
            crate::archive::entries_view(out@) + spec_successes(
                all_names.skip(i as int),
                all_bodies.skip(i as int),
            ) == spec_successes(all_names, all_bodies),
        decreases bodies.len() - i,
    {
        proof {
            assert(all_names.skip(i as int).drop_first() =~= all_names.skip(i + 1));
            assert(all_bodies.skip(i as int).drop_first() =~= all_bodies.skip(i + 1));
            assert(all_names.skip(i as int)[0] == all_names[i as int]);
            assert(all_bodies.skip(i as int)[0] == all_bodies[i as int]);
        }
        if bodies[i].is_some() {
            let b = crate::model::clone_bytes(bodies[i].as_ref().unwrap());
            let ghost bb = (match all_bodies[i as int] {
                Some(x) => x@,
                None => Seq::<u8>::empty(),
            });
            assert(b@ == bb);
            let name = crate::model::clone_bytes(&names[i]);
            let ghost before = out@;
            out.push((name, b));
            proof {
                assert(crate::archive::entries_view(out@) =~= crate::archive::entries_view(
                    before,
                ).push((all_names[i as int], bb)));
                assert(crate::archive::entries_view(before).push((all_names[i as int], bb))
                    + spec_successes(all_names.skip(i + 1), all_bodies.skip(i + 1))
                    =~= crate::archive::entries_view(before) + spec_successes(
                    all_names.skip(i as int),
                    all_bodies.skip(i as int),
                ));
            }
        } else {
            proof {
                assert(crate::archive::entries_view(out@) + spec_successes(
                    all_names.skip(i + 1),
                    all_bodies.skip(i + 1),
                ) =~= crate::archive::entries_view(out@) + spec_successes(
                    all_names.skip(i as int),
                    all_bodies.skip(i as int),
                ));
            }
        }
        i += 1;
    }
    proof {
        assert(all_names.skip(i as int) =~= Seq::<Seq<u8>>::empty());
        assert(spec_successes(all_names.skip(i as int), all_bodies.skip(i as int)) =~= Seq::<
            (Seq<u8>, Seq<u8>),
        >::empty());
        assert(crate::archive::entries_view(out@) + Seq::<(Seq<u8>, Seq<u8>)>::empty()
            =~= crate::archive::entries_view(out@));
    }
    out
}

/// Positional-stability law, first half: one success is recorded for every
/// filled body, none for a failed one.
pub proof fn lemma_successes_count(names: Seq<Seq<u8>>, bodies: Seq<Option<Vec<u8>>>)
    requires
        names.len() == bodies.len(),
    ensures
        spec_successes(names, bodies).len() == count_some(bodies),
    decreases bodies.len(),
{
    if bodies.len() > 0 {
        lemma_successes_count(names.drop_first(), bodies.drop_first());
    }
}

/// The 0-based positions whose body arrived, ascending.
pub open spec fn success_indices(bodies: Seq<Option<Vec<u8>>>) -> Seq<int>
    decreases bodies.len(),
{
    if bodies.len() == 0 {
        Seq::empty()
    } else {
        (if bodies[0] is Some {
            seq![0int]
        } else {
            Seq::<int>::empty()
        }) + success_indices(bodies.drop_first()).map_values(|j: int| j + 1)
    }
}

/// Positional-stability law: the recorded successes are exactly the pairs
/// `(names[i], bodies[i])` for the positions `i` whose body arrived, in
/// ascending position order. Together with `lemma_successes_count`, an
/// acquisition over `N` positions with failure set `F` stores exactly the
/// files of the positions outside `F`, under their own positional names.
pub proof fn lemma_positional_stability(names: Seq<Seq<u8>>, bodies: Seq<Option<Vec<u8>>>)
    requires
        names.len() == bodies.len(),
    ensures
        spec_successes(names, bodies) == success_indices(bodies).map_values(
            |j: int| (names[j], match bodies[j] {
                Some(b) => b@,
                None => Seq::<u8>::empty(),
            }),
        ),
        forall|k: int|
            0 <= k < success_indices(bodies).len() ==> 0 <= #[trigger] success_indices(
                bodies,
            )[k] < bodies.len() && bodies[success_indices(bodies)[k]] is Some,
    decreases bodies.len(),
{
    let f = |j: int| (names[j], match bodies[j] {
        Some(b) => b@,
        None => Seq::<u8>::empty(),
    });
    if bodies.len() == 0 {
        assert(spec_successes(names, bodies) =~= success_indices(bodies).map_values(f));
    } else {
        let ntail = names.drop_first();
        let btail = bodies.drop_first();
        lemma_positional_stability(ntail, btail);
        let ftail = |j: int| (ntail[j], match btail[j] {
            Some(b) => b@,
            None => Seq::<u8>::empty(),
        });
        let shifted = success_indices(btail).map_values(|j: int| j + 1);
        assert(shifted.map_values(f) =~= success_indices(btail).map_values(ftail)) by {
            assert forall|k: int| 0 <= k < shifted.len() implies shifted.map_values(f)[k]
                == success_indices(btail).map_values(ftail)[k] by {
                let j = success_indices(btail)[k];
                assert(0 <= j < btail.len() && btail[j] is Some);
                assert(shifted[k] == j + 1);
                assert(ntail[j] == names[j + 1]);
                assert(btail[j] == bodies[j + 1]);
            }
        }
        assert(spec_successes(names, bodies) =~= success_indices(bodies).map_values(f)) by {
            assert(success_indices(bodies).map_values(f) =~= (if bodies[0] is Some {
                seq![f(0)]
            } else {
                Seq::<(Seq<u8>, Seq<u8>)>::empty()
            }) + shifted.map_values(f));
        }
        assert forall|k: int| 0 <= k < success_indices(bodies).len() implies 0
            <= #[trigger] success_indices(bodies)[k] < bodies.len() && bodies[success_indices(
            bodies,
        )[k]] is Some by {
            let head: int = if bodies[0] is Some {
                1
            } else {
                0
            };
            if k >= head {
                let j = success_indices(btail)[k - head];
                assert(success_indices(bodies)[k] == j + 1);
                assert(bodies[j + 1] == btail[j]);
            }
        }
    }
}

/// The outcome flags of a body list: one per position, `true` where the
/// body arrived.
pub open spec fn outcomes_of(bodies: Seq<Option<Vec<u8>>>) -> Seq<bool> {
    bodies.map_values(|b: Option<Vec<u8>>| b is Some)
}

/// Counting filled entries from the back: one step of `count_some`.
proof fn lemma_count_some_drop_last(bodies: Seq<Option<Vec<u8>>>)
    requires
        bodies.len() > 0,
    ensures
        count_some(bodies) == count_some(bodies.drop_last()) + (if bodies.last() is Some {
            1int
        } else {
            0int
        }),
    decreases bodies.len(),
{
    if bodies.len() == 1 {
        assert(bodies.drop_last() =~= Seq::<Option<Vec<u8>>>::empty());
        assert(bodies.drop_first() =~= Seq::<Option<Vec<u8>>>::empty());
        assert(count_some(bodies.drop_first()) == 0);
        assert(count_some(bodies.drop_last()) == 0);
        assert(bodies.last() == bodies[0]);
    } else {
        let tail = bodies.drop_first();
        lemma_count_some_drop_last(tail);
        assert(tail.last() == bodies.last());
        assert(bodies.drop_last().drop_first() =~= tail.drop_last());
        assert(bodies.drop_last()[0] == bodies[0]);
        assert(bodies.drop_last().len() > 0);
        assert(count_some(bodies) == (if bodies[0] is Some {
            1int
        } else {
            0int
        }) + count_some(tail));
        assert(count_some(bodies.drop_last()) == (if bodies[0] is Some {
            1int
        } else {
            0int
        }) + count_some(tail.drop_last()));
    }
}

/// The summary and the collected files agree: the count of `true` outcome
/// flags equals the count of filled bodies.
proof fn lemma_count_true_some(bodies: Seq<Option<Vec<u8>>>)
    ensures
        count_true(outcomes_of(bodies)) == count_some(bodies),
    decreases bodies.len(),
{
    if bodies.len() == 0 {
        assert(outcomes_of(bodies) =~= Seq::<bool>::empty());
    } else {
        lemma_count_true_some(bodies.drop_last());
        lemma_count_some_drop_last(bodies);
        assert(outcomes_of(bodies).drop_last() =~= outcomes_of(bodies.drop_last()));
        assert(outcomes_of(bodies).last() == (bodies.last() is Some));
    }
}

/// Acquisition-summary law: over any bodies, the succeeded count that
/// `summarize` reports for the outcome flags equals the number of files
/// that `collect_successes` stores. With `lemma_positional_stability`,
/// an acquisition over `N` positions where the set `F` fails reports
/// `N - |F|` succeeded and stores exactly the files of the other
/// positions, under their positional names, in position order.
pub proof fn lemma_report_matches_successes(names: Seq<Seq<u8>>, bodies: Seq<Option<Vec<u8>>>)
    requires
        names.len() == bodies.len(),
    ensures
        count_true(outcomes_of(bodies)) == count_some(bodies),
        spec_successes(names, bodies).len() == count_some(bodies),
{
    lemma_count_true_some(bodies);
    lemma_successes_count(names, bodies);
}

/// The path of the first expected page under a destination directory.
pub open spec fn spec_first_page_path(dir: Seq<u8>) -> Seq<u8> {
    dir + pat_first_page()
}

/// Builds the path of the first expected page under `dir`.
pub fn first_page_path(dir: &[u8]) -> (r: Vec<u8>)
    ensures
        r@ == spec_first_page_path(dir@),
{
    let suffix = lit_first_page();
    let mut out: Vec<u8> = Vec::new();
    push_all(&mut out, dir);
    push_all(&mut out, &suffix);
    out
}

} // verus!
