//! Deterministic archive packaging, delegated to the `zip` crate.
//!
//! The writer is modelled by the ordered sequence of `(name, bytes)`
//! entries it has received, plus whether an entry is open for writing;
//! `archive_bytes` names the serialized container those entries produce.
//! Every entry is written with the stored (uncompressed) method, fixed
//! `0o644` permissions and the crate's fixed default timestamp, so equal
//! entry sequences give equal archives.

use std::io::Cursor;
use std::io::Write;

use vstd::prelude::*;
use vstd::utf8::valid_utf8;

verus! {

/// Longest entry name an archive can record: its length is stored in a
/// 16-bit field.
pub const MAX_ENTRY_NAME: usize = 65535;

/// Largest stored entry body: a stored entry's size is recorded in a
/// 32-bit field, and larger bodies are refused at write time.
pub const MAX_ENTRY_BODY: usize = 0xFFFF_FFFF;

/// An archive under construction: a `zip::ZipWriter` over an in-memory
/// buffer. The writer's state is opaque to verification; `archive_entries`
/// and `archive_open` name what it has received. The field is private and
/// the wrappers below are the only constructors, so every reachable writer
/// is one they built.
#[verifier::external_body]
pub struct ArchiveWriter {
    inner: zip::ZipWriter<Cursor<Vec<u8>>>,
}

/// The `(name, bytes)` entries an archive writer has received, in order.
pub uninterp spec fn archive_entries(w: ArchiveWriter) -> Seq<(Seq<u8>, Seq<u8>)>;

/// Whether the writer's last entry is open for writing: true after an
/// entry was started, until a start or write fails.
pub uninterp spec fn archive_open(w: ArchiveWriter) -> bool;

/// The serialized container holding the given entries, under this crate's
/// fixed entry options. Writing the same entries always yields the same
/// bytes on a given build: the timestamp is the format's fixed epoch
/// constant (the crate is built without its clock feature), permissions
/// are fixed, and entries keep insertion order. The one byte that is not a
/// function of the entries alone is the "made by" system marker, a
/// compile-time constant of the build target.
pub uninterp spec fn archive_bytes(entries: Seq<(Seq<u8>, Seq<u8>)>) -> Seq<u8>;

/// Packaging failed; no partial archive is delivered.
#[derive(Clone, Copy, PartialEq, Eq, Structural, Debug)]
pub struct PackagingError;

/// Relies on `zip::ZipWriter::new`: a fresh writer over an empty in-memory
/// cursor holds no entries and no open entry.
#[verifier::external_body]
fn archive_new() -> (w: ArchiveWriter)
    ensures
        archive_entries(w) == Seq::<(Seq<u8>, Seq<u8>)>::empty(),
{
    ArchiveWriter { inner: zip::ZipWriter::new(Cursor::new(Vec::new())) }
}

/// Relies on `zip::ZipWriter::start_file`: on success it opens one new,
/// empty entry under the given name, after all entries written so far,
/// with the stored (uncompressed) method, `0o644` permissions and the
/// fixed default timestamp. Its source refuses exactly a duplicate name or
/// a name over the 16-bit length field (and this wrapper refuses non-UTF-8
/// names); header writes go to the in-memory buffer and do not fail, so a
/// fresh, fitting, valid name is accepted.
#[verifier::external_body]
fn archive_start_entry(w: &mut ArchiveWriter, name: &[u8]) -> (r: Result<
    (),
    (),
>)
    ensures
        r is Ok ==> archive_entries(*final(w)) == archive_entries(*old(w)).push(
            (name@, Seq::<u8>::empty()),
        ) && archive_open(*final(w)),
        ({
            &&& valid_utf8(name@)
            &&& name@.len() <= MAX_ENTRY_NAME
            &&& forall|k: int|
                0 <= k < archive_entries(*old(w)).len() ==> (#[trigger] archive_entries(
                    *old(w),
                )[k]).0 != name@
        }) ==> r is Ok,
{
    let options = zip::write::SimpleFileOptions::default().compression_method(
        zip::CompressionMethod::Stored,
    ).unix_permissions(0o644);
    match std::str::from_utf8(name) {
        Ok(s) => match w.inner.start_file(s, options) {
            Ok(()) => Ok(()),
            Err(_) => Err(()),
        },
        Err(_) => Err(()),
    }
}

/// Relies on the `std::io::Write` implementation of `zip::ZipWriter`
/// (`write_all`): on success the written bytes extend the entry opened
/// last. Its source errors exactly when no entry is open or when a stored
/// entry would pass the 32-bit size field; buffer writes do not fail, so
/// data that keeps the entry within that bound is accepted.
#[verifier::external_body]
fn archive_write_data(w: &mut ArchiveWriter, data: &[u8]) -> (r: Result<
    (),
    (),
>)
    requires
        archive_entries(*old(w)).len() > 0,
        archive_open(*old(w)),
    ensures
        r is Ok ==> archive_entries(*final(w)) == archive_entries(*old(w)).update(
            archive_entries(*old(w)).len() - 1,
            (
                archive_entries(*old(w)).last().0,
                archive_entries(*old(w)).last().1 + data@,
            ),
        ) && archive_open(*final(w)),
        archive_entries(*old(w)).last().1.len() + data@.len() <= MAX_ENTRY_BODY ==> r is Ok,
{
    match w.inner.write_all(data) {
        Ok(()) => Ok(()),
        Err(_) => Err(()),
    }
}

/// Relies on `zip::ZipWriter::finish`: it closes the container and hands
/// back the buffer holding the serialized entries. On a writer built by
/// these wrappers the close cannot fail: the central directory goes to the
/// in-memory buffer, oversized counts and offsets switch to the format's
/// 64-bit records automatically, and every recorded entry already passed
/// the name and size checks.
#[verifier::external_body]
fn archive_finish(w: ArchiveWriter) -> (r: Result<Vec<u8>, ()>)
    ensures
        r is Ok,
        (r matches Ok(b) ==> b@ == archive_bytes(archive_entries(w))),
{
    match w.inner.finish() {
        Ok(c) => Ok(c.into_inner()),
        Err(_) => Err(()),
    }
}

/// The mathematical value of an entry list: each pair as its byte
/// sequences.
pub open spec fn entries_view(files: Seq<(Vec<u8>, Vec<u8>)>) -> Seq<(Seq<u8>, Seq<u8>)> {
    files.map_values(|f: (Vec<u8>, Vec<u8>)| (f.0@, f.1@))
}

/// An entry list the container accepts: names valid UTF-8, pairwise
/// distinct and within the name field; bodies within the stored-size
/// field.
pub open spec fn packable(files: Seq<(Vec<u8>, Vec<u8>)>) -> bool {
    &&& forall|j: int, k: int|
        0 <= j < k < files.len() ==> (#[trigger] files[j]).0@ != (#[trigger] files[k]).0@
    &&& forall|k: int|
        0 <= k < files.len() ==> {
            &&& valid_utf8((#[trigger] files[k]).0@)
            &&& files[k].0@.len() <= MAX_ENTRY_NAME
            &&& files[k].1@.len() <= MAX_ENTRY_BODY
        }
}

/// Serializes the given `(name, bytes)` entries into one archive, in the
/// exact order supplied. A packable list always yields an archive; any
/// entry failure fails the whole call and no partial archive is delivered.
pub fn pack_archive(files: &Vec<(Vec<u8>, Vec<u8>)>) -> (r: Result<Vec<u8>, PackagingError>)
    ensures
        (r matches Ok(b) ==> b@ == archive_bytes(entries_view(files@))),
        packable(files@) ==> r is Ok,
{
    let mut w = archive_new();
    let mut i: usize = 0;
    while i < files.len()
        invariant
            i <= files.len(),
            archive_entries(w) == entries_view(files@.subrange(0, i as int)),
        decreases files.len() - i,
    {
        let ghost pre = archive_entries(w);
        match archive_start_entry(&mut w, files[i].0.as_slice()) {
            Ok(()) => {},
            Err(()) => {
                proof {
                    if packable(files@) {
                        assert forall|k: int| 0 <= k < pre.len() implies (#[trigger] pre[k]).0
                            != files@[i as int].0@ by {
                            assert(pre[k] == (files@[k].0@, files@[k].1@));
                        }
                        assert(false);
                    }
                }
                return Err(PackagingError);
            },
        }
        match archive_write_data(&mut w, files[i].1.as_slice()) {
            Ok(()) => {},
            Err(()) => {
                proof {
                    if packable(files@) {
                        assert(false);
                    }
                }
                return Err(PackagingError);
            },
        }
        proof {
            let opened = pre.push((files@[i as int].0@, Seq::<u8>::empty()));
            assert(archive_entries(w) =~= pre.push(
                (files@[i as int].0@, files@[i as int].1@),
            )) by {
                assert(opened.last().1 + files@[i as int].1@ =~= files@[i as int].1@);
                assert(opened.update(
                    opened.len() - 1,
                    (files@[i as int].0@, files@[i as int].1@),
                ) =~= pre.push((files@[i as int].0@, files@[i as int].1@)));
            }
            assert(entries_view(files@.subrange(0, i + 1 as int)) =~= entries_view(
                files@.subrange(0, i as int),
            ).push((files@[i as int].0@, files@[i as int].1@)));
        }
        i += 1;
    }
    assert(files@.subrange(0, files@.len() as int) =~= files@);
    match archive_finish(w) {
        Ok(b) => Ok(b),
        Err(()) => Err(PackagingError),
    }
}

/// Round-trip packaging law: the model of the archive built from `files`
/// holds exactly one entry per file, in the order supplied, each under its
/// own name and with its own bytes.
pub proof fn lemma_round_trip_packaging(files: Seq<(Vec<u8>, Vec<u8>)>)
    ensures
        entries_view(files).len() == files.len(),
        forall|i: int|
            0 <= i < files.len() ==> #[trigger] entries_view(files)[i] == (
                files[i].0@,
                files[i].1@,
            ),
{
}

} // verus!
