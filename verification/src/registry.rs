//! The source registry: resolving a source identifier to its built-in
//! extractor, the catalogue of known sources, and the paths a downloaded
//! source package is stored under.

use vstd::prelude::*;

use crate::markup::{
    lit_aix_ext, lit_builtin_word, lit_id_mangapill, lit_id_weebcentral, lit_lang_en,
    lit_name_mangapill, lit_name_weebcentral, lit_sources_dir, lit_version_one, pat_aix_ext,
    pat_builtin_word, pat_id_mangapill, pat_id_weebcentral, pat_lang_en, pat_name_mangapill,
    pat_name_weebcentral, pat_sources_dir, pat_version_one,
};
use crate::model::SourceKind;
use crate::text::{eq_bytes, push_all, starts_with, to_vec};

verus! {

/// One entry of the source catalogue.
pub struct SourceInfo {
    pub id: Vec<u8>,
    pub name: Vec<u8>,
    pub lang: Vec<u8>,
    pub source_of_source: Vec<u8>,
    pub installed: bool,
    pub version: Vec<u8>,
}

/// Mathematical value of a `SourceInfo`.
pub ghost struct SourceInfoView {
    pub id: Seq<u8>,
    pub name: Seq<u8>,
    pub lang: Seq<u8>,
    pub source_of_source: Seq<u8>,
    pub installed: bool,
    pub version: Seq<u8>,
}

impl View for SourceInfo {
    type V = SourceInfoView;

    open spec fn view(&self) -> SourceInfoView {
        SourceInfoView {
            id: self.id@,
            name: self.name@,
            lang: self.lang@,
            source_of_source: self.source_of_source@,
            installed: self.installed,
            version: self.version@,
        }
    }
}

/// The views of a source catalogue.
pub open spec fn sources_view(s: Seq<SourceInfo>) -> Seq<SourceInfoView> {
    s.map_values(|x: SourceInfo| x@)
}

/// Which built-in extractor a source identifier names, if any.
pub open spec fn spec_resolve(id: Seq<u8>) -> Option<SourceKind> {
    if id == pat_id_mangapill() {
        Some(SourceKind::MangaPill)
    } else if id == pat_id_weebcentral() {
        Some(SourceKind::WeebCentral)
    } else {
        None
    }
}

/// Resolves a source identifier against the fixed set of built-in sources.
pub fn resolve_source(id: &[u8]) -> (r: Option<SourceKind>)
    ensures
        r == spec_resolve(id@),
{
    let mp = lit_id_mangapill();
    let wc = lit_id_weebcentral();
    if eq_bytes(id, &mp) {
        Some(SourceKind::MangaPill)
    } else if eq_bytes(id, &wc) {
        Some(SourceKind::WeebCentral)
    } else {
        None
    }
}

/// The catalogue entry of one built-in source.
pub open spec fn spec_builtin(id: Seq<u8>, name: Seq<u8>) -> SourceInfoView {
    SourceInfoView {
        id: id,
        name: name,
        lang: pat_lang_en(),
        source_of_source: pat_builtin_word(),
        installed: true,
        version: pat_version_one(),
    }
}

/// The two built-in sources, always present and always installed.
pub open spec fn spec_builtin_sources() -> Seq<SourceInfoView> {
    seq![
        spec_builtin(pat_id_mangapill(), pat_name_mangapill()),
        spec_builtin(pat_id_weebcentral(), pat_name_weebcentral()),
    ]
}

/// Starts a source catalogue with the built-in sources.
pub fn builtin_sources() -> (r: Vec<SourceInfo>)
    ensures
        sources_view(r@) == spec_builtin_sources(),
{
    let mut out: Vec<SourceInfo> = Vec::new();
    let id_mp = lit_id_mangapill();
    let nm_mp = lit_name_mangapill();
    let id_wc = lit_id_weebcentral();
    let nm_wc = lit_name_weebcentral();
    let en = lit_lang_en();
    let builtin = lit_builtin_word();
    let v1 = lit_version_one();
    out.push(
        SourceInfo {
            id: to_vec(&id_mp),
            name: to_vec(&nm_mp),
            lang: to_vec(&en),
            source_of_source: to_vec(&builtin),
            installed: true,
            version: to_vec(&v1),
        },
    );
    out.push(
        SourceInfo {
            id: to_vec(&id_wc),
            name: to_vec(&nm_wc),
            lang: to_vec(&en),
            source_of_source: to_vec(&builtin),
            installed: true,
            version: to_vec(&v1),
        },
    );
    assert(sources_view(out@) =~= spec_builtin_sources());
    out
}

/// One source offered by a remote source list, as its fields arrive.
pub struct RemoteSource {
    pub id: Vec<u8>,
    pub name: Vec<u8>,
    pub lang: Vec<u8>,
    pub version: Vec<u8>,
}

/// Mathematical value of a `RemoteSource`.
pub ghost struct RemoteSourceView {
    pub id: Seq<u8>,
    pub name: Seq<u8>,
    pub lang: Seq<u8>,
    pub version: Seq<u8>,
}

impl View for RemoteSource {
    type V = RemoteSourceView;

    open spec fn view(&self) -> RemoteSourceView {
        RemoteSourceView {
            id: self.id@,
            name: self.name@,
            lang: self.lang@,
            version: self.version@,
        }
    }
}

/// The catalogue entry of one remote source offered by the list at
/// `domain`: not installed until its package is stored.
pub open spec fn spec_remote_entry(x: RemoteSourceView, domain: Seq<u8>) -> SourceInfoView {
    SourceInfoView {
        id: x.id,
        name: x.name,
        lang: x.lang,
        source_of_source: domain,
        installed: false,
        version: x.version,
    }
}

/// Appends the sources of one remote list to the catalogue.
pub fn append_remote_sources(all: &mut Vec<SourceInfo>, items: Vec<RemoteSource>, domain: &[u8])
    ensures
        sources_view(final(all)@) == sources_view(old(all)@) + items@.map_values(
            |x: RemoteSource| spec_remote_entry(x@, domain@),
        ),
{
    let ghost f = |x: RemoteSource| spec_remote_entry(x@, domain@);
    let ghost items0 = items@;
    let mut rest = items;
    let mut i: usize = 0;
    while i < rest.len()
        invariant
            i <= rest.len(),
            rest@ == items0,
            f == (|x: RemoteSource| spec_remote_entry(x@, domain@)),
            sources_view(all@) == sources_view(old(all)@) + items0.subrange(
                0,
                i as int,
            ).map_values(f),
        decreases rest.len() - i,
    {
        let x = RemoteSource {
            id: crate::model::clone_bytes(&rest[i].id),
            name: crate::model::clone_bytes(&rest[i].name),
            lang: crate::model::clone_bytes(&rest[i].lang),
            version: crate::model::clone_bytes(&rest[i].version),
        };
        let entry = SourceInfo {
            id: x.id,
            name: x.name,
            lang: x.lang,
            source_of_source: to_vec(domain),
            installed: false,
            version: x.version,
        };
        assert(entry@ == f(items0[i as int]));
        let ghost before = all@;
        all.push(entry);
        proof {
            assert(sources_view(all@) =~= sources_view(before).push(f(items0[i as int])));
            assert(items0.subrange(0, i + 1 as int) =~= items0.subrange(0, i as int).push(
                items0[i as int],
            ));
            assert(items0.subrange(0, i + 1 as int).map_values(f) =~= items0.subrange(
                0,
                i as int,
            ).map_values(f).push(f(items0[i as int])));
        }
        i += 1;
    }
    proof {
        assert(items0.subrange(0, i as int) =~= items0);
    }
}

/// Marks the catalogue entries whose id equals `id` as installed, leaving
/// every other entry unchanged.
pub fn mark_installed(sources: Vec<SourceInfo>, id: &[u8]) -> (r: Vec<SourceInfo>)
    ensures
        r@.len() == sources@.len(),
        forall|i: int|
            0 <= i < r@.len() ==> #[trigger] r@[i]@ == (if sources@[i]@.id == id@ {
                SourceInfoView { installed: true, ..sources@[i]@ }
            } else {
                sources@[i]@
            }),
{
    let ghost input = sources@;
    let mut out: Vec<SourceInfo> = Vec::new();
    let rest = sources;
    let mut i: usize = 0;
    while i < rest.len()
        invariant
            i <= rest.len(),
            rest@ == input,
            out@.len() == i,
            forall|k: int|
                0 <= k < i ==> #[trigger] out@[k]@ == (if input[k]@.id == id@ {
                    SourceInfoView { installed: true, ..input[k]@ }
                } else {
                    input[k]@
                }),
        decreases rest.len() - i,
    {
        let hit = eq_bytes(rest[i].id.as_slice(), id);
        let entry = SourceInfo {
            id: crate::model::clone_bytes(&rest[i].id),
            name: crate::model::clone_bytes(&rest[i].name),
            lang: crate::model::clone_bytes(&rest[i].lang),
            source_of_source: crate::model::clone_bytes(&rest[i].source_of_source),
            installed: rest[i].installed || hit,
            version: crate::model::clone_bytes(&rest[i].version),
        };
        out.push(entry);
        i += 1;
    }
    out
}

/// The relative path a source list offers a package under: kept as it is
/// when it already names the package directory, placed there otherwise.
pub open spec fn spec_aix_relative_path(file: Seq<u8>) -> Seq<u8> {
    if file.len() >= 8 && file.subrange(0, 8) == pat_sources_dir() {
        file
    } else {
        pat_sources_dir() + file
    }
}

/// Builds the relative package path offered by a source list.
pub fn aix_relative_path(file: &[u8]) -> (r: Vec<u8>)
    ensures
        r@ == spec_aix_relative_path(file@),
{
    let dir = lit_sources_dir();
    if starts_with(file, &dir) {
        to_vec(file)
    } else {
        let mut out: Vec<u8> = Vec::new();
        push_all(&mut out, &dir);
        push_all(&mut out, file);
        out
    }
}

/// The filename an installed source package is stored under.
pub open spec fn spec_aix_filename(source_id: Seq<u8>) -> Seq<u8> {
    source_id + pat_aix_ext()
}

/// Builds the stored filename of a source package.
pub fn aix_filename(source_id: &[u8]) -> (r: Vec<u8>)
    ensures
        r@ == spec_aix_filename(source_id@),
{
    let ext = lit_aix_ext();
    let mut out: Vec<u8> = Vec::new();
    push_all(&mut out, source_id);
    push_all(&mut out, &ext);
    out
}

} // verus!
