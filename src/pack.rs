//! Sound packs: the key-code to asset table, loaded all or nothing.

use crate::manifest::{
    entry_path, lemma_first_request_planned, lemma_requested_key_planned,
    lemma_unrequested_key_unplanned, load_plan, requested_path, Manifest,
    ManifestEntry,
};
use vstd::hash_map::StringHashMap;
use vstd::prelude::*;

verus! {

/// The path that `rel` names when read from the directory `base`.
pub uninterp spec fn joined_path(base: Seq<char>, rel: Seq<char>) -> Seq<char>;

/// Relies on `std::path::Path::join`: resolves `rel` against `base`. The
/// result depends on the two paths alone, and both are valid UTF-8, so the
/// conversion back to a `String` loses nothing.
#[verifier::external_body]
fn join_path(base: &str, rel: &str) -> (r: String)
    ensures
        r@ == joined_path(base@, rel@),
{
    std::path::Path::new(base).join(rel).to_string_lossy().into_owned()
}

/// Where a pack's manifest lives: the file `config.json` in the pack directory.
pub fn manifest_path(dir: &str) -> (r: String)
    ensures
        r@ == joined_path(dir@, "config.json"@),
{
    join_path(dir, "config.json")
}

/// Why a sound pack could not be set up.
#[derive(Clone, Debug)]
pub enum ConfigError {
    /// The manifest file does not exist at `path`.
    NotFound { path: String },
    /// The manifest is not of the expected shape.
    ParseError,
    /// The asset at `path` could not be loaded; `cause` says why.
    AssetLoadError { path: String, cause: String },
}

/// An immutable table from canonical key code to a loaded audio asset.
#[verifier::reject_recursive_types(A)]
pub struct SoundPack<A> {
    sounds: StringHashMap<A>,
}

impl<A> View for SoundPack<A> {
    type V = Map<Seq<char>, A>;

    closed spec fn view(&self) -> Map<Seq<char>, A> {
        self.sounds@
    }
}

impl<A> SoundPack<A> {
    /// The asset registered for `code`, if any.
    pub fn get(&self, code: &str) -> (r: Option<&A>)
        ensures
            match r {
                Some(a) => self@.contains_key(code@) && *a == self@[code@],
                None => !self@.contains_key(code@),
            },
    {
        self.sounds.get(code)
    }

    /// Whether `code` has an asset.
    pub fn contains(&self, code: &str) -> (r: bool)
        ensures
            r == self@.contains_key(code@),
    {
        self.sounds.contains_key(code)
    }

    /// The number of key codes with an asset.
    pub fn len(&self) -> (r: usize)
        ensures
            r == self@.len(),
    {
        self.sounds.len()
    }
}

/// `load` may return `r` when handed a path whose text is `path`.
pub open spec fn loaded_from<A, F: Fn(&str) -> Result<A, String>>(
    load: F,
    path: Seq<char>,
    r: Result<A, String>,
) -> bool {
    exists|p: &str| p@ == path && #[trigger] load.ensures((p,), r)
}

/// `pack` holds exactly the key ids that `manifest` plans, each with an asset
/// that `load` returned for the planned path resolved against `base`.
pub open spec fn built_from<A, F: Fn(&str) -> Result<A, String>>(
    pack: Map<Seq<char>, A>,
    manifest: Manifest,
    base: Seq<char>,
    load: F,
) -> bool {
    &&& pack.dom() == manifest.plan().dom()
    &&& forall|k: Seq<char>| #[trigger]
        pack.contains_key(k) ==> loaded_from(load, joined_path(base, manifest.plan()[k]), Ok(pack[k]))
}

/// Entry `i` holds the first load that failed, in manifest order: it is the
/// first entry to request a path for its key id, `load` returned `Err(cause)`
/// for that path resolved against `base` (which is `path`), and every key id
/// that the entries before it plan was loaded.
pub open spec fn first_failure<A, F: Fn(&str) -> Result<A, String>>(
    manifest: Manifest,
    base: Seq<char>,
    load: F,
    i: int,
    path: Seq<char>,
    cause: String,
) -> bool {
    let defs = manifest.defines@;
    let earlier = load_plan(defs.take(i));
    &&& 0 <= i < defs.len()
    &&& requested_path(defs[i]) is Some
    &&& !earlier.contains_key(defs[i].key@)
    &&& path == joined_path(base, requested_path(defs[i])->Some_0)
    &&& loaded_from(load, path, Err(cause))
    &&& forall|k: Seq<char>| #[trigger]
        earlier.contains_key(k) ==> exists|a: A| #[trigger]
            loaded_from(load, joined_path(base, earlier[k]), Ok(a))
}

/// Builds a sound pack from `manifest`, resolving each requested path against
/// `base` and handing it to `load`.
///
/// Entries that are null, not strings or empty strings are skipped, and so is
/// an entry whose key id an earlier entry already registered. The first load
/// that fails aborts the whole build with `AssetLoadError`, so no partial pack
/// is ever returned.
pub fn load_pack<A, F: Fn(&str) -> Result<A, String>>(
    manifest: &Manifest,
    base: &str,
    load: F,
) -> (r: Result<SoundPack<A>, ConfigError>)
    requires
        forall|p: &str| load.requires((p,)),
    ensures
        match r {
            Ok(pack) => built_from(pack@, *manifest, base@, load),
            Err(e) => match e {
                ConfigError::AssetLoadError { path, cause } => exists|i: int| #[trigger]
                    first_failure(*manifest, base@, load, i, path@, cause),
                _ => false,
            },
        },
        (forall|p: &str, x: Result<A, String>| #[trigger] load.ensures((p,), x) ==> x is Ok)
            ==> r is Ok,
{
    let ghost defs = manifest.defines@;
    let mut sounds: StringHashMap<A> = StringHashMap::new();
    let mut i: usize = 0;
    while i < manifest.defines.len()
        invariant
            defs == manifest.defines@,
            0 <= i <= defs.len(),
            forall|p: &str| load.requires((p,)),
            sounds@.dom() == load_plan(defs.take(i as int)).dom(),
            forall|k: Seq<char>| #[trigger]
                sounds@.contains_key(k) ==> loaded_from(
                    load,
                    joined_path(base@, load_plan(defs.take(i as int))[k]),
                    Ok(sounds@[k]),
                ),
        decreases defs.len() - i,
    {
        let e = &manifest.defines[i];
        let ghost before = load_plan(defs.take(i as int));
        proof {
            assert(defs.take(i + 1).drop_last() =~= defs.take(i as int));
            assert(defs.take(i + 1).last() == *e);
        }
        match entry_path(e) {
            None => {},
            Some(rel) => {
                if !sounds.contains_key(e.key.as_str()) {
                    let path = join_path(base, rel.as_str());
                    let loaded = load(path.as_str());
                    match loaded {
                        Ok(a) => {
                            let key = e.key.clone();
                            sounds.insert(key, a);
                            proof {
                                let now = load_plan(defs.take(i + 1));
                                assert(now == before.insert(e.key@, rel@));
                                assert(loaded_from(load, path@, Ok(a)));
                                assert forall|k: Seq<char>| #[trigger]
                                    sounds@.contains_key(k) implies loaded_from(
                                    load,
                                    joined_path(base@, now[k]),
                                    Ok(sounds@[k]),
                                ) by {
                                    if k != e.key@ {
                                        assert(loaded_from(
                                            load,
                                            joined_path(base@, before[k]),
                                            Ok(sounds@[k]),
                                        ));
                                    }
                                }
                                assert(sounds@.dom() =~= now.dom());
                            }
                        },
                        Err(cause) => {
                            proof {
                                assert(loaded_from(load, path@, Err(cause)));
                                assert forall|k: Seq<char>| #[trigger]
                                    before.contains_key(k) implies exists|x: A| #[trigger]
                                    loaded_from(load, joined_path(base@, before[k]), Ok(x)) by {
                                    assert(loaded_from(
                                        load,
                                        joined_path(base@, before[k]),
                                        Ok(sounds@[k]),
                                    ));
                                }
                                assert(first_failure(*manifest, base@, load, i as int, path@, cause));
                            }
                            let ghost gp = path@;
                            let ghost gc = cause;
                            let err = ConfigError::AssetLoadError { path, cause };
                            assert(err->AssetLoadError_path@ == gp && err->AssetLoadError_cause == gc);
                            return Err(err);
                        },
                    }
                }
            },
        }
        i += 1;
    }
    proof {
        assert(defs.take(defs.len() as int) =~= defs);
    }
    Ok(SoundPack { sounds })
}

/// A key id whose value is a non-empty path has an entry in the pack built
/// from the manifest.
pub proof fn lemma_nonempty_path_loaded<A, F: Fn(&str) -> Result<A, String>>(
    manifest: Manifest,
    base: Seq<char>,
    load: F,
    pack: Map<Seq<char>, A>,
    i: int,
)
    requires
        built_from(pack, manifest, base, load),
        0 <= i < manifest.defines.len(),
        manifest.defines@[i].value is Path,
        manifest.defines@[i].value->Path_0@.len() > 0,
    ensures
        pack.contains_key(manifest.defines@[i].key@),
{
    lemma_requested_key_planned(manifest.defines@, i);
}

/// A key id whose values are all null or the empty string has no entry in the
/// pack built from the manifest.
pub proof fn lemma_null_or_empty_not_loaded<A, F: Fn(&str) -> Result<A, String>>(
    manifest: Manifest,
    base: Seq<char>,
    load: F,
    pack: Map<Seq<char>, A>,
    k: Seq<char>,
)
    requires
        built_from(pack, manifest, base, load),
        forall|j: int|
            0 <= j < manifest.defines.len() && #[trigger] manifest.defines@[j].key@ == k ==> (
            manifest.defines@[j].value is Null || (manifest.defines@[j].value is Path
                && manifest.defines@[j].value->Path_0@.len() == 0)),
    ensures
        !pack.contains_key(k),
{
    lemma_unrequested_key_unplanned(manifest.defines@, k);
}

/// Of two entries with the same key id and different non-empty paths, the one
/// that comes first in the manifest is loaded and the other is ignored.
pub proof fn lemma_first_entry_wins<A, F: Fn(&str) -> Result<A, String>>(
    manifest: Manifest,
    base: Seq<char>,
    load: F,
    pack: Map<Seq<char>, A>,
    i: int,
    j: int,
)
    requires
        built_from(pack, manifest, base, load),
        0 <= i < j < manifest.defines.len(),
        manifest.defines@[i].key@ == manifest.defines@[j].key@,
        requested_path(manifest.defines@[i]) is Some,
        requested_path(manifest.defines@[j]) is Some,
        requested_path(manifest.defines@[i]) != requested_path(manifest.defines@[j]),
        forall|m: int|
            0 <= m < manifest.defines.len() && m != i && m != j && #[trigger]
                manifest.defines@[m].key@ == manifest.defines@[i].key@ ==> requested_path(
                manifest.defines@[m],
            ) is None,
    ensures
        ({
            let k = manifest.defines@[i].key@;
            &&& pack.contains_key(k)
            &&& manifest.plan()[k] == requested_path(manifest.defines@[i])->Some_0
            &&& manifest.plan()[k] != requested_path(manifest.defines@[j])->Some_0
            &&& loaded_from(
                load,
                joined_path(base, requested_path(manifest.defines@[i])->Some_0),
                Ok(pack[k]),
            )
        }),
{
    lemma_first_request_planned(manifest.defines@, i);
}

/// When the path that the first entry for a key id requests cannot be loaded,
/// no pack is built from the manifest: `load_pack` can then only return
/// `AssetLoadError`.
pub proof fn lemma_unloadable_asset_no_pack<A, F: Fn(&str) -> Result<A, String>>(
    manifest: Manifest,
    base: Seq<char>,
    load: F,
    pack: Map<Seq<char>, A>,
    i: int,
)
    requires
        0 <= i < manifest.defines.len(),
        requested_path(manifest.defines@[i]) is Some,
        forall|m: int| 0 <= m < i && #[trigger] manifest.defines@[m].key@ == manifest.defines@[i].key@
            ==> requested_path(manifest.defines@[m]) is None,
        forall|x: A|
            !#[trigger] loaded_from(
                load,
                joined_path(base, requested_path(manifest.defines@[i])->Some_0),
                Ok(x),
            ),
    ensures
        !built_from(pack, manifest, base, load),
{
    lemma_first_request_planned(manifest.defines@, i);
    let k = manifest.defines@[i].key@;
    if built_from(pack, manifest, base, load) {
        assert(pack.contains_key(k));
        assert(loaded_from(load, joined_path(base, manifest.plan()[k]), Ok(pack[k])));
    }
}

/// Loading the same manifest twice gives packs with the same key codes, where
/// each code's asset comes both times from the same file.
pub proof fn lemma_reload_same_pack<A, F: Fn(&str) -> Result<A, String>>(
    manifest: Manifest,
    base: Seq<char>,
    load: F,
    first: Map<Seq<char>, A>,
    second: Map<Seq<char>, A>,
)
    requires
        built_from(first, manifest, base, load),
        built_from(second, manifest, base, load),
    ensures
        first.dom() == second.dom(),
        forall|k: Seq<char>| #[trigger]
            first.contains_key(k) ==> {
                let path = joined_path(base, manifest.plan()[k]);
                &&& loaded_from(load, path, Ok(first[k]))
                &&& loaded_from(load, path, Ok(second[k]))
            },
{
}

} // verus!
