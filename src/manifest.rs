//! The sound-pack manifest: which audio file each key id asks for.

use vstd::prelude::*;

verus! {

/// The value that a manifest gives to one key id.
#[derive(Clone, Debug)]
pub enum DefineValue {
    /// `null`: the key has no sound.
    Null,
    /// A path, relative to the pack's directory (possibly empty).
    Path(String),
    /// Any other JSON value: metadata that the loader ignores.
    Other,
}

/// One `key id -> value` entry of the manifest's `defines` table.
#[derive(Clone, Debug)]
pub struct ManifestEntry {
    pub key: String,
    pub value: DefineValue,
}

/// A parsed manifest: the entries of `defines`, in manifest order.
#[derive(Clone, Debug)]
pub struct Manifest {
    pub defines: Vec<ManifestEntry>,
}

/// The relative path that an entry asks to load, if any: a non-empty string.
pub open spec fn requested_path(e: ManifestEntry) -> Option<Seq<char>> {
    match e.value {
        DefineValue::Path(p) => if p@.len() > 0 {
            Some(p@)
        } else {
            None
        },
        _ => None,
    }
}

/// What a list of entries asks to load: key id to relative path, where the
/// first entry that requests a path for a key id wins and later ones are
/// ignored.
pub open spec fn load_plan(defs: Seq<ManifestEntry>) -> Map<Seq<char>, Seq<char>>
    decreases defs.len(),
{
    if defs.len() == 0 {
        Map::empty()
    } else {
        let earlier = load_plan(defs.drop_last());
        let e = defs.last();
        match requested_path(e) {
            Some(p) => if earlier.contains_key(e.key@) {
                earlier
            } else {
                earlier.insert(e.key@, p)
            },
            None => earlier,
        }
    }
}

impl Manifest {
    pub open spec fn plan(&self) -> Map<Seq<char>, Seq<char>> {
        load_plan(self.defines@)
    }
}

/// An entry that requests a path puts its key id in the plan.
pub proof fn lemma_requested_key_planned(defs: Seq<ManifestEntry>, i: int)
    requires
        0 <= i < defs.len(),
        requested_path(defs[i]) is Some,
    ensures
        load_plan(defs).contains_key(defs[i].key@),
    decreases defs.len(),
{
    if i < defs.len() - 1 {
        assert(defs.drop_last()[i] == defs[i]);
        lemma_requested_key_planned(defs.drop_last(), i);
    }
}

/// A key id for which no entry requests a path stays out of the plan.
pub proof fn lemma_unrequested_key_unplanned(defs: Seq<ManifestEntry>, k: Seq<char>)
    requires
        forall|j: int| 0 <= j < defs.len() && #[trigger] defs[j].key@ == k
            ==> requested_path(defs[j]) is None,
    ensures
        !load_plan(defs).contains_key(k),
    decreases defs.len(),
{
    if defs.len() > 0 {
        assert forall|j: int| 0 <= j < defs.drop_last().len() && #[trigger] defs.drop_last()[j].key@
            == k implies requested_path(defs.drop_last()[j]) is None by {
            assert(defs.drop_last()[j] == defs[j]);
        }
        lemma_unrequested_key_unplanned(defs.drop_last(), k);
        assert(defs.last() == defs[defs.len() - 1]);
    }
}

/// The first entry that requests a path for a key id decides that key's path.
pub proof fn lemma_first_request_planned(defs: Seq<ManifestEntry>, i: int)
    requires
        0 <= i < defs.len(),
        requested_path(defs[i]) is Some,
        forall|m: int| 0 <= m < i && #[trigger] defs[m].key@ == defs[i].key@
            ==> requested_path(defs[m]) is None,
    ensures
        load_plan(defs).contains_key(defs[i].key@),
        load_plan(defs)[defs[i].key@] == requested_path(defs[i])->Some_0,
    decreases defs.len(),
{
    let k = defs[i].key@;
    if i < defs.len() - 1 {
        assert(defs.drop_last()[i] == defs[i]);
        assert forall|m: int| 0 <= m < i && #[trigger] defs.drop_last()[m].key@ == k
            implies requested_path(defs.drop_last()[m]) is None by {
            assert(defs.drop_last()[m] == defs[m]);
        }
        lemma_first_request_planned(defs.drop_last(), i);
    } else {
        let earlier = defs.drop_last();
        assert forall|j: int| 0 <= j < earlier.len() && #[trigger] earlier[j].key@ == k
            implies requested_path(earlier[j]) is None by {
            assert(earlier[j] == defs[j]);
        }
        lemma_unrequested_key_unplanned(earlier, k);
        assert(defs.last() == defs[i]);
    }
}

/// The relative path that entry `e` asks to load, or `None` when it is null,
/// not a string, or the empty string.
pub fn entry_path(e: &ManifestEntry) -> (r: Option<&String>)
    ensures
        match r {
            Some(p) => requested_path(*e) == Some(p@),
            None => requested_path(*e) is None,
        },
{
    match &e.value {
        DefineValue::Path(p) => if p.as_str().is_empty() {
            None
        } else {
            Some(p)
        },
        _ => None,
    }
}

} // verus!
