//! The module loader's state: the cache of compiled user modules, the cache
//! of synthesized built-in modules, and the map from engine-assigned module
//! identity to filesystem path.
//!
//! Compiled modules live in the engine; the loader records each one under an
//! opaque handle slot — the integer under which the embedder pins the module
//! as a persistent handle. The loader decides, from its own state, whether a
//! path or specifier is already loaded, what must be compiled or synthesized,
//! and how a referrer's imports resolve; the embedder performs the engine and
//! disk work between those steps.

use vstd::prelude::*;
use crate::paths::{dirname_spec, dirname, bytes_eq};
use crate::resolve::{
    SpecifierKind, classify_spec, classify_specifier, candidate_paths, resolve_candidates,
};

verus! {

/// The last entry of a path-keyed list that holds the key, or `-1` when none
/// does. Later entries shadow earlier ones, as repeated inserts would.
pub open spec fn last_path_entry(entries: Seq<(Vec<u8>, u64)>, key: Seq<u8>) -> int
    decreases entries.len(),
{
    if entries.len() == 0 {
        -1
    } else if entries.last().0@ == key {
        entries.len() - 1
    } else {
        last_path_entry(entries.drop_last(), key)
    }
}

/// The map a path-keyed entry list stands for.
pub open spec fn path_entries_view(entries: Seq<(Vec<u8>, u64)>) -> Map<Seq<u8>, u64>
    decreases entries.len(),
{
    if entries.len() == 0 {
        Map::empty()
    } else {
        path_entries_view(entries.drop_last()).insert(entries.last().0@, entries.last().1)
    }
}

/// The view holds a key exactly when some entry does, and the last such entry
/// gives the key's value.
pub proof fn lemma_path_entries_view(entries: Seq<(Vec<u8>, u64)>, key: Seq<u8>)
    ensures
        last_path_entry(entries, key) == -1 ==> !path_entries_view(entries).contains_key(key)
            && (forall|k: int| 0 <= k < entries.len() ==> entries[k].0@ != key),
        last_path_entry(entries, key) != -1 ==> {
            let j = last_path_entry(entries, key);
            &&& 0 <= j < entries.len()
            &&& entries[j].0@ == key
            &&& (forall|k: int| j < k < entries.len() ==> entries[k].0@ != key)
            &&& path_entries_view(entries).contains_key(key)
            &&& path_entries_view(entries)[key] == entries[j].1
        },
    decreases entries.len(),
{
    if entries.len() > 0 && entries.last().0@ != key {
        lemma_path_entries_view(entries.drop_last(), key);
        assert(forall|k: int|
            0 <= k < entries.len() - 1 ==> entries[k] == entries.drop_last()[k]);
    }
}

/// The empty path-keyed map.
pub open spec fn empty_path_map() -> Map<Seq<u8>, u64> {
    Map::empty()
}

/// The empty identity-keyed map.
pub open spec fn empty_id_map() -> Map<i32, Seq<u8>> {
    Map::empty()
}

/// A map from filesystem path to module handle slot, as the loader keeps it
/// for user modules and built-in modules.
pub struct PathMap {
    entries: Vec<(Vec<u8>, u64)>,
}

impl PathMap {
    /// The mapping the entries stand for.
    pub closed spec fn view_map(self) -> Map<Seq<u8>, u64> {
        path_entries_view(self.entries@)
    }

    /// The empty map.
    pub fn new() -> (m: PathMap)
        ensures
            m.view_map() == empty_path_map(),
    {
        PathMap { entries: Vec::new() }
    }

    /// Bind the key to the slot; a present key is re-bound.
    pub fn insert(&mut self, key: &[u8], slot: u64)
        ensures
            final(self).view_map() == old(self).view_map().insert(key@, slot),
    {
        let mut owned: Vec<u8> = Vec::new();
        crate::paths::append_bytes(&mut owned, key);
        proof {
            assert(owned@ =~= key@);
        }
        let ghost before = self.entries@;
        self.entries.push((owned, slot));
        proof {
            assert(self.entries@.drop_last() =~= before);
        }
    }

    /// Look the key up.
    pub fn get(&self, key: &[u8]) -> (slot: Option<u64>)
        ensures
            slot matches Some(h) ==> self.view_map().contains_key(key@) && self.view_map()[key@]
                == h,
            slot is None ==> !self.view_map().contains_key(key@),
    {
        let mut i: usize = self.entries.len();
        while i > 0
            invariant
                i <= self.entries@.len(),
                forall|k: int| i <= k < self.entries@.len() ==> self.entries@[k].0@ != key@,
            decreases i,
        {
            i = i - 1;
            if bytes_eq(self.entries[i].0.as_slice(), key) {
                proof {
                    lemma_path_entries_view(self.entries@, key@);
                }
                return Some(self.entries[i].1);
            }
        }
        proof {
            lemma_path_entries_view(self.entries@, key@);
        }
        None
    }
}

/// The last entry of an id-keyed list that holds the id, or `-1` when none
/// does.
pub open spec fn last_id_entry(entries: Seq<(i32, Vec<u8>)>, id: i32) -> int
    decreases entries.len(),
{
    if entries.len() == 0 {
        -1
    } else if entries.last().0 == id {
        entries.len() - 1
    } else {
        last_id_entry(entries.drop_last(), id)
    }
}

/// The map an id-keyed entry list stands for.
pub open spec fn id_entries_view(entries: Seq<(i32, Vec<u8>)>) -> Map<i32, Seq<u8>>
    decreases entries.len(),
{
    if entries.len() == 0 {
        Map::empty()
    } else {
        id_entries_view(entries.drop_last()).insert(entries.last().0, entries.last().1@)
    }
}

/// The view holds an id exactly when some entry does, and the last such entry
/// gives the id's path.
pub proof fn lemma_id_entries_view(entries: Seq<(i32, Vec<u8>)>, id: i32)
    ensures
        last_id_entry(entries, id) == -1 ==> !id_entries_view(entries).contains_key(id) && (forall|
            k: int,
        | 0 <= k < entries.len() ==> entries[k].0 != id),
        last_id_entry(entries, id) != -1 ==> {
            let j = last_id_entry(entries, id);
            &&& 0 <= j < entries.len()
            &&& entries[j].0 == id
            &&& (forall|k: int| j < k < entries.len() ==> entries[k].0 != id)
            &&& id_entries_view(entries).contains_key(id)
            &&& id_entries_view(entries)[id] == entries[j].1@
        },
    decreases entries.len(),
{
    if entries.len() > 0 && entries.last().0 != id {
        lemma_id_entries_view(entries.drop_last(), id);
        assert(forall|k: int|
            0 <= k < entries.len() - 1 ==> entries[k] == entries.drop_last()[k]);
    }
}

/// The map from engine-assigned module identity to absolute path, kept for
/// user modules only.
pub struct IdPathMap {
    entries: Vec<(i32, Vec<u8>)>,
}

impl IdPathMap {
    /// The mapping the entries stand for.
    pub closed spec fn view_map(self) -> Map<i32, Seq<u8>> {
        id_entries_view(self.entries@)
    }

    /// The empty map.
    pub fn new() -> (m: IdPathMap)
        ensures
            m.view_map() == empty_id_map(),
    {
        IdPathMap { entries: Vec::new() }
    }

    /// Bind the id to the path; a present id is re-bound.
    pub fn insert(&mut self, id: i32, path: &[u8])
        ensures
            final(self).view_map() == old(self).view_map().insert(id, path@),
    {
        let mut owned: Vec<u8> = Vec::new();
        crate::paths::append_bytes(&mut owned, path);
        proof {
            assert(owned@ =~= path@);
        }
        let ghost before = self.entries@;
        self.entries.push((id, owned));
        proof {
            assert(self.entries@.drop_last() =~= before);
        }
    }

    /// Look the id up.
    pub fn get(&self, id: i32) -> (path: Option<&Vec<u8>>)
        ensures
            path matches Some(p) ==> self.view_map().contains_key(id) && self.view_map()[id] == p@,
            path is None ==> !self.view_map().contains_key(id),
    {
        let mut i: usize = self.entries.len();
        while i > 0
            invariant
                i <= self.entries@.len(),
                forall|k: int| i <= k < self.entries@.len() ==> self.entries@[k].0 != id,
            decreases i,
        {
            i = i - 1;
            if self.entries[i].0 == id {
                proof {
                    lemma_id_entries_view(self.entries@, id);
                }
                return Some(&self.entries[i].1);
            }
        }
        proof {
            lemma_id_entries_view(self.entries@, id);
        }
        None
    }
}

/// What the loader says of a path asked of `get_or_compile_module`: hand back
/// the cached module, or read and compile the file first.
#[derive(PartialEq, Eq, Structural, Clone, Copy, Debug)]
pub enum ModuleStep {
    Cached(u64),
    NeedsSource,
}

/// What the loader says of the entry path: the canonicalization failure is
/// fatal; otherwise as for any other user module.
#[derive(PartialEq, Eq, Structural, Clone, Copy, Debug)]
pub enum EntryStep {
    BadPath,
    Cached(u64),
    NeedsSource,
}

/// What the loader says of a bare specifier: hand back the cached synthetic
/// module, or synthesize it first.
#[derive(PartialEq, Eq, Structural, Clone, Copy, Debug)]
pub enum BuiltinStep {
    Cached(u64),
    NeedsInit,
}

/// How a referrer's import specifier is to be resolved: as a built-in, not at
/// all (the referrer is unknown), or through the filesystem against candidate
/// paths.
pub enum ResolveRequest {
    Builtin,
    MissingReferrer,
    Candidates(Vec<Vec<u8>>),
}

/// The module loader: caches of compiled modules, and the identity-to-path
/// map that lets imports be resolved relative to their referrer.
pub struct ModuleLoader {
    module_cache: PathMap,
    builtin_modules: PathMap,
    id_to_path_map: IdPathMap,
}

impl ModuleLoader {
    /// The cache of compiled user modules, by absolute canonical path.
    pub closed spec fn cache(self) -> Map<Seq<u8>, u64> {
        self.module_cache.view_map()
    }

    /// The cache of synthesized built-in modules, by specifier.
    pub closed spec fn builtins(self) -> Map<Seq<u8>, u64> {
        self.builtin_modules.view_map()
    }

    /// The engine identity of each user module, mapped to its absolute path.
    pub closed spec fn id_paths(self) -> Map<i32, Seq<u8>> {
        self.id_to_path_map.view_map()
    }

    /// A fresh loader: nothing compiled, nothing synthesized, no identity
    /// recorded.
    pub fn new() -> (loader: ModuleLoader)
        ensures
            loader.cache() == empty_path_map(),
            loader.builtins() == empty_path_map(),
            loader.id_paths() == empty_id_map(),
    {
        ModuleLoader {
            module_cache: PathMap::new(),
            builtin_modules: PathMap::new(),
            id_to_path_map: IdPathMap::new(),
        }
    }

    /// The cache step of loading a user module by absolute path: a cached
    /// path is answered from the cache, and only an uncached path has its
    /// file read and compiled.
    pub fn get_or_compile_module(&self, abs_path: &[u8]) -> (step: ModuleStep)
        ensures
            step matches ModuleStep::Cached(h) ==> self.cache().contains_key(abs_path@)
                && self.cache()[abs_path@] == h,
            step is NeedsSource <==> !self.cache().contains_key(abs_path@),
    {
        match self.module_cache.get(abs_path) {
            Some(slot) => ModuleStep::Cached(slot),
            None => ModuleStep::NeedsSource,
        }
    }

    /// Record a freshly compiled module's engine identity against its path,
    /// before instantiation. The record stays even if instantiation then
    /// fails.
    pub fn record_compiled(&mut self, hash_id: i32, abs_path: &[u8])
        ensures
            final(self).id_paths() == old(self).id_paths().insert(hash_id, abs_path@),
            final(self).cache() == old(self).cache(),
            final(self).builtins() == old(self).builtins(),
    {
        self.id_to_path_map.insert(hash_id, abs_path);
    }

    /// Record a compiled and instantiated module in the cache. Only a module
    /// that instantiated successfully is recorded; a partial failure leaves
    /// no cache entry.
    pub fn record_instantiated(&mut self, abs_path: &[u8], module_slot: u64)
        ensures
            final(self).cache() == old(self).cache().insert(abs_path@, module_slot),
            final(self).id_paths() == old(self).id_paths(),
            final(self).builtins() == old(self).builtins(),
    {
        self.module_cache.insert(abs_path, module_slot);
    }

    /// The entry module's step: the embedder canonicalizes the user-given
    /// path first, and a path that cannot be canonicalized is fatal.
    pub fn create_first_module(&self, canonical_path: Option<&Vec<u8>>) -> (step: EntryStep)
        ensures
            canonical_path is None <==> step is BadPath,
            step matches EntryStep::Cached(h) ==> (canonical_path matches Some(p)
                && self.cache().contains_key(p@) && self.cache()[p@] == h),
            step is NeedsSource ==> (canonical_path matches Some(p) && !self.cache().contains_key(
                p@,
            )),
    {
        match canonical_path {
            None => EntryStep::BadPath,
            Some(p) => match self.get_or_compile_module(p.as_slice()) {
                ModuleStep::Cached(h) => EntryStep::Cached(h),
                ModuleStep::NeedsSource => EntryStep::NeedsSource,
            },
        }
    }

    /// The cache step of importing a bare specifier: a known specifier is
    /// answered from the built-in cache; an unknown one is synthesized first.
    pub fn load_builtin_module(&self, specifier: &[u8]) -> (step: BuiltinStep)
        ensures
            step matches BuiltinStep::Cached(h) ==> self.builtins().contains_key(specifier@)
                && self.builtins()[specifier@] == h,
            step is NeedsInit <==> !self.builtins().contains_key(specifier@),
    {
        match self.builtin_modules.get(specifier) {
            Some(slot) => BuiltinStep::Cached(slot),
            None => BuiltinStep::NeedsInit,
        }
    }

    /// Record a freshly synthesized built-in module under its specifier.
    pub fn record_builtin(&mut self, specifier: &[u8], module_slot: u64)
        ensures
            final(self).builtins() == old(self).builtins().insert(specifier@, module_slot),
            final(self).cache() == old(self).cache(),
            final(self).id_paths() == old(self).id_paths(),
    {
        self.builtin_modules.insert(specifier, module_slot);
    }

    /// The resolve callback's decision for one import: a bare specifier goes
    /// to the built-in loader; a user-path specifier from an unknown referrer
    /// fails; otherwise the candidates to probe on disk, in order.
    pub fn resolve_request(&self, referrer_id: i32, specifier: &[u8]) -> (request: ResolveRequest)
        ensures
            request is Builtin <==> classify_spec(specifier@) is Builtin,
            request is MissingReferrer <==> classify_spec(specifier@) is UserPath && !self.id_paths(
            ).contains_key(referrer_id),
            request matches ResolveRequest::Candidates(cands) ==> {
                &&& classify_spec(specifier@) is UserPath
                &&& self.id_paths().contains_key(referrer_id)
                &&& cands@.map_values(|c: Vec<u8>| c@) == candidate_paths(
                    dirname_spec(self.id_paths()[referrer_id]),
                    specifier@,
                )
            },
    {
        match classify_specifier(specifier) {
            SpecifierKind::Builtin => ResolveRequest::Builtin,
            SpecifierKind::UserPath => match self.id_to_path_map.get(referrer_id) {
                None => ResolveRequest::MissingReferrer,
                Some(referrer_path) => ResolveRequest::Candidates(
                    resolve_candidates(referrer_path.as_slice(), specifier),
                ),
            },
        }
    }

    /// The directory `import.meta.dirname` is set to for a module: the parent
    /// directory of the module's recorded path. Only user modules have one.
    pub fn import_meta_dirname(&self, module_id: i32) -> (dir: Option<Vec<u8>>)
        ensures
            dir matches Some(d) ==> self.id_paths().contains_key(module_id) && d@ == dirname_spec(
                self.id_paths()[module_id],
            ),
            dir is None <==> !self.id_paths().contains_key(module_id),
    {
        match self.id_to_path_map.get(module_id) {
            None => None,
            Some(path) => Some(dirname(path.as_slice())),
        }
    }
}

/// Cache idempotence: once a path is recorded with its module handle, looking
/// it up always yields exactly that handle — so a cached path is never read
/// or compiled again — and recording a different path disturbs nothing.
pub proof fn lemma_cache_idempotence(
    cache: Map<Seq<u8>, u64>,
    path: Seq<u8>,
    handle: u64,
    other: Seq<u8>,
    other_handle: u64,
)
    requires
        other != path,
    ensures
        cache.insert(path, handle).contains_key(path),
        cache.insert(path, handle)[path] == handle,
        cache.insert(path, handle).insert(other, other_handle).contains_key(path),
        cache.insert(path, handle).insert(other, other_handle)[path] == handle,
{
}

} // verus!
