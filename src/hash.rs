//! The key under which a file is stored in the index, and why storing a path
//! twice leaves one entry.
use vstd::prelude::*;
use vstd::std_specs::hash::DefaultHasherAdditionalSpecFns;
use std::collections::hash_map::DefaultHasher;
use std::hash::Hasher;

verus! {

/// The key of a path: the default hasher fed the path's UTF-8 bytes and the
/// `0xff` end marker, which is how `str` hashes itself.
pub open spec fn path_key(path: Seq<char>) -> u64 {
    DefaultHasher::spec_finish(seq![vstd::utf8::encode_utf8(path), seq![0xffu8]])
}

/// The storage key of a path. Equal paths get equal keys in every run.
pub fn calculate_hash(input: &str) -> (r: u64)
    ensures
        r == path_key(input@),
{
    let mut hasher = DefaultHasher::new();
    hasher.write(input.as_bytes());
    let end: [u8; 1] = [0xff];
    let tail = end.as_slice();
    assert(tail@ =~= seq![0xffu8]);
    hasher.write(tail);
    assert(hasher@ =~= seq![vstd::utf8::encode_utf8(input@), seq![0xffu8]]);
    hasher.finish()
}

/// A store of indexed paths by key, as the index keeps them.
pub type PathStore = Map<u64, Seq<char>>;

/// Every entry of the store sits under its own path's key.
pub open spec fn keyed_by_path(store: PathStore) -> bool {
    forall|k: u64| #[trigger] store.contains_key(k) ==> k == path_key(store[k])
}

/// Storing a path: it replaces whatever sat under its key.
pub open spec fn upsert(store: PathStore, path: Seq<char>) -> PathStore {
    store.insert(path_key(path), path)
}

/// The keys under which `path` is stored.
pub open spec fn entries_for(store: PathStore, path: Seq<char>) -> Set<u64> {
    Set::new(|k: u64| store.contains_key(k) && store[k] == path)
}

/// Indexing a path twice leaves the store as indexing it once, and a store
/// keyed by path holds exactly one entry for each path indexed into it.
pub proof fn lemma_upsert_idempotent(store: PathStore, path: Seq<char>)
    requires
        keyed_by_path(store),
    ensures
        upsert(upsert(store, path), path) == upsert(store, path),
        keyed_by_path(upsert(store, path)),
        entries_for(upsert(store, path), path) == set![path_key(path)],
{
    let once = upsert(store, path);
    assert(upsert(once, path) =~= once);
    assert(entries_for(once, path) =~= set![path_key(path)]);
}

} // verus!
