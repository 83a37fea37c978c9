//! The mesh cache: a tessellated mesh is kept under its key and handed out
//! again, as a copy, whenever the same key is asked for.
use crate::mesh::{Mesh, MeshView};
use crate::svg::MeshKey;
use vstd::prelude::*;

verus! {

/// What storing `mesh` under `key` makes of the cache `cache`: a new entry
/// if the key is free, nothing if it is taken. An entry is never replaced or
/// removed.
pub open spec fn stored(cache: Map<MeshKey, MeshView>, key: MeshKey, mesh: MeshView) -> Map<
    MeshKey,
    MeshView,
> {
    if cache.contains_key(key) {
        cache
    } else {
        cache.insert(key, mesh)
    }
}

/// Once a mesh is stored under a key, the cache holds a mesh under that key
/// for good, and it is the one that was there first: later stores, under
/// this key or another, change nothing about it.
pub proof fn lemma_stored_stays(
    cache: Map<MeshKey, MeshView>,
    key: MeshKey,
    mesh: MeshView,
    later_key: MeshKey,
    later_mesh: MeshView,
)
    ensures
        stored(cache, key, mesh).contains_key(key),
        !cache.contains_key(key) ==> stored(cache, key, mesh)[key] == mesh,
        stored(stored(cache, key, mesh), later_key, later_mesh).contains_key(key),
        stored(stored(cache, key, mesh), later_key, later_mesh)[key] == stored(cache, key, mesh)[key],
        stored(stored(cache, key, mesh), key, later_mesh) == stored(cache, key, mesh),
{
}

struct Entry {
    key: MeshKey,
    mesh: Mesh,
}

/// What a list of entries holds: the outcome of storing them one after the
/// other, so that of two entries under one key the earlier one counts.
spec fn held(entries: Seq<Entry>) -> Map<MeshKey, MeshView>
    decreases entries.len(),
{
    if entries.len() == 0 {
        Map::empty()
    } else {
        stored(held(entries.drop_last()), entries.last().key, entries.last().mesh@)
    }
}

proof fn lemma_held_absent(entries: Seq<Entry>, key: MeshKey)
    requires
        forall|j: int| 0 <= j < entries.len() ==> (#[trigger] entries[j]).key != key,
    ensures
        !held(entries).contains_key(key),
    decreases entries.len(),
{
    if entries.len() > 0 {
        let front = entries.drop_last();
        assert forall|j: int| 0 <= j < front.len() implies (#[trigger] front[j]).key != key by {
            assert(front[j] == entries[j]);
        }
        lemma_held_absent(front, key);
        assert(entries.last() == entries[entries.len() - 1]);
    }
}

proof fn lemma_held_first(entries: Seq<Entry>, key: MeshKey, i: int)
    requires
        0 <= i < entries.len(),
        entries[i].key == key,
        forall|j: int| 0 <= j < i ==> (#[trigger] entries[j]).key != key,
    ensures
        held(entries).contains_key(key),
        held(entries)[key] == entries[i].mesh@,
    decreases entries.len(),
{
    let front = entries.drop_last();
    if i == entries.len() - 1 {
        assert forall|j: int| 0 <= j < front.len() implies (#[trigger] front[j]).key != key by {
            assert(front[j] == entries[j]);
        }
        lemma_held_absent(front, key);
    } else {
        assert(front[i] == entries[i]);
        assert forall|j: int| 0 <= j < i implies (#[trigger] front[j]).key != key by {
            assert(front[j] == entries[j]);
        }
        lemma_held_first(front, key, i);
    }
}

/// The tessellated meshes, by key. Entries are never replaced or removed.
pub struct MeshCache {
    entries: Vec<Entry>,
}

impl View for MeshCache {
    type V = Map<MeshKey, MeshView>;

    closed spec fn view(&self) -> Map<MeshKey, MeshView> {
        held(self.entries@)
    }
}

impl MeshCache {
    /// The empty cache.
    pub fn new() -> (cache: MeshCache)
        ensures
            cache@ == Map::<MeshKey, MeshView>::empty(),
    {
        MeshCache { entries: Vec::new() }
    }

    /// Where the first entry under `key` stands, if there is one.
    fn position(&self, key: MeshKey) -> (at: Option<usize>)
        ensures
            match at {
                Some(i) => i < self.entries@.len() && self@.contains_key(key) && self@[key]
                    == self.entries@[i as int].mesh@,
                None => !self@.contains_key(key),
            },
    {
        let mut i: usize = 0;
        while i < self.entries.len()
            invariant
                i <= self.entries@.len(),
                forall|k: int| 0 <= k < i ==> (#[trigger] self.entries@[k]).key != key,
            decreases self.entries@.len() - i,
        {
            if self.entries[i].key == key {
                proof {
                    lemma_held_first(self.entries@, key, i as int);
                }
                return Some(i);
            }
            i = i + 1;
        }
        proof {
            lemma_held_absent(self.entries@, key);
        }
        None
    }

    /// Whether a mesh is cached under `key`.
    pub fn contains(&self, key: MeshKey) -> (yes: bool)
        ensures
            yes == self@.contains_key(key),
    {
        self.position(key).is_some()
    }

    /// A copy of the mesh cached under `key`, if there is one.
    pub fn get(&self, key: MeshKey) -> (mesh: Option<Mesh>)
        ensures
            match mesh {
                Some(m) => self@.contains_key(key) && m@ == self@[key],
                None => !self@.contains_key(key),
            },
    {
        match self.position(key) {
            Some(i) => Some(self.entries[i].mesh.duplicate()),
            None => None,
        }
    }

    /// Stores `mesh` under `key` unless a mesh is cached there already.
    pub fn store(&mut self, key: MeshKey, mesh: Mesh)
        ensures
            final(self)@ == stored(old(self)@, key, mesh@),
    {
        if self.position(key).is_none() {
            let ghost before = self.entries@;
            self.entries.push(Entry { key, mesh });
            assert(self.entries@.drop_last() =~= before);
        }
    }

    /// The mesh for `key`: a copy of the cached one if there is one, else
    /// the one that `tessellate` makes, which is then cached.
    pub fn get_or_insert_with<F: FnOnce() -> Mesh>(&mut self, key: MeshKey, tessellate: F) -> (mesh:
        Mesh)
        requires
            call_requires(tessellate, ()),
        ensures
            old(self)@.contains_key(key) ==> mesh@ == old(self)@[key] && final(self)@ == old(self)@,
            !old(self)@.contains_key(key) ==> final(self)@ == old(self)@.insert(key, mesh@) && exists|
                made: Mesh,
            |
                call_ensures(tessellate, (), made) && made@ == mesh@,
    {
        match self.get(key) {
            Some(mesh) => mesh,
            None => {
                let made = tessellate();
                let mesh = made.duplicate();
                self.store(key, made);
                mesh
            },
        }
    }
}

} // verus!
