//! Tile registry: maps `(tileset, tile)` pairs to texture handles.
//!
//! Tilesets are registered by name and identified by a dense id (their
//! registration order). Each tile row records its tile id within its tileset
//! and the texture handle the rendering collaborator loaded for it. Lookups
//! are linear scans; populations are small by design.

use vstd::prelude::*;

verus! {

/// Registry of tiles across all registered tilesets; row `i` is the tile
/// with handle `i`.
pub struct TileMgr {
    pub tile_id: Vec<u32>,
    pub tileset_id: Vec<usize>,
    /// Tileset names in registration order; a tileset's id is its index.
    pub tileset_names: Vec<String>,
    /// Texture handle of each tile in the rendering collaborator's registry.
    pub texture_i: Vec<usize>,
}

impl TileMgr {
    /// Parallel columns agree in length, every row's tileset is registered,
    /// and no `(tileset, tile)` pair occurs twice.
    pub open spec fn wf(&self) -> bool {
        &&& self.tileset_id@.len() == self.tile_id@.len()
        &&& self.texture_i@.len() == self.tile_id@.len()
        &&& forall|i: int|
            0 <= i < self.tile_id@.len() ==> (#[trigger] self.tileset_id@[i])
                < self.tileset_names@.len()
        &&& forall|i: int, j: int|
            0 <= i < j < self.tile_id@.len() ==> !(self.tileset_id@[i] == self.tileset_id@[j]
                && self.tile_id@[i] == self.tile_id@[j])
    }

    pub open spec fn spec_len(&self) -> nat {
        self.tile_id@.len()
    }

    /// A tile with the given `(tileset, tile)` pair is registered.
    pub open spec fn spec_has_tile(&self, tileset_id: int, tile_id: int) -> bool {
        exists|i: int|
            0 <= i < self.tile_id@.len() && #[trigger] self.tileset_id@[i] == tileset_id
                && self.tile_id@[i] == tile_id
    }

    /// The row holding the given `(tileset, tile)` pair; meaningful only
    /// when [`Self::spec_has_tile`] holds, in which case well-formedness
    /// makes the row unique.
    pub open spec fn spec_tile_index(&self, tileset_id: int, tile_id: int) -> int {
        choose|i: int|
            0 <= i < self.tile_id@.len() && #[trigger] self.tileset_id@[i] == tileset_id
                && self.tile_id@[i] == tile_id
    }

    pub fn new() -> (r: TileMgr)
        ensures
            r.wf(),
            r.spec_len() == 0,
            r.tileset_names@.len() == 0,
    {
        TileMgr {
            tile_id: Vec::new(),
            tileset_id: Vec::new(),
            tileset_names: Vec::new(),
            texture_i: Vec::new(),
        }
    }

    pub fn len(&self) -> (r: usize)
        ensures
            r == self.spec_len(),
    {
        self.tile_id.len()
    }

    /// Adds a new tile to the registry and returns its handle. The tileset
    /// must already be registered and the `(tileset, tile)` pair must be
    /// new.
    pub fn add(&mut self, tile_id: u32, tileset_id: usize, texture_i: usize) -> (r: usize)
        requires
            old(self).wf(),
            tileset_id < old(self).tileset_names@.len(),
            !old(self).spec_has_tile(tileset_id as int, tile_id as int),
        ensures
            final(self).wf(),
            r == old(self).spec_len(),
            final(self).spec_len() == old(self).spec_len() + 1,
            final(self).tile_id@ == old(self).tile_id@.push(tile_id),
            final(self).tileset_id@ == old(self).tileset_id@.push(tileset_id),
            final(self).texture_i@ == old(self).texture_i@.push(texture_i),
            final(self).tileset_names@ == old(self).tileset_names@,
            final(self).spec_has_tile(tileset_id as int, tile_id as int),
    {
        self.tile_id.push(tile_id);
        self.tileset_id.push(tileset_id);
        self.texture_i.push(texture_i);
        let index = self.tile_id.len() - 1;
        assert(self.tileset_id@[index as int] == tileset_id);
        index
    }

    /// Registers a new tileset name and returns the new tileset id. The
    /// name must not already be registered.
    pub fn register_tileset(&mut self, tileset_name: &str) -> (r: usize)
        requires
            old(self).wf(),
            !old(self).spec_has_tileset(tileset_name@),
        ensures
            final(self).wf(),
            r == old(self).tileset_names@.len(),
            final(self).tileset_names@.len() == old(self).tileset_names@.len() + 1,
            final(self).tileset_names@[r as int]@ == tileset_name@,
            final(self).tile_id@ == old(self).tile_id@,
            final(self).tileset_id@ == old(self).tileset_id@,
            final(self).texture_i@ == old(self).texture_i@,
    {
        let name = tileset_name.to_owned();
        self.tileset_names.push(name);
        self.tileset_names.len() - 1
    }

    /// A tileset with this name has been registered.
    pub open spec fn spec_has_tileset(&self, name: Seq<char>) -> bool {
        exists|i: int|
            0 <= i < self.tileset_names@.len() && (#[trigger] self.tileset_names@[i])@ == name
    }

    /// Looks a tileset up by name, returning the id of the earliest
    /// registration with that name, if any.
    pub fn find_tileset(&self, name: &str) -> (r: Option<usize>)
        ensures
            r is Some ==> r->Some_0 < self.tileset_names@.len() && self.tileset_names@[r->Some_0
                as int]@ == name@,
            r is None ==> !self.spec_has_tileset(name@),
    {
        let needle: String = name.to_owned();
        let n = self.tileset_names.len();
        let mut i: usize = 0;
        while i < n
            invariant
                i <= n,
                n == self.tileset_names@.len(),
                needle@ == name@,
                forall|j: int| 0 <= j < i ==> (#[trigger] self.tileset_names@[j])@ != name@,
            decreases n - i,
        {
            if self.tileset_names[i].eq(&needle) {
                return Some(i);
            }
            i = i + 1;
        }
        None
    }

    /// Whether a `(tileset, tile)` pair is registered.
    pub fn has_tile(&self, tileset_id: usize, tile_id: u32) -> (r: bool)
        requires
            self.wf(),
        ensures
            r == self.spec_has_tile(tileset_id as int, tile_id as int),
    {
        let n = self.tile_id.len();
        let mut i: usize = 0;
        while i < n
            invariant
                self.wf(),
                i <= n,
                n == self.spec_len(),
                forall|j: int|
                    0 <= j < i ==> !(#[trigger] self.tileset_id@[j] == tileset_id as int
                        && self.tile_id@[j] == tile_id as int),
            decreases n - i,
        {
            if self.tileset_id[i] == tileset_id && self.tile_id[i] == tile_id {
                return true;
            }
            i = i + 1;
        }
        false
    }

    /// The row handle of a registered `(tileset, tile)` pair. Calling this
    /// with an unregistered pair is a caller error, excluded by contract.
    pub fn get_tile_index(&self, tileset_id: usize, tile_id: u32) -> (r: usize)
        requires
            self.wf(),
            self.spec_has_tile(tileset_id as int, tile_id as int),
        ensures
            r < self.spec_len(),
            self.tileset_id@[r as int] == tileset_id,
            self.tile_id@[r as int] == tile_id,
            r == self.spec_tile_index(tileset_id as int, tile_id as int),
    {
        let n = self.tile_id.len();
        let mut i: usize = 0;
        while i < n
            invariant
                self.wf(),
                self.spec_has_tile(tileset_id as int, tile_id as int),
                i <= n,
                n == self.spec_len(),
                forall|j: int|
                    0 <= j < i ==> !(#[trigger] self.tileset_id@[j] == tileset_id as int
                        && self.tile_id@[j] == tile_id as int),
            decreases n - i,
        {
            if self.tileset_id[i] == tileset_id && self.tile_id[i] == tile_id {
                proof {
                    let c = self.spec_tile_index(tileset_id as int, tile_id as int);
                    assert(self.tileset_id@[c] == tileset_id && self.tile_id@[c] == tile_id);
                    assert(c == i as int);
                }
                return i;
            }
            i = i + 1;
        }
        proof {
            assert(false);
        }
        0
    }
}

} // verus!
