//! Scene registry and the active-scene bookkeeping that drives the
//! spawn/despawn protocol.
//!
//! A scene is a flat ordered list of rows, each either a tile placement or a
//! placeable object, sharing one heterogeneous table keyed by a layer-kind
//! tag. Loading a map is the business of an external collaborator: it
//! registers a scene, then feeds rows in with [`SceneMgr::add_tile`] and
//! [`SceneMgr::add_object`]. Switching the active scene records the
//! previously active objects as leaving scope and marks a despawn-then-spawn
//! round pending for the frame orchestrator.

use vstd::prelude::*;

use crate::geom::{vec_ok, Vec2i, COORD_LIMIT};
use crate::log::{error, level_admits, LogLevel, Logger};
use crate::tile::TileMgr;

verus! {

/// Largest magnitude of a tile grid coordinate or tile pixel size; keeps
/// tile render positions (their product) within world bounds.
pub const TILE_LIMIT: i64 = 1_000_000;

pub open spec fn tile_coord_ok(v: int) -> bool {
    0 <= v <= TILE_LIMIT as int
}

/// The kind of layer a scene row came from. Only tile and object rows are
/// ever stored; image and group layers are skipped at load time.
#[derive(Clone, Copy, PartialEq, Eq, Structural, Debug)]
pub enum LayerTag {
    Tiles,
    Objects,
    Image,
    Group,
}

/// A typed value in an object's open property bag.
#[derive(Clone, Debug)]
pub enum PropertyValue {
    StrV(String),
    IntV(i64),
    BoolV(bool),
}

/// One named entry of an object's property bag.
#[derive(Clone, Debug)]
pub struct Property {
    pub name: String,
    pub value: PropertyValue,
}

/// A tile prepared for rendering: a texture handle and a world position.
#[derive(Clone, Copy, PartialEq, Eq, Structural, Debug)]
pub struct CachedTile {
    /// Texture handle in the rendering collaborator's registry.
    pub texture_i: usize,
    /// World render position.
    pub position: Vec2i,
}

/// First value bound to `name` in `props`, searching from index `i` on.
pub open spec fn lookup_prop_from(props: Seq<Property>, name: Seq<char>, i: int) -> Option<
    PropertyValue,
>
    decreases props.len() - i,
{
    if i < 0 || i >= props.len() {
        None
    } else if props[i].name@ == name {
        Some(props[i].value)
    } else {
        lookup_prop_from(props, name, i + 1)
    }
}

/// First value bound to `name` in `props`, if any.
pub open spec fn lookup_prop(props: Seq<Property>, name: Seq<char>) -> Option<PropertyValue> {
    lookup_prop_from(props, name, 0)
}

/// Unfolds one step of [`lookup_prop_from`].
proof fn lemma_lookup_prop_step(props: Seq<Property>, name: Seq<char>, i: int)
    requires
        0 <= i < props.len(),
    ensures
        lookup_prop_from(props, name, i) == if props[i].name@ == name {
            Some(props[i].value)
        } else {
            lookup_prop_from(props, name, i + 1)
        },
{
    reveal_with_fuel(lookup_prop_from, 2);
}

/// A search starting at or past the end of the bag finds nothing.
proof fn lemma_lookup_prop_none(props: Seq<Property>, name: Seq<char>, i: int)
    requires
        i >= props.len(),
    ensures
        lookup_prop_from(props, name, i) is None,
{
    reveal_with_fuel(lookup_prop_from, 1);
}

/// Registry of scene rows plus the active-scene caches. Row `i` is the
/// scene entry with handle `i`.
pub struct SceneMgr {
    /// Scene names in registration order; a scene's id is its index.
    pub scene_names: Vec<String>,
    // Common row fields
    pub scene_id: Vec<usize>,
    pub layer_id: Vec<u32>,
    pub layer_tag: Vec<LayerTag>,
    // Object row fields
    pub object_name: Vec<Option<String>>,
    pub object_class: Vec<Option<String>>,
    pub object_position: Vec<Option<Vec2i>>,
    pub object_size: Vec<Option<Vec2i>>,
    pub object_properties: Vec<Option<Vec<Property>>>,
    // Tile row fields
    pub tile_id: Vec<Option<u32>>,
    pub tileset_id: Vec<Option<usize>>,
    pub tile_position: Vec<Option<Vec2i>>,
    pub tile_size: Vec<Option<Vec2i>>,
    // Active scene
    pub active_scene_id: Option<usize>,
    /// Object row handles of the active scene, ascending.
    pub active_objects: Vec<usize>,
    /// Object row handles leaving scope, to be despawned this frame.
    pub objects_to_despawn: Vec<usize>,
    /// Tiles of the active scene in render order.
    pub tile_renderer_cache: Vec<CachedTile>,
    /// A spawn round is owed for the newly active scene.
    pub pending_spawn: bool,
    /// A despawn round is owed for the objects leaving scope.
    pub pending_despawn: bool,
}

/// Row `i` of scene `id` is an object row.
pub open spec fn object_row_accepts(s: SceneMgr, id: int, i: int) -> bool {
    s.scene_id@[i] == id && s.layer_tag@[i] is Objects
}

/// Object row handles of scene `id` among the first `n` rows, ascending.
pub open spec fn object_rows_upto(s: SceneMgr, id: int, n: int) -> Seq<usize>
    decreases n,
{
    if n <= 0 {
        Seq::empty()
    } else if object_row_accepts(s, id, n - 1) {
        object_rows_upto(s, id, n - 1).push((n - 1) as usize)
    } else {
        object_rows_upto(s, id, n - 1)
    }
}

/// Row `i` of scene `id` is a tile row.
pub open spec fn tile_row_accepts(s: SceneMgr, id: int, i: int) -> bool {
    s.scene_id@[i] == id && s.layer_tag@[i] is Tiles
}

/// The render-cache entry derived from tile row `i`: the tile's texture
/// handle and its grid position scaled by its tile size.
pub open spec fn spec_cached_tile(s: SceneMgr, tm: TileMgr, i: int) -> CachedTile {
    let tsid = s.tileset_id@[i]->Some_0;
    let tid = s.tile_id@[i]->Some_0;
    let tp = s.tile_position@[i]->Some_0;
    let tsz = s.tile_size@[i]->Some_0;
    CachedTile {
        texture_i: tm.texture_i@[tm.spec_tile_index(tsid as int, tid as int)],
        position: Vec2i { x: (tp.x * tsz.x) as i64, y: (tp.y * tsz.y) as i64 },
    }
}

/// Render-cache entries for the tile rows of scene `id` among the first `n`
/// rows, in row order.
pub open spec fn tile_cache_upto(s: SceneMgr, tm: TileMgr, id: int, n: int) -> Seq<CachedTile>
    decreases n,
{
    if n <= 0 {
        Seq::empty()
    } else if tile_row_accepts(s, id, n - 1) {
        tile_cache_upto(s, tm, id, n - 1).push(spec_cached_tile(s, tm, n - 1))
    } else {
        tile_cache_upto(s, tm, id, n - 1)
    }
}

/// Unfolds one step of [`object_rows_upto`].
proof fn lemma_object_rows_upto_step(s: SceneMgr, id: int, n: int)
    requires
        n > 0,
    ensures
        object_rows_upto(s, id, n) == if object_row_accepts(s, id, n - 1) {
            object_rows_upto(s, id, n - 1).push((n - 1) as usize)
        } else {
            object_rows_upto(s, id, n - 1)
        },
{
    reveal_with_fuel(object_rows_upto, 2);
}

/// Every handle an object-row scan reports is an accepted row below `n`,
/// and the reported sequence is strictly increasing.
pub proof fn lemma_object_rows_upto_props(s: SceneMgr, id: int, n: int)
    requires
        n <= usize::MAX as int,
    ensures
        forall|j: int|
            0 <= j < object_rows_upto(s, id, n).len() ==> {
                let x = #[trigger] object_rows_upto(s, id, n)[j];
                0 <= x < n && object_row_accepts(s, id, x as int) && x >= j
            },
        forall|j: int, k: int|
            0 <= j < k < object_rows_upto(s, id, n).len() ==> #[trigger] object_rows_upto(
                s,
                id,
                n,
            )[j] < #[trigger] object_rows_upto(s, id, n)[k],
    decreases n,
{
    if n > 0 {
        lemma_object_rows_upto_step(s, id, n);
        lemma_object_rows_upto_props(s, id, n - 1);
        let prev = object_rows_upto(s, id, n - 1);
        let cur = object_rows_upto(s, id, n);
        if prev.len() > 0 {
            assert(prev[prev.len() - 1] >= prev.len() - 1);
            assert(prev.len() <= n - 1);
        }
        if object_row_accepts(s, id, n - 1) {
            assert(cur == prev.push((n - 1) as usize));
            assert(forall|j: int| 0 <= j < prev.len() ==> cur[j] == prev[j]);
            assert(cur[cur.len() - 1] == (n - 1) as usize);
        } else {
            assert(cur == prev);
        }
    }
}

/// Unfolds one step of [`tile_cache_upto`].
proof fn lemma_tile_cache_upto_step(s: SceneMgr, tm: TileMgr, id: int, n: int)
    requires
        n > 0,
    ensures
        tile_cache_upto(s, tm, id, n) == if tile_row_accepts(s, id, n - 1) {
            tile_cache_upto(s, tm, id, n - 1).push(spec_cached_tile(s, tm, n - 1))
        } else {
            tile_cache_upto(s, tm, id, n - 1)
        },
{
    reveal_with_fuel(tile_cache_upto, 2);
}

/// Every tile row of scene `id` refers to a tile registered in `tm`.
pub open spec fn spec_scene_tiles_registered(s: SceneMgr, tm: TileMgr, id: int) -> bool {
    forall|i: int|
        0 <= i < s.scene_id@.len() && #[trigger] s.scene_id@[i] == id && s.layer_tag@[i] is Tiles
            ==> tm.spec_has_tile(s.tileset_id@[i]->Some_0 as int, s.tile_id@[i]->Some_0 as int)
}

impl SceneMgr {
    /// Parallel columns agree in length; every row belongs to a registered
    /// scene and is either a complete object row or a complete tile row
    /// within bounds; the active-object and despawn lists hold ascending
    /// object row handles.
    pub open spec fn wf(&self) -> bool {
        &&& self.layer_id@.len() == self.scene_id@.len()
        &&& self.layer_tag@.len() == self.scene_id@.len()
        &&& self.object_name@.len() == self.scene_id@.len()
        &&& self.object_class@.len() == self.scene_id@.len()
        &&& self.object_position@.len() == self.scene_id@.len()
        &&& self.object_size@.len() == self.scene_id@.len()
        &&& self.object_properties@.len() == self.scene_id@.len()
        &&& self.tile_id@.len() == self.scene_id@.len()
        &&& self.tileset_id@.len() == self.scene_id@.len()
        &&& self.tile_position@.len() == self.scene_id@.len()
        &&& self.tile_size@.len() == self.scene_id@.len()
        &&& forall|i: int|
            0 <= i < self.scene_id@.len() ==> (#[trigger] self.scene_id@[i])
                < self.scene_names@.len()
        &&& forall|i: int|
            0 <= i < self.scene_id@.len() ==> ((#[trigger] self.layer_tag@[i]) is Tiles
                || self.layer_tag@[i] is Objects)
        &&& forall|i: int|
            0 <= i < self.scene_id@.len() && (#[trigger] self.layer_tag@[i]) is Objects ==> {
                &&& self.object_name@[i] is Some
                &&& self.object_class@[i] is Some
                &&& self.object_position@[i] is Some
                &&& self.object_properties@[i] is Some
                &&& vec_ok(self.object_position@[i]->Some_0)
                &&& (self.object_size@[i] is Some ==> {
                    let sz = self.object_size@[i]->Some_0;
                    0 <= sz.x <= COORD_LIMIT as int && 0 <= sz.y <= COORD_LIMIT as int
                })
                &&& self.tile_id@[i] is None
                &&& self.tileset_id@[i] is None
                &&& self.tile_position@[i] is None
                &&& self.tile_size@[i] is None
            }
        &&& forall|i: int|
            0 <= i < self.scene_id@.len() && (#[trigger] self.layer_tag@[i]) is Tiles ==> {
                &&& self.tile_id@[i] is Some
                &&& self.tileset_id@[i] is Some
                &&& self.tile_position@[i] is Some
                &&& self.tile_size@[i] is Some
                &&& tile_coord_ok(self.tile_position@[i]->Some_0.x as int)
                &&& tile_coord_ok(self.tile_position@[i]->Some_0.y as int)
                &&& tile_coord_ok(self.tile_size@[i]->Some_0.x as int)
                &&& tile_coord_ok(self.tile_size@[i]->Some_0.y as int)
                &&& self.object_name@[i] is None
                &&& self.object_class@[i] is None
                &&& self.object_position@[i] is None
                &&& self.object_size@[i] is None
                &&& self.object_properties@[i] is None
            }
        &&& forall|k: int|
            0 <= k < self.active_objects@.len() ==> (#[trigger] self.active_objects@[k])
                < self.scene_id@.len() && self.layer_tag@[self.active_objects@[k] as int]
                is Objects
        &&& forall|j: int, k: int|
            0 <= j < k < self.active_objects@.len() ==> #[trigger] self.active_objects@[j]
                < #[trigger] self.active_objects@[k]
        &&& forall|k: int|
            0 <= k < self.objects_to_despawn@.len() ==> (#[trigger] self.objects_to_despawn@[k])
                < self.scene_id@.len() && self.layer_tag@[self.objects_to_despawn@[k] as int]
                is Objects
        &&& forall|j: int, k: int|
            0 <= j < k < self.objects_to_despawn@.len() ==> #[trigger] self.objects_to_despawn@[j]
                < #[trigger] self.objects_to_despawn@[k]
    }

    pub open spec fn spec_len(&self) -> nat {
        self.scene_id@.len()
    }

    /// The class name of object row `i`.
    pub open spec fn spec_object_class(&self, i: int) -> Seq<char> {
        self.object_class@[i]->Some_0@
    }

    /// The position of object row `i`.
    pub open spec fn spec_object_position(&self, i: int) -> Vec2i {
        self.object_position@[i]->Some_0
    }

    pub fn new() -> (r: SceneMgr)
        ensures
            r.wf(),
            r.spec_len() == 0,
            r.scene_names@.len() == 0,
            r.active_scene_id is None,
            r.active_objects@.len() == 0,
            r.objects_to_despawn@.len() == 0,
            r.tile_renderer_cache@.len() == 0,
            !r.pending_spawn,
            !r.pending_despawn,
    {
        SceneMgr {
            scene_names: Vec::new(),
            scene_id: Vec::new(),
            layer_id: Vec::new(),
            layer_tag: Vec::new(),
            object_name: Vec::new(),
            object_class: Vec::new(),
            object_position: Vec::new(),
            object_size: Vec::new(),
            object_properties: Vec::new(),
            tile_id: Vec::new(),
            tileset_id: Vec::new(),
            tile_position: Vec::new(),
            tile_size: Vec::new(),
            active_scene_id: None,
            active_objects: Vec::new(),
            objects_to_despawn: Vec::new(),
            tile_renderer_cache: Vec::new(),
            pending_spawn: false,
            pending_despawn: false,
        }
    }

    pub fn len(&self) -> (r: usize)
        ensures
            r == self.spec_len(),
    {
        self.scene_id.len()
    }

    /// Registers a new scene name and returns the new scene id. Rows must
    /// be added only for registered scenes.
    pub fn register_scene(&mut self, scene_name: &str) -> (r: usize)
        requires
            old(self).wf(),
        ensures
            final(self).wf(),
            r == old(self).scene_names@.len(),
            final(self).scene_names@.len() == old(self).scene_names@.len() + 1,
            final(self).scene_names@[r as int]@ == scene_name@,
            final(self).scene_id@ == old(self).scene_id@,
            final(self).active_objects@ == old(self).active_objects@,
            final(self).objects_to_despawn@ == old(self).objects_to_despawn@,
            final(self).active_scene_id == old(self).active_scene_id,
            final(self).pending_spawn == old(self).pending_spawn,
            final(self).pending_despawn == old(self).pending_despawn,
    {
        let name = scene_name.to_owned();
        self.scene_names.push(name);
        self.scene_names.len() - 1
    }

    /// Appends a tile row to a registered scene and returns its handle.
    pub fn add_tile(
        &mut self,
        scene_id: usize,
        layer_id: u32,
        tile_position: Vec2i,
        tile_size: Vec2i,
        tile_id: u32,
        tileset_id: usize,
    ) -> (r: usize)
        requires
            old(self).wf(),
            scene_id < old(self).scene_names@.len(),
            tile_coord_ok(tile_position.x as int),
            tile_coord_ok(tile_position.y as int),
            tile_coord_ok(tile_size.x as int),
            tile_coord_ok(tile_size.y as int),
        ensures
            final(self).wf(),
            r == old(self).spec_len(),
            final(self).spec_len() == old(self).spec_len() + 1,
            final(self).scene_id@ == old(self).scene_id@.push(scene_id),
            final(self).layer_id@ == old(self).layer_id@.push(layer_id),
            final(self).layer_tag@ == old(self).layer_tag@.push(LayerTag::Tiles),
            final(self).tile_id@ == old(self).tile_id@.push(Some(tile_id)),
            final(self).tileset_id@ == old(self).tileset_id@.push(Some(tileset_id)),
            final(self).tile_position@ == old(self).tile_position@.push(Some(tile_position)),
            final(self).tile_size@ == old(self).tile_size@.push(Some(tile_size)),
            final(self).object_name@ == old(self).object_name@.push(None),
            final(self).object_class@ == old(self).object_class@.push(None),
            final(self).object_position@ == old(self).object_position@.push(None),
            final(self).object_size@ == old(self).object_size@.push(None),
            final(self).object_properties@ == old(self).object_properties@.push(None),
            final(self).scene_names@ == old(self).scene_names@,
            final(self).active_objects@ == old(self).active_objects@,
            final(self).objects_to_despawn@ == old(self).objects_to_despawn@,
            final(self).active_scene_id == old(self).active_scene_id,
            final(self).pending_spawn == old(self).pending_spawn,
            final(self).pending_despawn == old(self).pending_despawn,
    {
        self.scene_id.push(scene_id);
        self.layer_id.push(layer_id);
        self.layer_tag.push(LayerTag::Tiles);
        self.object_name.push(None);
        self.object_class.push(None);
        self.object_position.push(None);
        self.object_size.push(None);
        self.object_properties.push(None);
        self.tile_id.push(Some(tile_id));
        self.tileset_id.push(Some(tileset_id));
        self.tile_position.push(Some(tile_position));
        self.tile_size.push(Some(tile_size));
        self.scene_id.len() - 1
    }

    /// Appends an object row to a registered scene and returns its handle.
    pub fn add_object(
        &mut self,
        scene_id: usize,
        layer_id: u32,
        object_name: String,
        object_class: String,
        object_position: Vec2i,
        object_size: Option<Vec2i>,
        object_properties: Vec<Property>,
    ) -> (r: usize)
        requires
            old(self).wf(),
            scene_id < old(self).scene_names@.len(),
            vec_ok(object_position),
            object_size is Some ==> {
                let sz = object_size->Some_0;
                0 <= sz.x <= COORD_LIMIT as int && 0 <= sz.y <= COORD_LIMIT as int
            },
        ensures
            final(self).wf(),
            r == old(self).spec_len(),
            final(self).spec_len() == old(self).spec_len() + 1,
            final(self).scene_id@ == old(self).scene_id@.push(scene_id),
            final(self).layer_id@ == old(self).layer_id@.push(layer_id),
            final(self).layer_tag@ == old(self).layer_tag@.push(LayerTag::Objects),
            final(self).object_name@[r as int] is Some && final(self).object_name@[r as int]
                ->Some_0 == object_name,
            final(self).object_class@[r as int] is Some && final(self).object_class@[r as int]
                ->Some_0 == object_class,
            final(self).object_position@ == old(self).object_position@.push(
                Some(object_position),
            ),
            final(self).object_size@ == old(self).object_size@.push(object_size),
            final(self).object_properties@[r as int] is Some,
            final(self).object_properties@[r as int]->Some_0 == object_properties,
            final(self).object_name@ == old(self).object_name@.push(
                final(self).object_name@[r as int],
            ),
            final(self).object_class@ == old(self).object_class@.push(
                final(self).object_class@[r as int],
            ),
            final(self).object_properties@ == old(self).object_properties@.push(
                final(self).object_properties@[r as int],
            ),
            final(self).tile_id@ == old(self).tile_id@.push(None),
            final(self).tileset_id@ == old(self).tileset_id@.push(None),
            final(self).tile_position@ == old(self).tile_position@.push(None),
            final(self).tile_size@ == old(self).tile_size@.push(None),
            final(self).scene_names@ == old(self).scene_names@,
            final(self).active_objects@ == old(self).active_objects@,
            final(self).objects_to_despawn@ == old(self).objects_to_despawn@,
            final(self).active_scene_id == old(self).active_scene_id,
            final(self).pending_spawn == old(self).pending_spawn,
            final(self).pending_despawn == old(self).pending_despawn,
    {
        self.scene_id.push(scene_id);
        self.layer_id.push(layer_id);
        self.layer_tag.push(LayerTag::Objects);
        self.object_name.push(Some(object_name));
        self.object_class.push(Some(object_class));
        self.object_position.push(Some(object_position));
        self.object_size.push(object_size);
        self.object_properties.push(Some(object_properties));
        self.tile_id.push(None);
        self.tileset_id.push(None);
        self.tile_position.push(None);
        self.tile_size.push(None);
        self.scene_id.len() - 1
    }

    /// Whether object row `index` has the class `class_name`.
    pub fn object_class_is(&self, index: usize, class_name: &String) -> (r: bool)
        requires
            self.wf(),
            index < self.spec_len(),
            self.layer_tag@[index as int] is Objects,
        ensures
            r == (self.spec_object_class(index as int) == class_name@),
    {
        match &self.object_class[index] {
            Some(c) => c.eq(class_name),
            None => false,
        }
    }

    /// The position of object row `index`.
    pub fn object_position(&self, index: usize) -> (r: Vec2i)
        requires
            self.wf(),
            index < self.spec_len(),
            self.layer_tag@[index as int] is Objects,
        ensures
            r == self.spec_object_position(index as int),
            vec_ok(r),
    {
        self.object_position[index].unwrap()
    }

    /// The size of object row `index`, when the map gave it one.
    pub fn object_size(&self, index: usize) -> (r: Option<Vec2i>)
        requires
            self.wf(),
            index < self.spec_len(),
            self.layer_tag@[index as int] is Objects,
        ensures
            r == self.object_size@[index as int],
    {
        self.object_size[index]
    }

    pub fn has_pending_spawn(&self) -> (r: bool)
        ensures
            r == self.pending_spawn,
    {
        self.pending_spawn
    }

    pub fn has_pending_despawn(&self) -> (r: bool)
        ensures
            r == self.pending_despawn,
    {
        self.pending_despawn
    }

    /// Marks the pending spawn round as done.
    pub fn spawn(&mut self)
        requires
            old(self).wf(),
        ensures
            final(self).wf(),
            !final(self).pending_spawn,
            *final(self) == (SceneMgr { pending_spawn: false, ..*old(self) }),
    {
        self.pending_spawn = false;
    }

    /// Marks the pending despawn round as done and drops the list of
    /// objects that left scope.
    pub fn despawn(&mut self)
        requires
            old(self).wf(),
        ensures
            final(self).wf(),
            !final(self).pending_despawn,
            final(self).objects_to_despawn@.len() == 0,
            *final(self) == (SceneMgr {
                pending_despawn: false,
                objects_to_despawn: final(self).objects_to_despawn,
                ..*old(self)
            }),
    {
        self.pending_despawn = false;
        self.objects_to_despawn = Vec::new();
    }

    /// Whether every tile row of scene `scene_id` refers to a registered
    /// tile, which activating the scene requires.
    pub fn scene_tiles_registered(&self, tile_mgr: &TileMgr, scene_id: usize) -> (r: bool)
        requires
            self.wf(),
            tile_mgr.wf(),
        ensures
            r == spec_scene_tiles_registered(*self, *tile_mgr, scene_id as int),
    {
        let n = self.scene_id.len();
        let mut i: usize = 0;
        while i < n
            invariant
                self.wf(),
                tile_mgr.wf(),
                i <= n,
                n == self.spec_len(),
                forall|j: int|
                    0 <= j < i && #[trigger] self.scene_id@[j] == scene_id as int
                        && self.layer_tag@[j] is Tiles ==> tile_mgr.spec_has_tile(
                        self.tileset_id@[j]->Some_0 as int,
                        self.tile_id@[j]->Some_0 as int,
                    ),
            decreases n - i,
        {
            if self.scene_id[i] == scene_id {
                let is_tile_row = match self.layer_tag[i] {
                    LayerTag::Tiles => true,
                    _ => false,
                };
                if is_tile_row {
                    let tsid = self.tileset_id[i].unwrap();
                    let tid = self.tile_id[i].unwrap();
                    if !tile_mgr.has_tile(tsid, tid) {
                        return false;
                    }
                }
            }
            i = i + 1;
        }
        true
    }

    /// Makes `scene_id` the active scene (or clears the active scene for
    /// `None`). The previously active objects are recorded as leaving scope
    /// and a despawn round is marked pending; for a new scene the object
    /// and tile-render caches are rebuilt from its rows and a spawn round is
    /// marked pending.
    pub fn set_active_scene(&mut self, scene_id: Option<usize>, tile_mgr: &TileMgr)
        requires
            old(self).wf(),
            tile_mgr.wf(),
            match scene_id {
                Some(id) => id < old(self).scene_names@.len() && spec_scene_tiles_registered(
                    *old(self),
                    *tile_mgr,
                    id as int,
                ),
                None => true,
            },
        ensures
            final(self).wf(),
            final(self).scene_names@ == old(self).scene_names@,
            final(self).scene_id@ == old(self).scene_id@,
            final(self).layer_id@ == old(self).layer_id@,
            final(self).layer_tag@ == old(self).layer_tag@,
            final(self).object_name@ == old(self).object_name@,
            final(self).object_class@ == old(self).object_class@,
            final(self).object_position@ == old(self).object_position@,
            final(self).object_size@ == old(self).object_size@,
            final(self).object_properties@ == old(self).object_properties@,
            final(self).tile_id@ == old(self).tile_id@,
            final(self).tileset_id@ == old(self).tileset_id@,
            final(self).tile_position@ == old(self).tile_position@,
            final(self).tile_size@ == old(self).tile_size@,
            final(self).active_scene_id == scene_id,
            final(self).objects_to_despawn@ == old(self).active_objects@,
            final(self).pending_despawn,
            final(self).pending_spawn == (scene_id is Some),
            match scene_id {
                Some(id) => {
                    &&& final(self).active_objects@ == object_rows_upto(
                        *old(self),
                        id as int,
                        old(self).spec_len() as int,
                    )
                    &&& final(self).tile_renderer_cache@ == tile_cache_upto(
                        *old(self),
                        *tile_mgr,
                        id as int,
                        old(self).spec_len() as int,
                    )
                },
                None => final(self).active_objects@.len() == 0
                    && final(self).tile_renderer_cache@.len() == 0,
            },
    {
        let mut new_actives: Vec<usize> = Vec::new();
        let mut new_cache: Vec<CachedTile> = Vec::new();
        if let Some(id) = scene_id {
            let n = self.scene_id.len();
            let mut i: usize = 0;
            while i < n
                invariant
                    *self == *old(self),
                    self.wf(),
                    tile_mgr.wf(),
                    spec_scene_tiles_registered(*self, *tile_mgr, id as int),
                    i <= n,
                    n == self.spec_len(),
                    new_actives@ == object_rows_upto(*self, id as int, i as int),
                    new_cache@ == tile_cache_upto(*self, *tile_mgr, id as int, i as int),
                decreases n - i,
            {
                if self.scene_id[i] == id {
                    match self.layer_tag[i] {
                        LayerTag::Tiles => {
                            let tsid = self.tileset_id[i].unwrap();
                            let tid = self.tile_id[i].unwrap();
                            let tile_i = tile_mgr.get_tile_index(tsid, tid);
                            let texture_i = tile_mgr.texture_i[tile_i];
                            let tp = self.tile_position[i].unwrap();
                            let tsz = self.tile_size[i].unwrap();
                            proof {
                                assert(0 <= tp.x * tsz.x <= COORD_LIMIT as int)
                                    by (nonlinear_arith)
                                    requires
                                        0 <= tp.x <= TILE_LIMIT as int,
                                        0 <= tsz.x <= TILE_LIMIT as int,
                                ;
                                assert(0 <= tp.y * tsz.y <= COORD_LIMIT as int)
                                    by (nonlinear_arith)
                                    requires
                                        0 <= tp.y <= TILE_LIMIT as int,
                                        0 <= tsz.y <= TILE_LIMIT as int,
                                ;
                            }
                            let render_position = Vec2i { x: tp.x * tsz.x, y: tp.y * tsz.y };
                            new_cache.push(CachedTile { texture_i, position: render_position });
                        },
                        LayerTag::Objects => {
                            new_actives.push(i);
                        },
                        LayerTag::Image | LayerTag::Group => {},
                    }
                }
                proof {
                    lemma_object_rows_upto_step(*self, id as int, i + 1);
                    lemma_tile_cache_upto_step(*self, *tile_mgr, id as int, i + 1);
                }
                i = i + 1;
            }
            self.pending_spawn = true;
        } else {
            self.pending_spawn = false;
        }
        let mut previous: Vec<usize> = Vec::new();
        core::mem::swap(&mut previous, &mut self.active_objects);
        self.objects_to_despawn = previous;
        self.pending_despawn = true;
        self.active_scene_id = scene_id;
        self.active_objects = new_actives;
        self.tile_renderer_cache = new_cache;
        proof {
            if let Some(id) = scene_id {
                lemma_object_rows_upto_props(*old(self), id as int, old(self).spec_len() as int);
            }
        }
    }

    /// The string value of a named property of object row `index`. Returns
    /// `None`, recording a diagnostic, when the row has no property bag,
    /// the property is missing, or it has another type.
    pub fn get_object_property_string(
        &self,
        index: usize,
        property_name: &str,
        logger: &mut Logger,
    ) -> (r: Option<String>)
        requires
            self.wf(),
            index < self.spec_len(),
        ensures
            r == spec_get_string(*self, index as int, property_name@),
            final(logger).level == old(logger).level,
            forall|e: int|
                0 <= e < old(logger).entries@.len() ==> #[trigger] final(logger).entries@[e]
                    == old(logger).entries@[e],
            r is Some ==> final(logger).entries@ == old(logger).entries@,
            r is None && level_admits(old(logger).level, LogLevel::ERROR) ==> final(logger).entries@.len() == old(logger).entries@.len() + 1 && final(logger).entries@[old(logger).entries@.len() as int].level is ERROR,
            r is None && !level_admits(old(logger).level, LogLevel::ERROR) ==> final(logger).entries@ == old(logger).entries@,
    {
        let needle: String = property_name.to_owned();
        match &self.object_properties[index] {
            Some(props) => {
                let n = props.len();
                let mut i: usize = 0;
                while i < n
                    invariant
                        self.wf(),
                        index < self.spec_len(),
                        self.object_properties@[index as int] is Some,
                        props@ == self.object_properties@[index as int]->Some_0@,
                        n == props@.len(),
                        i <= n,
                        needle@ == property_name@,
                        logger.level == old(logger).level,
                        logger.entries@ == old(logger).entries@,
                        lookup_prop(props@, property_name@) == lookup_prop_from(
                            props@,
                            property_name@,
                            i as int,
                        ),
                    decreases n - i,
                {
                    proof {
                        lemma_lookup_prop_step(props@, property_name@, i as int);
                    }
                    let p = &props[i];
                    if p.name.eq(&needle) {
                        match &p.value {
                            PropertyValue::StrV(v) => {
                                return Some(v.clone());
                            },
                            _ => {
                                error(
                                    logger,
                                    "object property requested as a string has another type".to_owned(),
                                );
                                return None;
                            },
                        }
                    }
                    i = i + 1;
                }
                proof {
                    lemma_lookup_prop_none(props@, property_name@, i as int);
                }
                error(logger, "object property not found".to_owned());
                None
            },
            None => {
                error(logger, "object has no properties".to_owned());
                None
            },
        }
    }

    /// The integer value of a named property of object row `index`, with
    /// the same missing/wrong-type behavior as the string getter.
    pub fn get_object_property_int(
        &self,
        index: usize,
        property_name: &str,
        logger: &mut Logger,
    ) -> (r: Option<i64>)
        requires
            self.wf(),
            index < self.spec_len(),
        ensures
            r == spec_get_int(*self, index as int, property_name@),
            final(logger).level == old(logger).level,
            forall|e: int|
                0 <= e < old(logger).entries@.len() ==> #[trigger] final(logger).entries@[e]
                    == old(logger).entries@[e],
            r is Some ==> final(logger).entries@ == old(logger).entries@,
            r is None && level_admits(old(logger).level, LogLevel::ERROR) ==> final(logger).entries@.len() == old(logger).entries@.len() + 1 && final(logger).entries@[old(logger).entries@.len() as int].level is ERROR,
            r is None && !level_admits(old(logger).level, LogLevel::ERROR) ==> final(logger).entries@ == old(logger).entries@,
    {
        let needle: String = property_name.to_owned();
        match &self.object_properties[index] {
            Some(props) => {
                let n = props.len();
                let mut i: usize = 0;
                while i < n
                    invariant
                        self.wf(),
                        index < self.spec_len(),
                        self.object_properties@[index as int] is Some,
                        props@ == self.object_properties@[index as int]->Some_0@,
                        n == props@.len(),
                        i <= n,
                        needle@ == property_name@,
                        logger.level == old(logger).level,
                        logger.entries@ == old(logger).entries@,
                        lookup_prop(props@, property_name@) == lookup_prop_from(
                            props@,
                            property_name@,
                            i as int,
                        ),
                    decreases n - i,
                {
                    proof {
                        lemma_lookup_prop_step(props@, property_name@, i as int);
                    }
                    let p = &props[i];
                    if p.name.eq(&needle) {
                        match &p.value {
                            PropertyValue::IntV(v) => {
                                return Some(*v);
                            },
                            _ => {
                                error(
                                    logger,
                                    "object property requested as an integer has another type".to_owned(),
                                );
                                return None;
                            },
                        }
                    }
                    i = i + 1;
                }
                proof {
                    lemma_lookup_prop_none(props@, property_name@, i as int);
                }
                error(logger, "object property not found".to_owned());
                None
            },
            None => {
                error(logger, "object has no properties".to_owned());
                None
            },
        }
    }

    /// The boolean value of a named property of object row `index`, with
    /// the same missing/wrong-type behavior as the string getter.
    pub fn get_object_property_bool(
        &self,
        index: usize,
        property_name: &str,
        logger: &mut Logger,
    ) -> (r: Option<bool>)
        requires
            self.wf(),
            index < self.spec_len(),
        ensures
            r == spec_get_bool(*self, index as int, property_name@),
            final(logger).level == old(logger).level,
            forall|e: int|
                0 <= e < old(logger).entries@.len() ==> #[trigger] final(logger).entries@[e]
                    == old(logger).entries@[e],
            r is Some ==> final(logger).entries@ == old(logger).entries@,
            r is None && level_admits(old(logger).level, LogLevel::ERROR) ==> final(logger).entries@.len() == old(logger).entries@.len() + 1 && final(logger).entries@[old(logger).entries@.len() as int].level is ERROR,
            r is None && !level_admits(old(logger).level, LogLevel::ERROR) ==> final(logger).entries@ == old(logger).entries@,
    {
        let needle: String = property_name.to_owned();
        match &self.object_properties[index] {
            Some(props) => {
                let n = props.len();
                let mut i: usize = 0;
                while i < n
                    invariant
                        self.wf(),
                        index < self.spec_len(),
                        self.object_properties@[index as int] is Some,
                        props@ == self.object_properties@[index as int]->Some_0@,
                        n == props@.len(),
                        i <= n,
                        needle@ == property_name@,
                        logger.level == old(logger).level,
                        logger.entries@ == old(logger).entries@,
                        lookup_prop(props@, property_name@) == lookup_prop_from(
                            props@,
                            property_name@,
                            i as int,
                        ),
                    decreases n - i,
                {
                    proof {
                        lemma_lookup_prop_step(props@, property_name@, i as int);
                    }
                    let p = &props[i];
                    if p.name.eq(&needle) {
                        match &p.value {
                            PropertyValue::BoolV(v) => {
                                return Some(*v);
                            },
                            _ => {
                                error(
                                    logger,
                                    "object property requested as a boolean has another type".to_owned(),
                                );
                                return None;
                            },
                        }
                    }
                    i = i + 1;
                }
                proof {
                    lemma_lookup_prop_none(props@, property_name@, i as int);
                }
                error(logger, "object property not found".to_owned());
                None
            },
            None => {
                error(logger, "object has no properties".to_owned());
                None
            },
        }
    }
}

/// The string value the property getter reports for row `i` and `name`.
pub open spec fn spec_get_string(s: SceneMgr, i: int, name: Seq<char>) -> Option<String> {
    match s.object_properties@[i] {
        Some(props) => match lookup_prop(props@, name) {
            Some(PropertyValue::StrV(v)) => Some(v),
            _ => None,
        },
        None => None,
    }
}

/// The integer value the property getter reports for row `i` and `name`.
pub open spec fn spec_get_int(s: SceneMgr, i: int, name: Seq<char>) -> Option<i64> {
    match s.object_properties@[i] {
        Some(props) => match lookup_prop(props@, name) {
            Some(PropertyValue::IntV(v)) => Some(v),
            _ => None,
        },
        None => None,
    }
}

/// The boolean value the property getter reports for row `i` and `name`.
pub open spec fn spec_get_bool(s: SceneMgr, i: int, name: Seq<char>) -> Option<bool> {
    match s.object_properties@[i] {
        Some(props) => match lookup_prop(props@, name) {
            Some(PropertyValue::BoolV(v)) => Some(v),
            _ => None,
        },
        None => None,
    }
}

/// A fatal scene-content error found while spawning: a matching scene
/// object lacks something its manager requires. Surfaced immediately; the
/// spawn pass leaves all state untouched when it reports one.
#[derive(Clone, Copy, PartialEq, Eq, Structural, Debug)]
pub enum SpawnError {
    /// The object has no size, which a wall requires.
    MissingSize { scene_object_i: usize },
    /// The object lacks the required string property `team`.
    MissingTeam { scene_object_i: usize },
    /// The object's `team` property is neither `Player` nor `Enemy`.
    InvalidTeam { scene_object_i: usize },
    /// The object lacks the required integer property `move_speed`.
    MissingMoveSpeed { scene_object_i: usize },
    /// The object lacks the required boolean property `start_active`.
    MissingStartActive { scene_object_i: usize },
    /// The first unit ever spawned must be on the `Player` team; this
    /// object would create a first unit on another team.
    FirstUnitNotPlayer { scene_object_i: usize },
}

} // verus!
