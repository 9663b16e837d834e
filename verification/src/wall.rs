//! Static-obstacle manager: walls spawned from scene objects of class
//! `Wall`.
//!
//! Each wall row binds a scene-object handle to a collider row. The
//! spawn/despawn protocol is idempotent: re-encountering a bound scene
//! object reactivates its existing row (resyncing the collider position
//! from the scene object) and never creates a duplicate, and despawning
//! deactivates rows without deleting them or their geometry.

use vstd::prelude::*;

use crate::collider::ColliderMgr;
use crate::geom::{Recti, Vec2i, COORD_LIMIT};
use crate::scene::{SceneMgr, SpawnError};

verus! {

/// The scene-object class this manager spawns from.
pub open spec fn wall_class() -> Seq<char> {
    "Wall"@
}

/// Scene object `so` is listed in the active scene and has class `Wall`.
pub open spec fn spec_wall_object(scene: SceneMgr, so: usize) -> bool {
    &&& scene.active_objects@.contains(so)
    &&& so < scene.spec_len()
    &&& scene.layer_tag@[so as int] is Objects
    &&& scene.spec_object_class(so as int) == wall_class()
}

/// Every active `Wall` object carries the size a wall requires.
pub open spec fn spec_wall_spawn_valid(scene: SceneMgr) -> bool {
    forall|k: int|
        0 <= k < scene.active_objects@.len() && scene.spec_object_class(
            (#[trigger] scene.active_objects@[k]) as int,
        ) == wall_class() ==> scene.object_size@[scene.active_objects@[k] as int] is Some
}

/// Registry of wall rows; row `i` is the wall with handle `i`.
pub struct WallMgr {
    pub is_active: Vec<bool>,
    /// The scene object each row was instantiated from (its binding).
    pub scene_object_i: Vec<usize>,
    /// The collider row owned by each wall.
    pub collider_i: Vec<usize>,
}

impl WallMgr {
    /// Parallel columns agree in length and no scene object or collider is
    /// bound by two rows.
    pub open spec fn wf(&self) -> bool {
        &&& self.scene_object_i@.len() == self.is_active@.len()
        &&& self.collider_i@.len() == self.is_active@.len()
        &&& forall|i: int, j: int|
            0 <= i < j < self.is_active@.len() ==> #[trigger] self.scene_object_i@[i]
                != #[trigger] self.scene_object_i@[j]
        &&& forall|i: int, j: int|
            0 <= i < j < self.is_active@.len() ==> #[trigger] self.collider_i@[i]
                != #[trigger] self.collider_i@[j]
    }

    pub open spec fn spec_len(&self) -> nat {
        self.is_active@.len()
    }

    /// Some row is bound to scene object `so`.
    pub open spec fn spec_bound(&self, so: usize) -> bool {
        exists|k: int| 0 <= k < self.spec_len() && #[trigger] self.scene_object_i@[k] == so
    }

    /// Every collider handle a row holds is a valid collider row.
    pub open spec fn refs_ok(&self, cm: ColliderMgr) -> bool {
        forall|k: int|
            0 <= k < self.spec_len() ==> (#[trigger] self.collider_i@[k]) < cm.spec_len()
    }

    pub fn new() -> (r: WallMgr)
        ensures
            r.wf(),
            r.spec_len() == 0,
    {
        WallMgr { is_active: Vec::new(), scene_object_i: Vec::new(), collider_i: Vec::new() }
    }

    pub fn len(&self) -> (r: usize)
        requires
            self.wf(),
        ensures
            r == self.spec_len(),
    {
        self.collider_i.len()
    }

    /// Appends a wall row binding `scene_object_i` to `collider_i` and
    /// returns its handle. New wall rows start inactive; `spawn` activates
    /// them.
    pub fn add(&mut self, collider_i: usize, scene_object_i: usize) -> (r: usize)
        requires
            old(self).wf(),
            !old(self).spec_bound(scene_object_i),
            !old(self).collider_i@.contains(collider_i),
        ensures
            final(self).wf(),
            r == old(self).spec_len(),
            final(self).spec_len() == old(self).spec_len() + 1,
            final(self).is_active@ == old(self).is_active@.push(false),
            final(self).scene_object_i@ == old(self).scene_object_i@.push(scene_object_i),
            final(self).collider_i@ == old(self).collider_i@.push(collider_i),
    {
        self.is_active.push(false);
        self.collider_i.push(collider_i);
        self.scene_object_i.push(scene_object_i);
        self.collider_i.len() - 1
    }

    /// Creates the collider for a wall at `position` with `size`, then adds
    /// the bound row. Returns the new row's handle.
    pub fn add_from_scene_object(
        &mut self,
        position: Vec2i,
        size: Vec2i,
        scene_object_i: usize,
        collider_mgr: &mut ColliderMgr,
    ) -> (r: usize)
        requires
            old(self).wf(),
            old(collider_mgr).wf(),
            old(self).refs_ok(*old(collider_mgr)),
            !old(self).spec_bound(scene_object_i),
            crate::geom::vec_ok(position),
            0 <= size.x <= COORD_LIMIT as int,
            0 <= size.y <= COORD_LIMIT as int,
        ensures
            final(self).wf(),
            final(collider_mgr).wf(),
            final(self).refs_ok(*final(collider_mgr)),
            r == old(self).spec_len(),
            final(self).spec_len() == old(self).spec_len() + 1,
            final(self).is_active@ == old(self).is_active@.push(false),
            final(self).scene_object_i@ == old(self).scene_object_i@.push(scene_object_i),
            final(self).collider_i@ == old(self).collider_i@.push(old(collider_mgr).spec_len()
                as usize),
            final(collider_mgr).spec_len() == old(collider_mgr).spec_len() + 1,
            final(collider_mgr).bbox@ == old(collider_mgr).bbox@.push(
                (Recti { x: position.x, y: position.y, w: size.x, h: size.y }),
            ),
            final(collider_mgr).is_active@ == old(collider_mgr).is_active@.push(true),
    {
        let bbox = Recti { x: position.x, y: position.y, w: size.x, h: size.y };
        let collider_i = collider_mgr.add(bbox);
        self.add(collider_i, scene_object_i)
    }

    /// The row bound to scene object `scene_object_i`, if any.
    pub fn find_binding(&self, scene_object_i: usize) -> (r: Option<usize>)
        requires
            self.wf(),
        ensures
            match r {
                Some(idx) => idx < self.spec_len() && self.scene_object_i@[idx as int]
                    == scene_object_i,
                None => !self.spec_bound(scene_object_i),
            },
    {
        let n = self.scene_object_i.len();
        let mut i: usize = 0;
        while i < n
            invariant
                self.wf(),
                i <= n,
                n == self.spec_len(),
                forall|j: int| 0 <= j < i ==> #[trigger] self.scene_object_i@[j] != scene_object_i,
            decreases n - i,
        {
            if self.scene_object_i[i] == scene_object_i {
                return Some(i);
            }
            i = i + 1;
        }
        None
    }

    /// Sets a wall row's activity, mirrors it onto the wall's collider, and
    /// turns the collider's debug rendering on.
    fn set_active(&mut self, index: usize, is_active: bool, collider_mgr: &mut ColliderMgr)
        requires
            old(self).wf(),
            old(collider_mgr).wf(),
            old(self).refs_ok(*old(collider_mgr)),
            index < old(self).spec_len(),
        ensures
            final(self).wf(),
            final(collider_mgr).wf(),
            final(self).refs_ok(*final(collider_mgr)),
            final(self).is_active@ == old(self).is_active@.update(index as int, is_active),
            final(self).scene_object_i@ == old(self).scene_object_i@,
            final(self).collider_i@ == old(self).collider_i@,
            final(collider_mgr).bbox@ == old(collider_mgr).bbox@,
            final(collider_mgr).is_active@ == old(collider_mgr).is_active@.update(
                old(self).collider_i@[index as int] as int,
                is_active,
            ),
            final(collider_mgr).render_bbox@ == old(collider_mgr).render_bbox@.update(
                old(self).collider_i@[index as int] as int,
                true,
            ),
    {
        self.is_active.set(index, is_active);
        let ci = self.collider_i[index];
        collider_mgr.set_active(ci, is_active);
        collider_mgr.set_render_bbox(ci, true);
    }

    /// Spawns every `Wall` object of the active scene: reactivates bound
    /// rows (resyncing the collider position from the scene object) and
    /// creates rows for unbound ones. Validates first: when any matching
    /// object lacks a size, reports the first such object and changes
    /// nothing.
    pub fn spawn(&mut self, scene_mgr: &SceneMgr, collider_mgr: &mut ColliderMgr) -> (r: Result<
        (),
        SpawnError,
    >)
        requires
            old(self).wf(),
            scene_mgr.wf(),
            old(collider_mgr).wf(),
            old(self).refs_ok(*old(collider_mgr)),
        ensures
            final(self).wf(),
            final(collider_mgr).wf(),
            final(self).refs_ok(*final(collider_mgr)),
            r is Ok <==> spec_wall_spawn_valid(*scene_mgr),
            r is Err ==> *final(self) == *old(self) && *final(collider_mgr) == *old(collider_mgr)
                && (exists|k: int|
                0 <= k < scene_mgr.active_objects@.len() && scene_mgr.spec_object_class(
                    (#[trigger] scene_mgr.active_objects@[k]) as int,
                ) == wall_class() && scene_mgr.object_size@[scene_mgr.active_objects@[k] as int]
                    is None && r == Result::<(), SpawnError>::Err(
                    SpawnError::MissingSize { scene_object_i: scene_mgr.active_objects@[k] },
                )),
            r is Ok ==> {
                &&& old(self).spec_len() <= final(self).spec_len()
                &&& forall|j: int|
                    0 <= j < old(self).spec_len() ==> #[trigger] final(self).scene_object_i@[j]
                        == old(self).scene_object_i@[j] && final(self).collider_i@[j] == old(self).collider_i@[j]
                // The collider registry grows by exactly one row per new
                // wall row.
                &&& final(collider_mgr).spec_len() - old(collider_mgr).spec_len() == final(self).spec_len() - old(self).spec_len()
                // Bound rows for matching objects are resynced to their
                // scene object's position.
                &&& forall|j: int|
                    0 <= j < old(self).spec_len() && spec_wall_object(
                        *scene_mgr,
                        #[trigger] old(self).scene_object_i@[j],
                    ) ==> final(collider_mgr).bbox@[old(self).collider_i@[j] as int].x
                        == scene_mgr.spec_object_position(old(self).scene_object_i@[j] as int).x
                        && final(collider_mgr).bbox@[old(self).collider_i@[j] as int].y
                        == scene_mgr.spec_object_position(old(self).scene_object_i@[j] as int).y
                &&& old(collider_mgr).spec_len() <= final(collider_mgr).spec_len()
                // Extents of pre-existing colliders never change; their origin
                // changes only by a resync to the matching scene object's
                // position.
                &&& forall|c: int|
                    0 <= c < old(collider_mgr).spec_len() ==> {
                        let nb = #[trigger] final(collider_mgr).bbox@[c];
                        let ob = old(collider_mgr).bbox@[c];
                        nb.w == ob.w && nb.h == ob.h && (nb == ob || exists|j: int|
                            0 <= j < old(self).spec_len() && #[trigger] old(self).collider_i@[j] == c && spec_wall_object(
                                *scene_mgr,
                                old(self).scene_object_i@[j],
                            ) && nb.x == scene_mgr.spec_object_position(
                                old(self).scene_object_i@[j] as int,
                            ).x && nb.y == scene_mgr.spec_object_position(
                                old(self).scene_object_i@[j] as int,
                            ).y)
                    }
                // Every matching scene object ends with an active bound row
                // whose collider is active.
                &&& forall|k: int|
                    0 <= k < scene_mgr.active_objects@.len() && scene_mgr.spec_object_class(
                        (#[trigger] scene_mgr.active_objects@[k]) as int,
                    ) == wall_class() ==> exists|j: int|
                        0 <= j < final(self).spec_len() && #[trigger] final(self).scene_object_i@[j] == scene_mgr.active_objects@[k] && final(self).is_active@[j] && final(collider_mgr).is_active@[final(self).collider_i@[j] as int]
                // New rows exist only for matching objects that had no
                // binding; each owns a fresh collider sized from its object.
                &&& forall|j: int|
                    old(self).spec_len() <= j < final(self).spec_len() ==> {
                        let so = #[trigger] final(self).scene_object_i@[j];
                        &&& spec_wall_object(*scene_mgr, so)
                        &&& !old(self).spec_bound(so)
                        &&& final(self).is_active@[j]
                        &&& final(self).collider_i@[j] >= old(collider_mgr).spec_len()
                        &&& final(collider_mgr).bbox@[final(self).collider_i@[j] as int] == (Recti {
                            x: scene_mgr.spec_object_position(so as int).x,
                            y: scene_mgr.spec_object_position(so as int).y,
                            w: scene_mgr.object_size@[so as int]->Some_0.x,
                            h: scene_mgr.object_size@[so as int]->Some_0.y,
                        })
                    }
                // Rows for objects outside the matching set keep their
                // activity.
                &&& forall|j: int|
                    0 <= j < old(self).spec_len() && !spec_wall_object(
                        *scene_mgr,
                        old(self).scene_object_i@[j],
                    ) ==> #[trigger] final(self).is_active@[j] == old(self).is_active@[j]
                // Colliders owned by no wall row keep their activity.
                &&& forall|c: int|
                    0 <= c < old(collider_mgr).spec_len() && !(exists|j: int|
                        0 <= j < old(self).spec_len() && #[trigger] old(self).collider_i@[j] == c
                            && spec_wall_object(*scene_mgr, old(self).scene_object_i@[j]))
                        ==> #[trigger] final(collider_mgr).is_active@[c] == old(collider_mgr).is_active@[c]
            },
    {
        // Validation pass: every matching object must carry a size.
        let num_actives = scene_mgr.active_objects.len();
        let wall_name: String = "Wall".to_owned();
        let mut k: usize = 0;
        while k < num_actives
            invariant
                *self == *old(self),
                *collider_mgr == *old(collider_mgr),
                self.wf(),
                collider_mgr.wf(),
                self.refs_ok(*collider_mgr),
                scene_mgr.wf(),
                num_actives == scene_mgr.active_objects@.len(),
                k <= num_actives,
                wall_name@ == wall_class(),
                forall|m: int|
                    0 <= m < k && scene_mgr.spec_object_class(
                        (#[trigger] scene_mgr.active_objects@[m]) as int,
                    ) == wall_class() ==> scene_mgr.object_size@[scene_mgr.active_objects@[m]
                        as int] is Some,
            decreases num_actives - k,
        {
            let so = scene_mgr.active_objects[k];
            if scene_mgr.object_class_is(so, &wall_name) {
                if scene_mgr.object_size(so).is_none() {
                    return Err(SpawnError::MissingSize { scene_object_i: so });
                }
            }
            k = k + 1;
        }
        // Work pass: reactivate bound rows, create rows for new objects.
        let ghost old_self = *old(self);
        let ghost old_cm = *old(collider_mgr);
        let mut k: usize = 0;
        while k < num_actives
            invariant
                self.wf(),
                scene_mgr.wf(),
                collider_mgr.wf(),
                self.refs_ok(*collider_mgr),
                num_actives == scene_mgr.active_objects@.len(),
                k <= num_actives,
                wall_name@ == wall_class(),
                spec_wall_spawn_valid(*scene_mgr),
                old_self.wf(),
                old_self.refs_ok(old_cm),
                old_cm.wf(),
                old_self.spec_len() <= self.spec_len(),
                old_cm.spec_len() <= collider_mgr.spec_len(),
                collider_mgr.spec_len() - old_cm.spec_len() == self.spec_len()
                    - old_self.spec_len(),
                forall|j: int|
                    0 <= j < old_self.spec_len() ==> #[trigger] self.scene_object_i@[j]
                        == old_self.scene_object_i@[j] && self.collider_i@[j]
                        == old_self.collider_i@[j],
                forall|j: int|
                    0 <= j < old_self.spec_len() && spec_wall_row_class(
                        *scene_mgr,
                        #[trigger] old_self.scene_object_i@[j],
                    ) && (exists|m: int|
                        0 <= m < k && #[trigger] scene_mgr.active_objects@[m]
                            == old_self.scene_object_i@[j]) ==> collider_mgr.bbox@[
                    old_self.collider_i@[j] as int].x == scene_mgr.spec_object_position(
                        old_self.scene_object_i@[j] as int,
                    ).x && collider_mgr.bbox@[old_self.collider_i@[j] as int].y
                        == scene_mgr.spec_object_position(old_self.scene_object_i@[j] as int).y,
                forall|c: int|
                    0 <= c < old_cm.spec_len() ==> {
                        let nb = #[trigger] collider_mgr.bbox@[c];
                        let ob = old_cm.bbox@[c];
                        nb.w == ob.w && nb.h == ob.h && (nb == ob || exists|j: int|
                            0 <= j < old_self.spec_len() && #[trigger] old_self.collider_i@[j] == c
                                && spec_wall_object(*scene_mgr, old_self.scene_object_i@[j])
                                && nb.x == scene_mgr.spec_object_position(
                                old_self.scene_object_i@[j] as int,
                            ).x && nb.y == scene_mgr.spec_object_position(
                                old_self.scene_object_i@[j] as int,
                            ).y)
                    },
                forall|m: int|
                    0 <= m < k && scene_mgr.spec_object_class(
                        (#[trigger] scene_mgr.active_objects@[m]) as int,
                    ) == wall_class() ==> exists|j: int|
                        0 <= j < self.spec_len() && #[trigger] self.scene_object_i@[j]
                            == scene_mgr.active_objects@[m] && self.is_active@[j]
                            && collider_mgr.is_active@[self.collider_i@[j] as int],
                forall|j: int|
                    old_self.spec_len() <= j < self.spec_len() ==> {
                        let so = #[trigger] self.scene_object_i@[j];
                        &&& spec_wall_object(*scene_mgr, so)
                        &&& !old_self.spec_bound(so)
                        &&& self.is_active@[j]
                        &&& self.collider_i@[j] >= old_cm.spec_len()
                        &&& collider_mgr.bbox@[self.collider_i@[j] as int] == (Recti {
                            x: scene_mgr.spec_object_position(so as int).x,
                            y: scene_mgr.spec_object_position(so as int).y,
                            w: scene_mgr.object_size@[so as int]->Some_0.x,
                            h: scene_mgr.object_size@[so as int]->Some_0.y,
                        })
                    },
                forall|j: int|
                    0 <= j < old_self.spec_len() && !spec_wall_object(
                        *scene_mgr,
                        old_self.scene_object_i@[j],
                    ) ==> #[trigger] self.is_active@[j] == old_self.is_active@[j],
                forall|c: int|
                    0 <= c < old_cm.spec_len() && !(exists|j: int|
                        0 <= j < old_self.spec_len() && #[trigger] old_self.collider_i@[j] == c
                            && spec_wall_object(*scene_mgr, old_self.scene_object_i@[j])) ==> #[
                    trigger] collider_mgr.is_active@[c] == old_cm.is_active@[c],
            decreases num_actives - k,
        {
            let so = scene_mgr.active_objects[k];
            let ghost pre_self = *self;
            let ghost pre_cm = *collider_mgr;
            let ghost mut touched: int = 0;
            let ghost mut matched = false;
            proof {
                assert(scene_mgr.active_objects@[k as int] == so);
                assert(scene_mgr.active_objects@.contains(so));
            }
            if scene_mgr.object_class_is(so, &wall_name) {
                proof {
                    matched = true;
                }
                match self.find_binding(so) {
                    Some(index) => {
                        let position = scene_mgr.object_position(so);
                        let ci = self.collider_i[index];
                        collider_mgr.set_position(ci, position.x, position.y);
                        self.set_active(index, true, collider_mgr);
                        proof {
                            touched = index as int;
                            assert(self.scene_object_i@[index as int] == so);
                            assert(self.is_active@[index as int]);
                            assert(collider_mgr.is_active@[self.collider_i@[index as int] as int]);
                            assert(collider_mgr.bbox@[self.collider_i@[index as int] as int].x
                                == scene_mgr.spec_object_position(so as int).x);
                            assert(collider_mgr.bbox@[self.collider_i@[index as int] as int].y
                                == scene_mgr.spec_object_position(so as int).y);
                            if index as int >= old_self.spec_len() {
                                // A row created earlier in this pass: the resync
                                // rewrote the same position it was created with.
                                assert(pre_self.scene_object_i@[index as int] == so);
                                assert(pre_cm.bbox@[pre_self.collider_i@[index as int] as int]
                                    == (Recti {
                                    x: scene_mgr.spec_object_position(so as int).x,
                                    y: scene_mgr.spec_object_position(so as int).y,
                                    w: scene_mgr.object_size@[so as int]->Some_0.x,
                                    h: scene_mgr.object_size@[so as int]->Some_0.y,
                                }));
                            }
                        }
                    },
                    None => {
                        let position = scene_mgr.object_position(so);
                        let size = scene_mgr.object_size(so).unwrap();
                        let pre_cm_len = collider_mgr.len();
                        let wall_i = self.add_from_scene_object(
                            position,
                            size,
                            so,
                            collider_mgr,
                        );
                        self.set_active(wall_i, true, collider_mgr);
                        proof {
                            touched = wall_i as int;
                            assert(self.scene_object_i@[wall_i as int] == so);
                            assert(self.is_active@[wall_i as int]);
                            assert(collider_mgr.is_active@[self.collider_i@[wall_i as int] as int]);
                            assert(!pre_self.spec_bound(so));
                            assert forall|k0: int|
                                0 <= k0 < old_self.spec_len() implies #[trigger] old_self.scene_object_i@[k0]
                                    != so by {
                                assert(pre_self.scene_object_i@[k0] == old_self.scene_object_i@[
                                    k0]);
                            }
                            assert(!old_self.spec_bound(so));
                            assert(self.collider_i@[wall_i as int] == pre_cm_len);
                            assert(self.collider_i@[wall_i as int] >= old_cm.spec_len());
                            assert(collider_mgr.bbox@[self.collider_i@[wall_i as int] as int]
                                == (Recti {
                                x: scene_mgr.spec_object_position(so as int).x,
                                y: scene_mgr.spec_object_position(so as int).y,
                                w: scene_mgr.object_size@[so as int]->Some_0.x,
                                h: scene_mgr.object_size@[so as int]->Some_0.y,
                            }));
                        }
                    },
                }
            }
            proof {
                assert forall|j: int| 0 <= j < old_self.spec_len() implies #[trigger] self.scene_object_i@[j]
                    == old_self.scene_object_i@[j] && self.collider_i@[j]
                    == old_self.collider_i@[j] by {
                    assert(pre_self.scene_object_i@[j] == old_self.scene_object_i@[j]);
                    assert(pre_self.collider_i@[j] == old_self.collider_i@[j]);
                }
                assert forall|j: int| old_self.spec_len() <= j < self.spec_len() implies {
                    let so_j = #[trigger] self.scene_object_i@[j];
                    &&& spec_wall_object(*scene_mgr, so_j)
                    &&& !old_self.spec_bound(so_j)
                    &&& self.is_active@[j]
                    &&& self.collider_i@[j] >= old_cm.spec_len()
                    &&& collider_mgr.bbox@[self.collider_i@[j] as int] == (Recti {
                        x: scene_mgr.spec_object_position(so_j as int).x,
                        y: scene_mgr.spec_object_position(so_j as int).y,
                        w: scene_mgr.object_size@[so_j as int]->Some_0.x,
                        h: scene_mgr.object_size@[so_j as int]->Some_0.y,
                    })
                } by {
                    if j < pre_self.spec_len() {
                        assert(self.scene_object_i@[j] == pre_self.scene_object_i@[j]);
                        assert(self.collider_i@[j] == pre_self.collider_i@[j]);
                        let so_j = pre_self.scene_object_i@[j];
                        assert(spec_wall_object(*scene_mgr, so_j));
                        assert(pre_self.is_active@[j]);
                        assert(self.is_active@[j]);
                        if matched && touched != j {
                            assert(self.collider_i@[touched] != self.collider_i@[j]);
                        }
                        assert(collider_mgr.bbox@[self.collider_i@[j] as int]
                            == pre_cm.bbox@[pre_self.collider_i@[j] as int] || (matched && touched
                            == j));
                    } else {
                        assert(matched && j == touched);
                    }
                }
                assert forall|j: int|
                    0 <= j < old_self.spec_len() && spec_wall_row_class(
                        *scene_mgr,
                        #[trigger] old_self.scene_object_i@[j],
                    ) && (exists|m: int|
                        0 <= m < k + 1 && #[trigger] scene_mgr.active_objects@[m]
                            == old_self.scene_object_i@[j]) implies collider_mgr.bbox@[
                    old_self.collider_i@[j] as int].x == scene_mgr.spec_object_position(
                        old_self.scene_object_i@[j] as int,
                    ).x && collider_mgr.bbox@[old_self.collider_i@[j] as int].y
                        == scene_mgr.spec_object_position(old_self.scene_object_i@[j] as int).y by {
                    let m0 = choose|m: int|
                        0 <= m < k + 1 && #[trigger] scene_mgr.active_objects@[m]
                            == old_self.scene_object_i@[j];
                    assert(self.scene_object_i@[j] == old_self.scene_object_i@[j]);
                    if m0 == k {
                        assert(matched);
                        assert(self.scene_object_i@[touched] == so);
                        assert(touched == j);
                    } else {
                        assert(pre_cm.bbox@[old_self.collider_i@[j] as int].x
                            == scene_mgr.spec_object_position(old_self.scene_object_i@[j] as int).x);
                        if matched && touched != j {
                            assert(self.collider_i@[touched] != self.collider_i@[j]);
                        }
                    }
                }
                assert forall|c: int|
                    0 <= c < old_cm.spec_len() && !(exists|j: int|
                        0 <= j < old_self.spec_len() && #[trigger] old_self.collider_i@[j] == c
                            && spec_wall_object(*scene_mgr, old_self.scene_object_i@[j])) implies #[
                    trigger] collider_mgr.is_active@[c] == old_cm.is_active@[c] by {
                    assert(pre_cm.is_active@[c] == old_cm.is_active@[c]);
                    if matched {
                        if touched < old_self.spec_len() {
                            assert(old_self.scene_object_i@[touched] == self.scene_object_i@[
                                touched]);
                            assert(spec_wall_object(*scene_mgr, old_self.scene_object_i@[touched]));
                            assert(old_self.collider_i@[touched] != c);
                            assert(self.collider_i@[touched] != c);
                        } else {
                            assert(self.collider_i@[touched] >= old_cm.spec_len());
                        }
                    }
                }
                assert forall|c: int| 0 <= c < old_cm.spec_len() implies {
                    let nb = #[trigger] collider_mgr.bbox@[c];
                    let ob = old_cm.bbox@[c];
                    nb.w == ob.w && nb.h == ob.h && (nb == ob || exists|j: int|
                        0 <= j < old_self.spec_len() && #[trigger] old_self.collider_i@[j] == c
                            && spec_wall_object(*scene_mgr, old_self.scene_object_i@[j])
                            && nb.x == scene_mgr.spec_object_position(
                            old_self.scene_object_i@[j] as int,
                        ).x && nb.y == scene_mgr.spec_object_position(
                            old_self.scene_object_i@[j] as int,
                        ).y)
                } by {
                    let pb = pre_cm.bbox@[c];
                    let ob = old_cm.bbox@[c];
                    assert(pb.w == ob.w && pb.h == ob.h);
                    if matched && touched < old_self.spec_len() && self.collider_i@[touched]
                        == c {
                        assert(old_self.collider_i@[touched] == c);
                        assert(spec_wall_object(*scene_mgr, old_self.scene_object_i@[touched]));
                    } else if matched {
                        if touched >= old_self.spec_len() {
                            assert(self.collider_i@[touched] >= old_cm.spec_len());
                        }
                        assert(collider_mgr.bbox@[c] == pre_cm.bbox@[c]);
                    } else {
                        assert(collider_mgr.bbox@[c] == pre_cm.bbox@[c]);
                    }
                }
                assert forall|m: int|
                    0 <= m < k + 1 && scene_mgr.spec_object_class(
                        (#[trigger] scene_mgr.active_objects@[m]) as int,
                    ) == wall_class() implies exists|j: int|
                        0 <= j < self.spec_len() && #[trigger] self.scene_object_i@[j]
                            == scene_mgr.active_objects@[m] && self.is_active@[j]
                            && collider_mgr.is_active@[self.collider_i@[j] as int] by {
                    if m == k {
                        assert(matched);
                        assert(0 <= touched < self.spec_len() && self.scene_object_i@[touched]
                            == scene_mgr.active_objects@[m] && self.is_active@[touched]
                            && collider_mgr.is_active@[self.collider_i@[touched] as int]);
                    } else {
                        let j0 = choose|j: int|
                            0 <= j < pre_self.spec_len() && #[trigger] pre_self.scene_object_i@[j]
                                == scene_mgr.active_objects@[m] && pre_self.is_active@[j]
                                && pre_cm.is_active@[pre_self.collider_i@[j] as int];
                        assert(0 <= j0 < self.spec_len() && self.scene_object_i@[j0]
                            == scene_mgr.active_objects@[m] && self.is_active@[j0]
                            && collider_mgr.is_active@[self.collider_i@[j0] as int]);
                    }
                }
            }
            k = k + 1;
        }
        Ok(())
    }

    /// Despawns every `Wall` object leaving scope: rows bound to a listed
    /// object of class `Wall` become inactive, along with their colliders.
    /// Bindings, row count and collider geometry are untouched, so a later
    /// spawn can reactivate the same rows.
    pub fn despawn(&mut self, scene_mgr: &SceneMgr, collider_mgr: &mut ColliderMgr)
        requires
            old(self).wf(),
            scene_mgr.wf(),
            old(collider_mgr).wf(),
            old(self).refs_ok(*old(collider_mgr)),
        ensures
            final(self).wf(),
            final(collider_mgr).wf(),
            final(self).refs_ok(*final(collider_mgr)),
            final(self).spec_len() == old(self).spec_len(),
            final(self).scene_object_i@ == old(self).scene_object_i@,
            final(self).collider_i@ == old(self).collider_i@,
            final(collider_mgr).spec_len() == old(collider_mgr).spec_len(),
            final(collider_mgr).bbox@ == old(collider_mgr).bbox@,
            // Rows bound to a departing `Wall` object become inactive.
            forall|j: int|
                0 <= j < old(self).spec_len() && spec_departing_wall(
                    *scene_mgr,
                    #[trigger] old(self).scene_object_i@[j],
                ) ==> !final(self).is_active@[j] && !final(collider_mgr).is_active@[old(self).collider_i@[j] as int],
            // All other rows keep their activity.
            forall|j: int|
                0 <= j < old(self).spec_len() && !spec_departing_wall(
                    *scene_mgr,
                    #[trigger] old(self).scene_object_i@[j],
                ) ==> final(self).is_active@[j] == old(self).is_active@[j],
            // Colliders owned by no wall row keep their activity.
            forall|c: int|
                0 <= c < old(collider_mgr).spec_len() && !(exists|j: int|
                    0 <= j < old(self).spec_len() && #[trigger] old(self).collider_i@[j] == c
                        && spec_departing_wall(*scene_mgr, old(self).scene_object_i@[j]))
                    ==> #[trigger] final(collider_mgr).is_active@[c] == old(collider_mgr).is_active@[c],
    {
        let num_leaving = scene_mgr.objects_to_despawn.len();
        let wall_name: String = "Wall".to_owned();
        let mut k: usize = 0;
        while k < num_leaving
            invariant
                self.wf(),
                scene_mgr.wf(),
                collider_mgr.wf(),
                self.refs_ok(*collider_mgr),
                num_leaving == scene_mgr.objects_to_despawn@.len(),
                k <= num_leaving,
                wall_name@ == wall_class(),
                self.spec_len() == old(self).spec_len(),
                self.scene_object_i@ == old(self).scene_object_i@,
                self.collider_i@ == old(self).collider_i@,
                collider_mgr.spec_len() == old(collider_mgr).spec_len(),
                collider_mgr.bbox@ == old(collider_mgr).bbox@,
                old(self).wf(),
                old(self).refs_ok(*old(collider_mgr)),
                forall|j: int|
                    0 <= j < old(self).spec_len() && (exists|m: int|
                        0 <= m < k && #[trigger] scene_mgr.objects_to_despawn@[m] == old(self).scene_object_i@[j]) && spec_wall_row_class(
                        *scene_mgr,
                        #[trigger] old(self).scene_object_i@[j],
                    ) ==> !self.is_active@[j] && !collider_mgr.is_active@[old(self).collider_i@[j] as int],
                forall|j: int|
                    0 <= j < old(self).spec_len() && !spec_departing_wall(
                        *scene_mgr,
                        #[trigger] old(self).scene_object_i@[j],
                    ) ==> self.is_active@[j] == old(self).is_active@[j],
                forall|c: int|
                    0 <= c < old(collider_mgr).spec_len() && !(exists|j: int|
                        0 <= j < old(self).spec_len() && #[trigger] old(self).collider_i@[j] == c
                            && spec_departing_wall(*scene_mgr, old(self).scene_object_i@[j]))
                        ==> #[trigger] collider_mgr.is_active@[c] == old(collider_mgr).is_active@[c],
            decreases num_leaving - k,
        {
            let so = scene_mgr.objects_to_despawn[k];
            proof {
                assert(scene_mgr.objects_to_despawn@[k as int] == so);
                assert(scene_mgr.objects_to_despawn@.contains(so));
            }
            if scene_mgr.object_class_is(so, &wall_name) {
                match self.find_binding(so) {
                    Some(index) => {
                        self.set_active(index, false, collider_mgr);
                    },
                    None => {},
                }
            }
            k = k + 1;
        }
    }
}

/// Scene object `so` is an object row of class `Wall` (whether or not it is
/// in any list).
pub open spec fn spec_wall_row_class(scene: SceneMgr, so: usize) -> bool {
    &&& so < scene.spec_len()
    &&& scene.layer_tag@[so as int] is Objects
    &&& scene.spec_object_class(so as int) == wall_class()
}

/// Scene object `so` is leaving scope and has class `Wall`.
pub open spec fn spec_departing_wall(scene: SceneMgr, so: usize) -> bool {
    &&& scene.objects_to_despawn@.contains(so)
    &&& spec_wall_row_class(scene, so)
}

} // verus!
