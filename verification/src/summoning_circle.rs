//! Trigger-area manager: summoning circles spawned from scene objects of
//! class `SummoningCircle`.
//!
//! Each circle row binds a scene-object handle to a sprite row and a
//! collider row sized from the sprite. The spawn/despawn protocol is the
//! same idempotent one the wall manager follows; a circle needs only the
//! position every scene object carries, so its spawn pass cannot fail.

use vstd::prelude::*;

use crate::collider::ColliderMgr;
use crate::geom::{Recti, Vec2i};
use crate::scene::SceneMgr;
use crate::sprite::{scaled_component, size_scale_ok, SpriteMgr};

verus! {

/// The scene-object class this manager spawns from.
pub open spec fn circle_class() -> Seq<char> {
    "SummoningCircle"@
}

/// Scene object `so` is listed in the active scene and has class
/// `SummoningCircle`.
pub open spec fn spec_circle_object(scene: SceneMgr, so: usize) -> bool {
    &&& scene.active_objects@.contains(so)
    &&& so < scene.spec_len()
    &&& scene.layer_tag@[so as int] is Objects
    &&& scene.spec_object_class(so as int) == circle_class()
}

/// Scene object `so` is leaving scope and has class `SummoningCircle`.
pub open spec fn spec_departing_circle(scene: SceneMgr, so: usize) -> bool {
    &&& scene.objects_to_despawn@.contains(so)
    &&& so < scene.spec_len()
    &&& scene.layer_tag@[so as int] is Objects
    &&& scene.spec_object_class(so as int) == circle_class()
}

/// The texture handle, base size and scale every new circle sprite is
/// created with; the rendering collaborator loads the texture once and
/// hands its handle and size over.
#[derive(Clone, Copy, PartialEq, Eq, Structural, Debug)]
pub struct SpriteTemplate {
    pub texture_i: usize,
    pub size: Vec2i,
    pub scale: Vec2i,
}

/// The template's size and scale are admissible sprite parameters.
pub open spec fn template_ok(t: SpriteTemplate) -> bool {
    &&& size_scale_ok(t.size.x as int, t.scale.x as int)
    &&& size_scale_ok(t.size.y as int, t.scale.y as int)
}

/// Registry of summoning-circle rows; row `i` is the circle with handle
/// `i`.
pub struct SummoningCircleMgr {
    pub is_active: Vec<bool>,
    /// The scene object each row was instantiated from (its binding).
    pub scene_object_i: Vec<usize>,
    /// The collider row owned by each circle.
    pub collider_i: Vec<usize>,
    /// The sprite row owned by each circle.
    pub sprite_i: Vec<usize>,
}

impl SummoningCircleMgr {
    /// Parallel columns agree in length and no scene object, collider or
    /// sprite is bound by two rows.
    pub open spec fn wf(&self) -> bool {
        &&& self.scene_object_i@.len() == self.is_active@.len()
        &&& self.collider_i@.len() == self.is_active@.len()
        &&& self.sprite_i@.len() == self.is_active@.len()
        &&& forall|i: int, j: int|
            0 <= i < j < self.is_active@.len() ==> #[trigger] self.scene_object_i@[i]
                != #[trigger] self.scene_object_i@[j]
        &&& forall|i: int, j: int|
            0 <= i < j < self.is_active@.len() ==> #[trigger] self.collider_i@[i]
                != #[trigger] self.collider_i@[j]
        &&& forall|i: int, j: int|
            0 <= i < j < self.is_active@.len() ==> #[trigger] self.sprite_i@[i]
                != #[trigger] self.sprite_i@[j]
    }

    pub open spec fn spec_len(&self) -> nat {
        self.is_active@.len()
    }

    /// Some row is bound to scene object `so`.
    pub open spec fn spec_bound(&self, so: usize) -> bool {
        exists|k: int| 0 <= k < self.spec_len() && #[trigger] self.scene_object_i@[k] == so
    }

    /// Every collider and sprite handle a row holds is a valid row of its
    /// registry.
    pub open spec fn refs_ok(&self, cm: ColliderMgr, sm: SpriteMgr) -> bool {
        &&& forall|k: int|
            0 <= k < self.spec_len() ==> (#[trigger] self.collider_i@[k]) < cm.spec_len()
        &&& forall|k: int|
            0 <= k < self.spec_len() ==> (#[trigger] self.sprite_i@[k]) < sm.spec_len()
    }

    pub fn new() -> (r: SummoningCircleMgr)
        ensures
            r.wf(),
            r.spec_len() == 0,
    {
        SummoningCircleMgr {
            is_active: Vec::new(),
            scene_object_i: Vec::new(),
            collider_i: Vec::new(),
            sprite_i: Vec::new(),
        }
    }

    pub fn len(&self) -> (r: usize)
        requires
            self.wf(),
        ensures
            r == self.spec_len(),
    {
        self.collider_i.len()
    }

    /// Appends a circle row binding `scene_object_i` to existing sprite and
    /// collider rows, and returns its handle. New circle rows start
    /// inactive; `spawn` activates them.
    pub fn add(&mut self, sprite_i: usize, collider_i: usize, scene_object_i: usize) -> (r: usize)
        requires
            old(self).wf(),
            !old(self).spec_bound(scene_object_i),
            !old(self).collider_i@.contains(collider_i),
            !old(self).sprite_i@.contains(sprite_i),
        ensures
            final(self).wf(),
            r == old(self).spec_len(),
            final(self).spec_len() == old(self).spec_len() + 1,
            final(self).is_active@ == old(self).is_active@.push(false),
            final(self).scene_object_i@ == old(self).scene_object_i@.push(scene_object_i),
            final(self).collider_i@ == old(self).collider_i@.push(collider_i),
            final(self).sprite_i@ == old(self).sprite_i@.push(sprite_i),
    {
        self.is_active.push(false);
        self.scene_object_i.push(scene_object_i);
        self.collider_i.push(collider_i);
        self.sprite_i.push(sprite_i);
        self.collider_i.len() - 1
    }

    /// Creates the sprite and collider for a circle at `position` from the
    /// sprite template, then adds the bound row. Returns the new row's
    /// handle.
    pub fn add_from_scene_object(
        &mut self,
        position: Vec2i,
        scene_object_i: usize,
        template: SpriteTemplate,
        collider_mgr: &mut ColliderMgr,
        sprite_mgr: &mut SpriteMgr,
    ) -> (r: usize)
        requires
            old(self).wf(),
            old(collider_mgr).wf(),
            old(sprite_mgr).wf(),
            old(self).refs_ok(*old(collider_mgr), *old(sprite_mgr)),
            !old(self).spec_bound(scene_object_i),
            crate::geom::vec_ok(position),
            template_ok(template),
        ensures
            final(self).wf(),
            final(collider_mgr).wf(),
            final(sprite_mgr).wf(),
            final(self).refs_ok(*final(collider_mgr), *final(sprite_mgr)),
            r == old(self).spec_len(),
            final(self).spec_len() == old(self).spec_len() + 1,
            final(self).is_active@ == old(self).is_active@.push(false),
            final(self).scene_object_i@ == old(self).scene_object_i@.push(scene_object_i),
            final(self).collider_i@ == old(self).collider_i@.push(old(collider_mgr).spec_len()
                as usize),
            final(self).sprite_i@ == old(self).sprite_i@.push(old(sprite_mgr).spec_len() as usize),
            final(sprite_mgr).spec_len() == old(sprite_mgr).spec_len() + 1,
            final(sprite_mgr).position@ == old(sprite_mgr).position@.push(position),
            final(sprite_mgr).size@ == old(sprite_mgr).size@.push(template.size),
            final(sprite_mgr).scale@ == old(sprite_mgr).scale@.push(template.scale),
            final(sprite_mgr).is_active@ == old(sprite_mgr).is_active@.push(true),
            final(sprite_mgr).texture_i@ == old(sprite_mgr).texture_i@.push(template.texture_i),
            final(collider_mgr).spec_len() == old(collider_mgr).spec_len() + 1,
            final(collider_mgr).bbox@ == old(collider_mgr).bbox@.push(
                (Recti {
                    x: position.x,
                    y: position.y,
                    w: (scaled_component(template.size.x as int, template.scale.x as int)) as i64,
                    h: (scaled_component(template.size.y as int, template.scale.y as int)) as i64,
                }),
            ),
            final(collider_mgr).is_active@ == old(collider_mgr).is_active@.push(true),
    {
        let sprite_i = sprite_mgr.add(template.texture_i, position, template.size, template.scale);
        let collider_i = collider_mgr.add_from_sprite(sprite_i, None, sprite_mgr);
        self.add(sprite_i, collider_i, scene_object_i)
    }

    /// The row bound to scene object `scene_object_i`, if any.
    pub fn find_binding(&self, scene_object_i: usize) -> (r: Option<usize>)
        requires
            self.wf(),
        ensures
            match r {
                Some(idx) => idx < self.spec_len() && self.scene_object_i@[idx as int]
                    == scene_object_i,
                None => !self.spec_bound(scene_object_i),
            },
    {
        let n = self.scene_object_i.len();
        let mut i: usize = 0;
        while i < n
            invariant
                self.wf(),
                i <= n,
                n == self.spec_len(),
                forall|j: int| 0 <= j < i ==> #[trigger] self.scene_object_i@[j] != scene_object_i,
            decreases n - i,
        {
            if self.scene_object_i[i] == scene_object_i {
                return Some(i);
            }
            i = i + 1;
        }
        None
    }

    /// Sets a circle row's activity and mirrors it onto the circle's
    /// collider and sprite rows.
    fn set_active(
        &mut self,
        index: usize,
        is_active: bool,
        collider_mgr: &mut ColliderMgr,
        sprite_mgr: &mut SpriteMgr,
    )
        requires
            old(self).wf(),
            old(collider_mgr).wf(),
            old(sprite_mgr).wf(),
            old(self).refs_ok(*old(collider_mgr), *old(sprite_mgr)),
            index < old(self).spec_len(),
        ensures
            final(self).wf(),
            final(collider_mgr).wf(),
            final(sprite_mgr).wf(),
            final(self).refs_ok(*final(collider_mgr), *final(sprite_mgr)),
            final(self).is_active@ == old(self).is_active@.update(index as int, is_active),
            final(self).scene_object_i@ == old(self).scene_object_i@,
            final(self).collider_i@ == old(self).collider_i@,
            final(self).sprite_i@ == old(self).sprite_i@,
            final(collider_mgr).bbox@ == old(collider_mgr).bbox@,
            final(collider_mgr).render_bbox@ == old(collider_mgr).render_bbox@,
            final(collider_mgr).is_active@ == old(collider_mgr).is_active@.update(
                old(self).collider_i@[index as int] as int,
                is_active,
            ),
            final(sprite_mgr).position@ == old(sprite_mgr).position@,
            final(sprite_mgr).size@ == old(sprite_mgr).size@,
            final(sprite_mgr).scale@ == old(sprite_mgr).scale@,
            final(sprite_mgr).texture_i@ == old(sprite_mgr).texture_i@,
            final(sprite_mgr).scaled_size_cache@ == old(sprite_mgr).scaled_size_cache@,
            final(sprite_mgr).is_active@ == old(sprite_mgr).is_active@.update(
                old(self).sprite_i@[index as int] as int,
                is_active,
            ),
    {
        self.is_active.set(index, is_active);
        let ci = self.collider_i[index];
        collider_mgr.set_active(ci, is_active);
        let si = self.sprite_i[index];
        sprite_mgr.set_active(si, is_active);
    }

    pub fn is_active(&self, index: usize) -> (r: bool)
        requires
            self.wf(),
            index < self.spec_len(),
        ensures
            r == self.is_active@[index as int],
    {
        self.is_active[index]
    }

    pub fn collider_i(&self, index: usize) -> (r: usize)
        requires
            self.wf(),
            index < self.spec_len(),
        ensures
            r == self.collider_i@[index as int],
    {
        self.collider_i[index]
    }

    /// Spawns every `SummoningCircle` object of the active scene:
    /// reactivates bound rows (resyncing sprite and collider positions from
    /// the scene object) and creates sprite, collider and circle rows for
    /// unbound ones.
    pub fn spawn(
        &mut self,
        scene_mgr: &SceneMgr,
        collider_mgr: &mut ColliderMgr,
        sprite_mgr: &mut SpriteMgr,
        template: SpriteTemplate,
    )
        requires
            old(self).wf(),
            scene_mgr.wf(),
            old(collider_mgr).wf(),
            old(sprite_mgr).wf(),
            old(self).refs_ok(*old(collider_mgr), *old(sprite_mgr)),
            template_ok(template),
        ensures
            final(self).wf(),
            final(collider_mgr).wf(),
            final(sprite_mgr).wf(),
            final(self).refs_ok(*final(collider_mgr), *final(sprite_mgr)),
            old(self).spec_len() <= final(self).spec_len(),
            forall|j: int|
                0 <= j < old(self).spec_len() ==> #[trigger] final(self).scene_object_i@[j] == old(self).scene_object_i@[j] && final(self).collider_i@[j] == old(self).collider_i@[j]
                    && final(self).sprite_i@[j] == old(self).sprite_i@[j],
            old(collider_mgr).spec_len() <= final(collider_mgr).spec_len(),
            old(sprite_mgr).spec_len() <= final(sprite_mgr).spec_len(),
            // The collider and sprite registries each grow by exactly one
            // row per new circle row.
            final(collider_mgr).spec_len() - old(collider_mgr).spec_len() == final(self).spec_len() - old(self).spec_len(),
            final(sprite_mgr).spec_len() - old(sprite_mgr).spec_len() == final(self).spec_len()
                - old(self).spec_len(),
            // Bound rows for matching objects are resynced to their scene
            // object's position, sprite and collider alike.
            forall|j: int|
                0 <= j < old(self).spec_len() && spec_circle_object(
                    *scene_mgr,
                    #[trigger] old(self).scene_object_i@[j],
                ) ==> final(sprite_mgr).position@[old(self).sprite_i@[j] as int]
                    == scene_mgr.spec_object_position(old(self).scene_object_i@[j] as int)
                    && final(collider_mgr).bbox@[old(self).collider_i@[j] as int].x
                    == scene_mgr.spec_object_position(old(self).scene_object_i@[j] as int).x
                    && final(collider_mgr).bbox@[old(self).collider_i@[j] as int].y
                    == scene_mgr.spec_object_position(old(self).scene_object_i@[j] as int).y,
            // Extents of pre-existing colliders never change.
            forall|c: int|
                0 <= c < old(collider_mgr).spec_len() ==> (#[trigger] final(collider_mgr).bbox@[c]).w == old(collider_mgr).bbox@[c].w && final(collider_mgr).bbox@[c].h
                    == old(collider_mgr).bbox@[c].h,
            // Every matching scene object ends with an active bound row
            // whose collider and sprite are active.
            forall|m: int|
                0 <= m < scene_mgr.active_objects@.len() && scene_mgr.spec_object_class(
                    (#[trigger] scene_mgr.active_objects@[m]) as int,
                ) == circle_class() ==> exists|j: int|
                    0 <= j < final(self).spec_len() && #[trigger] final(self).scene_object_i@[j]
                        == scene_mgr.active_objects@[m] && final(self).is_active@[j] && final(collider_mgr).is_active@[final(self).collider_i@[j] as int] && final(sprite_mgr).is_active@[final(self).sprite_i@[j] as int],
            // New rows exist only for matching objects that had no binding;
            // each owns a fresh sprite and collider placed at its object.
            forall|j: int|
                old(self).spec_len() <= j < final(self).spec_len() ==> {
                    let so = #[trigger] final(self).scene_object_i@[j];
                    &&& spec_circle_object(*scene_mgr, so)
                    &&& !old(self).spec_bound(so)
                    &&& final(self).is_active@[j]
                    &&& final(self).collider_i@[j] >= old(collider_mgr).spec_len()
                    &&& final(self).sprite_i@[j] >= old(sprite_mgr).spec_len()
                    &&& final(collider_mgr).bbox@[final(self).collider_i@[j] as int] == (Recti {
                        x: scene_mgr.spec_object_position(so as int).x,
                        y: scene_mgr.spec_object_position(so as int).y,
                        w: (scaled_component(template.size.x as int, template.scale.x as int))
                            as i64,
                        h: (scaled_component(template.size.y as int, template.scale.y as int))
                            as i64,
                    })
                    &&& final(sprite_mgr).texture_i@[final(self).sprite_i@[j] as int]
                        == template.texture_i
                },
            // Rows for objects outside the matching set keep their activity.
            forall|j: int|
                0 <= j < old(self).spec_len() && !spec_circle_object(
                    *scene_mgr,
                    old(self).scene_object_i@[j],
                ) ==> #[trigger] final(self).is_active@[j] == old(self).is_active@[j],
            // Colliders owned by no circle row keep their activity.
            forall|c: int|
                0 <= c < old(collider_mgr).spec_len() && !(exists|j: int|
                    0 <= j < old(self).spec_len() && #[trigger] old(self).collider_i@[j] == c
                        && spec_circle_object(*scene_mgr, old(self).scene_object_i@[j]))
                    ==> #[trigger] final(collider_mgr).is_active@[c] == old(collider_mgr).is_active@[c],
            // Sprites owned by no circle row keep their activity.
            forall|si: int|
                0 <= si < old(sprite_mgr).spec_len() && !(exists|j: int|
                    0 <= j < old(self).spec_len() && #[trigger] old(self).sprite_i@[j] == si
                        && spec_circle_object(*scene_mgr, old(self).scene_object_i@[j]))
                    ==> #[trigger] final(sprite_mgr).is_active@[si] == old(sprite_mgr).is_active@[si],
    {
        let num_actives = scene_mgr.active_objects.len();
        let circle_name: String = "SummoningCircle".to_owned();
        let ghost old_self = *old(self);
        let ghost old_cm = *old(collider_mgr);
        let ghost old_sm = *old(sprite_mgr);
        let mut k: usize = 0;
        while k < num_actives
            invariant
                self.wf(),
                scene_mgr.wf(),
                collider_mgr.wf(),
                sprite_mgr.wf(),
                self.refs_ok(*collider_mgr, *sprite_mgr),
                num_actives == scene_mgr.active_objects@.len(),
                k <= num_actives,
                circle_name@ == circle_class(),
                template_ok(template),
                old_self.wf(),
                old_self.refs_ok(old_cm, old_sm),
                old_cm.wf(),
                old_sm.wf(),
                old_self.spec_len() <= self.spec_len(),
                old_cm.spec_len() <= collider_mgr.spec_len(),
                old_sm.spec_len() <= sprite_mgr.spec_len(),
                collider_mgr.spec_len() - old_cm.spec_len() == self.spec_len()
                    - old_self.spec_len(),
                sprite_mgr.spec_len() - old_sm.spec_len() == self.spec_len()
                    - old_self.spec_len(),
                forall|j: int|
                    0 <= j < old_self.spec_len() ==> #[trigger] self.scene_object_i@[j]
                        == old_self.scene_object_i@[j] && self.collider_i@[j]
                        == old_self.collider_i@[j] && self.sprite_i@[j] == old_self.sprite_i@[j],
                forall|j: int|
                    0 <= j < old_self.spec_len() && spec_circle_row_class(
                        *scene_mgr,
                        #[trigger] old_self.scene_object_i@[j],
                    ) && (exists|m: int|
                        0 <= m < k && #[trigger] scene_mgr.active_objects@[m]
                            == old_self.scene_object_i@[j]) ==> sprite_mgr.position@[
                    old_self.sprite_i@[j] as int] == scene_mgr.spec_object_position(
                        old_self.scene_object_i@[j] as int,
                    ) && collider_mgr.bbox@[old_self.collider_i@[j] as int].x
                        == scene_mgr.spec_object_position(old_self.scene_object_i@[j] as int).x
                        && collider_mgr.bbox@[old_self.collider_i@[j] as int].y
                        == scene_mgr.spec_object_position(old_self.scene_object_i@[j] as int).y,
                forall|c: int|
                    0 <= c < old_cm.spec_len() ==> (#[trigger] collider_mgr.bbox@[c]).w
                        == old_cm.bbox@[c].w && collider_mgr.bbox@[c].h == old_cm.bbox@[c].h,
                forall|m: int|
                    0 <= m < k && scene_mgr.spec_object_class(
                        (#[trigger] scene_mgr.active_objects@[m]) as int,
                    ) == circle_class() ==> exists|j: int|
                        0 <= j < self.spec_len() && #[trigger] self.scene_object_i@[j]
                            == scene_mgr.active_objects@[m] && self.is_active@[j]
                            && collider_mgr.is_active@[self.collider_i@[j] as int]
                            && sprite_mgr.is_active@[self.sprite_i@[j] as int],
                forall|j: int|
                    old_self.spec_len() <= j < self.spec_len() ==> {
                        let so = #[trigger] self.scene_object_i@[j];
                        &&& spec_circle_object(*scene_mgr, so)
                        &&& !old_self.spec_bound(so)
                        &&& self.is_active@[j]
                        &&& self.collider_i@[j] >= old_cm.spec_len()
                        &&& self.sprite_i@[j] >= old_sm.spec_len()
                        &&& collider_mgr.bbox@[self.collider_i@[j] as int] == (Recti {
                            x: scene_mgr.spec_object_position(so as int).x,
                            y: scene_mgr.spec_object_position(so as int).y,
                            w: (scaled_component(template.size.x as int, template.scale.x as int))
                                as i64,
                            h: (scaled_component(template.size.y as int, template.scale.y as int))
                                as i64,
                        })
                        &&& sprite_mgr.texture_i@[self.sprite_i@[j] as int] == template.texture_i
                    },
                forall|j: int|
                    0 <= j < old_self.spec_len() && !spec_circle_object(
                        *scene_mgr,
                        old_self.scene_object_i@[j],
                    ) ==> #[trigger] self.is_active@[j] == old_self.is_active@[j],
                forall|c: int|
                    0 <= c < old_cm.spec_len() && !(exists|j: int|
                        0 <= j < old_self.spec_len() && #[trigger] old_self.collider_i@[j] == c
                            && spec_circle_object(*scene_mgr, old_self.scene_object_i@[j])) ==> #[
                    trigger] collider_mgr.is_active@[c] == old_cm.is_active@[c],
                forall|si: int|
                    0 <= si < old_sm.spec_len() && !(exists|j: int|
                        0 <= j < old_self.spec_len() && #[trigger] old_self.sprite_i@[j] == si
                            && spec_circle_object(*scene_mgr, old_self.scene_object_i@[j])) ==> #[
                    trigger] sprite_mgr.is_active@[si] == old_sm.is_active@[si],
            decreases num_actives - k,
        {
            let so = scene_mgr.active_objects[k];
            let ghost pre_self = *self;
            let ghost pre_cm = *collider_mgr;
            let ghost pre_sm = *sprite_mgr;
            let ghost mut touched: int = 0;
            let ghost mut matched = false;
            proof {
                assert(scene_mgr.active_objects@[k as int] == so);
                assert(scene_mgr.active_objects@.contains(so));
            }
            if scene_mgr.object_class_is(so, &circle_name) {
                proof {
                    matched = true;
                }
                match self.find_binding(so) {
                    Some(index) => {
                        let position = scene_mgr.object_position(so);
                        let ci = self.collider_i[index];
                        collider_mgr.set_position(ci, position.x, position.y);
                        let si = self.sprite_i[index];
                        sprite_mgr.set_position(si, position);
                        self.set_active(index, true, collider_mgr, sprite_mgr);
                        proof {
                            touched = index as int;
                            assert(self.scene_object_i@[index as int] == so);
                            assert(self.is_active@[index as int]);
                            assert(collider_mgr.is_active@[self.collider_i@[index as int] as int]);
                            assert(sprite_mgr.is_active@[self.sprite_i@[index as int] as int]);
                            assert(sprite_mgr.position@[self.sprite_i@[index as int] as int]
                                == scene_mgr.spec_object_position(so as int));
                            assert(collider_mgr.bbox@[self.collider_i@[index as int] as int].x
                                == scene_mgr.spec_object_position(so as int).x);
                            assert(collider_mgr.bbox@[self.collider_i@[index as int] as int].y
                                == scene_mgr.spec_object_position(so as int).y);
                        }
                    },
                    None => {
                        let position = scene_mgr.object_position(so);
                        let pre_cm_len = collider_mgr.len();
                        let pre_sm_len = sprite_mgr.len();
                        let circle_i = self.add_from_scene_object(
                            position,
                            so,
                            template,
                            collider_mgr,
                            sprite_mgr,
                        );
                        self.set_active(circle_i, true, collider_mgr, sprite_mgr);
                        proof {
                            touched = circle_i as int;
                            assert(self.scene_object_i@[circle_i as int] == so);
                            assert(self.is_active@[circle_i as int]);
                            assert(collider_mgr.is_active@[self.collider_i@[circle_i as int]
                                as int]);
                            assert(sprite_mgr.is_active@[self.sprite_i@[circle_i as int] as int]);
                            assert(!pre_self.spec_bound(so));
                            assert forall|k0: int|
                                0 <= k0 < old_self.spec_len() implies #[trigger] old_self.scene_object_i@[k0]
                                    != so by {
                                assert(pre_self.scene_object_i@[k0] == old_self.scene_object_i@[
                                    k0]);
                            }
                            assert(!old_self.spec_bound(so));
                            assert(self.collider_i@[circle_i as int] == pre_cm_len);
                            assert(self.collider_i@[circle_i as int] >= old_cm.spec_len());
                            assert(self.sprite_i@[circle_i as int] == pre_sm_len);
                            assert(self.sprite_i@[circle_i as int] >= old_sm.spec_len());
                        }
                    },
                }
            }
            proof {
                assert forall|j: int| 0 <= j < old_self.spec_len() implies #[trigger] self.scene_object_i@[j]
                    == old_self.scene_object_i@[j] && self.collider_i@[j]
                    == old_self.collider_i@[j] && self.sprite_i@[j] == old_self.sprite_i@[j] by {
                    assert(pre_self.scene_object_i@[j] == old_self.scene_object_i@[j]);
                    assert(pre_self.collider_i@[j] == old_self.collider_i@[j]);
                    assert(pre_self.sprite_i@[j] == old_self.sprite_i@[j]);
                }
                assert forall|j: int| old_self.spec_len() <= j < self.spec_len() implies {
                    let so_j = #[trigger] self.scene_object_i@[j];
                    &&& spec_circle_object(*scene_mgr, so_j)
                    &&& !old_self.spec_bound(so_j)
                    &&& self.is_active@[j]
                    &&& self.collider_i@[j] >= old_cm.spec_len()
                    &&& self.sprite_i@[j] >= old_sm.spec_len()
                    &&& collider_mgr.bbox@[self.collider_i@[j] as int] == (Recti {
                        x: scene_mgr.spec_object_position(so_j as int).x,
                        y: scene_mgr.spec_object_position(so_j as int).y,
                        w: (scaled_component(template.size.x as int, template.scale.x as int))
                            as i64,
                        h: (scaled_component(template.size.y as int, template.scale.y as int))
                            as i64,
                    })
                    &&& sprite_mgr.texture_i@[self.sprite_i@[j] as int] == template.texture_i
                } by {
                    if j < pre_self.spec_len() {
                        assert(self.scene_object_i@[j] == pre_self.scene_object_i@[j]);
                        assert(self.collider_i@[j] == pre_self.collider_i@[j]);
                        assert(self.sprite_i@[j] == pre_self.sprite_i@[j]);
                        let so_j = pre_self.scene_object_i@[j];
                        assert(spec_circle_object(*scene_mgr, so_j));
                        assert(pre_self.is_active@[j]);
                        assert(self.is_active@[j]);
                        if matched && touched != j {
                            assert(self.collider_i@[touched] != self.collider_i@[j]);
                            assert(self.sprite_i@[touched] != self.sprite_i@[j]);
                        }
                        assert(collider_mgr.bbox@[self.collider_i@[j] as int]
                            == pre_cm.bbox@[pre_self.collider_i@[j] as int] || (matched && touched
                            == j));
                    } else {
                        assert(matched && j == touched);
                    }
                }
                assert forall|j: int|
                    0 <= j < old_self.spec_len() && spec_circle_row_class(
                        *scene_mgr,
                        #[trigger] old_self.scene_object_i@[j],
                    ) && (exists|m: int|
                        0 <= m < k + 1 && #[trigger] scene_mgr.active_objects@[m]
                            == old_self.scene_object_i@[j]) implies sprite_mgr.position@[
                    old_self.sprite_i@[j] as int] == scene_mgr.spec_object_position(
                        old_self.scene_object_i@[j] as int,
                    ) && collider_mgr.bbox@[old_self.collider_i@[j] as int].x
                        == scene_mgr.spec_object_position(old_self.scene_object_i@[j] as int).x
                        && collider_mgr.bbox@[old_self.collider_i@[j] as int].y
                        == scene_mgr.spec_object_position(old_self.scene_object_i@[j] as int).y by {
                    let m0 = choose|m: int|
                        0 <= m < k + 1 && #[trigger] scene_mgr.active_objects@[m]
                            == old_self.scene_object_i@[j];
                    assert(self.scene_object_i@[j] == old_self.scene_object_i@[j]);
                    if m0 == k {
                        assert(matched);
                        assert(self.scene_object_i@[touched] == so);
                        assert(touched == j);
                    } else {
                        assert(pre_sm.position@[old_self.sprite_i@[j] as int]
                            == scene_mgr.spec_object_position(old_self.scene_object_i@[j] as int));
                        if matched && touched != j {
                            assert(self.collider_i@[touched] != self.collider_i@[j]);
                            assert(self.sprite_i@[touched] != self.sprite_i@[j]);
                        }
                    }
                }
                assert forall|c: int|
                    0 <= c < old_cm.spec_len() && !(exists|j: int|
                        0 <= j < old_self.spec_len() && #[trigger] old_self.collider_i@[j] == c
                            && spec_circle_object(*scene_mgr, old_self.scene_object_i@[j])) implies
                    #[trigger] collider_mgr.is_active@[c] == old_cm.is_active@[c] by {
                    assert(pre_cm.is_active@[c] == old_cm.is_active@[c]);
                    if matched {
                        if touched < old_self.spec_len() {
                            assert(old_self.scene_object_i@[touched] == self.scene_object_i@[
                                touched]);
                            assert(spec_circle_object(
                                *scene_mgr,
                                old_self.scene_object_i@[touched],
                            ));
                            assert(old_self.collider_i@[touched] != c);
                            assert(self.collider_i@[touched] != c);
                        } else {
                            assert(self.collider_i@[touched] >= old_cm.spec_len());
                        }
                    }
                }
                assert forall|si: int|
                    0 <= si < old_sm.spec_len() && !(exists|j: int|
                        0 <= j < old_self.spec_len() && #[trigger] old_self.sprite_i@[j] == si
                            && spec_circle_object(*scene_mgr, old_self.scene_object_i@[j])) implies
                    #[trigger] sprite_mgr.is_active@[si] == old_sm.is_active@[si] by {
                    assert(pre_sm.is_active@[si] == old_sm.is_active@[si]);
                    if matched {
                        if touched < old_self.spec_len() {
                            assert(old_self.scene_object_i@[touched] == self.scene_object_i@[
                                touched]);
                            assert(spec_circle_object(
                                *scene_mgr,
                                old_self.scene_object_i@[touched],
                            ));
                            assert(old_self.sprite_i@[touched] != si);
                            assert(self.sprite_i@[touched] != si);
                        } else {
                            assert(self.sprite_i@[touched] >= old_sm.spec_len());
                        }
                    }
                }
                assert forall|m: int|
                    0 <= m < k + 1 && scene_mgr.spec_object_class(
                        (#[trigger] scene_mgr.active_objects@[m]) as int,
                    ) == circle_class() implies exists|j: int|
                        0 <= j < self.spec_len() && #[trigger] self.scene_object_i@[j]
                            == scene_mgr.active_objects@[m] && self.is_active@[j]
                            && collider_mgr.is_active@[self.collider_i@[j] as int]
                            && sprite_mgr.is_active@[self.sprite_i@[j] as int] by {
                    if m == k {
                        assert(matched);
                        assert(0 <= touched < self.spec_len() && self.scene_object_i@[touched]
                            == scene_mgr.active_objects@[m] && self.is_active@[touched]
                            && collider_mgr.is_active@[self.collider_i@[touched] as int]
                            && sprite_mgr.is_active@[self.sprite_i@[touched] as int]);
                    } else {
                        let j0 = choose|j: int|
                            0 <= j < pre_self.spec_len() && #[trigger] pre_self.scene_object_i@[j]
                                == scene_mgr.active_objects@[m] && pre_self.is_active@[j]
                                && pre_cm.is_active@[pre_self.collider_i@[j] as int]
                                && pre_sm.is_active@[pre_self.sprite_i@[j] as int];
                        assert(0 <= j0 < self.spec_len() && self.scene_object_i@[j0]
                            == scene_mgr.active_objects@[m] && self.is_active@[j0]
                            && collider_mgr.is_active@[self.collider_i@[j0] as int]
                            && sprite_mgr.is_active@[self.sprite_i@[j0] as int]);
                    }
                }
            }
            k = k + 1;
        }
    }

    /// Despawns every `SummoningCircle` object leaving scope: rows bound to
    /// a listed object of class `SummoningCircle` become inactive, along
    /// with their colliders and sprites. Bindings, row counts, collider
    /// geometry and sprite transforms are untouched, so a later spawn can
    /// reactivate the same rows.
    pub fn despawn(
        &mut self,
        scene_mgr: &SceneMgr,
        collider_mgr: &mut ColliderMgr,
        sprite_mgr: &mut SpriteMgr,
    )
        requires
            old(self).wf(),
            scene_mgr.wf(),
            old(collider_mgr).wf(),
            old(sprite_mgr).wf(),
            old(self).refs_ok(*old(collider_mgr), *old(sprite_mgr)),
        ensures
            final(self).wf(),
            final(collider_mgr).wf(),
            final(sprite_mgr).wf(),
            final(self).refs_ok(*final(collider_mgr), *final(sprite_mgr)),
            final(self).spec_len() == old(self).spec_len(),
            final(self).scene_object_i@ == old(self).scene_object_i@,
            final(self).collider_i@ == old(self).collider_i@,
            final(self).sprite_i@ == old(self).sprite_i@,
            final(collider_mgr).spec_len() == old(collider_mgr).spec_len(),
            final(collider_mgr).bbox@ == old(collider_mgr).bbox@,
            final(sprite_mgr).spec_len() == old(sprite_mgr).spec_len(),
            final(sprite_mgr).position@ == old(sprite_mgr).position@,
            final(sprite_mgr).size@ == old(sprite_mgr).size@,
            final(sprite_mgr).scale@ == old(sprite_mgr).scale@,
            final(sprite_mgr).scaled_size_cache@ == old(sprite_mgr).scaled_size_cache@,
            // Rows bound to a departing circle object become inactive.
            forall|j: int|
                0 <= j < old(self).spec_len() && spec_departing_circle(
                    *scene_mgr,
                    #[trigger] old(self).scene_object_i@[j],
                ) ==> !final(self).is_active@[j] && !final(collider_mgr).is_active@[old(self).collider_i@[j] as int] && !final(sprite_mgr).is_active@[old(self).sprite_i@[j] as int],
            // All other rows keep their activity.
            forall|j: int|
                0 <= j < old(self).spec_len() && !spec_departing_circle(
                    *scene_mgr,
                    #[trigger] old(self).scene_object_i@[j],
                ) ==> final(self).is_active@[j] == old(self).is_active@[j],
            // Colliders owned by no circle row keep their activity.
            forall|c: int|
                0 <= c < old(collider_mgr).spec_len() && !(exists|j: int|
                    0 <= j < old(self).spec_len() && #[trigger] old(self).collider_i@[j] == c
                        && spec_departing_circle(*scene_mgr, old(self).scene_object_i@[j]))
                    ==> #[trigger] final(collider_mgr).is_active@[c] == old(collider_mgr).is_active@[c],
            // Sprites owned by no circle row keep their activity.
            forall|si: int|
                0 <= si < old(sprite_mgr).spec_len() && !(exists|j: int|
                    0 <= j < old(self).spec_len() && #[trigger] old(self).sprite_i@[j] == si
                        && spec_departing_circle(*scene_mgr, old(self).scene_object_i@[j]))
                    ==> #[trigger] final(sprite_mgr).is_active@[si] == old(sprite_mgr).is_active@[si],
    {
        let num_leaving = scene_mgr.objects_to_despawn.len();
        let circle_name: String = "SummoningCircle".to_owned();
        let mut k: usize = 0;
        while k < num_leaving
            invariant
                self.wf(),
                scene_mgr.wf(),
                collider_mgr.wf(),
                sprite_mgr.wf(),
                self.refs_ok(*collider_mgr, *sprite_mgr),
                num_leaving == scene_mgr.objects_to_despawn@.len(),
                k <= num_leaving,
                circle_name@ == circle_class(),
                self.spec_len() == old(self).spec_len(),
                self.scene_object_i@ == old(self).scene_object_i@,
                self.collider_i@ == old(self).collider_i@,
                self.sprite_i@ == old(self).sprite_i@,
                collider_mgr.spec_len() == old(collider_mgr).spec_len(),
                collider_mgr.bbox@ == old(collider_mgr).bbox@,
                sprite_mgr.spec_len() == old(sprite_mgr).spec_len(),
                sprite_mgr.position@ == old(sprite_mgr).position@,
                sprite_mgr.size@ == old(sprite_mgr).size@,
                sprite_mgr.scale@ == old(sprite_mgr).scale@,
                sprite_mgr.scaled_size_cache@ == old(sprite_mgr).scaled_size_cache@,
                old(self).wf(),
                old(self).refs_ok(*old(collider_mgr), *old(sprite_mgr)),
                forall|j: int|
                    0 <= j < old(self).spec_len() && (exists|m: int|
                        0 <= m < k && #[trigger] scene_mgr.objects_to_despawn@[m] == old(self).scene_object_i@[j]) && spec_circle_row_class(
                        *scene_mgr,
                        #[trigger] old(self).scene_object_i@[j],
                    ) ==> !self.is_active@[j] && !collider_mgr.is_active@[old(self).collider_i@[j] as int] && !sprite_mgr.is_active@[old(self).sprite_i@[j] as int],
                forall|j: int|
                    0 <= j < old(self).spec_len() && !spec_departing_circle(
                        *scene_mgr,
                        #[trigger] old(self).scene_object_i@[j],
                    ) ==> self.is_active@[j] == old(self).is_active@[j],
                forall|c: int|
                    0 <= c < old(collider_mgr).spec_len() && !(exists|j: int|
                        0 <= j < old(self).spec_len() && #[trigger] old(self).collider_i@[j] == c
                            && spec_departing_circle(*scene_mgr, old(self).scene_object_i@[j]))
                        ==> #[trigger] collider_mgr.is_active@[c] == old(collider_mgr).is_active@[c],
                forall|si: int|
                    0 <= si < old(sprite_mgr).spec_len() && !(exists|j: int|
                        0 <= j < old(self).spec_len() && #[trigger] old(self).sprite_i@[j] == si
                            && spec_departing_circle(*scene_mgr, old(self).scene_object_i@[j]))
                        ==> #[trigger] sprite_mgr.is_active@[si] == old(sprite_mgr).is_active@[si],
            decreases num_leaving - k,
        {
            let so = scene_mgr.objects_to_despawn[k];
            proof {
                assert(scene_mgr.objects_to_despawn@[k as int] == so);
                assert(scene_mgr.objects_to_despawn@.contains(so));
            }
            if scene_mgr.object_class_is(so, &circle_name) {
                match self.find_binding(so) {
                    Some(index) => {
                        self.set_active(index, false, collider_mgr, sprite_mgr);
                    },
                    None => {},
                }
            }
            k = k + 1;
        }
    }
}

/// Scene object `so` is an object row of class `SummoningCircle` (whether
/// or not it is in any list).
pub open spec fn spec_circle_row_class(scene: SceneMgr, so: usize) -> bool {
    &&& so < scene.spec_len()
    &&& scene.layer_tag@[so as int] is Objects
    &&& scene.spec_object_class(so as int) == circle_class()
}

} // verus!
