//! Unit manager: player and enemy units spawned from scene objects of
//! class `PlayerUnit`.
//!
//! A unit row binds a scene-object handle to a sprite row and a collider
//! row and carries the unit's team, movement speed, selection flag and
//! current movement target. Spawning validates the required properties
//! (`team`, `move_speed`, `start_active`) before touching any state; unit
//! movement resolves collisions by subtracting every reported penetration
//! delta from the tentative position, in hit order.

use vstd::prelude::*;

use crate::collider::{
    box_hit_ok, box_hits_upto, ignore_view, point_in_box, ColliderMgr, Hit, MAX_COLLISION_COUNT,
};
use crate::geom::{coord_ok, rect_ok, vec_ok, Recti, Vec2i, COORD_LIMIT};
use crate::log::Logger;
use crate::scene::{spec_get_bool, spec_get_int, spec_get_string, SceneMgr, SpawnError};
use crate::selector_box::SelectorBox;
use crate::sprite::SpriteMgr;
use crate::summoning_circle::{template_ok, SpriteTemplate};

verus! {

/// Which side a unit fights for.
#[derive(Clone, Copy, PartialEq, Eq, Structural, Debug)]
pub enum PlayerTeam {
    Player,
    Enemy,
}

/// The scene-object class this manager spawns from.
pub open spec fn player_class() -> Seq<char> {
    "PlayerUnit"@
}

/// Scene object `so` is listed in the active scene and has class
/// `PlayerUnit`.
pub open spec fn spec_player_object(scene: SceneMgr, so: usize) -> bool {
    &&& scene.active_objects@.contains(so)
    &&& so < scene.spec_len()
    &&& scene.layer_tag@[so as int] is Objects
    &&& scene.spec_object_class(so as int) == player_class()
}

/// Scene object `so` is an object row of class `PlayerUnit` (whether or
/// not it is in any list).
pub open spec fn spec_player_row_class(scene: SceneMgr, so: usize) -> bool {
    &&& so < scene.spec_len()
    &&& scene.layer_tag@[so as int] is Objects
    &&& scene.spec_object_class(so as int) == player_class()
}

/// Scene object `so` is leaving scope and has class `PlayerUnit`.
pub open spec fn spec_departing_player(scene: SceneMgr, so: usize) -> bool {
    &&& scene.objects_to_despawn@.contains(so)
    &&& spec_player_row_class(scene, so)
}

/// Scene object `so` carries the three properties a unit requires, with
/// the right types and an admissible team value.
pub open spec fn spec_player_props_ok(scene: SceneMgr, so: usize) -> bool {
    &&& spec_get_string(scene, so as int, "team"@) is Some
    &&& (spec_get_string(scene, so as int, "team"@)->Some_0@ == "Player"@ || spec_get_string(
        scene,
        so as int,
        "team"@,
    )->Some_0@ == "Enemy"@)
    &&& spec_get_int(scene, so as int, "move_speed"@) is Some
    &&& spec_get_bool(scene, so as int, "start_active"@) is Some
}

/// Every active `PlayerUnit` object carries valid required properties.
pub open spec fn spec_player_spawn_valid(scene: SceneMgr) -> bool {
    forall|k: int|
        0 <= k < scene.active_objects@.len() && scene.spec_object_class(
            (#[trigger] scene.active_objects@[k]) as int,
        ) == player_class() ==> spec_player_props_ok(scene, scene.active_objects@[k])
}

/// The team a valid unit object declares.
pub open spec fn spec_player_team(scene: SceneMgr, so: usize) -> PlayerTeam {
    if spec_get_string(scene, so as int, "team"@)->Some_0@ == "Player"@ {
        PlayerTeam::Player
    } else {
        PlayerTeam::Enemy
    }
}

/// The initial activity a valid unit object declares.
pub open spec fn spec_player_start_active(scene: SceneMgr, so: usize) -> bool {
    spec_get_bool(scene, so as int, "start_active"@)->Some_0
}

/// The movement speed a valid unit object declares.
pub open spec fn spec_player_move_speed(scene: SceneMgr, so: usize) -> i64 {
    spec_get_int(scene, so as int, "move_speed"@)->Some_0
}

/// The first active scene object of class `PlayerUnit`, scanning the
/// active list from index `k` on.
pub open spec fn spec_first_unit_from(scene: SceneMgr, k: int) -> Option<usize>
    decreases scene.active_objects@.len() - k,
{
    if k < 0 || k >= scene.active_objects@.len() {
        None
    } else if scene.spec_object_class(scene.active_objects@[k] as int) == player_class() {
        Some(scene.active_objects@[k])
    } else {
        spec_first_unit_from(scene, k + 1)
    }
}

/// The first active scene object of class `PlayerUnit`, if any.
pub open spec fn spec_first_unit(scene: SceneMgr) -> Option<usize> {
    spec_first_unit_from(scene, 0)
}

/// With no units yet, the first unit the scene would spawn must declare
/// the `Player` team; once a unit exists there is no constraint.
pub open spec fn spec_first_unit_ok(unit_count: nat, scene: SceneMgr) -> bool {
    unit_count > 0 || match spec_first_unit(scene) {
        Some(so) => spec_get_string(scene, so as int, "team"@) is Some && spec_get_string(
            scene,
            so as int,
            "team"@,
        )->Some_0@ == "Player"@,
        None => true,
    }
}

/// Unfolds one step of [`spec_first_unit_from`].
proof fn lemma_first_unit_step(scene: SceneMgr, k: int)
    requires
        0 <= k < scene.active_objects@.len(),
    ensures
        spec_first_unit_from(scene, k) == if scene.spec_object_class(
            scene.active_objects@[k] as int,
        ) == player_class() {
            Some(scene.active_objects@[k])
        } else {
            spec_first_unit_from(scene, k + 1)
        },
{
    reveal_with_fuel(spec_first_unit_from, 2);
}

/// A scan starting at or past the end of the list finds nothing.
proof fn lemma_first_unit_none(scene: SceneMgr, k: int)
    requires
        k >= scene.active_objects@.len(),
    ensures
        spec_first_unit_from(scene, k) is None,
{
    reveal_with_fuel(spec_first_unit_from, 1);
}

/// Skipping a prefix without unit objects does not change the find.
proof fn lemma_first_unit_skip(scene: SceneMgr, k: int)
    requires
        0 <= k <= scene.active_objects@.len(),
        forall|m: int|
            0 <= m < k ==> scene.spec_object_class((#[trigger] scene.active_objects@[m]) as int)
                != player_class(),
    ensures
        spec_first_unit(scene) == spec_first_unit_from(scene, k),
    decreases k,
{
    if k > 0 {
        lemma_first_unit_skip(scene, k - 1);
        lemma_first_unit_step(scene, k - 1);
    }
}

/// Sum of the `delta.x` components of the first `n` hit records.
pub open spec fn sum_delta_x(hits: Seq<Hit>, n: int) -> int
    decreases n,
{
    if n <= 0 {
        0
    } else {
        sum_delta_x(hits, n - 1) + hits[n - 1].delta.x
    }
}

/// Sum of the `delta.y` components of the first `n` hit records.
pub open spec fn sum_delta_y(hits: Seq<Hit>, n: int) -> int
    decreases n,
{
    if n <= 0 {
        0
    } else {
        sum_delta_y(hits, n - 1) + hits[n - 1].delta.y
    }
}

/// Unfolds one step of the delta sums.
proof fn lemma_sum_delta_step(hits: Seq<Hit>, n: int)
    requires
        n > 0,
    ensures
        sum_delta_x(hits, n) == sum_delta_x(hits, n - 1) + hits[n - 1].delta.x,
        sum_delta_y(hits, n) == sum_delta_y(hits, n - 1) + hits[n - 1].delta.y,
{
    reveal_with_fuel(sum_delta_x, 2);
    reveal_with_fuel(sum_delta_y, 2);
}

/// Registry of unit rows; row `i` is the unit with handle `i`.
pub struct PlayerUnitMgr {
    pub move_speed: Vec<i64>,
    pub is_selected: Vec<bool>,
    pub is_active: Vec<bool>,
    pub team: Vec<PlayerTeam>,
    /// The scene object each row was instantiated from (its binding).
    pub scene_object_i: Vec<usize>,
    /// The collider row owned by each unit.
    pub collider_i: Vec<usize>,
    /// The sprite row owned by each unit.
    pub sprite_i: Vec<usize>,
    /// Where each unit is ordered to move, if anywhere.
    pub move_target: Vec<Option<Vec2i>>,
    /// Colliders movement queries ignore (the selection box's).
    pub collision_ignored_i: Vec<usize>,
}

impl PlayerUnitMgr {
    /// Parallel columns agree in length and no scene object, collider or
    /// sprite is bound by two rows.
    pub open spec fn wf(&self) -> bool {
        &&& self.move_speed@.len() == self.is_active@.len()
        &&& self.is_selected@.len() == self.is_active@.len()
        &&& self.team@.len() == self.is_active@.len()
        &&& self.scene_object_i@.len() == self.is_active@.len()
        &&& self.collider_i@.len() == self.is_active@.len()
        &&& self.sprite_i@.len() == self.is_active@.len()
        &&& self.move_target@.len() == self.is_active@.len()
        &&& forall|i: int, j: int|
            0 <= i < j < self.is_active@.len() ==> #[trigger] self.scene_object_i@[i]
                != #[trigger] self.scene_object_i@[j]
        &&& forall|i: int, j: int|
            0 <= i < j < self.is_active@.len() ==> #[trigger] self.collider_i@[i]
                != #[trigger] self.collider_i@[j]
        &&& forall|i: int, j: int|
            0 <= i < j < self.is_active@.len() ==> #[trigger] self.sprite_i@[i]
                != #[trigger] self.sprite_i@[j]
    }

    pub open spec fn spec_len(&self) -> nat {
        self.is_active@.len()
    }

    /// Some row is bound to scene object `so`.
    pub open spec fn spec_bound(&self, so: usize) -> bool {
        exists|k: int| 0 <= k < self.spec_len() && #[trigger] self.scene_object_i@[k] == so
    }

    /// Every collider and sprite handle a row holds is a valid row of its
    /// registry.
    pub open spec fn refs_ok(&self, cm: ColliderMgr, sm: SpriteMgr) -> bool {
        &&& forall|k: int|
            0 <= k < self.spec_len() ==> (#[trigger] self.collider_i@[k]) < cm.spec_len()
        &&& forall|k: int|
            0 <= k < self.spec_len() ==> (#[trigger] self.sprite_i@[k]) < sm.spec_len()
    }

    pub fn new() -> (r: PlayerUnitMgr)
        ensures
            r.wf(),
            r.spec_len() == 0,
            r.collision_ignored_i@.len() == 0,
    {
        PlayerUnitMgr {
            move_speed: Vec::new(),
            is_selected: Vec::new(),
            is_active: Vec::new(),
            team: Vec::new(),
            scene_object_i: Vec::new(),
            collider_i: Vec::new(),
            sprite_i: Vec::new(),
            move_target: Vec::new(),
            collision_ignored_i: Vec::new(),
        }
    }

    /// Registers the selection box's collider as one movement queries must
    /// ignore.
    pub fn init(&mut self, selector_box: &SelectorBox)
        requires
            selector_box.collider_i is Some,
        ensures
            final(self).collision_ignored_i@ == old(self).collision_ignored_i@.push(
                selector_box.collider_i->Some_0,
            ),
            final(self).is_active@ == old(self).is_active@,
            final(self).move_speed@ == old(self).move_speed@,
            final(self).is_selected@ == old(self).is_selected@,
            final(self).team@ == old(self).team@,
            final(self).scene_object_i@ == old(self).scene_object_i@,
            final(self).collider_i@ == old(self).collider_i@,
            final(self).sprite_i@ == old(self).sprite_i@,
            final(self).move_target@ == old(self).move_target@,
    {
        let ci = selector_box.collider_i();
        self.collision_ignored_i.push(ci);
    }

    pub fn len(&self) -> (r: usize)
        requires
            self.wf(),
        ensures
            r == self.spec_len(),
    {
        self.is_active.len()
    }

    pub fn is_active(&self, index: usize) -> (r: bool)
        requires
            self.wf(),
            index < self.spec_len(),
        ensures
            r == self.is_active@[index as int],
    {
        self.is_active[index]
    }

    /// The row bound to scene object `scene_object_i`, if any.
    pub fn find_binding(&self, scene_object_i: usize) -> (r: Option<usize>)
        requires
            self.wf(),
        ensures
            match r {
                Some(idx) => idx < self.spec_len() && self.scene_object_i@[idx as int]
                    == scene_object_i,
                None => !self.spec_bound(scene_object_i),
            },
    {
        let n = self.scene_object_i.len();
        let mut i: usize = 0;
        while i < n
            invariant
                self.wf(),
                i <= n,
                n == self.spec_len(),
                forall|j: int| 0 <= j < i ==> #[trigger] self.scene_object_i@[j] != scene_object_i,
            decreases n - i,
        {
            if self.scene_object_i[i] == scene_object_i {
                return Some(i);
            }
            i = i + 1;
        }
        None
    }

    /// Sets a unit row's activity, mirrors it onto the unit's sprite and
    /// collider, and moves the collider to the sprite's position.
    fn set_active(
        &mut self,
        index: usize,
        is_active: bool,
        sprite_mgr: &mut SpriteMgr,
        collider_mgr: &mut ColliderMgr,
    )
        requires
            old(self).wf(),
            old(collider_mgr).wf(),
            old(sprite_mgr).wf(),
            old(self).refs_ok(*old(collider_mgr), *old(sprite_mgr)),
            index < old(self).spec_len(),
        ensures
            final(self).wf(),
            final(collider_mgr).wf(),
            final(sprite_mgr).wf(),
            final(self).refs_ok(*final(collider_mgr), *final(sprite_mgr)),
            final(self).is_active@ == old(self).is_active@.update(index as int, is_active),
            final(self).move_speed@ == old(self).move_speed@,
            final(self).is_selected@ == old(self).is_selected@,
            final(self).team@ == old(self).team@,
            final(self).scene_object_i@ == old(self).scene_object_i@,
            final(self).collider_i@ == old(self).collider_i@,
            final(self).sprite_i@ == old(self).sprite_i@,
            final(self).move_target@ == old(self).move_target@,
            final(self).collision_ignored_i@ == old(self).collision_ignored_i@,
            final(sprite_mgr).position@ == old(sprite_mgr).position@,
            final(sprite_mgr).size@ == old(sprite_mgr).size@,
            final(sprite_mgr).scale@ == old(sprite_mgr).scale@,
            final(sprite_mgr).texture_i@ == old(sprite_mgr).texture_i@,
            final(sprite_mgr).scaled_size_cache@ == old(sprite_mgr).scaled_size_cache@,
            final(sprite_mgr).is_active@ == old(sprite_mgr).is_active@.update(
                old(self).sprite_i@[index as int] as int,
                is_active,
            ),
            final(collider_mgr).render_bbox@ == old(collider_mgr).render_bbox@,
            final(collider_mgr).is_active@ == old(collider_mgr).is_active@.update(
                old(self).collider_i@[index as int] as int,
                is_active,
            ),
            final(collider_mgr).bbox@ == old(collider_mgr).bbox@.update(
                old(self).collider_i@[index as int] as int,
                (Recti {
                    x: old(sprite_mgr).position@[old(self).sprite_i@[index as int] as int].x,
                    y: old(sprite_mgr).position@[old(self).sprite_i@[index as int] as int].y,
                    w: old(collider_mgr).bbox@[old(self).collider_i@[index as int] as int].w,
                    h: old(collider_mgr).bbox@[old(self).collider_i@[index as int] as int].h,
                }),
            ),
    {
        self.is_active.set(index, is_active);
        let si = self.sprite_i[index];
        sprite_mgr.set_active(si, is_active);
        let ci = self.collider_i[index];
        let position = sprite_mgr.position(si);
        collider_mgr.set_position(ci, position.x, position.y);
        collider_mgr.set_active(ci, is_active);
    }

    /// Creates the sprite and collider for a unit at `position` from the
    /// sprite template and appends the bound row, inactive until a spawn
    /// pass decides its activity.
    pub fn add(
        &mut self,
        move_speed: i64,
        team: PlayerTeam,
        position: Vec2i,
        scene_object_i: usize,
        template: SpriteTemplate,
        sprite_mgr: &mut SpriteMgr,
        collider_mgr: &mut ColliderMgr,
    ) -> (r: usize)
        requires
            old(self).wf(),
            old(collider_mgr).wf(),
            old(sprite_mgr).wf(),
            old(self).refs_ok(*old(collider_mgr), *old(sprite_mgr)),
            !old(self).spec_bound(scene_object_i),
            vec_ok(position),
            template_ok(template),
            old(self).spec_len() == 0 ==> team is Player,
        ensures
            final(self).wf(),
            final(collider_mgr).wf(),
            final(sprite_mgr).wf(),
            final(self).refs_ok(*final(collider_mgr), *final(sprite_mgr)),
            r == old(self).spec_len(),
            final(self).spec_len() == old(self).spec_len() + 1,
            final(self).is_active@ == old(self).is_active@.push(false),
            final(self).is_selected@ == old(self).is_selected@.push(false),
            final(self).move_speed@ == old(self).move_speed@.push(move_speed),
            final(self).team@ == old(self).team@.push(team),
            final(self).move_target@ == old(self).move_target@.push(None),
            final(self).scene_object_i@ == old(self).scene_object_i@.push(scene_object_i),
            final(self).collider_i@ == old(self).collider_i@.push(old(collider_mgr).spec_len()
                as usize),
            final(self).sprite_i@ == old(self).sprite_i@.push(old(sprite_mgr).spec_len() as usize),
            final(self).collision_ignored_i@ == old(self).collision_ignored_i@,
            final(sprite_mgr).spec_len() == old(sprite_mgr).spec_len() + 1,
            final(sprite_mgr).position@ == old(sprite_mgr).position@.push(position),
            final(sprite_mgr).size@ == old(sprite_mgr).size@.push(template.size),
            final(sprite_mgr).scale@ == old(sprite_mgr).scale@.push(template.scale),
            final(sprite_mgr).texture_i@ == old(sprite_mgr).texture_i@.push(template.texture_i),
            final(sprite_mgr).is_active@ == old(sprite_mgr).is_active@.push(false),
            final(collider_mgr).spec_len() == old(collider_mgr).spec_len() + 1,
            final(collider_mgr).is_active@ == old(collider_mgr).is_active@.push(false),
            forall|c: int|
                0 <= c < old(collider_mgr).spec_len() ==> #[trigger] final(collider_mgr).bbox@[c]
                    == old(collider_mgr).bbox@[c],
            final(collider_mgr).bbox@[old(collider_mgr).spec_len() as int].x == position.x,
            final(collider_mgr).bbox@[old(collider_mgr).spec_len() as int].y == position.y,
            final(collider_mgr).render_bbox@ == old(collider_mgr).render_bbox@.push(false),
    {
        self.move_speed.push(move_speed);
        self.is_selected.push(false);
        self.is_active.push(false);
        self.move_target.push(None);
        self.team.push(team);
        let sprite_i = sprite_mgr.add(template.texture_i, position, template.size, template.scale);
        self.sprite_i.push(sprite_i);
        let collider_i = collider_mgr.add_from_sprite(sprite_i, None, sprite_mgr);
        self.collider_i.push(collider_i);
        self.scene_object_i.push(scene_object_i);
        let index = self.is_active.len() - 1;
        self.set_active(index, false, sprite_mgr, collider_mgr);
        index
    }

    /// Spawns every `PlayerUnit` object of the active scene: reactivates
    /// bound rows (resyncing positions from the scene object) and creates
    /// rows for unbound ones with the activity their `start_active`
    /// property declares. Validates every matching object's required
    /// properties first; on a defect it reports an error and changes
    /// nothing besides the diagnostic log.
    #[verifier::rlimit(100)]
    pub fn spawn(
        &mut self,
        scene_mgr: &SceneMgr,
        sprite_mgr: &mut SpriteMgr,
        collider_mgr: &mut ColliderMgr,
        template: SpriteTemplate,
        logger: &mut Logger,
    ) -> (r: Result<(), SpawnError>)
        requires
            old(self).wf(),
            scene_mgr.wf(),
            old(collider_mgr).wf(),
            old(sprite_mgr).wf(),
            old(self).refs_ok(*old(collider_mgr), *old(sprite_mgr)),
            template_ok(template),
        ensures
            final(self).wf(),
            final(collider_mgr).wf(),
            final(sprite_mgr).wf(),
            final(self).refs_ok(*final(collider_mgr), *final(sprite_mgr)),
            final(logger).level == old(logger).level,
            final(logger).entries@.len() >= old(logger).entries@.len(),
            forall|e: int|
                0 <= e < old(logger).entries@.len() ==> #[trigger] final(logger).entries@[e]
                    == old(logger).entries@[e],
            r is Ok <==> spec_player_spawn_valid(*scene_mgr) && spec_first_unit_ok(
                old(self).spec_len(),
                *scene_mgr,
            ),
            r is Err ==> *final(self) == *old(self) && *final(collider_mgr) == *old(collider_mgr)
                && *final(sprite_mgr) == *old(sprite_mgr),
            r is Err ==> (exists|k: int|
                0 <= k < scene_mgr.active_objects@.len() && scene_mgr.spec_object_class(
                    (#[trigger] scene_mgr.active_objects@[k]) as int,
                ) == player_class() && !spec_player_props_ok(
                    *scene_mgr,
                    scene_mgr.active_objects@[k],
                )) || !spec_first_unit_ok(old(self).spec_len(), *scene_mgr),
            r is Ok ==> {
                &&& old(self).spec_len() <= final(self).spec_len()
                &&& forall|j: int|
                    0 <= j < old(self).spec_len() ==> #[trigger] final(self).scene_object_i@[j]
                        == old(self).scene_object_i@[j] && final(self).collider_i@[j] == old(self).collider_i@[j] && final(self).sprite_i@[j] == old(self).sprite_i@[j] && final(self).team@[j] == old(self).team@[j]
                &&& old(collider_mgr).spec_len() <= final(collider_mgr).spec_len()
                &&& old(sprite_mgr).spec_len() <= final(sprite_mgr).spec_len()
                // The collider and sprite registries each grow by exactly
                // one row per new unit row.
                &&& final(collider_mgr).spec_len() - old(collider_mgr).spec_len() == final(self).spec_len() - old(self).spec_len()
                &&& final(sprite_mgr).spec_len() - old(sprite_mgr).spec_len() == final(self).spec_len() - old(self).spec_len()
                // Bound rows for matching objects are resynced to their
                // scene object's position, sprite and collider alike.
                &&& forall|j: int|
                    0 <= j < old(self).spec_len() && spec_player_object(
                        *scene_mgr,
                        #[trigger] old(self).scene_object_i@[j],
                    ) ==> final(sprite_mgr).position@[old(self).sprite_i@[j] as int]
                        == scene_mgr.spec_object_position(old(self).scene_object_i@[j] as int)
                        && final(collider_mgr).bbox@[old(self).collider_i@[j] as int].x
                        == scene_mgr.spec_object_position(old(self).scene_object_i@[j] as int).x
                        && final(collider_mgr).bbox@[old(self).collider_i@[j] as int].y
                        == scene_mgr.spec_object_position(old(self).scene_object_i@[j] as int).y
                // Extents of pre-existing colliders never change.
                &&& forall|c: int|
                    0 <= c < old(collider_mgr).spec_len() ==> (#[trigger] final(collider_mgr).bbox@[c]).w == old(collider_mgr).bbox@[c].w && final(collider_mgr).bbox@[c].h
                        == old(collider_mgr).bbox@[c].h
                // Every matching scene object ends with a bound row.
                &&& forall|m: int|
                    0 <= m < scene_mgr.active_objects@.len() && scene_mgr.spec_object_class(
                        (#[trigger] scene_mgr.active_objects@[m]) as int,
                    ) == player_class() ==> exists|j: int|
                        0 <= j < final(self).spec_len() && #[trigger] final(self).scene_object_i@[j] == scene_mgr.active_objects@[m]
                // Pre-existing rows for matching objects are reactivated.
                &&& forall|j: int|
                    0 <= j < old(self).spec_len() && spec_player_object(
                        *scene_mgr,
                        #[trigger] old(self).scene_object_i@[j],
                    ) ==> final(self).is_active@[j] && final(collider_mgr).is_active@[old(self).collider_i@[j] as int] && final(sprite_mgr).is_active@[old(self).sprite_i@[j] as int]
                // New rows exist only for matching objects that had no
                // binding; they carry the object's declared team, speed and
                // initial activity, and own fresh sprite and collider rows
                // placed at the object.
                &&& forall|j: int|
                    old(self).spec_len() <= j < final(self).spec_len() ==> {
                        let so = #[trigger] final(self).scene_object_i@[j];
                        &&& spec_player_object(*scene_mgr, so)
                        &&& !old(self).spec_bound(so)
                        &&& final(self).team@[j] == spec_player_team(*scene_mgr, so)
                        &&& final(self).move_speed@[j] == spec_player_move_speed(*scene_mgr, so)
                        &&& final(self).is_active@[j] == spec_player_start_active(*scene_mgr, so)
                        &&& final(self).collider_i@[j] >= old(collider_mgr).spec_len()
                        &&& final(self).sprite_i@[j] >= old(sprite_mgr).spec_len()
                        &&& final(collider_mgr).is_active@[final(self).collider_i@[j] as int]
                            == spec_player_start_active(*scene_mgr, so)
                        &&& final(sprite_mgr).is_active@[final(self).sprite_i@[j] as int]
                            == spec_player_start_active(*scene_mgr, so)
                        &&& final(sprite_mgr).position@[final(self).sprite_i@[j] as int]
                            == scene_mgr.spec_object_position(so as int)
                        &&& final(collider_mgr).bbox@[final(self).collider_i@[j] as int].x
                            == scene_mgr.spec_object_position(so as int).x
                        &&& final(collider_mgr).bbox@[final(self).collider_i@[j] as int].y
                            == scene_mgr.spec_object_position(so as int).y
                    }
                // Rows for objects outside the matching set keep their
                // activity.
                &&& forall|j: int|
                    0 <= j < old(self).spec_len() && !spec_player_object(
                        *scene_mgr,
                        old(self).scene_object_i@[j],
                    ) ==> #[trigger] final(self).is_active@[j] == old(self).is_active@[j]
                // Colliders owned by no unit row keep their activity.
                &&& forall|c: int|
                    0 <= c < old(collider_mgr).spec_len() && !(exists|j: int|
                        0 <= j < old(self).spec_len() && #[trigger] old(self).collider_i@[j] == c
                            && spec_player_object(*scene_mgr, old(self).scene_object_i@[j]))
                        ==> #[trigger] final(collider_mgr).is_active@[c] == old(collider_mgr).is_active@[c]
                // Sprites owned by no unit row keep their activity.
                &&& forall|si: int|
                    0 <= si < old(sprite_mgr).spec_len() && !(exists|j: int|
                        0 <= j < old(self).spec_len() && #[trigger] old(self).sprite_i@[j] == si
                            && spec_player_object(*scene_mgr, old(self).scene_object_i@[j]))
                        ==> #[trigger] final(sprite_mgr).is_active@[si] == old(sprite_mgr).is_active@[si]
            },
    {
        let num_actives = scene_mgr.active_objects.len();
        let unit_name: String = "PlayerUnit".to_owned();
        let player_str: String = "Player".to_owned();
        let enemy_str: String = "Enemy".to_owned();
        let no_units = self.len() == 0;
        // Validation pass: every matching object must declare a valid team,
        // a movement speed and an initial activity, and when no unit exists
        // yet the first matching object must be on the `Player` team.
        let mut first_seen = false;
        let mut k: usize = 0;
        while k < num_actives
            invariant
                *self == *old(self),
                *collider_mgr == *old(collider_mgr),
                *sprite_mgr == *old(sprite_mgr),
                self.wf(),
                collider_mgr.wf(),
                sprite_mgr.wf(),
                self.refs_ok(*collider_mgr, *sprite_mgr),
                scene_mgr.wf(),
                num_actives == scene_mgr.active_objects@.len(),
                k <= num_actives,
                unit_name@ == player_class(),
                player_str@ == "Player"@,
                enemy_str@ == "Enemy"@,
                no_units == (old(self).spec_len() == 0),
                !first_seen ==> forall|m: int|
                    0 <= m < k ==> scene_mgr.spec_object_class(
                        (#[trigger] scene_mgr.active_objects@[m]) as int,
                    ) != player_class(),
                first_seen ==> spec_first_unit_ok(old(self).spec_len(), *scene_mgr),
                logger.level == old(logger).level,
                logger.entries@.len() >= old(logger).entries@.len(),
                forall|e: int|
                    0 <= e < old(logger).entries@.len() ==> #[trigger] logger.entries@[e] == old(logger).entries@[e],
                forall|m: int|
                    0 <= m < k && scene_mgr.spec_object_class(
                        (#[trigger] scene_mgr.active_objects@[m]) as int,
                    ) == player_class() ==> spec_player_props_ok(
                        *scene_mgr,
                        scene_mgr.active_objects@[m],
                    ),
            decreases num_actives - k,
        {
            let so = scene_mgr.active_objects[k];
            proof {
                assert(scene_mgr.active_objects@[k as int] == so);
                assert(scene_mgr.active_objects@.contains(so));
            }
            if scene_mgr.object_class_is(so, &unit_name) {
                match scene_mgr.get_object_property_string(so, "team", logger) {
                    Some(team_str) => {
                        if !(team_str.eq(&player_str) || team_str.eq(&enemy_str)) {
                            return Err(SpawnError::InvalidTeam { scene_object_i: so });
                        }
                        if !first_seen {
                            proof {
                                lemma_first_unit_skip(*scene_mgr, k as int);
                                lemma_first_unit_step(*scene_mgr, k as int);
                                assert(spec_first_unit(*scene_mgr) == Some(so));
                            }
                            if no_units && !team_str.eq(&player_str) {
                                return Err(SpawnError::FirstUnitNotPlayer { scene_object_i: so });
                            }
                            first_seen = true;
                        }
                    },
                    None => {
                        return Err(SpawnError::MissingTeam { scene_object_i: so });
                    },
                }
                if scene_mgr.get_object_property_int(so, "move_speed", logger).is_none() {
                    return Err(SpawnError::MissingMoveSpeed { scene_object_i: so });
                }
                if scene_mgr.get_object_property_bool(so, "start_active", logger).is_none() {
                    return Err(SpawnError::MissingStartActive { scene_object_i: so });
                }
            }
            k = k + 1;
        }
        proof {
            if !first_seen {
                lemma_first_unit_skip(*scene_mgr, num_actives as int);
                lemma_first_unit_none(*scene_mgr, num_actives as int);
            }
            assert(spec_first_unit_ok(old(self).spec_len(), *scene_mgr));
        }
        // Work pass: reactivate bound rows, create rows for new objects.
        let ghost old_self = *old(self);
        let ghost old_cm = *old(collider_mgr);
        let ghost old_sm = *old(sprite_mgr);
        let mut k: usize = 0;
        while k < num_actives
            invariant
                self.wf(),
                scene_mgr.wf(),
                collider_mgr.wf(),
                sprite_mgr.wf(),
                self.refs_ok(*collider_mgr, *sprite_mgr),
                num_actives == scene_mgr.active_objects@.len(),
                k <= num_actives,
                unit_name@ == player_class(),
                player_str@ == "Player"@,
                enemy_str@ == "Enemy"@,
                template_ok(template),
                spec_player_spawn_valid(*scene_mgr),
                spec_first_unit_ok(old_self.spec_len(), *scene_mgr),
                old_self.wf(),
                old_self.refs_ok(old_cm, old_sm),
                old_cm.wf(),
                old_sm.wf(),
                old_self.spec_len() <= self.spec_len(),
                old_cm.spec_len() <= collider_mgr.spec_len(),
                old_sm.spec_len() <= sprite_mgr.spec_len(),
                collider_mgr.spec_len() - old_cm.spec_len() == self.spec_len()
                    - old_self.spec_len(),
                sprite_mgr.spec_len() - old_sm.spec_len() == self.spec_len()
                    - old_self.spec_len(),
                forall|j: int|
                    0 <= j < old_self.spec_len() && spec_player_row_class(
                        *scene_mgr,
                        #[trigger] old_self.scene_object_i@[j],
                    ) && (exists|m: int|
                        0 <= m < k && #[trigger] scene_mgr.active_objects@[m]
                            == old_self.scene_object_i@[j]) ==> sprite_mgr.position@[
                    old_self.sprite_i@[j] as int] == scene_mgr.spec_object_position(
                        old_self.scene_object_i@[j] as int,
                    ) && collider_mgr.bbox@[old_self.collider_i@[j] as int].x
                        == scene_mgr.spec_object_position(old_self.scene_object_i@[j] as int).x
                        && collider_mgr.bbox@[old_self.collider_i@[j] as int].y
                        == scene_mgr.spec_object_position(old_self.scene_object_i@[j] as int).y,
                logger.level == old(logger).level,
                logger.entries@.len() >= old(logger).entries@.len(),
                forall|e: int|
                    0 <= e < old(logger).entries@.len() ==> #[trigger] logger.entries@[e] == old(logger).entries@[e],
                forall|j: int|
                    0 <= j < old_self.spec_len() ==> #[trigger] self.scene_object_i@[j]
                        == old_self.scene_object_i@[j] && self.collider_i@[j]
                        == old_self.collider_i@[j] && self.sprite_i@[j] == old_self.sprite_i@[j]
                        && self.team@[j] == old_self.team@[j],
                forall|c: int|
                    0 <= c < old_cm.spec_len() ==> (#[trigger] collider_mgr.bbox@[c]).w
                        == old_cm.bbox@[c].w && collider_mgr.bbox@[c].h == old_cm.bbox@[c].h,
                forall|m: int|
                    0 <= m < k && scene_mgr.spec_object_class(
                        (#[trigger] scene_mgr.active_objects@[m]) as int,
                    ) == player_class() ==> exists|j: int|
                        0 <= j < self.spec_len() && #[trigger] self.scene_object_i@[j]
                            == scene_mgr.active_objects@[m],
                forall|j: int|
                    0 <= j < old_self.spec_len() && spec_player_row_class(
                        *scene_mgr,
                        #[trigger] old_self.scene_object_i@[j],
                    ) && (exists|m: int|
                        0 <= m < k && #[trigger] scene_mgr.active_objects@[m]
                            == old_self.scene_object_i@[j]) ==> self.is_active@[j]
                        && collider_mgr.is_active@[old_self.collider_i@[j] as int]
                        && sprite_mgr.is_active@[old_self.sprite_i@[j] as int],
                forall|j: int|
                    old_self.spec_len() <= j < self.spec_len() ==> {
                        let so = #[trigger] self.scene_object_i@[j];
                        &&& (exists|m: int|
                            0 <= m < k && #[trigger] scene_mgr.active_objects@[m] == so)
                        &&& spec_player_object(*scene_mgr, so)
                        &&& !old_self.spec_bound(so)
                        &&& self.team@[j] == spec_player_team(*scene_mgr, so)
                        &&& self.move_speed@[j] == spec_player_move_speed(*scene_mgr, so)
                        &&& self.is_active@[j] == spec_player_start_active(*scene_mgr, so)
                        &&& self.collider_i@[j] >= old_cm.spec_len()
                        &&& self.sprite_i@[j] >= old_sm.spec_len()
                        &&& collider_mgr.is_active@[self.collider_i@[j] as int]
                            == spec_player_start_active(*scene_mgr, so)
                        &&& sprite_mgr.is_active@[self.sprite_i@[j] as int]
                            == spec_player_start_active(*scene_mgr, so)
                        &&& sprite_mgr.position@[self.sprite_i@[j] as int]
                            == scene_mgr.spec_object_position(so as int)
                        &&& collider_mgr.bbox@[self.collider_i@[j] as int].x
                            == scene_mgr.spec_object_position(so as int).x
                        &&& collider_mgr.bbox@[self.collider_i@[j] as int].y
                            == scene_mgr.spec_object_position(so as int).y
                    },
                forall|j: int|
                    0 <= j < old_self.spec_len() && !spec_player_object(
                        *scene_mgr,
                        old_self.scene_object_i@[j],
                    ) ==> #[trigger] self.is_active@[j] == old_self.is_active@[j],
                forall|c: int|
                    0 <= c < old_cm.spec_len() && !(exists|j: int|
                        0 <= j < old_self.spec_len() && #[trigger] old_self.collider_i@[j] == c
                            && spec_player_object(*scene_mgr, old_self.scene_object_i@[j])) ==> #[
                    trigger] collider_mgr.is_active@[c] == old_cm.is_active@[c],
                forall|si: int|
                    0 <= si < old_sm.spec_len() && !(exists|j: int|
                        0 <= j < old_self.spec_len() && #[trigger] old_self.sprite_i@[j] == si
                            && spec_player_object(*scene_mgr, old_self.scene_object_i@[j])) ==> #[
                    trigger] sprite_mgr.is_active@[si] == old_sm.is_active@[si],
            decreases num_actives - k,
        {
            let so = scene_mgr.active_objects[k];
            let ghost pre_self = *self;
            let ghost pre_cm = *collider_mgr;
            let ghost pre_sm = *sprite_mgr;
            let ghost mut touched: int = 0;
            let ghost mut matched = false;
            proof {
                assert(scene_mgr.active_objects@[k as int] == so);
                assert(scene_mgr.active_objects@.contains(so));
            }
            if scene_mgr.object_class_is(so, &unit_name) {
                proof {
                    matched = true;
                }
                match self.find_binding(so) {
                    Some(index) => {
                        let position = scene_mgr.object_position(so);
                        let si = self.sprite_i[index];
                        sprite_mgr.set_position(si, position);
                        self.set_active(index, true, sprite_mgr, collider_mgr);
                        proof {
                            touched = index as int;
                            assert(self.scene_object_i@[index as int] == so);
                            assert(self.is_active@[index as int]);
                            assert(collider_mgr.is_active@[self.collider_i@[index as int] as int]);
                            assert(sprite_mgr.is_active@[self.sprite_i@[index as int] as int]);
                            assert(sprite_mgr.position@[self.sprite_i@[index as int] as int]
                                == scene_mgr.spec_object_position(so as int));
                            assert(collider_mgr.bbox@[self.collider_i@[index as int] as int].x
                                == scene_mgr.spec_object_position(so as int).x);
                            assert(collider_mgr.bbox@[self.collider_i@[index as int] as int].y
                                == scene_mgr.spec_object_position(so as int).y);
                            if index as int >= old_self.spec_len() {
                                // A row created this pass would repeat a scene
                                // object, but the active list is strictly
                                // ascending.
                                assert(pre_self.scene_object_i@[index as int] == so);
                                let m0 = choose|m: int|
                                    0 <= m < k && #[trigger] scene_mgr.active_objects@[m] == so;
                                assert(scene_mgr.active_objects@[m0]
                                    < scene_mgr.active_objects@[k as int]);
                                assert(false);
                            }
                            assert(touched < old_self.spec_len());
                        }
                    },
                    None => {
                        let position = scene_mgr.object_position(so);
                        let team_str = match scene_mgr.get_object_property_string(
                            so,
                            "team",
                            logger,
                        ) {
                            Some(v) => v,
                            None => {
                                proof {
                                    assert(false);
                                }
                                return Err(SpawnError::MissingTeam { scene_object_i: so });
                            },
                        };
                        let team = if team_str.eq(&player_str) {
                            PlayerTeam::Player
                        } else {
                            PlayerTeam::Enemy
                        };
                        let move_speed = match scene_mgr.get_object_property_int(
                            so,
                            "move_speed",
                            logger,
                        ) {
                            Some(v) => v,
                            None => {
                                proof {
                                    assert(false);
                                }
                                return Err(SpawnError::MissingMoveSpeed { scene_object_i: so });
                            },
                        };
                        let start_active = match scene_mgr.get_object_property_bool(
                            so,
                            "start_active",
                            logger,
                        ) {
                            Some(v) => v,
                            None => {
                                proof {
                                    assert(false);
                                }
                                return Err(SpawnError::MissingStartActive { scene_object_i: so });
                            },
                        };
                        proof {
                            if pre_self.spec_len() == 0 {
                                // No unit exists, so no matching object was
                                // processed yet; this object is the scene's
                                // first unit, and validation checked its
                                // team is `Player`.
                                assert forall|m: int|
                                    0 <= m < k implies scene_mgr.spec_object_class(
                                        (#[trigger] scene_mgr.active_objects@[m]) as int,
                                    ) != player_class() by {
                                    if scene_mgr.spec_object_class(
                                        scene_mgr.active_objects@[m] as int,
                                    ) == player_class() {
                                        let j0 = choose|j: int|
                                            0 <= j < self.spec_len()
                                                && #[trigger] self.scene_object_i@[j]
                                                == scene_mgr.active_objects@[m];
                                        assert(false);
                                    }
                                }
                                lemma_first_unit_skip(*scene_mgr, k as int);
                                lemma_first_unit_step(*scene_mgr, k as int);
                                assert(spec_first_unit(*scene_mgr) == Some(so));
                                assert(old_self.spec_len() == 0);
                                assert(spec_get_string(*scene_mgr, so as int, "team"@)->Some_0@
                                    == "Player"@);
                                assert(team is Player);
                            }
                        }
                        let pre_cm_len = collider_mgr.len();
                        let pre_sm_len = sprite_mgr.len();
                        let unit_i = self.add(
                            move_speed,
                            team,
                            position,
                            so,
                            template,
                            sprite_mgr,
                            collider_mgr,
                        );
                        self.set_active(unit_i, start_active, sprite_mgr, collider_mgr);
                        proof {
                            touched = unit_i as int;
                            assert(self.scene_object_i@[unit_i as int] == so);
                            assert(team == spec_player_team(*scene_mgr, so));
                            assert(start_active == spec_player_start_active(*scene_mgr, so));
                            assert(move_speed == spec_player_move_speed(*scene_mgr, so));
                            assert(self.is_active@[unit_i as int] == start_active);
                            assert(collider_mgr.is_active@[self.collider_i@[unit_i as int] as int]
                                == start_active);
                            assert(sprite_mgr.is_active@[self.sprite_i@[unit_i as int] as int]
                                == start_active);
                            assert(!pre_self.spec_bound(so));
                            assert forall|k0: int|
                                0 <= k0 < old_self.spec_len() implies #[trigger] old_self.scene_object_i@[k0]
                                    != so by {
                                assert(pre_self.scene_object_i@[k0] == old_self.scene_object_i@[
                                    k0]);
                            }
                            assert(!old_self.spec_bound(so));
                            assert(self.collider_i@[unit_i as int] == pre_cm_len);
                            assert(self.collider_i@[unit_i as int] >= old_cm.spec_len());
                            assert(self.sprite_i@[unit_i as int] == pre_sm_len);
                            assert(self.sprite_i@[unit_i as int] >= old_sm.spec_len());
                            assert(sprite_mgr.position@[self.sprite_i@[unit_i as int] as int]
                                == scene_mgr.spec_object_position(so as int));
                            assert(collider_mgr.bbox@[self.collider_i@[unit_i as int] as int].x
                                == scene_mgr.spec_object_position(so as int).x);
                        }
                    },
                }
            }
            proof {
                assert forall|j: int| 0 <= j < old_self.spec_len() implies #[trigger] self.scene_object_i@[j]
                    == old_self.scene_object_i@[j] && self.collider_i@[j]
                    == old_self.collider_i@[j] && self.sprite_i@[j] == old_self.sprite_i@[j]
                    && self.team@[j] == old_self.team@[j] by {
                    assert(pre_self.scene_object_i@[j] == old_self.scene_object_i@[j]);
                    assert(pre_self.collider_i@[j] == old_self.collider_i@[j]);
                    assert(pre_self.sprite_i@[j] == old_self.sprite_i@[j]);
                    assert(pre_self.team@[j] == old_self.team@[j]);
                }
                assert forall|j: int| old_self.spec_len() <= j < self.spec_len() implies {
                    let so_j = #[trigger] self.scene_object_i@[j];
                    &&& (exists|m: int|
                        0 <= m < k + 1 && #[trigger] scene_mgr.active_objects@[m] == so_j)
                    &&& spec_player_object(*scene_mgr, so_j)
                    &&& !old_self.spec_bound(so_j)
                    &&& self.team@[j] == spec_player_team(*scene_mgr, so_j)
                    &&& self.move_speed@[j] == spec_player_move_speed(*scene_mgr, so_j)
                    &&& self.is_active@[j] == spec_player_start_active(*scene_mgr, so_j)
                    &&& self.collider_i@[j] >= old_cm.spec_len()
                    &&& self.sprite_i@[j] >= old_sm.spec_len()
                    &&& collider_mgr.is_active@[self.collider_i@[j] as int]
                        == spec_player_start_active(*scene_mgr, so_j)
                    &&& sprite_mgr.is_active@[self.sprite_i@[j] as int]
                        == spec_player_start_active(*scene_mgr, so_j)
                    &&& sprite_mgr.position@[self.sprite_i@[j] as int]
                        == scene_mgr.spec_object_position(so_j as int)
                    &&& collider_mgr.bbox@[self.collider_i@[j] as int].x
                        == scene_mgr.spec_object_position(so_j as int).x
                    &&& collider_mgr.bbox@[self.collider_i@[j] as int].y
                        == scene_mgr.spec_object_position(so_j as int).y
                } by {
                    if j < pre_self.spec_len() {
                        assert(self.scene_object_i@[j] == pre_self.scene_object_i@[j]);
                        assert(self.collider_i@[j] == pre_self.collider_i@[j]);
                        assert(self.sprite_i@[j] == pre_self.sprite_i@[j]);
                        let so_j = pre_self.scene_object_i@[j];
                        assert(spec_player_object(*scene_mgr, so_j));
                        let m0 = choose|m: int|
                            0 <= m < k && #[trigger] scene_mgr.active_objects@[m] == so_j;
                        assert(0 <= m0 < k + 1 && scene_mgr.active_objects@[m0] == so_j);
                        if matched && touched != j {
                            assert(self.collider_i@[touched] != self.collider_i@[j]);
                            assert(self.sprite_i@[touched] != self.sprite_i@[j]);
                        }
                    } else {
                        assert(matched && j == touched);
                        assert(scene_mgr.active_objects@[k as int] == self.scene_object_i@[j]);
                    }
                }
                assert forall|j: int|
                    0 <= j < old_self.spec_len() && spec_player_row_class(
                        *scene_mgr,
                        #[trigger] old_self.scene_object_i@[j],
                    ) && (exists|m: int|
                        0 <= m < k + 1 && #[trigger] scene_mgr.active_objects@[m]
                            == old_self.scene_object_i@[j]) implies sprite_mgr.position@[
                    old_self.sprite_i@[j] as int] == scene_mgr.spec_object_position(
                        old_self.scene_object_i@[j] as int,
                    ) && collider_mgr.bbox@[old_self.collider_i@[j] as int].x
                        == scene_mgr.spec_object_position(old_self.scene_object_i@[j] as int).x
                        && collider_mgr.bbox@[old_self.collider_i@[j] as int].y
                        == scene_mgr.spec_object_position(old_self.scene_object_i@[j] as int).y by {
                    let m0 = choose|m: int|
                        0 <= m < k + 1 && #[trigger] scene_mgr.active_objects@[m]
                            == old_self.scene_object_i@[j];
                    assert(self.scene_object_i@[j] == old_self.scene_object_i@[j]);
                    if m0 == k {
                        assert(matched);
                        assert(self.scene_object_i@[touched] == so);
                        assert(touched == j);
                    } else {
                        assert(pre_sm.position@[old_self.sprite_i@[j] as int]
                            == scene_mgr.spec_object_position(old_self.scene_object_i@[j] as int));
                        if matched && touched != j {
                            assert(self.collider_i@[touched] != self.collider_i@[j]);
                            assert(self.sprite_i@[touched] != self.sprite_i@[j]);
                        }
                    }
                }
                assert forall|c: int|
                    0 <= c < old_cm.spec_len() && !(exists|j: int|
                        0 <= j < old_self.spec_len() && #[trigger] old_self.collider_i@[j] == c
                            && spec_player_object(*scene_mgr, old_self.scene_object_i@[j])) implies
                    #[trigger] collider_mgr.is_active@[c] == old_cm.is_active@[c] by {
                    assert(pre_cm.is_active@[c] == old_cm.is_active@[c]);
                    if matched {
                        if touched < old_self.spec_len() {
                            assert(old_self.scene_object_i@[touched] == self.scene_object_i@[
                                touched]);
                            assert(spec_player_object(
                                *scene_mgr,
                                old_self.scene_object_i@[touched],
                            ));
                            assert(old_self.collider_i@[touched] != c);
                            assert(self.collider_i@[touched] != c);
                        } else {
                            assert(self.collider_i@[touched] >= old_cm.spec_len());
                        }
                    }
                }
                assert forall|si: int|
                    0 <= si < old_sm.spec_len() && !(exists|j: int|
                        0 <= j < old_self.spec_len() && #[trigger] old_self.sprite_i@[j] == si
                            && spec_player_object(*scene_mgr, old_self.scene_object_i@[j])) implies
                    #[trigger] sprite_mgr.is_active@[si] == old_sm.is_active@[si] by {
                    assert(pre_sm.is_active@[si] == old_sm.is_active@[si]);
                    if matched {
                        if touched < old_self.spec_len() {
                            assert(old_self.scene_object_i@[touched] == self.scene_object_i@[
                                touched]);
                            assert(spec_player_object(
                                *scene_mgr,
                                old_self.scene_object_i@[touched],
                            ));
                            assert(old_self.sprite_i@[touched] != si);
                            assert(self.sprite_i@[touched] != si);
                        } else {
                            assert(self.sprite_i@[touched] >= old_sm.spec_len());
                        }
                    }
                }
                assert forall|j: int|
                    0 <= j < old_self.spec_len() && spec_player_row_class(
                        *scene_mgr,
                        #[trigger] old_self.scene_object_i@[j],
                    ) && (exists|m: int|
                        0 <= m < k + 1 && #[trigger] scene_mgr.active_objects@[m]
                            == old_self.scene_object_i@[j]) implies self.is_active@[j]
                    && collider_mgr.is_active@[old_self.collider_i@[j] as int]
                    && sprite_mgr.is_active@[old_self.sprite_i@[j] as int] by {
                    let m0 = choose|m: int|
                        0 <= m < k + 1 && #[trigger] scene_mgr.active_objects@[m]
                            == old_self.scene_object_i@[j];
                    if m0 == k {
                        assert(matched);
                        assert(touched == j);
                    } else {
                        assert(pre_self.is_active@[j] && pre_cm.is_active@[old_self.collider_i@[j]
                            as int] && pre_sm.is_active@[old_self.sprite_i@[j] as int]);
                        if matched && touched != j {
                            assert(self.collider_i@[touched] != self.collider_i@[j]);
                            assert(self.sprite_i@[touched] != self.sprite_i@[j]);
                        }
                    }
                }
                assert forall|m: int|
                    0 <= m < k + 1 && scene_mgr.spec_object_class(
                        (#[trigger] scene_mgr.active_objects@[m]) as int,
                    ) == player_class() implies exists|j: int|
                        0 <= j < self.spec_len() && #[trigger] self.scene_object_i@[j]
                            == scene_mgr.active_objects@[m] by {
                    if m == k {
                        assert(matched);
                        assert(0 <= touched < self.spec_len() && self.scene_object_i@[touched]
                            == scene_mgr.active_objects@[m]);
                    } else {
                        let j0 = choose|j: int|
                            0 <= j < pre_self.spec_len() && #[trigger] pre_self.scene_object_i@[j]
                                == scene_mgr.active_objects@[m];
                        assert(0 <= j0 < self.spec_len() && self.scene_object_i@[j0]
                            == scene_mgr.active_objects@[m]);
                    }
                }
            }
            k = k + 1;
        }
        proof {
            assert forall|j: int|
                0 <= j < old_self.spec_len() && spec_player_object(
                    *scene_mgr,
                    #[trigger] old_self.scene_object_i@[j],
                ) implies self.is_active@[j] && collider_mgr.is_active@[old_self.collider_i@[j]
                as int] && sprite_mgr.is_active@[old_self.sprite_i@[j] as int] by {
                let so_j = old_self.scene_object_i@[j];
                assert(scene_mgr.active_objects@.contains(so_j));
                let m0 = choose|m: int|
                    0 <= m < scene_mgr.active_objects@.len()
                        && #[trigger] scene_mgr.active_objects@[m] == so_j;
                assert(0 <= m0 < k);
            }
        }
        Ok(())
    }

    /// Despawns every `PlayerUnit` object leaving scope: rows bound to a
    /// listed object of class `PlayerUnit` become inactive, along with
    /// their colliders and sprites. Bindings, row counts and geometry are
    /// untouched.
    pub fn despawn(
        &mut self,
        scene_mgr: &SceneMgr,
        collider_mgr: &mut ColliderMgr,
        sprite_mgr: &mut SpriteMgr,
    )
        requires
            old(self).wf(),
            scene_mgr.wf(),
            old(collider_mgr).wf(),
            old(sprite_mgr).wf(),
            old(self).refs_ok(*old(collider_mgr), *old(sprite_mgr)),
        ensures
            final(self).wf(),
            final(collider_mgr).wf(),
            final(sprite_mgr).wf(),
            final(self).refs_ok(*final(collider_mgr), *final(sprite_mgr)),
            final(self).spec_len() == old(self).spec_len(),
            final(self).scene_object_i@ == old(self).scene_object_i@,
            final(self).collider_i@ == old(self).collider_i@,
            final(self).sprite_i@ == old(self).sprite_i@,
            final(collider_mgr).spec_len() == old(collider_mgr).spec_len(),
            final(sprite_mgr).spec_len() == old(sprite_mgr).spec_len(),
            final(sprite_mgr).size@ == old(sprite_mgr).size@,
            final(sprite_mgr).scale@ == old(sprite_mgr).scale@,
            final(sprite_mgr).scaled_size_cache@ == old(sprite_mgr).scaled_size_cache@,
            // Rows bound to a departing unit object become inactive.
            forall|j: int|
                0 <= j < old(self).spec_len() && spec_departing_player(
                    *scene_mgr,
                    #[trigger] old(self).scene_object_i@[j],
                ) ==> !final(self).is_active@[j] && !final(collider_mgr).is_active@[old(self).collider_i@[j] as int] && !final(sprite_mgr).is_active@[old(self).sprite_i@[j] as int],
            // All other rows keep their activity.
            forall|j: int|
                0 <= j < old(self).spec_len() && !spec_departing_player(
                    *scene_mgr,
                    #[trigger] old(self).scene_object_i@[j],
                ) ==> final(self).is_active@[j] == old(self).is_active@[j],
    {
        let num_leaving = scene_mgr.objects_to_despawn.len();
        let unit_name: String = "PlayerUnit".to_owned();
        let mut k: usize = 0;
        while k < num_leaving
            invariant
                self.wf(),
                scene_mgr.wf(),
                collider_mgr.wf(),
                sprite_mgr.wf(),
                self.refs_ok(*collider_mgr, *sprite_mgr),
                num_leaving == scene_mgr.objects_to_despawn@.len(),
                k <= num_leaving,
                unit_name@ == player_class(),
                self.spec_len() == old(self).spec_len(),
                self.scene_object_i@ == old(self).scene_object_i@,
                self.collider_i@ == old(self).collider_i@,
                self.sprite_i@ == old(self).sprite_i@,
                collider_mgr.spec_len() == old(collider_mgr).spec_len(),
                sprite_mgr.spec_len() == old(sprite_mgr).spec_len(),
                sprite_mgr.size@ == old(sprite_mgr).size@,
                sprite_mgr.scale@ == old(sprite_mgr).scale@,
                sprite_mgr.scaled_size_cache@ == old(sprite_mgr).scaled_size_cache@,
                old(self).wf(),
                old(self).refs_ok(*old(collider_mgr), *old(sprite_mgr)),
                forall|j: int|
                    0 <= j < old(self).spec_len() && (exists|m: int|
                        0 <= m < k && #[trigger] scene_mgr.objects_to_despawn@[m] == old(self).scene_object_i@[j]) && spec_player_row_class(
                        *scene_mgr,
                        #[trigger] old(self).scene_object_i@[j],
                    ) ==> !self.is_active@[j] && !collider_mgr.is_active@[old(self).collider_i@[j] as int] && !sprite_mgr.is_active@[old(self).sprite_i@[j] as int],
                forall|j: int|
                    0 <= j < old(self).spec_len() && !spec_departing_player(
                        *scene_mgr,
                        #[trigger] old(self).scene_object_i@[j],
                    ) ==> self.is_active@[j] == old(self).is_active@[j],
            decreases num_leaving - k,
        {
            let so = scene_mgr.objects_to_despawn[k];
            proof {
                assert(scene_mgr.objects_to_despawn@[k as int] == so);
                assert(scene_mgr.objects_to_despawn@.contains(so));
            }
            if scene_mgr.object_class_is(so, &unit_name) {
                match self.find_binding(so) {
                    Some(index) => {
                        self.set_active(index, false, sprite_mgr, collider_mgr);
                    },
                    None => {},
                }
            }
            k = k + 1;
        }
    }

    /// Applies one frame's mouse snapshot: a left click selects the unit
    /// under the cursor (keeping previous selections while shift is held),
    /// and a right click orders every selected unit to the cursor.
    pub fn input(
        &mut self,
        mouse_pos: Vec2i,
        l_pressed: bool,
        r_pressed: bool,
        shift_down: bool,
        collider_mgr: &ColliderMgr,
    )
        requires
            old(self).wf(),
            collider_mgr.wf(),
            forall|idx: int|
                0 <= idx < old(self).spec_len() ==> (#[trigger] old(self).collider_i@[idx])
                    < collider_mgr.spec_len(),
            vec_ok(mouse_pos),
        ensures
            final(self).wf(),
            final(self).spec_len() == old(self).spec_len(),
            final(self).move_speed@ == old(self).move_speed@,
            final(self).is_active@ == old(self).is_active@,
            final(self).team@ == old(self).team@,
            final(self).scene_object_i@ == old(self).scene_object_i@,
            final(self).collider_i@ == old(self).collider_i@,
            final(self).sprite_i@ == old(self).sprite_i@,
            final(self).collision_ignored_i@ == old(self).collision_ignored_i@,
            forall|i: int|
                0 <= i < old(self).spec_len() ==> #[trigger] final(self).is_selected@[i] == if old(self).is_active@[i] && l_pressed {
                    point_in_box(mouse_pos, collider_mgr.bbox@[old(self).collider_i@[i] as int]) || (
                    shift_down && old(self).is_selected@[i])
                } else {
                    old(self).is_selected@[i]
                },
            forall|i: int|
                0 <= i < old(self).spec_len() ==> #[trigger] final(self).move_target@[i] == if old(self).is_active@[i] && final(self).is_selected@[i] && r_pressed {
                    Some(mouse_pos)
                } else {
                    old(self).move_target@[i]
                },
    {
        let n = self.is_active.len();
        let mut i: usize = 0;
        let mut hit = Hit {
            is_colliding: false,
            collider_i: 0,
            position: Vec2i { x: 0, y: 0 },
            delta: Vec2i { x: 0, y: 0 },
            normal: Vec2i { x: 0, y: 0 },
        };
        while i < n
            invariant
                self.wf(),
                collider_mgr.wf(),
                n == self.spec_len(),
                i <= n,
                vec_ok(mouse_pos),
                self.spec_len() == old(self).spec_len(),
                self.move_speed@ == old(self).move_speed@,
                self.is_active@ == old(self).is_active@,
                self.team@ == old(self).team@,
                self.scene_object_i@ == old(self).scene_object_i@,
                self.collider_i@ == old(self).collider_i@,
                self.sprite_i@ == old(self).sprite_i@,
                self.collision_ignored_i@ == old(self).collision_ignored_i@,
                forall|idx: int|
                    0 <= idx < old(self).spec_len() ==> (#[trigger] old(self).collider_i@[idx])
                        < collider_mgr.spec_len(),
                forall|j: int|
                    0 <= j < i ==> #[trigger] self.is_selected@[j] == if old(self).is_active@[j]
                        && l_pressed {
                        point_in_box(
                            mouse_pos,
                            collider_mgr.bbox@[old(self).collider_i@[j] as int],
                        ) || (shift_down && old(self).is_selected@[j])
                    } else {
                        old(self).is_selected@[j]
                    },
                forall|j: int| i <= j < n ==> #[trigger] self.is_selected@[j] == old(self).is_selected@[j],
                forall|j: int|
                    0 <= j < i ==> #[trigger] self.move_target@[j] == if old(self).is_active@[j]
                        && self.is_selected@[j] && r_pressed {
                        Some(mouse_pos)
                    } else {
                        old(self).move_target@[j]
                    },
                forall|j: int| i <= j < n ==> #[trigger] self.move_target@[j] == old(self).move_target@[j],
            decreases n - i,
        {
            if self.is_active[i] {
                if l_pressed {
                    let ci = self.collider_i[i];
                    let bbox = collider_mgr.bbox[ci];
                    let inside = ColliderMgr::intersect_point_single(&mouse_pos, &bbox, ci, &mut hit);
                    let keep = shift_down && self.is_selected[i];
                    self.is_selected.set(i, inside || keep);
                }
                if self.is_selected[i] && r_pressed {
                    self.move_target.set(i, Some(mouse_pos));
                }
            }
            i = i + 1;
        }
    }

    /// Applies the selection box to every active unit while a drag is in
    /// progress: without shift the box's contents replace the selection;
    /// with shift they extend it.
    pub fn update_selection(&mut self, shift_down: bool, selector_box: &SelectorBox)
        requires
            old(self).wf(),
        ensures
            final(self).wf(),
            final(self).spec_len() == old(self).spec_len(),
            final(self).move_speed@ == old(self).move_speed@,
            final(self).is_active@ == old(self).is_active@,
            final(self).team@ == old(self).team@,
            final(self).scene_object_i@ == old(self).scene_object_i@,
            final(self).collider_i@ == old(self).collider_i@,
            final(self).sprite_i@ == old(self).sprite_i@,
            final(self).move_target@ == old(self).move_target@,
            final(self).collision_ignored_i@ == old(self).collision_ignored_i@,
            forall|i: int|
                0 <= i < old(self).spec_len() ==> #[trigger] final(self).is_selected@[i] == if old(self).is_active@[i] && selector_box.is_active && selector_box.is_dragging {
                    selector_box.selected_collider_i@.contains(old(self).collider_i@[i]) || (
                    shift_down && old(self).is_selected@[i])
                } else {
                    old(self).is_selected@[i]
                },
    {
        if !selector_box.is_dragging() {
            return ;
        }
        let n = self.is_active.len();
        let mut i: usize = 0;
        while i < n
            invariant
                self.wf(),
                n == self.spec_len(),
                i <= n,
                selector_box.is_active && selector_box.is_dragging,
                self.spec_len() == old(self).spec_len(),
                self.move_speed@ == old(self).move_speed@,
                self.is_active@ == old(self).is_active@,
                self.team@ == old(self).team@,
                self.scene_object_i@ == old(self).scene_object_i@,
                self.collider_i@ == old(self).collider_i@,
                self.sprite_i@ == old(self).sprite_i@,
                self.move_target@ == old(self).move_target@,
                self.collision_ignored_i@ == old(self).collision_ignored_i@,
                forall|j: int|
                    0 <= j < i ==> #[trigger] self.is_selected@[j] == if old(self).is_active@[j] {
                        selector_box.selected_collider_i@.contains(old(self).collider_i@[j]) || (
                        shift_down && old(self).is_selected@[j])
                    } else {
                        old(self).is_selected@[j]
                    },
                forall|j: int| i <= j < n ==> #[trigger] self.is_selected@[j] == old(self).is_selected@[j],
            decreases n - i,
        {
            if self.is_active[i] {
                let ci = self.collider_i[i];
                let in_box = Self::contains_handle(selector_box.selected_collider_i(), ci);
                let keep = shift_down && self.is_selected[i];
                self.is_selected.set(i, in_box || keep);
            }
            i = i + 1;
        }
    }

    /// Whether `list` contains the handle `v`.
    fn contains_handle(list: &Vec<usize>, v: usize) -> (r: bool)
        ensures
            r == list@.contains(v),
    {
        let n = list.len();
        let mut i: usize = 0;
        while i < n
            invariant
                i <= n,
                n == list@.len(),
                forall|j: int| 0 <= j < i ==> list@[j] != v,
            decreases n - i,
        {
            if list[i] == v {
                return true;
            }
            i = i + 1;
        }
        false
    }

    /// Clears a unit's movement order, for when it has arrived.
    pub fn clear_move_target(&mut self, index: usize)
        requires
            old(self).wf(),
            index < old(self).spec_len(),
        ensures
            final(self).wf(),
            final(self).move_target@ == old(self).move_target@.update(index as int, None),
            final(self).is_selected@ == old(self).is_selected@,
            final(self).is_active@ == old(self).is_active@,
            final(self).move_speed@ == old(self).move_speed@,
            final(self).team@ == old(self).team@,
            final(self).scene_object_i@ == old(self).scene_object_i@,
            final(self).collider_i@ == old(self).collider_i@,
            final(self).sprite_i@ == old(self).sprite_i@,
            final(self).collision_ignored_i@ == old(self).collision_ignored_i@,
    {
        self.move_target.set(index, None);
    }

    /// A unit's current movement order.
    pub fn move_target(&self, index: usize) -> (r: Option<Vec2i>)
        requires
            self.wf(),
            index < self.spec_len(),
        ensures
            r == self.move_target@[index as int],
    {
        self.move_target[index]
    }

    pub fn move_speed(&self, index: usize) -> (r: i64)
        requires
            self.wf(),
            index < self.spec_len(),
        ensures
            r == self.move_speed@[index as int],
    {
        self.move_speed[index]
    }

    /// Moves unit `index` by `translation`, resolving collisions: the
    /// translated box is tested against all other active colliders (except
    /// the ignored ones) and every reported penetration delta is subtracted
    /// from the tentative position, in hit order. When the resolved
    /// position would leave the world bounds nothing moves and `false` is
    /// returned.
    pub fn update_movement(
        &self,
        index: usize,
        translation: Vec2i,
        hit_buffer: &mut Vec<Hit>,
        sprite_mgr: &mut SpriteMgr,
        collider_mgr: &mut ColliderMgr,
    ) -> (applied: bool)
        requires
            self.wf(),
            old(collider_mgr).wf(),
            old(sprite_mgr).wf(),
            self.refs_ok(*old(collider_mgr), *old(sprite_mgr)),
            index < self.spec_len(),
            old(hit_buffer)@.len() == MAX_COLLISION_COUNT,
            coord_ok(
                old(collider_mgr).bbox@[self.collider_i@[index as int] as int].x + translation.x,
            ),
            coord_ok(
                old(collider_mgr).bbox@[self.collider_i@[index as int] as int].y + translation.y,
            ),
        ensures
            final(collider_mgr).wf(),
            final(sprite_mgr).wf(),
            self.refs_ok(*final(collider_mgr), *final(sprite_mgr)),
            final(hit_buffer)@.len() == MAX_COLLISION_COUNT,
            ({
                let hits = box_hits_upto(
                    old(collider_mgr).bbox@,
                    old(collider_mgr).is_active@,
                    self.collider_i@[index as int] as int,
                    self.collision_ignored_i@,
                    old(collider_mgr).spec_moved_bbox(
                        self.collider_i@[index as int] as int,
                        translation,
                    ),
                    old(collider_mgr).spec_len() as int,
                );
                let count = vstd::math::min(hits.len() as int, MAX_COLLISION_COUNT as int);
                forall|j: int|
                    count <= j < MAX_COLLISION_COUNT ==> #[trigger] final(hit_buffer)@[j] == old(hit_buffer)@[j]
            }),
            final(collider_mgr).spec_len() == old(collider_mgr).spec_len(),
            final(sprite_mgr).spec_len() == old(sprite_mgr).spec_len(),
            final(collider_mgr).is_active@ == old(collider_mgr).is_active@,
            final(sprite_mgr).is_active@ == old(sprite_mgr).is_active@,
            ({
                let ci = self.collider_i@[index as int] as int;
                let si = self.sprite_i@[index as int] as int;
                let moved = old(collider_mgr).spec_moved_bbox(ci, translation);
                let hits = box_hits_upto(
                    old(collider_mgr).bbox@,
                    old(collider_mgr).is_active@,
                    ci,
                    self.collision_ignored_i@,
                    moved,
                    old(collider_mgr).spec_len() as int,
                );
                let count = vstd::math::min(hits.len() as int, MAX_COLLISION_COUNT as int);
                let new_x = old(collider_mgr).bbox@[ci].x + translation.x - sum_delta_x(
                    final(hit_buffer)@,
                    count,
                );
                let new_y = old(collider_mgr).bbox@[ci].y + translation.y - sum_delta_y(
                    final(hit_buffer)@,
                    count,
                );
                &&& (forall|j: int|
                    0 <= j < count ==> box_hit_ok(
                        #[trigger] final(hit_buffer)@[j],
                        moved,
                        old(collider_mgr).bbox@[hits[j]],
                        hits[j],
                    ))
                &&& applied == (coord_ok(new_x) && coord_ok(new_y))
                &&& applied ==> final(sprite_mgr).position@ == old(sprite_mgr).position@.update(
                    si,
                    (Vec2i { x: new_x as i64, y: new_y as i64 }),
                ) && final(collider_mgr).bbox@ == old(collider_mgr).bbox@.update(
                    ci,
                    (Recti {
                        x: new_x as i64,
                        y: new_y as i64,
                        w: old(collider_mgr).bbox@[ci].w,
                        h: old(collider_mgr).bbox@[ci].h,
                    }),
                )
                &&& !applied ==> final(sprite_mgr).position@ == old(sprite_mgr).position@ && final(collider_mgr).bbox@ == old(collider_mgr).bbox@
                &&& final(sprite_mgr).size@ == old(sprite_mgr).size@
                &&& final(sprite_mgr).scale@ == old(sprite_mgr).scale@
                &&& final(sprite_mgr).scaled_size_cache@ == old(sprite_mgr).scaled_size_cache@
            }),
    {
        let ci = self.collider_i[index];
        let si = self.sprite_i[index];
        let b = collider_mgr.bbox[ci];
        let mov_hits = collider_mgr.intersect_bbox(
            ci,
            &translation,
            hit_buffer,
            Some(&self.collision_ignored_i),
        );
        let ghost moved = collider_mgr.spec_moved_bbox(ci as int, translation);
        let ghost hits = box_hits_upto(
            collider_mgr.bbox@,
            collider_mgr.is_active@,
            ci as int,
            self.collision_ignored_i@,
            moved,
            collider_mgr.spec_len() as int,
        );
        proof {
            assert(ignore_view(Some(&self.collision_ignored_i)) == self.collision_ignored_i@);
            crate::collider::lemma_box_hits_upto_props(
                collider_mgr.bbox@,
                collider_mgr.is_active@,
                ci as int,
                self.collision_ignored_i@,
                moved,
                collider_mgr.spec_len() as int,
            );
        }
        let mut acc_x: i64 = 0;
        let mut acc_y: i64 = 0;
        let mut j: usize = 0;
        while j < mov_hits
            invariant
                collider_mgr.wf(),
                ci < collider_mgr.spec_len(),
                mov_hits <= MAX_COLLISION_COUNT,
                j <= mov_hits,
                hit_buffer@.len() == MAX_COLLISION_COUNT,
                moved == collider_mgr.spec_moved_bbox(ci as int, translation),
                rect_ok(moved),
                hits == box_hits_upto(
                    collider_mgr.bbox@,
                    collider_mgr.is_active@,
                    ci as int,
                    self.collision_ignored_i@,
                    moved,
                    collider_mgr.spec_len() as int,
                ),
                mov_hits == vstd::math::min(hits.len() as int, MAX_COLLISION_COUNT as int),
                forall|m: int|
                    0 <= m < mov_hits ==> 0 <= hits[m] < collider_mgr.spec_len() && box_hit_ok(
                        #[trigger] hit_buffer@[m],
                        moved,
                        collider_mgr.bbox@[hits[m]],
                        hits[m],
                    ),
                acc_x == sum_delta_x(hit_buffer@, j as int),
                acc_y == sum_delta_y(hit_buffer@, j as int),
                -3 * (j as int) * COORD_LIMIT as int <= acc_x <= 3 * (j as int) * COORD_LIMIT
                    as int,
                -3 * (j as int) * COORD_LIMIT as int <= acc_y <= 3 * (j as int) * COORD_LIMIT
                    as int,
            decreases mov_hits - j,
        {
            let hit = hit_buffer[j];
            proof {
                crate::collider::lemma_hit_delta_bounds(
                    hit,
                    moved,
                    collider_mgr.bbox@[hits[j as int]],
                    hits[j as int],
                );
                lemma_sum_delta_step(hit_buffer@, j + 1);
            }
            if hit.is_colliding {
                acc_x = acc_x + hit.delta.x;
                acc_y = acc_y + hit.delta.y;
            } else {
                proof {
                    assert(false);
                }
            }
            j = j + 1;
        }
        let new_x = b.x + translation.x - acc_x;
        let new_y = b.y + translation.y - acc_y;
        if new_x < -COORD_LIMIT || new_x > COORD_LIMIT || new_y < -COORD_LIMIT || new_y
            > COORD_LIMIT {
            return false;
        }
        sprite_mgr.set_position(si, Vec2i { x: new_x, y: new_y });
        collider_mgr.set_position(ci, new_x, new_y);
        true
    }
}

} // verus!
