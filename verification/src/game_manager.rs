//! Frame orchestrator: owns every registry and manager and sequences the
//! per-frame rounds.
//!
//! One logical frame runs despawn, then spawn, then input, then update,
//! then render; despawn must run before spawn in the same frame so a map
//! being left never shows stale active objects. Rendering and input polling
//! are external collaborators: they read the registries and hand plain
//! input snapshots in.

use vstd::prelude::*;

use crate::collider::ColliderMgr;
use crate::game_logic::GameLogic;
use crate::log::{LogLevel, Logger};
use crate::player::{spec_player_spawn_valid, PlayerUnitMgr};
use crate::scene::{SceneMgr, SpawnError};
use crate::selector_box::SelectorBox;
use crate::sprite::SpriteMgr;
use crate::summoning_circle::{template_ok, SpriteTemplate, SummoningCircleMgr};
use crate::tile::TileMgr;
use crate::wall::{spec_wall_spawn_valid, WallMgr};

verus! {

/// Main game manager. Owns all individual system managers.
pub struct GameMgr {
    pub tile_mgr: TileMgr,
    pub scene_mgr: SceneMgr,
    pub sprite_mgr: SpriteMgr,
    pub collider_mgr: ColliderMgr,
    pub player_unit_mgr: PlayerUnitMgr,
    pub wall_mgr: WallMgr,
    pub summoning_circle_mgr: SummoningCircleMgr,
    pub selector_box: SelectorBox,
    pub game_logic: GameLogic,
    pub logger: Logger,
}

impl GameMgr {
    /// Every registry and manager is well-formed and every cross-registry
    /// handle is valid.
    pub open spec fn wf(&self) -> bool {
        &&& self.tile_mgr.wf()
        &&& self.scene_mgr.wf()
        &&& self.sprite_mgr.wf()
        &&& self.collider_mgr.wf()
        &&& self.player_unit_mgr.wf()
        &&& self.wall_mgr.wf()
        &&& self.summoning_circle_mgr.wf()
        &&& self.game_logic.wf()
        &&& self.wall_mgr.refs_ok(self.collider_mgr)
        &&& self.summoning_circle_mgr.refs_ok(self.collider_mgr, self.sprite_mgr)
        &&& self.player_unit_mgr.refs_ok(self.collider_mgr, self.sprite_mgr)
    }

    /// `init` has run: the selection box owns a collider row.
    pub open spec fn inited(&self) -> bool {
        self.selector_box.inited(self.collider_mgr)
    }

    pub fn new() -> (r: GameMgr)
        ensures
            r.wf(),
            !r.inited() ==> r.selector_box.collider_i is None,
            r.scene_mgr.spec_len() == 0,
            r.collider_mgr.spec_len() == 0,
            r.sprite_mgr.spec_len() == 0,
            !r.scene_mgr.pending_spawn,
            !r.scene_mgr.pending_despawn,
    {
        GameMgr {
            tile_mgr: TileMgr::new(),
            scene_mgr: SceneMgr::new(),
            sprite_mgr: SpriteMgr::new(),
            collider_mgr: ColliderMgr::new(),
            player_unit_mgr: PlayerUnitMgr::new(),
            wall_mgr: WallMgr::new(),
            summoning_circle_mgr: SummoningCircleMgr::new(),
            selector_box: SelectorBox::new(),
            game_logic: GameLogic::new(),
            logger: Logger::new(LogLevel::DEBUG),
        }
    }

    /// Wires the selection box into the collider registry and tells the
    /// unit manager to ignore its collider in movement queries.
    pub fn init(&mut self)
        requires
            old(self).wf(),
        ensures
            final(self).wf(),
            final(self).inited(),
    {
        self.selector_box.init(&mut self.collider_mgr);
        self.player_unit_mgr.init(&self.selector_box);
    }

    /// Runs the spawn round owed for a newly activated scene, in manager
    /// order: selection box, summoning circles, walls, units. Stops at the
    /// first configuration error, leaving the spawn round pending so the
    /// caller can surface the failure.
    pub fn spawn(&mut self, circle_template: SpriteTemplate, player_template: SpriteTemplate)
        -> (r: Result<(), SpawnError>)
        requires
            old(self).wf(),
            old(self).inited(),
            template_ok(circle_template),
            template_ok(player_template),
        ensures
            final(self).wf(),
            final(self).inited(),
            old(self).scene_mgr.pending_spawn ==> (r is Ok <==> spec_wall_spawn_valid(
                old(self).scene_mgr,
            ) && spec_player_spawn_valid(old(self).scene_mgr)
                && crate::player::spec_first_unit_ok(
                old(self).player_unit_mgr.spec_len(),
                old(self).scene_mgr,
            )),
            !old(self).scene_mgr.pending_spawn ==> r is Ok && *final(self) == *old(self),
            r is Ok ==> !final(self).scene_mgr.pending_spawn,
            r is Err ==> final(self).scene_mgr.pending_spawn == old(self).scene_mgr.pending_spawn,
            old(self).scene_mgr.pending_spawn && r is Ok ==> {
                // Every matching object of each spawnable kind ends the
                // round with a bound manager row; walls and circles are
                // active, units take their declared initial activity.
                &&& forall|m: int|
                    0 <= m < old(self).scene_mgr.active_objects@.len()
                        && old(self).scene_mgr.spec_object_class(
                        (#[trigger] old(self).scene_mgr.active_objects@[m]) as int,
                    ) == crate::wall::wall_class() ==> exists|j: int|
                        0 <= j < final(self).wall_mgr.spec_len() && #[trigger] final(self).wall_mgr.scene_object_i@[j] == old(self).scene_mgr.active_objects@[m]
                            && final(self).wall_mgr.is_active@[j]
                &&& forall|m: int|
                    0 <= m < old(self).scene_mgr.active_objects@.len()
                        && old(self).scene_mgr.spec_object_class(
                        (#[trigger] old(self).scene_mgr.active_objects@[m]) as int,
                    ) == crate::summoning_circle::circle_class() ==> exists|j: int|
                        0 <= j < final(self).summoning_circle_mgr.spec_len() && #[trigger] final(self).summoning_circle_mgr.scene_object_i@[j] == old(self).scene_mgr.active_objects@[m] && final(self).summoning_circle_mgr.is_active@[j]
                &&& forall|m: int|
                    0 <= m < old(self).scene_mgr.active_objects@.len()
                        && old(self).scene_mgr.spec_object_class(
                        (#[trigger] old(self).scene_mgr.active_objects@[m]) as int,
                    ) == crate::player::player_class() ==> exists|j: int|
                        0 <= j < final(self).player_unit_mgr.spec_len() && #[trigger] final(self).player_unit_mgr.scene_object_i@[j] == old(self).scene_mgr.active_objects@[m]
            },
            final(self).scene_mgr.scene_id@ == old(self).scene_mgr.scene_id@,
            final(self).scene_mgr.active_objects@ == old(self).scene_mgr.active_objects@,
            final(self).scene_mgr.objects_to_despawn@ == old(self).scene_mgr.objects_to_despawn@,
            final(self).scene_mgr.pending_despawn == old(self).scene_mgr.pending_despawn,
    {
        if !self.scene_mgr.has_pending_spawn() {
            return Ok(());
        }
        self.selector_box.spawn(&mut self.collider_mgr);
        self.summoning_circle_mgr.spawn(
            &self.scene_mgr,
            &mut self.collider_mgr,
            &mut self.sprite_mgr,
            circle_template,
        );
        match self.wall_mgr.spawn(&self.scene_mgr, &mut self.collider_mgr) {
            Ok(()) => {},
            Err(e) => {
                return Err(e);
            },
        }
        match self.player_unit_mgr.spawn(
            &self.scene_mgr,
            &mut self.sprite_mgr,
            &mut self.collider_mgr,
            player_template,
            &mut self.logger,
        ) {
            Ok(()) => {},
            Err(e) => {
                return Err(e);
            },
        }
        self.scene_mgr.spawn();
        Ok(())
    }

    /// Runs the despawn round owed for the objects leaving scope, in
    /// manager order: selection box, summoning circles, walls, units. Rows
    /// bound to departing objects become inactive; nothing is deleted.
    pub fn despawn(&mut self)
        requires
            old(self).wf(),
            old(self).inited(),
        ensures
            final(self).wf(),
            final(self).inited(),
            !final(self).scene_mgr.pending_despawn,
            final(self).scene_mgr.pending_spawn == old(self).scene_mgr.pending_spawn,
            final(self).scene_mgr.scene_id@ == old(self).scene_mgr.scene_id@,
            final(self).scene_mgr.active_objects@ == old(self).scene_mgr.active_objects@,
            final(self).collider_mgr.spec_len() == old(self).collider_mgr.spec_len(),
            final(self).sprite_mgr.spec_len() == old(self).sprite_mgr.spec_len(),
            final(self).wall_mgr.scene_object_i@ == old(self).wall_mgr.scene_object_i@,
            final(self).summoning_circle_mgr.scene_object_i@ == old(self).summoning_circle_mgr.scene_object_i@,
            final(self).player_unit_mgr.scene_object_i@ == old(self).player_unit_mgr.scene_object_i@,
            old(self).scene_mgr.pending_despawn ==> {
                // Rows bound to a departing object of each kind end the
                // round inactive.
                &&& forall|j: int|
                    0 <= j < old(self).wall_mgr.spec_len() && crate::wall::spec_departing_wall(
                        old(self).scene_mgr,
                        #[trigger] old(self).wall_mgr.scene_object_i@[j],
                    ) ==> !final(self).wall_mgr.is_active@[j]
                &&& forall|j: int|
                    0 <= j < old(self).summoning_circle_mgr.spec_len()
                        && crate::summoning_circle::spec_departing_circle(
                        old(self).scene_mgr,
                        #[trigger] old(self).summoning_circle_mgr.scene_object_i@[j],
                    ) ==> !final(self).summoning_circle_mgr.is_active@[j]
                &&& forall|j: int|
                    0 <= j < old(self).player_unit_mgr.spec_len()
                        && crate::player::spec_departing_player(
                        old(self).scene_mgr,
                        #[trigger] old(self).player_unit_mgr.scene_object_i@[j],
                    ) ==> !final(self).player_unit_mgr.is_active@[j]
            },
            !old(self).scene_mgr.pending_despawn ==> *final(self) == *old(self),
    {
        if !self.scene_mgr.has_pending_despawn() {
            return ;
        }
        self.selector_box.despawn(&mut self.collider_mgr);
        self.summoning_circle_mgr.despawn(
            &self.scene_mgr,
            &mut self.collider_mgr,
            &mut self.sprite_mgr,
        );
        self.wall_mgr.despawn(&self.scene_mgr, &mut self.collider_mgr);
        self.player_unit_mgr.despawn(
            &self.scene_mgr,
            &mut self.collider_mgr,
            &mut self.sprite_mgr,
        );
        self.scene_mgr.despawn();
    }
}

} // verus!
