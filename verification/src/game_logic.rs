//! Main game logic controller: level bookkeeping and the top-level game
//! state machine.
//!
//! Levels map to scene ids in registration order; loading a level makes its
//! scene the active one, which queues the despawn-then-spawn round for the
//! frame orchestrator.

use vstd::prelude::*;

use crate::scene::{spec_scene_tiles_registered, SceneMgr};
use crate::tile::TileMgr;

verus! {

/// The top-level mode the game is in.
#[derive(Clone, Copy, PartialEq, Eq, Structural, Debug)]
pub enum GameState {
    Initialization,
    MainMenu,
    IngameGameplay,
    IngamePause,
}

/// Main game logic controller.
pub struct GameLogic {
    pub state: GameState,
    pub current_level: usize,
    /// The scene id of each level, in level order.
    pub level_scene_i: Vec<usize>,
}

impl GameLogic {
    /// The current level refers to a registered level, or is still the
    /// initial zero.
    pub open spec fn wf(&self) -> bool {
        self.current_level == 0 || (self.current_level as int) < self.level_scene_i@.len()
    }

    pub fn new() -> (r: GameLogic)
        ensures
            r.wf(),
            r.state is Initialization,
            r.current_level == 0,
            r.level_scene_i@.len() == 0,
    {
        GameLogic { state: GameState::Initialization, current_level: 0, level_scene_i: Vec::new() }
    }

    /// Registers the scene id of the next level and returns the level
    /// number.
    pub fn register_level(&mut self, scene_i: usize) -> (level: usize)
        requires
            old(self).wf(),
        ensures
            final(self).wf(),
            level == old(self).level_scene_i@.len(),
            final(self).level_scene_i@ == old(self).level_scene_i@.push(scene_i),
            final(self).state == old(self).state,
            final(self).current_level == old(self).current_level,
    {
        self.level_scene_i.push(scene_i);
        self.level_scene_i.len() - 1
    }

    pub fn set_state(&mut self, state: GameState)
        ensures
            final(self).state == state,
            final(self).current_level == old(self).current_level,
            final(self).level_scene_i@ == old(self).level_scene_i@,
    {
        self.state = state;
    }

    pub fn state(&self) -> (r: GameState)
        ensures
            r == self.state,
    {
        self.state
    }

    pub fn get_level_scene_i(&self, level: usize) -> (r: usize)
        requires
            level < self.level_scene_i@.len(),
        ensures
            r == self.level_scene_i@[level as int],
    {
        self.level_scene_i[level]
    }

    pub fn current_scene_i(&self) -> (r: usize)
        requires
            (self.current_level as int) < self.level_scene_i@.len(),
        ensures
            r == self.level_scene_i@[self.current_level as int],
    {
        self.level_scene_i[self.current_level]
    }

    /// Makes `level` current and activates its scene, queueing the
    /// despawn-then-spawn round.
    pub fn load_level(&mut self, level: usize, scene_mgr: &mut SceneMgr, tile_mgr: &TileMgr)
        requires
            old(self).wf(),
            old(scene_mgr).wf(),
            tile_mgr.wf(),
            level < old(self).level_scene_i@.len(),
            (old(self).level_scene_i@[level as int] as int) < old(scene_mgr).scene_names@.len(),
            spec_scene_tiles_registered(
                *old(scene_mgr),
                *tile_mgr,
                old(self).level_scene_i@[level as int] as int,
            ),
        ensures
            final(self).wf(),
            final(scene_mgr).wf(),
            final(self).current_level == level,
            final(self).state == old(self).state,
            final(self).level_scene_i@ == old(self).level_scene_i@,
            final(scene_mgr).active_scene_id == Some(
                old(self).level_scene_i@[level as int] as usize,
            ),
            final(scene_mgr).pending_spawn,
            final(scene_mgr).pending_despawn,
            final(scene_mgr).objects_to_despawn@ == old(scene_mgr).active_objects@,
            final(scene_mgr).scene_id@ == old(scene_mgr).scene_id@,
            final(scene_mgr).layer_tag@ == old(scene_mgr).layer_tag@,
            final(scene_mgr).object_class@ == old(scene_mgr).object_class@,
            final(scene_mgr).object_position@ == old(scene_mgr).object_position@,
            final(scene_mgr).object_size@ == old(scene_mgr).object_size@,
            final(scene_mgr).object_properties@ == old(scene_mgr).object_properties@,
    {
        self.current_level = level;
        let scene_i = self.current_scene_i();
        scene_mgr.set_active_scene(Some(scene_i), tile_mgr);
    }
}

} // verus!
