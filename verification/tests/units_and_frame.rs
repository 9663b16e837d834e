use summoning_core::collider::{ColliderMgr, MAX_COLLISION_COUNT};
use summoning_core::game_logic::GameState;
use summoning_core::game_manager::GameMgr;
use summoning_core::geom::{Recti, Vec2i};
use summoning_core::log::{LogLevel, Logger};
use summoning_core::player::PlayerUnitMgr;
use summoning_core::scene::{Property, PropertyValue, SceneMgr, SpawnError};
use summoning_core::selector_box::SelectorBox;
use summoning_core::sprite::SpriteMgr;
use summoning_core::summoning_circle::SpriteTemplate;
use summoning_core::tile::TileMgr;

fn template() -> SpriteTemplate {
    SpriteTemplate {
        texture_i: 0,
        size: Vec2i { x: 100, y: 100 },
        scale: Vec2i { x: 10, y: 10 },
    }
}

fn unit_props(team: &str, speed: i64, active: bool) -> Vec<Property> {
    vec![
        Property { name: "team".to_string(), value: PropertyValue::StrV(team.to_string()) },
        Property { name: "move_speed".to_string(), value: PropertyValue::IntV(speed) },
        Property { name: "start_active".to_string(), value: PropertyValue::BoolV(active) },
    ]
}

/// One unit at (0, 0) with a 10 by 10 box, ready for movement tests.
fn unit_world() -> (PlayerUnitMgr, SpriteMgr, ColliderMgr) {
    let mut scene = SceneMgr::new();
    let tm = TileMgr::new();
    let id = scene.register_scene("maps/one.tmx");
    scene.add_object(
        id,
        1,
        "unit-1".to_string(),
        "PlayerUnit".to_string(),
        Vec2i { x: 0, y: 0 },
        None,
        unit_props("Player", 100, true),
    );
    scene.set_active_scene(Some(id), &tm);
    let mut units = PlayerUnitMgr::new();
    let mut sm = SpriteMgr::new();
    let mut cm = ColliderMgr::new();
    let mut logger = Logger::new(LogLevel::NONE);
    units
        .spawn(&scene, &mut sm, &mut cm, template(), &mut logger)
        .unwrap();
    (units, sm, cm)
}

#[test]
fn click_selects_the_unit_under_the_cursor() {
    let (mut units, _sm, cm) = unit_world();
    units.input(Vec2i { x: 5, y: 5 }, true, false, false, &cm);
    assert!(units.is_selected[0]);
    // Clicking empty space without shift clears the selection.
    units.input(Vec2i { x: 50, y: 50 }, true, false, false, &cm);
    assert!(!units.is_selected[0]);
}

#[test]
fn shift_click_keeps_previous_selection() {
    let (mut units, _sm, cm) = unit_world();
    units.input(Vec2i { x: 5, y: 5 }, true, false, false, &cm);
    units.input(Vec2i { x: 50, y: 50 }, true, false, true, &cm);
    assert!(units.is_selected[0]);
}

#[test]
fn right_click_orders_selected_units_to_move() {
    let (mut units, _sm, cm) = unit_world();
    units.input(Vec2i { x: 5, y: 5 }, true, false, false, &cm);
    units.input(Vec2i { x: 40, y: 30 }, false, true, false, &cm);
    assert_eq!(units.move_target(0), Some(Vec2i { x: 40, y: 30 }));
    units.clear_move_target(0);
    assert_eq!(units.move_target(0), None);
}

#[test]
fn unselected_units_ignore_movement_orders() {
    let (mut units, _sm, cm) = unit_world();
    units.input(Vec2i { x: 40, y: 30 }, false, true, false, &cm);
    assert_eq!(units.move_target(0), None);
}

#[test]
fn drag_selection_box_selects_overlapped_units() {
    let (mut units, _sm, mut cm) = unit_world();
    let mut selector = SelectorBox::new();
    selector.init(&mut cm);
    units.init(&selector);
    let mut buffer = ColliderMgr::create_hit_buffer(MAX_COLLISION_COUNT);
    // Drag a box across the unit and collect the overlapped colliders.
    selector.input(Vec2i { x: -5, y: -5 }, true, false, false, &mut cm);
    selector.input(Vec2i { x: 8, y: 8 }, false, true, false, &mut cm);
    selector.update(&cm, &mut buffer);
    assert_eq!(selector.selected_collider_i(), &vec![0]);
    units.update_selection(false, &selector);
    assert!(units.is_selected[0]);
    // Releasing resets the box to a zero-sized rectangle.
    selector.input(Vec2i { x: 8, y: 8 }, false, false, true, &mut cm);
    assert!(!selector.is_dragging());
    assert_eq!(cm.bbox[selector.collider_i()], Recti::new(0, 0, 0, 0));
}

#[test]
fn drag_normalizes_negative_extents() {
    let mut selector = SelectorBox::new();
    let mut cm = ColliderMgr::new();
    selector.init(&mut cm);
    selector.input(Vec2i { x: 10, y: 20 }, true, false, false, &mut cm);
    selector.input(Vec2i { x: 4, y: 5 }, false, true, false, &mut cm);
    assert_eq!(cm.bbox[selector.collider_i()], Recti::new(4, 5, 6, 15));
}

#[test]
fn movement_resolves_against_an_obstacle_exactly() {
    // Unit box at (0, 0); wall at (12, 0). Moving right by 5 overlaps the
    // wall by 3, so the resolved position is 2: exactly touching.
    let (units, mut sm, mut cm) = unit_world();
    cm.add(Recti::new(12, 0, 10, 10));
    let mut buffer = ColliderMgr::create_hit_buffer(MAX_COLLISION_COUNT);
    let applied = units.update_movement(0, Vec2i { x: 5, y: 0 }, &mut buffer, &mut sm, &mut cm);
    assert!(applied);
    assert_eq!(sm.position(0), Vec2i { x: 2, y: 0 });
    assert_eq!(cm.bbox[0], Recti::new(2, 0, 10, 10));
    // After resolution the unit no longer collides with the wall.
    let count = cm.intersect_bbox(0, &Vec2i { x: 0, y: 0 }, &mut buffer, None);
    assert_eq!(count, 0);
}

#[test]
fn movement_without_contact_applies_the_translation() {
    let (units, mut sm, mut cm) = unit_world();
    let mut buffer = ColliderMgr::create_hit_buffer(MAX_COLLISION_COUNT);
    let applied = units.update_movement(0, Vec2i { x: 7, y: -4 }, &mut buffer, &mut sm, &mut cm);
    assert!(applied);
    assert_eq!(sm.position(0), Vec2i { x: 7, y: -4 });
    assert_eq!(cm.bbox[0], Recti::new(7, -4, 10, 10));
}

#[test]
fn movement_ignores_listed_colliders() {
    let (mut units, mut sm, mut cm) = unit_world();
    let mut selector = SelectorBox::new();
    selector.init(&mut cm);
    units.init(&selector);
    // Put the selection box collider right on the unit's path; movement
    // must pass through it.
    let sel_ci = selector.collider_i();
    cm.bbox[sel_ci] = Recti::new(3, 0, 10, 10);
    let mut buffer = ColliderMgr::create_hit_buffer(MAX_COLLISION_COUNT);
    let applied = units.update_movement(0, Vec2i { x: 5, y: 0 }, &mut buffer, &mut sm, &mut cm);
    assert!(applied);
    assert_eq!(sm.position(0), Vec2i { x: 5, y: 0 });
}

#[test]
fn game_state_transitions() {
    let mut gm = GameMgr::new();
    assert_eq!(gm.game_logic.state(), GameState::Initialization);
    gm.game_logic.set_state(GameState::IngameGameplay);
    assert_eq!(gm.game_logic.state(), GameState::IngameGameplay);
}

#[test]
fn frame_orchestrator_runs_despawn_then_spawn() {
    let mut gm = GameMgr::new();
    gm.init();
    let one = gm.scene_mgr.register_scene("maps/one.tmx");
    let two = gm.scene_mgr.register_scene("maps/two.tmx");
    gm.scene_mgr.add_object(
        one,
        1,
        "wall-1".to_string(),
        "Wall".to_string(),
        Vec2i { x: 20, y: 20 },
        Some(Vec2i { x: 10, y: 10 }),
        Vec::new(),
    );
    gm.scene_mgr.add_object(
        one,
        1,
        "circle-1".to_string(),
        "SummoningCircle".to_string(),
        Vec2i { x: 60, y: 60 },
        None,
        Vec::new(),
    );
    gm.scene_mgr.add_object(
        one,
        1,
        "unit-1".to_string(),
        "PlayerUnit".to_string(),
        Vec2i { x: 0, y: 0 },
        None,
        unit_props("Player", 100, true),
    );
    let level_one = gm.game_logic.register_level(one);
    let level_two = gm.game_logic.register_level(two);

    // Enter level one: despawn (nothing yet), then spawn everything.
    gm.game_logic
        .load_level(level_one, &mut gm.scene_mgr, &gm.tile_mgr);
    gm.despawn();
    assert_eq!(gm.spawn(template(), template()), Ok(()));
    assert!(!gm.scene_mgr.has_pending_spawn());
    assert_eq!(gm.wall_mgr.len(), 1);
    assert_eq!(gm.summoning_circle_mgr.len(), 1);
    assert_eq!(gm.player_unit_mgr.len(), 1);
    assert!(gm.wall_mgr.is_active[0]);
    assert!(gm.summoning_circle_mgr.is_active(0));
    assert!(gm.player_unit_mgr.is_active(0));

    // Switch to the empty level two: everything deactivates, nothing is
    // deleted, and nothing new spawns.
    gm.game_logic
        .load_level(level_two, &mut gm.scene_mgr, &gm.tile_mgr);
    gm.despawn();
    assert_eq!(gm.spawn(template(), template()), Ok(()));
    assert_eq!(gm.wall_mgr.len(), 1);
    assert_eq!(gm.summoning_circle_mgr.len(), 1);
    assert_eq!(gm.player_unit_mgr.len(), 1);
    assert!(!gm.wall_mgr.is_active[0]);
    assert!(!gm.summoning_circle_mgr.is_active(0));
    assert!(!gm.player_unit_mgr.is_active(0));

    // Return to level one: the same rows reactivate.
    gm.game_logic
        .load_level(level_one, &mut gm.scene_mgr, &gm.tile_mgr);
    gm.despawn();
    assert_eq!(gm.spawn(template(), template()), Ok(()));
    assert_eq!(gm.wall_mgr.len(), 1);
    assert!(gm.wall_mgr.is_active[0]);
    assert!(gm.player_unit_mgr.is_active(0));
}

#[test]
fn frame_orchestrator_surfaces_configuration_errors() {
    let mut gm = GameMgr::new();
    gm.init();
    let one = gm.scene_mgr.register_scene("maps/one.tmx");
    let row = gm.scene_mgr.add_object(
        one,
        1,
        "wall-1".to_string(),
        "Wall".to_string(),
        Vec2i { x: 20, y: 20 },
        None,
        Vec::new(),
    );
    let level = gm.game_logic.register_level(one);
    gm.game_logic
        .load_level(level, &mut gm.scene_mgr, &gm.tile_mgr);
    gm.despawn();
    assert_eq!(
        gm.spawn(template(), template()),
        Err(SpawnError::MissingSize { scene_object_i: row })
    );
    assert!(gm.scene_mgr.has_pending_spawn());
    assert_eq!(gm.wall_mgr.len(), 0);
}
