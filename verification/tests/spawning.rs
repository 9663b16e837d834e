use summoning_core::collider::{ColliderMgr, MAX_COLLISION_COUNT};
use summoning_core::geom::{Recti, Vec2i};
use summoning_core::log::{LogLevel, Logger};
use summoning_core::player::{PlayerTeam, PlayerUnitMgr};
use summoning_core::scene::{Property, PropertyValue, SceneMgr, SpawnError};
use summoning_core::selector_box::SelectorBox;
use summoning_core::sprite::SpriteMgr;
use summoning_core::summoning_circle::{SpriteTemplate, SummoningCircleMgr};
use summoning_core::tile::TileMgr;
use summoning_core::wall::WallMgr;

fn template() -> SpriteTemplate {
    SpriteTemplate {
        texture_i: 0,
        size: Vec2i { x: 400, y: 400 },
        scale: Vec2i { x: 5, y: 5 },
    }
}

fn one_wall_scene() -> SceneMgr {
    let mut scene = SceneMgr::new();
    let tm = TileMgr::new();
    let id = scene.register_scene("maps/one.tmx");
    scene.add_object(
        id,
        1,
        "wall-1".to_string(),
        "Wall".to_string(),
        Vec2i { x: 20, y: 20 },
        Some(Vec2i { x: 10, y: 10 }),
        Vec::new(),
    );
    scene.set_active_scene(Some(id), &tm);
    scene
}

#[test]
fn wall_spawn_creates_one_active_row() {
    let scene = one_wall_scene();
    let mut walls = WallMgr::new();
    let mut cm = ColliderMgr::new();
    assert!(walls.spawn(&scene, &mut cm).is_ok());
    assert_eq!(walls.len(), 1);
    assert_eq!(cm.len(), 1);
    assert!(cm.is_active(0));
    assert_eq!(cm.bbox[0], Recti::new(20, 20, 10, 10));
}

#[test]
fn wall_spawn_twice_does_not_duplicate() {
    // Spawning again from the same object list must reactivate the bound
    // row, never create a second one.
    let scene = one_wall_scene();
    let mut walls = WallMgr::new();
    let mut cm = ColliderMgr::new();
    assert!(walls.spawn(&scene, &mut cm).is_ok());
    assert!(walls.spawn(&scene, &mut cm).is_ok());
    assert_eq!(walls.len(), 1);
    assert_eq!(cm.len(), 1);
    assert!(cm.is_active(0));
}

#[test]
fn wall_without_size_is_a_fatal_configuration_error() {
    let mut scene = SceneMgr::new();
    let tm = TileMgr::new();
    let id = scene.register_scene("maps/one.tmx");
    let row = scene.add_object(
        id,
        1,
        "wall-1".to_string(),
        "Wall".to_string(),
        Vec2i { x: 20, y: 20 },
        None,
        Vec::new(),
    );
    scene.set_active_scene(Some(id), &tm);
    let mut walls = WallMgr::new();
    let mut cm = ColliderMgr::new();
    assert_eq!(
        walls.spawn(&scene, &mut cm),
        Err(SpawnError::MissingSize { scene_object_i: row })
    );
    assert_eq!(walls.len(), 0);
    assert_eq!(cm.len(), 0);
}

#[test]
fn despawned_wall_stays_bound_and_keeps_its_geometry() {
    // Despawn followed by spawn with the object absent leaves the bound row
    // inactive, invisible to the collision engine, with position and size
    // unchanged for later reactivation.
    let mut scene = SceneMgr::new();
    let tm = TileMgr::new();
    let one = scene.register_scene("maps/one.tmx");
    let two = scene.register_scene("maps/two.tmx");
    scene.add_object(
        one,
        1,
        "wall-1".to_string(),
        "Wall".to_string(),
        Vec2i { x: 20, y: 20 },
        Some(Vec2i { x: 10, y: 10 }),
        Vec::new(),
    );
    let mut walls = WallMgr::new();
    let mut cm = ColliderMgr::new();
    scene.set_active_scene(Some(one), &tm);
    assert!(walls.spawn(&scene, &mut cm).is_ok());
    scene.spawn();
    scene.despawn();

    scene.set_active_scene(Some(two), &tm);
    walls.despawn(&scene, &mut cm);
    assert!(walls.spawn(&scene, &mut cm).is_ok());
    scene.spawn();
    scene.despawn();

    assert_eq!(walls.len(), 1);
    assert!(!cm.is_active(0));
    assert_eq!(cm.bbox[0], Recti::new(20, 20, 10, 10));

    // The collision engine must not report hits against the inactive wall.
    let probe = cm.add(Recti::new(15, 15, 10, 10));
    let mut buffer = ColliderMgr::create_hit_buffer(MAX_COLLISION_COUNT);
    let count = cm.intersect_bbox(probe, &Vec2i { x: 0, y: 0 }, &mut buffer, None);
    assert_eq!(count, 0);
}

#[test]
fn returning_to_a_scene_reactivates_the_same_wall_row() {
    let mut scene = SceneMgr::new();
    let tm = TileMgr::new();
    let one = scene.register_scene("maps/one.tmx");
    let two = scene.register_scene("maps/two.tmx");
    scene.add_object(
        one,
        1,
        "wall-1".to_string(),
        "Wall".to_string(),
        Vec2i { x: 20, y: 20 },
        Some(Vec2i { x: 10, y: 10 }),
        Vec::new(),
    );
    let mut walls = WallMgr::new();
    let mut cm = ColliderMgr::new();
    scene.set_active_scene(Some(one), &tm);
    assert!(walls.spawn(&scene, &mut cm).is_ok());
    scene.spawn();
    scene.despawn();
    scene.set_active_scene(Some(two), &tm);
    walls.despawn(&scene, &mut cm);
    scene.spawn();
    scene.despawn();
    scene.set_active_scene(Some(one), &tm);
    assert!(walls.spawn(&scene, &mut cm).is_ok());
    assert_eq!(walls.len(), 1);
    assert_eq!(cm.len(), 1);
    assert!(cm.is_active(0));
}

#[test]
fn circle_spawn_creates_sprite_and_collider() {
    let mut scene = SceneMgr::new();
    let tm = TileMgr::new();
    let id = scene.register_scene("maps/one.tmx");
    scene.add_object(
        id,
        1,
        "circle-1".to_string(),
        "SummoningCircle".to_string(),
        Vec2i { x: 30, y: 40 },
        None,
        Vec::new(),
    );
    scene.set_active_scene(Some(id), &tm);
    let mut circles = SummoningCircleMgr::new();
    let mut cm = ColliderMgr::new();
    let mut sm = SpriteMgr::new();
    circles.spawn(&scene, &mut cm, &mut sm, template());
    assert_eq!(circles.len(), 1);
    assert!(circles.is_active(0));
    assert_eq!(sm.len(), 1);
    assert!(sm.is_active(0));
    assert_eq!(sm.position(0), Vec2i { x: 30, y: 40 });
    // The collider is sized from the template's scaled sprite size.
    assert_eq!(cm.bbox[circles.collider_i(0)], Recti::new(30, 40, 20, 20));
    // Idempotent respawn.
    circles.spawn(&scene, &mut cm, &mut sm, template());
    assert_eq!(circles.len(), 1);
    assert_eq!(sm.len(), 1);
    assert_eq!(cm.len(), 1);
}

#[test]
fn circle_despawn_deactivates_sprite_and_collider() {
    let mut scene = SceneMgr::new();
    let tm = TileMgr::new();
    let one = scene.register_scene("maps/one.tmx");
    let two = scene.register_scene("maps/two.tmx");
    scene.add_object(
        one,
        1,
        "circle-1".to_string(),
        "SummoningCircle".to_string(),
        Vec2i { x: 30, y: 40 },
        None,
        Vec::new(),
    );
    let mut circles = SummoningCircleMgr::new();
    let mut cm = ColliderMgr::new();
    let mut sm = SpriteMgr::new();
    scene.set_active_scene(Some(one), &tm);
    circles.spawn(&scene, &mut cm, &mut sm, template());
    scene.spawn();
    scene.despawn();
    scene.set_active_scene(Some(two), &tm);
    circles.despawn(&scene, &mut cm, &mut sm);
    assert!(!circles.is_active(0));
    assert!(!cm.is_active(circles.collider_i(0)));
    assert!(!sm.is_active(0));
    assert_eq!(sm.position(0), Vec2i { x: 30, y: 40 });
}

fn unit_props(team: &str) -> Vec<Property> {
    vec![
        Property { name: "team".to_string(), value: PropertyValue::StrV(team.to_string()) },
        Property { name: "move_speed".to_string(), value: PropertyValue::IntV(120) },
        Property { name: "start_active".to_string(), value: PropertyValue::BoolV(true) },
    ]
}

fn unit_scene(props: Vec<Property>) -> (SceneMgr, usize) {
    let mut scene = SceneMgr::new();
    let tm = TileMgr::new();
    let id = scene.register_scene("maps/one.tmx");
    let row = scene.add_object(
        id,
        1,
        "unit-1".to_string(),
        "PlayerUnit".to_string(),
        Vec2i { x: 5, y: 6 },
        None,
        props,
    );
    scene.set_active_scene(Some(id), &tm);
    (scene, row)
}

fn unit_world() -> (PlayerUnitMgr, SpriteMgr, ColliderMgr, Logger) {
    (
        PlayerUnitMgr::new(),
        SpriteMgr::new(),
        ColliderMgr::new(),
        Logger::new(LogLevel::NONE),
    )
}

#[test]
fn unit_spawn_reads_the_required_properties() {
    let mut scene = SceneMgr::new();
    let tm = TileMgr::new();
    let id = scene.register_scene("maps/one.tmx");
    scene.add_object(
        id,
        1,
        "unit-1".to_string(),
        "PlayerUnit".to_string(),
        Vec2i { x: 5, y: 6 },
        None,
        unit_props("Player"),
    );
    scene.add_object(
        id,
        1,
        "unit-2".to_string(),
        "PlayerUnit".to_string(),
        Vec2i { x: 50, y: 60 },
        None,
        unit_props("Enemy"),
    );
    scene.set_active_scene(Some(id), &tm);
    let (mut units, mut sm, mut cm, mut logger) = unit_world();
    assert!(units
        .spawn(&scene, &mut sm, &mut cm, template(), &mut logger)
        .is_ok());
    assert_eq!(units.len(), 2);
    assert_eq!(units.team[0], PlayerTeam::Player);
    assert_eq!(units.team[1], PlayerTeam::Enemy);
    assert_eq!(units.move_speed(0), 120);
    assert!(units.is_active(0));
    assert!(units.is_active(1));
    assert_eq!(sm.position(0), Vec2i { x: 5, y: 6 });
    assert_eq!(sm.position(1), Vec2i { x: 50, y: 60 });
    assert!(cm.is_active(0));
}

#[test]
fn first_unit_must_be_on_the_player_team() {
    // With no units yet, a scene whose first unit declares another team is
    // a fatal configuration error and nothing spawns.
    let (scene, row) = unit_scene(unit_props("Enemy"));
    let (mut units, mut sm, mut cm, mut logger) = unit_world();
    assert_eq!(
        units.spawn(&scene, &mut sm, &mut cm, template(), &mut logger),
        Err(SpawnError::FirstUnitNotPlayer { scene_object_i: row })
    );
    assert_eq!(units.len(), 0);
    assert_eq!(cm.len(), 0);
}

#[test]
fn enemy_units_spawn_once_a_player_unit_exists() {
    let mut scene = SceneMgr::new();
    let tm = TileMgr::new();
    let one = scene.register_scene("maps/one.tmx");
    let two = scene.register_scene("maps/two.tmx");
    scene.add_object(
        one,
        1,
        "unit-1".to_string(),
        "PlayerUnit".to_string(),
        Vec2i { x: 0, y: 0 },
        None,
        unit_props("Player"),
    );
    scene.add_object(
        two,
        1,
        "unit-2".to_string(),
        "PlayerUnit".to_string(),
        Vec2i { x: 9, y: 9 },
        None,
        unit_props("Enemy"),
    );
    let (mut units, mut sm, mut cm, mut logger) = unit_world();
    scene.set_active_scene(Some(one), &tm);
    assert!(units
        .spawn(&scene, &mut sm, &mut cm, template(), &mut logger)
        .is_ok());
    scene.spawn();
    scene.despawn();
    scene.set_active_scene(Some(two), &tm);
    units.despawn(&scene, &mut cm, &mut sm);
    assert!(units
        .spawn(&scene, &mut sm, &mut cm, template(), &mut logger)
        .is_ok());
    assert_eq!(units.len(), 2);
    assert_eq!(units.team[1], PlayerTeam::Enemy);
}

#[test]
fn unit_spawn_honors_start_active_false() {
    let props = vec![
        Property { name: "team".to_string(), value: PropertyValue::StrV("Player".to_string()) },
        Property { name: "move_speed".to_string(), value: PropertyValue::IntV(80) },
        Property { name: "start_active".to_string(), value: PropertyValue::BoolV(false) },
    ];
    let (scene, _) = unit_scene(props);
    let (mut units, mut sm, mut cm, mut logger) = unit_world();
    assert!(units
        .spawn(&scene, &mut sm, &mut cm, template(), &mut logger)
        .is_ok());
    assert_eq!(units.len(), 1);
    assert!(!units.is_active(0));
    assert!(!cm.is_active(0));
    assert!(!sm.is_active(0));
}

#[test]
fn unit_spawn_missing_team_fails_without_changes() {
    let props = vec![
        Property { name: "move_speed".to_string(), value: PropertyValue::IntV(80) },
        Property { name: "start_active".to_string(), value: PropertyValue::BoolV(true) },
    ];
    let (scene, row) = unit_scene(props);
    let (mut units, mut sm, mut cm, mut logger) = unit_world();
    assert_eq!(
        units.spawn(&scene, &mut sm, &mut cm, template(), &mut logger),
        Err(SpawnError::MissingTeam { scene_object_i: row })
    );
    assert_eq!(units.len(), 0);
    assert_eq!(sm.len(), 0);
    assert_eq!(cm.len(), 0);
}

#[test]
fn unit_spawn_invalid_team_fails() {
    let (scene, row) = unit_scene(unit_props("Neutral"));
    let (mut units, mut sm, mut cm, mut logger) = unit_world();
    assert_eq!(
        units.spawn(&scene, &mut sm, &mut cm, template(), &mut logger),
        Err(SpawnError::InvalidTeam { scene_object_i: row })
    );
}

#[test]
fn unit_spawn_missing_move_speed_fails() {
    let props = vec![
        Property { name: "team".to_string(), value: PropertyValue::StrV("Player".to_string()) },
        Property { name: "start_active".to_string(), value: PropertyValue::BoolV(true) },
    ];
    let (scene, row) = unit_scene(props);
    let (mut units, mut sm, mut cm, mut logger) = unit_world();
    assert_eq!(
        units.spawn(&scene, &mut sm, &mut cm, template(), &mut logger),
        Err(SpawnError::MissingMoveSpeed { scene_object_i: row })
    );
}

#[test]
fn unit_spawn_missing_start_active_fails() {
    let props = vec![
        Property { name: "team".to_string(), value: PropertyValue::StrV("Player".to_string()) },
        Property { name: "move_speed".to_string(), value: PropertyValue::IntV(80) },
    ];
    let (scene, row) = unit_scene(props);
    let (mut units, mut sm, mut cm, mut logger) = unit_world();
    assert_eq!(
        units.spawn(&scene, &mut sm, &mut cm, template(), &mut logger),
        Err(SpawnError::MissingStartActive { scene_object_i: row })
    );
}

#[test]
fn unit_spawn_twice_does_not_duplicate() {
    let (scene, _) = unit_scene(unit_props("Player"));
    let (mut units, mut sm, mut cm, mut logger) = unit_world();
    assert!(units
        .spawn(&scene, &mut sm, &mut cm, template(), &mut logger)
        .is_ok());
    assert!(units
        .spawn(&scene, &mut sm, &mut cm, template(), &mut logger)
        .is_ok());
    assert_eq!(units.len(), 1);
    assert_eq!(sm.len(), 1);
    assert_eq!(cm.len(), 1);
}

#[test]
fn selector_box_spawns_and_despawns_with_its_collider() {
    let mut selector = SelectorBox::new();
    let mut cm = ColliderMgr::new();
    selector.init(&mut cm);
    let ci = selector.collider_i();
    selector.despawn(&mut cm);
    assert!(!cm.is_active(ci));
    selector.spawn(&mut cm);
    assert!(cm.is_active(ci));
}
