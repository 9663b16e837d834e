use summoning_core::geom::Vec2i;
use summoning_core::log::{LogLevel, Logger};
use summoning_core::scene::{Property, PropertyValue, SceneMgr};
use summoning_core::tile::TileMgr;

fn props(entries: Vec<(&str, PropertyValue)>) -> Vec<Property> {
    entries
        .into_iter()
        .map(|(name, value)| Property { name: name.to_string(), value })
        .collect()
}

#[test]
fn scene_registration_assigns_dense_ids() {
    let mut scene = SceneMgr::new();
    assert_eq!(scene.register_scene("maps/one.tmx"), 0);
    assert_eq!(scene.register_scene("maps/two.tmx"), 1);
}

#[test]
fn rows_share_one_heterogeneous_table() {
    let mut scene = SceneMgr::new();
    let id = scene.register_scene("maps/one.tmx");
    let tile_row = scene.add_tile(id, 1, Vec2i { x: 2, y: 3 }, Vec2i { x: 16, y: 16 }, 9, 0);
    let object_row = scene.add_object(
        id,
        2,
        "wall-1".to_string(),
        "Wall".to_string(),
        Vec2i { x: 20, y: 20 },
        Some(Vec2i { x: 10, y: 10 }),
        Vec::new(),
    );
    assert_eq!(tile_row, 0);
    assert_eq!(object_row, 1);
    assert_eq!(scene.len(), 2);
    assert_eq!(scene.tile_id[tile_row], Some(9));
    assert_eq!(scene.object_class[tile_row], None);
    assert_eq!(scene.object_class[object_row], Some("Wall".to_string()));
    assert_eq!(scene.tile_id[object_row], None);
    assert_eq!(scene.object_size[object_row], Some(Vec2i { x: 10, y: 10 }));
}

#[test]
fn property_getters_return_typed_values() {
    let mut scene = SceneMgr::new();
    let id = scene.register_scene("maps/one.tmx");
    let row = scene.add_object(
        id,
        1,
        "unit-1".to_string(),
        "PlayerUnit".to_string(),
        Vec2i { x: 0, y: 0 },
        None,
        props(vec![
            ("team", PropertyValue::StrV("Player".to_string())),
            ("move_speed", PropertyValue::IntV(120)),
            ("start_active", PropertyValue::BoolV(true)),
        ]),
    );
    let mut logger = Logger::new(LogLevel::DEBUG);
    assert_eq!(
        scene.get_object_property_string(row, "team", &mut logger),
        Some("Player".to_string())
    );
    assert_eq!(scene.get_object_property_int(row, "move_speed", &mut logger), Some(120));
    assert_eq!(scene.get_object_property_bool(row, "start_active", &mut logger), Some(true));
    assert_eq!(logger.entries.len(), 0);
}

#[test]
fn missing_property_is_absent_and_logged() {
    let mut scene = SceneMgr::new();
    let id = scene.register_scene("maps/one.tmx");
    let row = scene.add_object(
        id,
        1,
        "unit-1".to_string(),
        "PlayerUnit".to_string(),
        Vec2i { x: 0, y: 0 },
        None,
        Vec::new(),
    );
    let mut logger = Logger::new(LogLevel::DEBUG);
    assert_eq!(scene.get_object_property_string(row, "team", &mut logger), None);
    assert_eq!(logger.entries.len(), 1);
}

#[test]
fn wrongly_typed_property_is_absent_and_logged() {
    let mut scene = SceneMgr::new();
    let id = scene.register_scene("maps/one.tmx");
    let row = scene.add_object(
        id,
        1,
        "unit-1".to_string(),
        "PlayerUnit".to_string(),
        Vec2i { x: 0, y: 0 },
        None,
        props(vec![("team", PropertyValue::IntV(3))]),
    );
    let mut logger = Logger::new(LogLevel::DEBUG);
    assert_eq!(scene.get_object_property_string(row, "team", &mut logger), None);
    assert_eq!(scene.get_object_property_int(row, "team", &mut logger), Some(3));
    assert_eq!(logger.entries.len(), 1);
}

#[test]
fn activating_a_scene_builds_its_caches() {
    let mut scene = SceneMgr::new();
    let mut tm = TileMgr::new();
    let ts = tm.register_tileset("grass");
    let tile = tm.add(9, ts, 42);
    let one = scene.register_scene("maps/one.tmx");
    let two = scene.register_scene("maps/two.tmx");
    scene.add_tile(one, 1, Vec2i { x: 2, y: 3 }, Vec2i { x: 16, y: 16 }, 9, ts);
    let wall_row = scene.add_object(
        one,
        2,
        "wall-1".to_string(),
        "Wall".to_string(),
        Vec2i { x: 20, y: 20 },
        Some(Vec2i { x: 10, y: 10 }),
        Vec::new(),
    );
    scene.add_object(
        two,
        1,
        "wall-2".to_string(),
        "Wall".to_string(),
        Vec2i { x: 50, y: 50 },
        Some(Vec2i { x: 10, y: 10 }),
        Vec::new(),
    );
    assert!(scene.scene_tiles_registered(&tm, one));
    scene.set_active_scene(Some(one), &tm);
    assert_eq!(scene.active_scene_id, Some(one));
    assert!(scene.has_pending_spawn());
    assert!(scene.has_pending_despawn());
    assert_eq!(scene.active_objects, vec![wall_row]);
    assert_eq!(scene.objects_to_despawn.len(), 0);
    assert_eq!(scene.tile_renderer_cache.len(), 1);
    assert_eq!(scene.tile_renderer_cache[0].texture_i, tm.texture_i[tile]);
    // Grid position (2, 3) at tile size 16 renders at (32, 48).
    assert_eq!(scene.tile_renderer_cache[0].position, Vec2i { x: 32, y: 48 });
}

#[test]
fn switching_scenes_queues_the_previous_objects_for_despawn() {
    let mut scene = SceneMgr::new();
    let tm = TileMgr::new();
    let one = scene.register_scene("maps/one.tmx");
    let two = scene.register_scene("maps/two.tmx");
    let wall_row = scene.add_object(
        one,
        1,
        "wall-1".to_string(),
        "Wall".to_string(),
        Vec2i { x: 20, y: 20 },
        Some(Vec2i { x: 10, y: 10 }),
        Vec::new(),
    );
    scene.set_active_scene(Some(one), &tm);
    scene.spawn();
    scene.despawn();
    assert!(!scene.has_pending_spawn());
    assert!(!scene.has_pending_despawn());
    scene.set_active_scene(Some(two), &tm);
    assert_eq!(scene.objects_to_despawn, vec![wall_row]);
    assert_eq!(scene.active_objects.len(), 0);
    assert!(scene.has_pending_spawn());
    assert!(scene.has_pending_despawn());
    scene.despawn();
    assert_eq!(scene.objects_to_despawn.len(), 0);
    assert!(!scene.has_pending_despawn());
}

#[test]
fn unregistered_tiles_block_activation() {
    let mut scene = SceneMgr::new();
    let tm = TileMgr::new();
    let one = scene.register_scene("maps/one.tmx");
    scene.add_tile(one, 1, Vec2i { x: 0, y: 0 }, Vec2i { x: 16, y: 16 }, 9, 0);
    assert!(!scene.scene_tiles_registered(&tm, one));
}
