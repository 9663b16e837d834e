use summoning_core::collider::ColliderMgr;
use summoning_core::geom::{Recti, Vec2i};
use summoning_core::log::{
    debug, error, get_log_level_str, set_active_log_level, warning, LogLevel, Logger,
};
use summoning_core::sprite::SpriteMgr;
use summoning_core::tile::TileMgr;

#[test]
fn collider_add_defaults_to_active() {
    let mut cm = ColliderMgr::new();
    let h = cm.add(Recti::new(1, 2, 3, 4));
    assert_eq!(h, 0);
    assert_eq!(cm.len(), 1);
    assert!(cm.is_active(h));
    assert!(!cm.render_bbox(h));
}

#[test]
fn collider_set_active_toggles_without_removing() {
    let mut cm = ColliderMgr::new();
    let h = cm.add(Recti::new(1, 2, 3, 4));
    cm.set_active(h, false);
    assert!(!cm.is_active(h));
    assert_eq!(cm.len(), 1);
    cm.set_active(h, true);
    assert!(cm.is_active(h));
}

#[test]
fn collider_set_position_keeps_extents() {
    let mut cm = ColliderMgr::new();
    let h = cm.add(Recti::new(1, 2, 3, 4));
    cm.set_position(h, 10, 20);
    assert_eq!(cm.bbox[h], Recti::new(10, 20, 3, 4));
}

#[test]
fn collider_from_sprite_uses_scaled_size() {
    let mut sm = SpriteMgr::new();
    let s = sm.add(
        0,
        Vec2i { x: 7, y: 8 },
        Vec2i { x: 100, y: 50 },
        Vec2i { x: 10, y: 10 },
    );
    let mut cm = ColliderMgr::new();
    let h = cm.add_from_sprite(s, None, &sm);
    assert_eq!(cm.bbox[h], Recti::new(7, 8, 10, 5));
}

#[test]
fn collider_from_sprite_honors_explicit_bbox() {
    let mut sm = SpriteMgr::new();
    let s = sm.add(
        0,
        Vec2i { x: 7, y: 8 },
        Vec2i { x: 100, y: 50 },
        Vec2i { x: 10, y: 10 },
    );
    let mut cm = ColliderMgr::new();
    let h = cm.add_from_sprite(s, Some(Recti::new(1, 1, 2, 2)), &sm);
    assert_eq!(cm.bbox[h], Recti::new(1, 1, 2, 2));
}

#[test]
fn sprite_add_defaults_to_active() {
    let mut sm = SpriteMgr::new();
    let s = sm.add(
        3,
        Vec2i { x: 0, y: 0 },
        Vec2i { x: 10, y: 10 },
        Vec2i { x: 100, y: 100 },
    );
    assert_eq!(s, 0);
    assert!(sm.is_active(s));
    assert_eq!(sm.texture_i[s], 3);
}

#[test]
fn sprite_scaled_size_cache_is_exact() {
    // A scale of 5 hundredths of a unit shrinks a 400-unit sprite to 20.
    let mut sm = SpriteMgr::new();
    let s = sm.add(
        0,
        Vec2i { x: 0, y: 0 },
        Vec2i { x: 400, y: 200 },
        Vec2i { x: 5, y: 5 },
    );
    assert_eq!(sm.scaled_size(s), Vec2i { x: 20, y: 10 });
}

#[test]
fn sprite_set_scale_recomputes_the_cache() {
    let mut sm = SpriteMgr::new();
    let s = sm.add(
        0,
        Vec2i { x: 0, y: 0 },
        Vec2i { x: 400, y: 200 },
        Vec2i { x: 5, y: 5 },
    );
    sm.set_scale(s, Vec2i { x: 50, y: 25 });
    assert_eq!(sm.scale(s), Vec2i { x: 50, y: 25 });
    assert_eq!(sm.scaled_size(s), Vec2i { x: 200, y: 50 });
}

#[test]
fn sprite_translate_moves_by_delta() {
    let mut sm = SpriteMgr::new();
    let s = sm.add(
        0,
        Vec2i { x: 10, y: 20 },
        Vec2i { x: 1, y: 1 },
        Vec2i { x: 100, y: 100 },
    );
    sm.translate(s, Vec2i { x: -3, y: 4 });
    assert_eq!(sm.position(s), Vec2i { x: 7, y: 24 });
}

#[test]
fn tile_registry_round_trip() {
    let mut tm = TileMgr::new();
    let grass = tm.register_tileset("grass");
    let rock = tm.register_tileset("rock");
    assert_eq!(grass, 0);
    assert_eq!(rock, 1);
    assert_eq!(tm.find_tileset("grass"), Some(0));
    assert_eq!(tm.find_tileset("rock"), Some(1));
    assert_eq!(tm.find_tileset("lava"), None);
    let t0 = tm.add(7, grass, 42);
    let t1 = tm.add(7, rock, 43);
    assert_eq!(tm.len(), 2);
    assert!(tm.has_tile(grass, 7));
    assert!(!tm.has_tile(grass, 8));
    assert_eq!(tm.get_tile_index(grass, 7), t0);
    assert_eq!(tm.get_tile_index(rock, 7), t1);
    assert_eq!(tm.texture_i[t0], 42);
    assert_eq!(tm.texture_i[t1], 43);
}

#[test]
fn logger_filters_below_the_active_level() {
    let mut logger = Logger::new(LogLevel::WARNING);
    debug(&mut logger, "quiet".to_string());
    warning(&mut logger, "loud".to_string());
    error(&mut logger, "louder".to_string());
    assert_eq!(logger.entries.len(), 2);
    assert_eq!(logger.entries[0].message, "loud");
    assert_eq!(logger.entries[1].message, "louder");
}

#[test]
fn logger_none_level_suppresses_everything() {
    let mut logger = Logger::new(LogLevel::DEBUG);
    set_active_log_level(&mut logger, LogLevel::NONE);
    error(&mut logger, "dropped".to_string());
    assert_eq!(logger.entries.len(), 0);
}

#[test]
fn log_level_names() {
    assert_eq!(get_log_level_str(LogLevel::DEBUG), "DEBUG");
    assert_eq!(get_log_level_str(LogLevel::WARNING), "WARNING");
    assert_eq!(get_log_level_str(LogLevel::ERROR), "ERROR");
    assert_eq!(get_log_level_str(LogLevel::NONE), "NONE");
}
