use summoning_core::collider::{ColliderMgr, Hit, MAX_COLLISION_COUNT};
use summoning_core::geom::{Recti, Vec2i};

fn fresh_hit() -> Hit {
    Hit {
        is_colliding: false,
        collider_i: usize::MAX,
        position: Vec2i { x: 0, y: 0 },
        delta: Vec2i { x: 0, y: 0 },
        normal: Vec2i { x: 0, y: 0 },
    }
}

#[test]
fn separated_boxes_do_not_collide() {
    let a = Recti::new(0, 0, 10, 10);
    let b = Recti::new(20, 20, 5, 5);
    let mut hit = fresh_hit();
    assert!(!ColliderMgr::intersect_bbox_single(&a, &b, 1, &mut hit));
    assert!(!hit.is_colliding);
}

#[test]
fn touching_boxes_do_not_collide() {
    // Edges exactly touching: zero penetration is not a collision.
    let a = Recti::new(0, 0, 10, 10);
    let b = Recti::new(10, 0, 10, 10);
    let mut hit = fresh_hit();
    assert!(!ColliderMgr::intersect_bbox_single(&a, &b, 1, &mut hit));
}

#[test]
fn axis_of_least_penetration_wins() {
    // Overlap is 2 along x and 5 along y: resolve along x.
    let a = Recti::new(0, 0, 10, 10);
    let b = Recti::new(8, 5, 10, 10);
    let mut hit = fresh_hit();
    assert!(ColliderMgr::intersect_bbox_single(&a, &b, 7, &mut hit));
    assert!(hit.is_colliding);
    assert_eq!(hit.collider_i, 7);
    assert_eq!(hit.delta.x, 2);
    assert_eq!(hit.delta.y, 0);
    assert_eq!(hit.normal.x, 1);
    assert_eq!(hit.normal.y, 0);
}

#[test]
fn equal_penetration_resolves_along_x() {
    // Equal overlap on both axes resolves along the x axis.
    let a = Recti::new(0, 0, 10, 10);
    let b = Recti::new(5, 5, 10, 10);
    let mut hit = fresh_hit();
    assert!(ColliderMgr::intersect_bbox_single(&a, &b, 0, &mut hit));
    assert_eq!(hit.delta.x, 5);
    assert_eq!(hit.delta.y, 0);
    assert_eq!(hit.normal.x, 1);
    assert_eq!(hit.normal.y, 0);
}

#[test]
fn subtracting_delta_separates_exactly() {
    let a = Recti::new(0, 0, 10, 10);
    let b = Recti::new(5, 0, 10, 10);
    let mut hit = fresh_hit();
    assert!(ColliderMgr::intersect_bbox_single(&a, &b, 1, &mut hit));
    assert_eq!(hit.delta.x, 5);
    let resolved = Recti::new(a.x - hit.delta.x, a.y - hit.delta.y, a.w, a.h);
    let mut hit2 = fresh_hit();
    assert!(!ColliderMgr::intersect_bbox_single(&resolved, &b, 1, &mut hit2));
}

#[test]
fn subtracting_delta_separates_exactly_on_y() {
    let a = Recti::new(0, 0, 10, 10);
    let b = Recti::new(0, 7, 10, 10);
    let mut hit = fresh_hit();
    assert!(ColliderMgr::intersect_bbox_single(&a, &b, 1, &mut hit));
    assert_eq!(hit.delta.x, 0);
    assert_eq!(hit.delta.y, 3);
    let resolved = Recti::new(a.x - hit.delta.x, a.y - hit.delta.y, a.w, a.h);
    let mut hit2 = fresh_hit();
    assert!(!ColliderMgr::intersect_bbox_single(&resolved, &b, 1, &mut hit2));
}

#[test]
fn point_at_corner_is_not_colliding() {
    let b = Recti::new(0, 0, 10, 10);
    for corner in [
        Vec2i { x: 0, y: 0 },
        Vec2i { x: 10, y: 0 },
        Vec2i { x: 0, y: 10 },
        Vec2i { x: 10, y: 10 },
    ] {
        let mut hit = fresh_hit();
        assert!(!ColliderMgr::intersect_point_single(&corner, &b, 0, &mut hit));
        assert!(!hit.is_colliding);
    }
}

#[test]
fn point_on_edge_is_not_colliding() {
    let b = Recti::new(0, 0, 10, 10);
    let p = Vec2i { x: 5, y: 0 };
    let mut hit = fresh_hit();
    assert!(!ColliderMgr::intersect_point_single(&p, &b, 0, &mut hit));
}

#[test]
fn point_inside_resolves_toward_nearest_edge() {
    let b = Recti::new(0, 0, 10, 10);
    let p = Vec2i { x: 5, y: 3 };
    let mut hit = fresh_hit();
    assert!(ColliderMgr::intersect_point_single(&p, &b, 4, &mut hit));
    assert_eq!(hit.collider_i, 4);
    assert_eq!(hit.delta.x, 0);
    assert_eq!(hit.delta.y, -3);
    assert_eq!(hit.normal.x, 0);
    assert_eq!(hit.normal.y, -1);
    assert_eq!(hit.position.x, 5);
    assert_eq!(hit.position.y, 0);
}

#[test]
fn batch_reports_one_hit_with_expected_delta() {
    // Collider 0 is a 10 by 10 box at the origin; collider 1 the same box
    // at (5, 0). A zero-translation query from 0 reports one hit whose
    // delta pushes 0 out along x by 5.
    let mut cm = ColliderMgr::new();
    assert_eq!(cm.add(Recti::new(0, 0, 10, 10)), 0);
    assert_eq!(cm.add(Recti::new(5, 0, 10, 10)), 1);
    let mut buffer = ColliderMgr::create_hit_buffer(MAX_COLLISION_COUNT);
    let count = cm.intersect_bbox(0, &Vec2i { x: 0, y: 0 }, &mut buffer, None);
    assert_eq!(count, 1);
    assert!(buffer[0].is_colliding);
    assert_eq!(buffer[0].collider_i, 1);
    assert_eq!(buffer[0].delta.x, 5);
    assert_eq!(buffer[0].delta.y, 0);
}

#[test]
fn batch_applies_translation_before_testing() {
    let mut cm = ColliderMgr::new();
    cm.add(Recti::new(0, 0, 10, 10));
    cm.add(Recti::new(30, 0, 10, 10));
    let mut buffer = ColliderMgr::create_hit_buffer(MAX_COLLISION_COUNT);
    // In place there is no contact; translated by (25, 0) there is.
    let count = cm.intersect_bbox(0, &Vec2i { x: 0, y: 0 }, &mut buffer, None);
    assert_eq!(count, 0);
    let count = cm.intersect_bbox(0, &Vec2i { x: 25, y: 0 }, &mut buffer, None);
    assert_eq!(count, 1);
    assert_eq!(buffer[0].collider_i, 1);
}

#[test]
fn batch_skips_inactive_colliders() {
    let mut cm = ColliderMgr::new();
    cm.add(Recti::new(0, 0, 10, 10));
    cm.add(Recti::new(5, 0, 10, 10));
    cm.set_active(1, false);
    let mut buffer = ColliderMgr::create_hit_buffer(MAX_COLLISION_COUNT);
    let count = cm.intersect_bbox(0, &Vec2i { x: 0, y: 0 }, &mut buffer, None);
    assert_eq!(count, 0);
}

#[test]
fn batch_skips_ignored_colliders() {
    let mut cm = ColliderMgr::new();
    cm.add(Recti::new(0, 0, 10, 10));
    cm.add(Recti::new(5, 0, 10, 10));
    cm.add(Recti::new(0, 5, 10, 10));
    let ignore = vec![1usize];
    let mut buffer = ColliderMgr::create_hit_buffer(MAX_COLLISION_COUNT);
    let count = cm.intersect_bbox(0, &Vec2i { x: 0, y: 0 }, &mut buffer, Some(&ignore));
    assert_eq!(count, 1);
    assert_eq!(buffer[0].collider_i, 2);
}

#[test]
fn batch_truncates_at_the_hit_cap() {
    // Twenty boxes piled on the same spot: only the first sixteen hits are
    // reported; the rest are silently dropped.
    let mut cm = ColliderMgr::new();
    for _ in 0..21 {
        cm.add(Recti::new(0, 0, 10, 10));
    }
    let mut buffer = ColliderMgr::create_hit_buffer(MAX_COLLISION_COUNT);
    let count = cm.intersect_bbox(0, &Vec2i { x: 0, y: 0 }, &mut buffer, None);
    assert_eq!(count, MAX_COLLISION_COUNT);
}

#[test]
fn point_batch_reports_every_containing_box() {
    let mut cm = ColliderMgr::new();
    cm.add(Recti::new(100, 100, 5, 5));
    cm.add(Recti::new(0, 0, 10, 10));
    cm.add(Recti::new(3, 3, 10, 10));
    let mut buffer = ColliderMgr::create_hit_buffer(MAX_COLLISION_COUNT);
    let p = Vec2i { x: 5, y: 5 };
    let count = cm.intersect_point(0, &p, &mut buffer);
    assert_eq!(count, 2);
    assert_eq!(buffer[0].collider_i, 1);
    assert_eq!(buffer[1].collider_i, 2);
}

#[test]
fn hit_buffer_starts_cleared() {
    let buffer = ColliderMgr::create_hit_buffer(MAX_COLLISION_COUNT);
    assert_eq!(buffer.len(), MAX_COLLISION_COUNT);
    for hit in &buffer {
        assert!(!hit.is_colliding);
    }
}
