//! Collider registry and the axis-aligned bounding-box collision engine.
//!
//! All penetration arithmetic is carried out over doubled coordinates so that
//! box centers (which sit on half-integer points) never have to be rounded:
//! for boxes `a` and `b`, `pen2_x` is twice the x-axis penetration depth and
//! is always an even integer, so the integral depth `pen_x` is exact. The
//! engine resolves along the axis of least penetration, ties going to the
//! x axis, and the reported `delta` separates the boxes exactly when
//! subtracted from the moving box's position.

use vstd::prelude::*;

use crate::geom::{coord_ok, mag, rect_ok, vec_ok, Recti, Vec2i, COORD_LIMIT};
use crate::sprite::SpriteMgr;

verus! {

/// Largest number of hits a single batch query will report; later hits are
/// silently dropped to cap the per-call cost.
pub const MAX_COLLISION_COUNT: usize = 16;

/// One collision test result. When `is_colliding` is false every other field
/// is meaningless and must not be read.
#[derive(Clone, Copy, PartialEq, Eq, Structural, Debug)]
pub struct Hit {
    /// If `false`, assume every other field contains invalid data.
    pub is_colliding: bool,
    /// Handle of the collider that was hit.
    pub collider_i: usize,
    /// Contact point of the two objects.
    pub position: Vec2i,
    /// Overlap between the two objects along the axis of least penetration.
    /// Subtracting this vector from the moving object's position moves it
    /// back to a non-colliding state.
    pub delta: Vec2i,
    /// Surface normal at the point of contact.
    pub normal: Vec2i,
}

// ---------------------------------------------------------------------------
// Penetration arithmetic over doubled coordinates.
// ---------------------------------------------------------------------------
/// Twice the x coordinate of a rectangle's center.
pub open spec fn center2_x(r: Recti) -> int {
    2 * r.x + r.w
}

/// Twice the y coordinate of a rectangle's center.
pub open spec fn center2_y(r: Recti) -> int {
    2 * r.y + r.h
}

/// Twice the x offset from `a`'s center to `b`'s center.
pub open spec fn off2_x(a: Recti, b: Recti) -> int {
    center2_x(b) - center2_x(a)
}

pub open spec fn off2_y(a: Recti, b: Recti) -> int {
    center2_y(b) - center2_y(a)
}

/// Twice the x-axis penetration of boxes `a` and `b`: the sum of their half
/// extents minus the distance between their centers, all doubled.
pub open spec fn pen2_x(a: Recti, b: Recti) -> int {
    a.w + b.w - mag(off2_x(a, b))
}

pub open spec fn pen2_y(a: Recti, b: Recti) -> int {
    a.h + b.h - mag(off2_y(a, b))
}

/// Boxes overlap iff the penetration is strictly positive on both axes;
/// touching edges or corners do not collide.
pub open spec fn boxes_overlap(a: Recti, b: Recti) -> bool {
    pen2_x(a, b) > 0 && pen2_y(a, b) > 0
}

/// The integral x-axis penetration depth (`pen2_x / 2`, exactly).
pub open spec fn pen_x(a: Recti, b: Recti) -> int {
    if off2_x(a, b) >= 0 {
        a.x + a.w - b.x
    } else {
        b.x + b.w - a.x
    }
}

pub open spec fn pen_y(a: Recti, b: Recti) -> int {
    if off2_y(a, b) >= 0 {
        a.y + a.h - b.y
    } else {
        b.y + b.h - a.y
    }
}

/// Sign of the center offset along x; an offset of zero counts as positive.
pub open spec fn sign_x(a: Recti, b: Recti) -> int {
    if off2_x(a, b) >= 0 {
        1
    } else {
        -1
    }
}

pub open spec fn sign_y(a: Recti, b: Recti) -> int {
    if off2_y(a, b) >= 0 {
        1
    } else {
        -1
    }
}

/// The engine resolves along the axis of strictly smaller penetration;
/// equal penetrations resolve along the x axis.
pub open spec fn resolves_on_x(a: Recti, b: Recti) -> bool {
    pen2_x(a, b) <= pen2_y(a, b)
}

/// The exact hit record reported for overlapping boxes `a` (moving) and `b`
/// (tested), hit against collider handle `i`.
pub open spec fn box_hit_ok(h: Hit, a: Recti, b: Recti, i: int) -> bool {
    &&& h.is_colliding
    &&& h.collider_i == i
    &&& if resolves_on_x(a, b) {
        &&& h.delta.x == pen_x(a, b) * sign_x(a, b)
        &&& h.delta.y == 0
        &&& h.normal.x == sign_x(a, b)
        &&& h.normal.y == 0
        &&& h.position.x == if sign_x(a, b) == 1 {
            a.x + a.w
        } else {
            a.x as int
        }
        &&& h.position.y == b.y + b.h / 2
    } else {
        &&& h.delta.x == 0
        &&& h.delta.y == pen_y(a, b) * sign_y(a, b)
        &&& h.normal.x == 0
        &&& h.normal.y == sign_y(a, b)
        &&& h.position.x == b.x + b.w / 2
        &&& h.position.y == if sign_y(a, b) == 1 {
            a.y + a.h
        } else {
            a.y as int
        }
    }
}

// ---------------------------------------------------------------------------
// Point-versus-box arithmetic, in the same doubled-coordinate style.
// ---------------------------------------------------------------------------
/// Twice the x offset from box `b`'s center to point `p`.
pub open spec fn point_off2_x(p: Vec2i, b: Recti) -> int {
    2 * p.x - center2_x(b)
}

pub open spec fn point_off2_y(p: Vec2i, b: Recti) -> int {
    2 * p.y - center2_y(b)
}

/// Twice the x-axis penetration of point `p` into box `b`.
pub open spec fn point_pen2_x(p: Vec2i, b: Recti) -> int {
    b.w - mag(point_off2_x(p, b))
}

pub open spec fn point_pen2_y(p: Vec2i, b: Recti) -> int {
    b.h - mag(point_off2_y(p, b))
}

/// A point is inside a box iff its penetration is strictly positive on both
/// axes; a point on an edge or corner is outside.
pub open spec fn point_in_box(p: Vec2i, b: Recti) -> bool {
    point_pen2_x(p, b) > 0 && point_pen2_y(p, b) > 0
}

/// The integral penetration depth of a point along x: its distance to the
/// nearer vertical edge.
pub open spec fn point_pen_x(p: Vec2i, b: Recti) -> int {
    if point_off2_x(p, b) >= 0 {
        b.x + b.w - p.x
    } else {
        p.x - b.x
    }
}

pub open spec fn point_pen_y(p: Vec2i, b: Recti) -> int {
    if point_off2_y(p, b) >= 0 {
        b.y + b.h - p.y
    } else {
        p.y - b.y
    }
}

pub open spec fn point_sign_x(p: Vec2i, b: Recti) -> int {
    if point_off2_x(p, b) >= 0 {
        1
    } else {
        -1
    }
}

pub open spec fn point_sign_y(p: Vec2i, b: Recti) -> int {
    if point_off2_y(p, b) >= 0 {
        1
    } else {
        -1
    }
}

pub open spec fn point_resolves_on_x(p: Vec2i, b: Recti) -> bool {
    point_pen2_x(p, b) <= point_pen2_y(p, b)
}

/// The exact hit record reported for point `p` inside box `b` with collider
/// handle `i`.
pub open spec fn point_hit_ok(h: Hit, p: Vec2i, b: Recti, i: int) -> bool {
    &&& h.is_colliding
    &&& h.collider_i == i
    &&& if point_resolves_on_x(p, b) {
        &&& h.delta.x == point_pen_x(p, b) * point_sign_x(p, b)
        &&& h.delta.y == 0
        &&& h.normal.x == point_sign_x(p, b)
        &&& h.normal.y == 0
        &&& h.position.x == if point_sign_x(p, b) == 1 {
            b.x + b.w
        } else {
            b.x as int
        }
        &&& h.position.y == b.y + b.h / 2
    } else {
        &&& h.delta.x == 0
        &&& h.delta.y == point_pen_y(p, b) * point_sign_y(p, b)
        &&& h.normal.x == 0
        &&& h.normal.y == point_sign_y(p, b)
        &&& h.position.x == b.x + b.w / 2
        &&& h.position.y == if point_sign_y(p, b) == 1 {
            b.y + b.h
        } else {
            b.y as int
        }
    }
}

// ---------------------------------------------------------------------------
// Batch-scan specifications.
// ---------------------------------------------------------------------------
/// The view of an optional ignore list.
pub open spec fn ignore_view(ignore_list: Option<&Vec<usize>>) -> Seq<usize> {
    match ignore_list {
        Some(l) => l@,
        None => Seq::empty(),
    }
}

/// Collider `i` is reported by a box scan: it is a different, active collider
/// not on the ignore list whose box overlaps the moving box `a`.
pub open spec fn box_accepts(
    boxes: Seq<Recti>,
    active: Seq<bool>,
    skip: int,
    ignore: Seq<usize>,
    a: Recti,
    i: int,
) -> bool {
    &&& i != skip
    &&& active[i]
    &&& !ignore.contains(i as usize)
    &&& boxes_overlap(a, boxes[i])
}

/// Handles reported by a box scan of the first `n` colliders, in scan order.
pub open spec fn box_hits_upto(
    boxes: Seq<Recti>,
    active: Seq<bool>,
    skip: int,
    ignore: Seq<usize>,
    a: Recti,
    n: int,
) -> Seq<int>
    decreases n,
{
    if n <= 0 {
        Seq::empty()
    } else if box_accepts(boxes, active, skip, ignore, a, n - 1) {
        box_hits_upto(boxes, active, skip, ignore, a, n - 1).push(n - 1)
    } else {
        box_hits_upto(boxes, active, skip, ignore, a, n - 1)
    }
}

/// Collider `i` is reported by a point scan.
pub open spec fn point_accepts(
    boxes: Seq<Recti>,
    active: Seq<bool>,
    skip: int,
    p: Vec2i,
    i: int,
) -> bool {
    &&& i != skip
    &&& active[i]
    &&& point_in_box(p, boxes[i])
}

/// Handles reported by a point scan of the first `n` colliders, in scan
/// order.
pub open spec fn point_hits_upto(
    boxes: Seq<Recti>,
    active: Seq<bool>,
    skip: int,
    p: Vec2i,
    n: int,
) -> Seq<int>
    decreases n,
{
    if n <= 0 {
        Seq::empty()
    } else if point_accepts(boxes, active, skip, p, n - 1) {
        point_hits_upto(boxes, active, skip, p, n - 1).push(n - 1)
    } else {
        point_hits_upto(boxes, active, skip, p, n - 1)
    }
}

/// Multiplying by an explicit sign is the same as conditional negation.
proof fn lemma_mul_sign(v: int, s: int)
    requires
        s == 1 || s == -1,
    ensures
        s == 1 ==> v * s == v,
        s == -1 ==> v * s == -v,
{
    assert(v * 1 == v) by (nonlinear_arith);
    assert(v * -1 == -v) by (nonlinear_arith);
    if s == 1 {
        assert(v * s == v * 1);
    } else {
        assert(v * s == v * -1);
    }
}

/// Unfolds one step of [`box_hits_upto`].
proof fn lemma_box_hits_upto_step(
    boxes: Seq<Recti>,
    active: Seq<bool>,
    skip: int,
    ignore: Seq<usize>,
    a: Recti,
    n: int,
)
    requires
        n > 0,
    ensures
        box_hits_upto(boxes, active, skip, ignore, a, n) == if box_accepts(
            boxes,
            active,
            skip,
            ignore,
            a,
            n - 1,
        ) {
            box_hits_upto(boxes, active, skip, ignore, a, n - 1).push(n - 1)
        } else {
            box_hits_upto(boxes, active, skip, ignore, a, n - 1)
        },
{
    reveal_with_fuel(box_hits_upto, 2);
}

/// Unfolds one step of [`point_hits_upto`].
proof fn lemma_point_hits_upto_step(
    boxes: Seq<Recti>,
    active: Seq<bool>,
    skip: int,
    p: Vec2i,
    n: int,
)
    requires
        n > 0,
    ensures
        point_hits_upto(boxes, active, skip, p, n) == if point_accepts(
            boxes,
            active,
            skip,
            p,
            n - 1,
        ) {
            point_hits_upto(boxes, active, skip, p, n - 1).push(n - 1)
        } else {
            point_hits_upto(boxes, active, skip, p, n - 1)
        },
{
    reveal_with_fuel(point_hits_upto, 2);
}

/// Every handle a box scan reports satisfies the acceptance test and lies in
/// `[0, n)`; the reported sequence is strictly increasing.
pub proof fn lemma_box_hits_upto_props(
    boxes: Seq<Recti>,
    active: Seq<bool>,
    skip: int,
    ignore: Seq<usize>,
    a: Recti,
    n: int,
)
    ensures
        forall|j: int|
            0 <= j < box_hits_upto(boxes, active, skip, ignore, a, n).len() ==> {
                let x = #[trigger] box_hits_upto(boxes, active, skip, ignore, a, n)[j];
                0 <= x < n && box_accepts(boxes, active, skip, ignore, a, x) && x >= j
            },
        forall|j: int, k: int|
            0 <= j < k < box_hits_upto(boxes, active, skip, ignore, a, n).len()
                ==> #[trigger] box_hits_upto(boxes, active, skip, ignore, a, n)[j]
                < #[trigger] box_hits_upto(boxes, active, skip, ignore, a, n)[k],
    decreases n,
{
    if n > 0 {
        lemma_box_hits_upto_step(boxes, active, skip, ignore, a, n);
        lemma_box_hits_upto_props(boxes, active, skip, ignore, a, n - 1);
        let prev = box_hits_upto(boxes, active, skip, ignore, a, n - 1);
        let cur = box_hits_upto(boxes, active, skip, ignore, a, n);
        if prev.len() > 0 {
            assert(prev[prev.len() - 1] >= prev.len() - 1);
            assert(prev.len() <= n - 1);
        }
        if box_accepts(boxes, active, skip, ignore, a, n - 1) {
            assert(cur == prev.push(n - 1));
            assert(forall|j: int| 0 <= j < prev.len() ==> cur[j] == prev[j]);
            assert(cur[cur.len() - 1] == n - 1);
        } else {
            assert(cur == prev);
        }
    }
}

/// A longer box scan extends a shorter one: the shorter result is a prefix.
pub proof fn lemma_box_hits_upto_prefix(
    boxes: Seq<Recti>,
    active: Seq<bool>,
    skip: int,
    ignore: Seq<usize>,
    a: Recti,
    m: int,
    n: int,
)
    requires
        m <= n,
    ensures
        box_hits_upto(boxes, active, skip, ignore, a, m).len() <= box_hits_upto(
            boxes,
            active,
            skip,
            ignore,
            a,
            n,
        ).len(),
        forall|j: int|
            0 <= j < box_hits_upto(boxes, active, skip, ignore, a, m).len()
                ==> #[trigger] box_hits_upto(boxes, active, skip, ignore, a, n)[j]
                == box_hits_upto(boxes, active, skip, ignore, a, m)[j],
    decreases n - m,
{
    if m < n {
        lemma_box_hits_upto_prefix(boxes, active, skip, ignore, a, m, n - 1);
        if n > 0 {
            lemma_box_hits_upto_step(boxes, active, skip, ignore, a, n);
            let prev = box_hits_upto(boxes, active, skip, ignore, a, n - 1);
            let cur = box_hits_upto(boxes, active, skip, ignore, a, n);
            if box_accepts(boxes, active, skip, ignore, a, n - 1) {
                assert(cur == prev.push(n - 1));
                assert(forall|j: int| 0 <= j < prev.len() ==> cur[j] == prev[j]);
            } else {
                assert(cur == prev);
            }
        }
    }
}

/// Same as [`lemma_box_hits_upto_props`], for point scans.
pub proof fn lemma_point_hits_upto_props(
    boxes: Seq<Recti>,
    active: Seq<bool>,
    skip: int,
    p: Vec2i,
    n: int,
)
    ensures
        forall|j: int|
            0 <= j < point_hits_upto(boxes, active, skip, p, n).len() ==> {
                let x = #[trigger] point_hits_upto(boxes, active, skip, p, n)[j];
                0 <= x < n && point_accepts(boxes, active, skip, p, x) && x >= j
            },
    decreases n,
{
    if n > 0 {
        lemma_point_hits_upto_step(boxes, active, skip, p, n);
        lemma_point_hits_upto_props(boxes, active, skip, p, n - 1);
        let prev = point_hits_upto(boxes, active, skip, p, n - 1);
        let cur = point_hits_upto(boxes, active, skip, p, n);
        if prev.len() > 0 {
            assert(prev[prev.len() - 1] >= prev.len() - 1);
            assert(prev.len() <= n - 1);
        }
        if point_accepts(boxes, active, skip, p, n - 1) {
            assert(cur == prev.push(n - 1));
            assert(forall|j: int| 0 <= j < prev.len() ==> cur[j] == prev[j]);
            assert(cur[cur.len() - 1] == n - 1);
        } else {
            assert(cur == prev);
        }
    }
}

/// Same as [`lemma_box_hits_upto_prefix`], for point scans.
pub proof fn lemma_point_hits_upto_prefix(
    boxes: Seq<Recti>,
    active: Seq<bool>,
    skip: int,
    p: Vec2i,
    m: int,
    n: int,
)
    requires
        m <= n,
    ensures
        point_hits_upto(boxes, active, skip, p, m).len() <= point_hits_upto(
            boxes,
            active,
            skip,
            p,
            n,
        ).len(),
        forall|j: int|
            0 <= j < point_hits_upto(boxes, active, skip, p, m).len()
                ==> #[trigger] point_hits_upto(boxes, active, skip, p, n)[j] == point_hits_upto(
                boxes,
                active,
                skip,
                p,
                m,
            )[j],
    decreases n - m,
{
    if m < n {
        lemma_point_hits_upto_prefix(boxes, active, skip, p, m, n - 1);
        if n > 0 {
            lemma_point_hits_upto_step(boxes, active, skip, p, n);
            let prev = point_hits_upto(boxes, active, skip, p, n - 1);
            let cur = point_hits_upto(boxes, active, skip, p, n);
            if point_accepts(boxes, active, skip, p, n - 1) {
                assert(cur == prev.push(n - 1));
                assert(forall|j: int| 0 <= j < prev.len() ==> cur[j] == prev[j]);
            } else {
                assert(cur == prev);
            }
        }
    }
}

// ---------------------------------------------------------------------------
// The registry.
// ---------------------------------------------------------------------------
/// Registry of axis-aligned bounding boxes plus the collision engine that
/// scans them. Row `i` is the collider with handle `i`.
pub struct ColliderMgr {
    pub bbox: Vec<Recti>,
    /// Whether the debug renderer should draw this bounding box.
    pub render_bbox: Vec<bool>,
    pub is_active: Vec<bool>,
}

impl ColliderMgr {
    /// Parallel columns agree in length and every stored box is within world
    /// bounds with non-negative extents.
    pub open spec fn wf(&self) -> bool {
        &&& self.render_bbox@.len() == self.bbox@.len()
        &&& self.is_active@.len() == self.bbox@.len()
        &&& forall|i: int| 0 <= i < self.bbox@.len() ==> rect_ok(#[trigger] self.bbox@[i])
    }

    pub open spec fn spec_len(&self) -> nat {
        self.bbox@.len()
    }

    pub fn new() -> (r: ColliderMgr)
        ensures
            r.wf(),
            r.spec_len() == 0,
    {
        ColliderMgr { bbox: Vec::new(), render_bbox: Vec::new(), is_active: Vec::new() }
    }

    pub fn len(&self) -> (r: usize)
        ensures
            r == self.spec_len(),
    {
        self.bbox.len()
    }

    pub fn is_active(&self, index: usize) -> (r: bool)
        requires
            self.wf(),
            index < self.spec_len(),
        ensures
            r == self.is_active@[index as int],
    {
        self.is_active[index]
    }

    pub fn set_active(&mut self, index: usize, is_active: bool)
        requires
            old(self).wf(),
            index < old(self).spec_len(),
        ensures
            final(self).wf(),
            final(self).is_active@ == old(self).is_active@.update(index as int, is_active),
            final(self).bbox@ == old(self).bbox@,
            final(self).render_bbox@ == old(self).render_bbox@,
    {
        self.is_active.set(index, is_active);
    }

    pub fn render_bbox(&self, index: usize) -> (r: bool)
        requires
            self.wf(),
            index < self.spec_len(),
        ensures
            r == self.render_bbox@[index as int],
    {
        self.render_bbox[index]
    }

    pub fn set_render_bbox(&mut self, index: usize, render: bool)
        requires
            old(self).wf(),
            index < old(self).spec_len(),
        ensures
            final(self).wf(),
            final(self).render_bbox@ == old(self).render_bbox@.update(index as int, render),
            final(self).bbox@ == old(self).bbox@,
            final(self).is_active@ == old(self).is_active@,
    {
        self.render_bbox.set(index, render);
    }

    /// Appends a collider row and returns its handle. New collider rows
    /// start active and are not debug-rendered.
    pub fn add(&mut self, bbox: Recti) -> (r: usize)
        requires
            old(self).wf(),
            rect_ok(bbox),
        ensures
            final(self).wf(),
            r == old(self).spec_len(),
            final(self).spec_len() == old(self).spec_len() + 1,
            final(self).bbox@ == old(self).bbox@.push(bbox),
            final(self).render_bbox@ == old(self).render_bbox@.push(false),
            final(self).is_active@ == old(self).is_active@.push(true),
    {
        self.bbox.push(bbox);
        self.render_bbox.push(false);
        self.is_active.push(true);
        self.bbox.len() - 1
    }

    /// Creates a rectangle from a sprite's position and scaled size, usable
    /// as a bounding box.
    pub fn create_rect_for_sprite(sprite_i: usize, sprite_mgr: &SpriteMgr) -> (r: Recti)
        requires
            sprite_mgr.wf(),
            sprite_i < sprite_mgr.spec_len(),
        ensures
            r.x == sprite_mgr.position@[sprite_i as int].x,
            r.y == sprite_mgr.position@[sprite_i as int].y,
            r.w == sprite_mgr.scaled_size_cache@[sprite_i as int].x,
            r.h == sprite_mgr.scaled_size_cache@[sprite_i as int].y,
            rect_ok(r),
    {
        sprite_mgr.rect(sprite_i)
    }

    /// Appends a collider sized from a sprite's position and scaled size, or
    /// from a predefined `bbox` when one is given.
    pub fn add_from_sprite(&mut self, sprite_i: usize, bbox: Option<Recti>, sprite_mgr: &SpriteMgr)
        -> (r: usize)
        requires
            old(self).wf(),
            sprite_mgr.wf(),
            sprite_i < sprite_mgr.spec_len(),
            bbox is Some ==> rect_ok(bbox->Some_0),
        ensures
            final(self).wf(),
            r == old(self).spec_len(),
            final(self).spec_len() == old(self).spec_len() + 1,
            final(self).bbox@ == old(self).bbox@.push(final(self).bbox@[r as int]),
            final(self).render_bbox@ == old(self).render_bbox@.push(false),
            final(self).is_active@ == old(self).is_active@.push(true),
            match bbox {
                Some(b) => final(self).bbox@[r as int] == b,
                None => final(self).bbox@[r as int] == (Recti {
                    x: sprite_mgr.position@[sprite_i as int].x,
                    y: sprite_mgr.position@[sprite_i as int].y,
                    w: sprite_mgr.scaled_size_cache@[sprite_i as int].x,
                    h: sprite_mgr.scaled_size_cache@[sprite_i as int].y,
                }),
            },
    {
        let rect = match bbox {
            Some(b) => b,
            None => Self::create_rect_for_sprite(sprite_i, sprite_mgr),
        };
        self.add(rect)
    }

    /// Moves a collider's box to a new origin, keeping its extents.
    pub fn set_position(&mut self, index: usize, x: i64, y: i64)
        requires
            old(self).wf(),
            index < old(self).spec_len(),
            coord_ok(x as int),
            coord_ok(y as int),
        ensures
            final(self).wf(),
            final(self).bbox@ == old(self).bbox@.update(
                index as int,
                (Recti {
                    x,
                    y,
                    w: old(self).bbox@[index as int].w,
                    h: old(self).bbox@[index as int].h,
                }),
            ),
            final(self).render_bbox@ == old(self).render_bbox@,
            final(self).is_active@ == old(self).is_active@,
    {
        let b = self.bbox[index];
        self.bbox.set(index, Recti { x, y, w: b.w, h: b.h });
    }

    /// Allocates a hit buffer of `size` cleared records, for use as the
    /// scratch buffer of the batch queries.
    pub fn create_hit_buffer(size: usize) -> (r: Vec<Hit>)
        ensures
            r@.len() == size,
            forall|i: int|
                0 <= i < size ==> #[trigger] r@[i] == (Hit {
                    is_colliding: false,
                    collider_i: usize::MAX,
                    position: Vec2i { x: 0, y: 0 },
                    delta: Vec2i { x: 0, y: 0 },
                    normal: Vec2i { x: 0, y: 0 },
                }),
    {
        let mut buffer: Vec<Hit> = Vec::new();
        let mut i: usize = 0;
        while i < size
            invariant
                i <= size,
                buffer@.len() == i,
                forall|j: int|
                    0 <= j < i ==> #[trigger] buffer@[j] == (Hit {
                        is_colliding: false,
                        collider_i: usize::MAX,
                        position: Vec2i { x: 0, y: 0 },
                        delta: Vec2i { x: 0, y: 0 },
                        normal: Vec2i { x: 0, y: 0 },
                    }),
            decreases size - i,
        {
            buffer.push(
                Hit {
                    is_colliding: false,
                    collider_i: usize::MAX,
                    position: Vec2i { x: 0, y: 0 },
                    delta: Vec2i { x: 0, y: 0 },
                    normal: Vec2i { x: 0, y: 0 },
                },
            );
            i = i + 1;
        }
        buffer
    }

    /// Tests a single point against a single box. Returns whether the point
    /// is strictly inside the box; on a hit, fills `hit` with the exact
    /// contact record, and on a miss only clears its `is_colliding` flag.
    pub fn intersect_point_single(
        point: &Vec2i,
        test_bbox: &Recti,
        test_collider_i: usize,
        hit: &mut Hit,
    ) -> (r: bool)
        requires
            vec_ok(*point),
            rect_ok(*test_bbox),
        ensures
            r == point_in_box(*point, *test_bbox),
            final(hit).is_colliding == r,
            !r ==> *final(hit) == (Hit { is_colliding: false, ..*old(hit) }),
            r ==> point_hit_ok(*final(hit), *point, *test_bbox, test_collider_i as int),
    {
        let b = *test_bbox;
        let off2x: i64 = 2 * point.x - (2 * b.x + b.w);
        let abs_off2x: i64 = if off2x >= 0 {
            off2x
        } else {
            -off2x
        };
        let pen2x: i64 = b.w - abs_off2x;
        if pen2x <= 0 {
            hit.is_colliding = false;
            return false;
        }
        let off2y: i64 = 2 * point.y - (2 * b.y + b.h);
        let abs_off2y: i64 = if off2y >= 0 {
            off2y
        } else {
            -off2y
        };
        let pen2y: i64 = b.h - abs_off2y;
        if pen2y <= 0 {
            hit.is_colliding = false;
            return false;
        }
        hit.is_colliding = true;
        hit.collider_i = test_collider_i;
        if pen2x <= pen2y {
            let sx: i64 = if off2x >= 0 {
                1
            } else {
                -1
            };
            let penx: i64 = if off2x >= 0 {
                b.x + b.w - point.x
            } else {
                point.x - b.x
            };
            let dx: i64 = if off2x >= 0 {
                penx
            } else {
                -penx
            };
            hit.delta = Vec2i { x: dx, y: 0 };
            hit.normal = Vec2i { x: sx, y: 0 };
            hit.position = Vec2i {
                x: if sx == 1 {
                    b.x + b.w
                } else {
                    b.x
                },
                y: b.y + b.h / 2,
            };
            proof {
                lemma_mul_sign(point_pen_x(*point, b), point_sign_x(*point, b));
            }
        } else {
            let sy: i64 = if off2y >= 0 {
                1
            } else {
                -1
            };
            let peny: i64 = if off2y >= 0 {
                b.y + b.h - point.y
            } else {
                point.y - b.y
            };
            let dy: i64 = if off2y >= 0 {
                peny
            } else {
                -peny
            };
            hit.delta = Vec2i { x: 0, y: dy };
            hit.normal = Vec2i { x: 0, y: sy };
            hit.position = Vec2i {
                x: b.x + b.w / 2,
                y: if sy == 1 {
                    b.y + b.h
                } else {
                    b.y
                },
            };
            proof {
                lemma_mul_sign(point_pen_y(*point, b), point_sign_y(*point, b));
            }
        }
        assert(point_hit_ok(*hit, *point, b, test_collider_i as int));
        true
    }

    /// Tests the moving box `self_bbox` against a single other box using the
    /// Minkowski-sum overlap test. Returns whether they overlap; on a hit,
    /// fills `hit` with the exact contact record resolved along the axis of
    /// least penetration, and on a miss only clears its `is_colliding` flag.
    pub fn intersect_bbox_single(
        self_bbox: &Recti,
        test_bbox: &Recti,
        test_collider_i: usize,
        hit: &mut Hit,
    ) -> (r: bool)
        requires
            rect_ok(*self_bbox),
            rect_ok(*test_bbox),
        ensures
            r == boxes_overlap(*self_bbox, *test_bbox),
            final(hit).is_colliding == r,
            !r ==> *final(hit) == (Hit { is_colliding: false, ..*old(hit) }),
            r ==> box_hit_ok(*final(hit), *self_bbox, *test_bbox, test_collider_i as int),
    {
        let a = *self_bbox;
        let b = *test_bbox;
        let off2x: i64 = (2 * b.x + b.w) - (2 * a.x + a.w);
        let abs_off2x: i64 = if off2x >= 0 {
            off2x
        } else {
            -off2x
        };
        let pen2x: i64 = (a.w + b.w) - abs_off2x;
        if pen2x <= 0 {
            hit.is_colliding = false;
            return false;
        }
        let off2y: i64 = (2 * b.y + b.h) - (2 * a.y + a.h);
        let abs_off2y: i64 = if off2y >= 0 {
            off2y
        } else {
            -off2y
        };
        let pen2y: i64 = (a.h + b.h) - abs_off2y;
        if pen2y <= 0 {
            hit.is_colliding = false;
            return false;
        }
        hit.is_colliding = true;
        hit.collider_i = test_collider_i;
        if pen2x <= pen2y {
            let sx: i64 = if off2x >= 0 {
                1
            } else {
                -1
            };
            let penx: i64 = if off2x >= 0 {
                a.x + a.w - b.x
            } else {
                b.x + b.w - a.x
            };
            let dx: i64 = if off2x >= 0 {
                penx
            } else {
                -penx
            };
            hit.delta = Vec2i { x: dx, y: 0 };
            hit.normal = Vec2i { x: sx, y: 0 };
            hit.position = Vec2i {
                x: if sx == 1 {
                    a.x + a.w
                } else {
                    a.x
                },
                y: b.y + b.h / 2,
            };
            proof {
                lemma_mul_sign(pen_x(a, b), sign_x(a, b));
            }
        } else {
            let sy: i64 = if off2y >= 0 {
                1
            } else {
                -1
            };
            let peny: i64 = if off2y >= 0 {
                a.y + a.h - b.y
            } else {
                b.y + b.h - a.y
            };
            let dy: i64 = if off2y >= 0 {
                peny
            } else {
                -peny
            };
            hit.delta = Vec2i { x: 0, y: dy };
            hit.normal = Vec2i { x: 0, y: sy };
            hit.position = Vec2i {
                x: b.x + b.w / 2,
                y: if sy == 1 {
                    a.y + a.h
                } else {
                    a.y
                },
            };
            proof {
                lemma_mul_sign(pen_y(a, b), sign_y(a, b));
            }
        }
        assert(box_hit_ok(*hit, a, b, test_collider_i as int));
        true
    }

    /// Tests a point against every other active collider, writing the hit
    /// records into the caller-supplied scratch buffer in scan order.
    /// Accumulation stops silently once the buffer's
    /// [`MAX_COLLISION_COUNT`] records are filled. Returns the number of
    /// hits recorded.
    pub fn intersect_point(&self, index: usize, point: &Vec2i, hit_buffer: &mut Vec<Hit>) -> (count:
        usize)
        requires
            self.wf(),
            index < self.spec_len(),
            vec_ok(*point),
            old(hit_buffer)@.len() == MAX_COLLISION_COUNT,
        ensures
            final(hit_buffer)@.len() == MAX_COLLISION_COUNT,
            forall|j: int|
                count <= j < MAX_COLLISION_COUNT ==> #[trigger] final(hit_buffer)@[j] == old(hit_buffer)@[j],
            count == vstd::math::min(
                point_hits_upto(
                    self.bbox@,
                    self.is_active@,
                    index as int,
                    *point,
                    self.spec_len() as int,
                ).len() as int,
                MAX_COLLISION_COUNT as int,
            ),
            forall|j: int|
                0 <= j < count ==> {
                    let x = point_hits_upto(
                        self.bbox@,
                        self.is_active@,
                        index as int,
                        *point,
                        self.spec_len() as int,
                    )[j];
                    point_accepts(self.bbox@, self.is_active@, index as int, *point, x)
                        && point_hit_ok(#[trigger] final(hit_buffer)@[j], *point, self.bbox@[x], x)
                },
    {
        let ghost full = point_hits_upto(
            self.bbox@,
            self.is_active@,
            index as int,
            *point,
            self.spec_len() as int,
        );
        let mut collision_count: usize = 0;
        let n = self.bbox.len();
        let mut i: usize = 0;
        while i < n && collision_count < MAX_COLLISION_COUNT
            invariant
                self.wf(),
                index < self.spec_len(),
                vec_ok(*point),
                n == self.spec_len(),
                i <= n,
                collision_count <= MAX_COLLISION_COUNT,
                hit_buffer@.len() == MAX_COLLISION_COUNT,
                forall|j: int|
                    collision_count <= j < MAX_COLLISION_COUNT ==> #[trigger] hit_buffer@[j]
                        == old(hit_buffer)@[j],
                collision_count == point_hits_upto(
                    self.bbox@,
                    self.is_active@,
                    index as int,
                    *point,
                    i as int,
                ).len(),
                forall|j: int|
                    0 <= j < collision_count ==> {
                        let x = point_hits_upto(
                            self.bbox@,
                            self.is_active@,
                            index as int,
                            *point,
                            i as int,
                        )[j];
                        point_accepts(self.bbox@, self.is_active@, index as int, *point, x)
                            && point_hit_ok(#[trigger] hit_buffer@[j], *point, self.bbox@[x], x)
                    },
            decreases n - i,
        {
            proof {
                lemma_point_hits_upto_props(
                    self.bbox@,
                    self.is_active@,
                    index as int,
                    *point,
                    i as int,
                );
            }
            if i != index && self.is_active(i) {
                let bbox = self.bbox[i];
                let mut hit = hit_buffer[collision_count];
                if Self::intersect_point_single(point, &bbox, i, &mut hit) {
                    hit_buffer.set(collision_count, hit);
                    collision_count = collision_count + 1;
                }
            }
            proof {
                lemma_point_hits_upto_prefix(
                    self.bbox@,
                    self.is_active@,
                    index as int,
                    *point,
                    i as int,
                    i + 1,
                );
            }
            i = i + 1;
        }
        proof {
            lemma_point_hits_upto_prefix(
                self.bbox@,
                self.is_active@,
                index as int,
                *point,
                i as int,
                n as int,
            );
            lemma_point_hits_upto_props(
                self.bbox@,
                self.is_active@,
                index as int,
                *point,
                n as int,
            );
        }
        collision_count
    }

    /// Tests collider `index`'s box, translated by `translation`, against
    /// every other active collider not on the ignore list, writing the hit
    /// records into the caller-supplied scratch buffer in scan order.
    /// Accumulation stops silently once the buffer's
    /// [`MAX_COLLISION_COUNT`] records are filled. Returns the number of
    /// hits recorded.
    pub fn intersect_bbox(
        &self,
        index: usize,
        translation: &Vec2i,
        hit_buffer: &mut Vec<Hit>,
        ignore_list: Option<&Vec<usize>>,
    ) -> (count: usize)
        requires
            self.wf(),
            index < self.spec_len(),
            coord_ok(self.bbox@[index as int].x + translation.x),
            coord_ok(self.bbox@[index as int].y + translation.y),
            old(hit_buffer)@.len() == MAX_COLLISION_COUNT,
        ensures
            final(hit_buffer)@.len() == MAX_COLLISION_COUNT,
            forall|j: int|
                count <= j < MAX_COLLISION_COUNT ==> #[trigger] final(hit_buffer)@[j] == old(hit_buffer)@[j],
            count == vstd::math::min(
                box_hits_upto(
                    self.bbox@,
                    self.is_active@,
                    index as int,
                    ignore_view(ignore_list),
                    self.spec_moved_bbox(index as int, *translation),
                    self.spec_len() as int,
                ).len() as int,
                MAX_COLLISION_COUNT as int,
            ),
            forall|j: int|
                0 <= j < count ==> {
                    let x = box_hits_upto(
                        self.bbox@,
                        self.is_active@,
                        index as int,
                        ignore_view(ignore_list),
                        self.spec_moved_bbox(index as int, *translation),
                        self.spec_len() as int,
                    )[j];
                    box_accepts(
                        self.bbox@,
                        self.is_active@,
                        index as int,
                        ignore_view(ignore_list),
                        self.spec_moved_bbox(index as int, *translation),
                        x,
                    ) && box_hit_ok(
                        #[trigger] final(hit_buffer)@[j],
                        self.spec_moved_bbox(index as int, *translation),
                        self.bbox@[x],
                        x,
                    )
                },
    {
        let b = self.bbox[index];
        let self_bbox = Recti { x: b.x + translation.x, y: b.y + translation.y, w: b.w, h: b.h };
        let mut collision_count: usize = 0;
        let n = self.bbox.len();
        let mut i: usize = 0;
        while i < n && collision_count < MAX_COLLISION_COUNT
            invariant
                self.wf(),
                index < self.spec_len(),
                self_bbox == self.spec_moved_bbox(index as int, *translation),
                rect_ok(self_bbox),
                n == self.spec_len(),
                i <= n,
                collision_count <= MAX_COLLISION_COUNT,
                hit_buffer@.len() == MAX_COLLISION_COUNT,
                forall|j: int|
                    collision_count <= j < MAX_COLLISION_COUNT ==> #[trigger] hit_buffer@[j]
                        == old(hit_buffer)@[j],
                collision_count == box_hits_upto(
                    self.bbox@,
                    self.is_active@,
                    index as int,
                    ignore_view(ignore_list),
                    self_bbox,
                    i as int,
                ).len(),
                forall|j: int|
                    0 <= j < collision_count ==> {
                        let x = box_hits_upto(
                            self.bbox@,
                            self.is_active@,
                            index as int,
                            ignore_view(ignore_list),
                            self_bbox,
                            i as int,
                        )[j];
                        box_accepts(
                            self.bbox@,
                            self.is_active@,
                            index as int,
                            ignore_view(ignore_list),
                            self_bbox,
                            x,
                        ) && box_hit_ok(#[trigger] hit_buffer@[j], self_bbox, self.bbox@[x], x)
                    },
            decreases n - i,
        {
            proof {
                lemma_box_hits_upto_props(
                    self.bbox@,
                    self.is_active@,
                    index as int,
                    ignore_view(ignore_list),
                    self_bbox,
                    i as int,
                );
            }
            let skipped = i == index || !self.is_active(i) || match ignore_list {
                Some(list) => Self::list_contains(list, i),
                None => false,
            };
            if !skipped {
                let bbox = self.bbox[i];
                let mut hit = hit_buffer[collision_count];
                if Self::intersect_bbox_single(&self_bbox, &bbox, i, &mut hit) {
                    hit_buffer.set(collision_count, hit);
                    collision_count = collision_count + 1;
                }
            }
            proof {
                lemma_box_hits_upto_prefix(
                    self.bbox@,
                    self.is_active@,
                    index as int,
                    ignore_view(ignore_list),
                    self_bbox,
                    i as int,
                    i + 1,
                );
            }
            i = i + 1;
        }
        proof {
            lemma_box_hits_upto_prefix(
                self.bbox@,
                self.is_active@,
                index as int,
                ignore_view(ignore_list),
                self_bbox,
                i as int,
                n as int,
            );
            lemma_box_hits_upto_props(
                self.bbox@,
                self.is_active@,
                index as int,
                ignore_view(ignore_list),
                self_bbox,
                n as int,
            );
        }
        collision_count
    }

    /// Collider `index`'s box translated by `t`.
    pub open spec fn spec_moved_bbox(&self, index: int, t: Vec2i) -> Recti {
        Recti {
            x: (self.bbox@[index].x + t.x) as i64,
            y: (self.bbox@[index].y + t.y) as i64,
            w: self.bbox@[index].w,
            h: self.bbox@[index].h,
        }
    }

    /// Whether `list` contains the handle `v`.
    fn list_contains(list: &Vec<usize>, v: usize) -> (r: bool)
        ensures
            r == list@.contains(v),
    {
        let n = list.len();
        let mut i: usize = 0;
        while i < n
            invariant
                i <= n,
                n == list@.len(),
                forall|j: int| 0 <= j < i ==> list@[j] != v,
            decreases n - i,
        {
            if list[i] == v {
                return true;
            }
            i = i + 1;
        }
        false
    }
}

// ---------------------------------------------------------------------------
// Laws of the collision engine.
// ---------------------------------------------------------------------------
/// The moving box `a` after applying a hit's resolution: the delta is
/// subtracted from the box origin.
pub open spec fn rect_resolved(a: Recti, delta: Vec2i) -> Recti {
    Recti { x: (a.x - delta.x) as i64, y: (a.y - delta.y) as i64, w: a.w, h: a.h }
}

/// Boxes with zero overlap on both axes are not colliding.
pub proof fn lemma_separated_boxes_not_colliding(a: Recti, b: Recti)
    requires
        pen2_x(a, b) <= 0,
        pen2_y(a, b) <= 0,
    ensures
        !boxes_overlap(a, b),
{
}

/// For overlapping boxes the reported axis is the one with strictly smaller
/// penetration; equal penetration on both axes resolves along the x axis.
pub proof fn lemma_axis_of_least_penetration(h: Hit, a: Recti, b: Recti, i: int)
    requires
        boxes_overlap(a, b),
        box_hit_ok(h, a, b, i),
    ensures
        pen2_x(a, b) < pen2_y(a, b) ==> h.delta.y == 0 && h.normal.y == 0 && h.normal.x
            == sign_x(a, b),
        pen2_y(a, b) < pen2_x(a, b) ==> h.delta.x == 0 && h.normal.x == 0 && h.normal.y
            == sign_y(a, b),
        pen2_x(a, b) == pen2_y(a, b) ==> h.delta.y == 0 && h.normal.y == 0 && h.normal.x
            == sign_x(a, b),
{
}

/// Subtracting a reported delta from the moving box's position separates the
/// two boxes exactly: after resolution the penetration along the reported
/// axis is exactly zero, so the boxes touch but no longer collide.
pub proof fn lemma_delta_separates(h: Hit, a: Recti, b: Recti, i: int)
    requires
        rect_ok(a),
        rect_ok(b),
        boxes_overlap(a, b),
        box_hit_ok(h, a, b, i),
    ensures
        !boxes_overlap(rect_resolved(a, h.delta), b),
        resolves_on_x(a, b) ==> pen2_x(rect_resolved(a, h.delta), b) == 0,
        !resolves_on_x(a, b) ==> pen2_y(rect_resolved(a, h.delta), b) == 0,
{
    let r = rect_resolved(a, h.delta);
    if resolves_on_x(a, b) {
        lemma_mul_sign(pen_x(a, b), sign_x(a, b));
        assert(pen2_x(a, b) <= a.w + b.w);
        assert(r.x == a.x - h.delta.x);
        assert(r.y == a.y as int);
        if off2_x(a, b) >= 0 {
            assert(h.delta.x == a.x + a.w - b.x);
            assert(off2_x(r, b) == off2_x(a, b) + 2 * h.delta.x);
            assert(pen2_x(r, b) == 0);
        } else {
            assert(h.delta.x == -(b.x + b.w - a.x));
            assert(off2_x(r, b) == off2_x(a, b) + 2 * h.delta.x);
            assert(pen2_x(r, b) == 0);
        }
    } else {
        lemma_mul_sign(pen_y(a, b), sign_y(a, b));
        assert(r.y == a.y - h.delta.y);
        assert(r.x == a.x as int);
        if off2_y(a, b) >= 0 {
            assert(h.delta.y == a.y + a.h - b.y);
            assert(off2_y(r, b) == off2_y(a, b) + 2 * h.delta.y);
            assert(pen2_y(r, b) == 0);
        } else {
            assert(h.delta.y == -(b.y + b.h - a.y));
            assert(off2_y(r, b) == off2_y(a, b) + 2 * h.delta.y);
            assert(pen2_y(r, b) == 0);
        }
    }
}

/// A point lying exactly on a box's edge or corner is not inside the box:
/// collision requires strictly positive penetration on both axes.
pub proof fn lemma_boundary_point_not_inside(p: Vec2i, b: Recti)
    requires
        rect_ok(b),
        p.x == b.x || p.x == b.x + b.w || p.y == b.y || p.y == b.y + b.h,
    ensures
        !point_in_box(p, b),
{
}

/// A deactivated collider is never reported by a box scan.
pub proof fn lemma_inactive_never_reported(
    boxes: Seq<Recti>,
    active: Seq<bool>,
    skip: int,
    ignore: Seq<usize>,
    a: Recti,
    n: int,
    i: int,
)
    requires
        0 <= i < active.len(),
        !active[i],
    ensures
        !box_hits_upto(boxes, active, skip, ignore, a, n).contains(i),
{
    lemma_box_hits_upto_props(boxes, active, skip, ignore, a, n);
    let hits = box_hits_upto(boxes, active, skip, ignore, a, n);
    assert(forall|j: int| 0 <= j < hits.len() ==> hits[j] != i);
}

/// A reported delta never exceeds three world bounds in magnitude, so
/// summing a bounded number of deltas cannot overflow.
pub proof fn lemma_hit_delta_bounds(h: Hit, a: Recti, b: Recti, i: int)
    requires
        rect_ok(a),
        rect_ok(b),
        box_hit_ok(h, a, b, i),
    ensures
        -3 * COORD_LIMIT as int <= h.delta.x <= 3 * COORD_LIMIT as int,
        -3 * COORD_LIMIT as int <= h.delta.y <= 3 * COORD_LIMIT as int,
{
    if resolves_on_x(a, b) {
        lemma_mul_sign(pen_x(a, b), sign_x(a, b));
    } else {
        lemma_mul_sign(pen_y(a, b), sign_y(a, b));
    }
}

} // verus!
