//! Sprite registry: a structure-of-arrays table of sprite instances keyed by
//! a dense integer handle.
//!
//! A row holds a position, a base size, a scale factor and a cached
//! `size * scale / SCALE_UNIT` product, an active flag, and a back-reference
//! handle into the texture registry owned by the rendering collaborator.
//! Scales are expressed in hundredths (`SCALE_UNIT` = one whole unit), so
//! the cached product is exact integer arithmetic.

use vstd::prelude::*;

use crate::geom::{coord_ok, rect_ok, vec_ok, Recti, Vec2i, COORD_LIMIT};

verus! {

/// Scale denominator: a `scale` component of `SCALE_UNIT` means 1.0x.
pub const SCALE_UNIT: i64 = 100;

/// One scaled-size component: `size * scale / SCALE_UNIT`.
pub open spec fn scaled_component(size: int, scale: int) -> int {
    size * scale / (SCALE_UNIT as int)
}

/// A size component together with a scale component is admissible: both are
/// non-negative, the size is within world bounds, and the product stays small
/// enough that the scaled size is itself within world bounds.
pub open spec fn size_scale_ok(size: int, scale: int) -> bool {
    &&& 0 <= size <= COORD_LIMIT as int
    &&& 0 <= scale
    &&& size * scale <= COORD_LIMIT as int * SCALE_UNIT as int
}

/// Registry of sprite instances; row `i` is the sprite with handle `i`.
pub struct SpriteMgr {
    pub position: Vec<Vec2i>,
    pub size: Vec<Vec2i>,
    pub scale: Vec<Vec2i>,
    pub is_active: Vec<bool>,
    /// Handle into the texture registry of the rendering collaborator.
    pub texture_i: Vec<usize>,
    pub scaled_size_cache: Vec<Vec2i>,
}

impl SpriteMgr {
    /// All parallel columns agree in length, every row is within world
    /// bounds, and the scaled-size cache is exact for every row.
    pub open spec fn wf(&self) -> bool {
        &&& self.size@.len() == self.position@.len()
        &&& self.scale@.len() == self.position@.len()
        &&& self.is_active@.len() == self.position@.len()
        &&& self.texture_i@.len() == self.position@.len()
        &&& self.scaled_size_cache@.len() == self.position@.len()
        &&& forall|i: int|
            0 <= i < self.position@.len() ==> vec_ok(#[trigger] self.position@[i])
        &&& forall|i: int|
            0 <= i < self.position@.len() ==> size_scale_ok(
                (#[trigger] self.size@[i]).x as int,
                self.scale@[i].x as int,
            )
        &&& forall|i: int|
            0 <= i < self.position@.len() ==> size_scale_ok(
                (#[trigger] self.size@[i]).y as int,
                self.scale@[i].y as int,
            )
        &&& forall|i: int|
            0 <= i < self.position@.len() ==> (#[trigger] self.scaled_size_cache@[i]).x
                == scaled_component(self.size@[i].x as int, self.scale@[i].x as int)
        &&& forall|i: int|
            0 <= i < self.position@.len() ==> (#[trigger] self.scaled_size_cache@[i]).y
                == scaled_component(self.size@[i].y as int, self.scale@[i].y as int)
    }

    pub open spec fn spec_len(&self) -> nat {
        self.position@.len()
    }

    pub fn new() -> (r: SpriteMgr)
        ensures
            r.wf(),
            r.spec_len() == 0,
    {
        SpriteMgr {
            position: Vec::new(),
            size: Vec::new(),
            scale: Vec::new(),
            is_active: Vec::new(),
            texture_i: Vec::new(),
            scaled_size_cache: Vec::new(),
        }
    }

    pub fn len(&self) -> (r: usize)
        ensures
            r == self.spec_len(),
    {
        self.position.len()
    }

    /// Appends a sprite row with the provided texture reference handle and
    /// returns the new row's handle. New sprite rows start active.
    pub fn add(&mut self, texture_i: usize, position: Vec2i, size: Vec2i, scale: Vec2i) -> (r:
        usize)
        requires
            old(self).wf(),
            vec_ok(position),
            size_scale_ok(size.x as int, scale.x as int),
            size_scale_ok(size.y as int, scale.y as int),
        ensures
            final(self).wf(),
            r == old(self).spec_len(),
            final(self).spec_len() == old(self).spec_len() + 1,
            final(self).position@ == old(self).position@.push(position),
            final(self).size@ == old(self).size@.push(size),
            final(self).scale@ == old(self).scale@.push(scale),
            final(self).is_active@ == old(self).is_active@.push(true),
            final(self).texture_i@ == old(self).texture_i@.push(texture_i),
            final(self).scaled_size_cache@[r as int].x == scaled_component(
                size.x as int,
                scale.x as int,
            ),
            final(self).scaled_size_cache@[r as int].y == scaled_component(
                size.y as int,
                scale.y as int,
            ),
    {
        let cached = Vec2i {
            x: size.x * scale.x / SCALE_UNIT,
            y: size.y * scale.y / SCALE_UNIT,
        };
        self.position.push(position);
        self.size.push(size);
        self.scale.push(scale);
        self.scaled_size_cache.push(cached);
        self.is_active.push(true);
        self.texture_i.push(texture_i);
        self.position.len() - 1
    }

    pub fn size(&self, index: usize) -> (r: Vec2i)
        requires
            self.wf(),
            index < self.spec_len(),
        ensures
            r == self.size@[index as int],
    {
        self.size[index]
    }

    /// Replaces a row's scale factor, recomputing the scaled-size cache in
    /// the same step so the cache never goes stale.
    pub fn set_scale(&mut self, index: usize, scale: Vec2i)
        requires
            old(self).wf(),
            index < old(self).spec_len(),
            size_scale_ok(old(self).size@[index as int].x as int, scale.x as int),
            size_scale_ok(old(self).size@[index as int].y as int, scale.y as int),
        ensures
            final(self).wf(),
            final(self).scale@ == old(self).scale@.update(index as int, scale),
            final(self).scaled_size_cache@[index as int].x == scaled_component(
                old(self).size@[index as int].x as int,
                scale.x as int,
            ),
            final(self).scaled_size_cache@[index as int].y == scaled_component(
                old(self).size@[index as int].y as int,
                scale.y as int,
            ),
            final(self).position@ == old(self).position@,
            final(self).size@ == old(self).size@,
            final(self).is_active@ == old(self).is_active@,
            final(self).texture_i@ == old(self).texture_i@,
    {
        let size = self.size[index];
        let cached = Vec2i {
            x: size.x * scale.x / SCALE_UNIT,
            y: size.y * scale.y / SCALE_UNIT,
        };
        self.scale.set(index, scale);
        self.scaled_size_cache.set(index, cached);
    }

    pub fn scale(&self, index: usize) -> (r: Vec2i)
        requires
            self.wf(),
            index < self.spec_len(),
        ensures
            r == self.scale@[index as int],
    {
        self.scale[index]
    }

    /// The cached `size * scale / SCALE_UNIT` product for a row.
    pub fn scaled_size(&self, index: usize) -> (r: Vec2i)
        requires
            self.wf(),
            index < self.spec_len(),
        ensures
            r == self.scaled_size_cache@[index as int],
    {
        self.scaled_size_cache[index]
    }

    pub fn position(&self, index: usize) -> (r: Vec2i)
        requires
            index < self.spec_len(),
        ensures
            r == self.position@[index as int],
    {
        self.position[index]
    }

    pub fn set_position(&mut self, index: usize, position: Vec2i)
        requires
            old(self).wf(),
            index < old(self).spec_len(),
            vec_ok(position),
        ensures
            final(self).wf(),
            final(self).position@ == old(self).position@.update(index as int, position),
            final(self).size@ == old(self).size@,
            final(self).scale@ == old(self).scale@,
            final(self).is_active@ == old(self).is_active@,
            final(self).texture_i@ == old(self).texture_i@,
            final(self).scaled_size_cache@ == old(self).scaled_size_cache@,
    {
        self.position.set(index, position);
    }

    /// Moves a row's position by `delta`.
    pub fn translate(&mut self, index: usize, delta: Vec2i)
        requires
            old(self).wf(),
            index < old(self).spec_len(),
            coord_ok(old(self).position@[index as int].x + delta.x),
            coord_ok(old(self).position@[index as int].y + delta.y),
        ensures
            final(self).wf(),
            final(self).position@[index as int].x == old(self).position@[index as int].x + delta.x,
            final(self).position@[index as int].y == old(self).position@[index as int].y + delta.y,
            final(self).position@ == old(self).position@.update(
                index as int,
                final(self).position@[index as int],
            ),
            final(self).size@ == old(self).size@,
            final(self).scale@ == old(self).scale@,
            final(self).is_active@ == old(self).is_active@,
            final(self).texture_i@ == old(self).texture_i@,
            final(self).scaled_size_cache@ == old(self).scaled_size_cache@,
    {
        let p = self.position[index];
        let moved = Vec2i { x: p.x + delta.x, y: p.y + delta.y };
        self.position.set(index, moved);
    }

    pub fn set_active(&mut self, index: usize, is_active: bool)
        requires
            old(self).wf(),
            index < old(self).spec_len(),
        ensures
            final(self).wf(),
            final(self).is_active@ == old(self).is_active@.update(index as int, is_active),
            final(self).position@ == old(self).position@,
            final(self).size@ == old(self).size@,
            final(self).scale@ == old(self).scale@,
            final(self).texture_i@ == old(self).texture_i@,
            final(self).scaled_size_cache@ == old(self).scaled_size_cache@,
    {
        self.is_active.set(index, is_active);
    }

    pub fn is_active(&self, index: usize) -> (r: bool)
        requires
            self.wf(),
            index < self.spec_len(),
        ensures
            r == self.is_active@[index as int],
    {
        self.is_active[index]
    }

    /// The rectangle covered by a sprite: its position with its scaled size
    /// as extents. Used to derive a collider bounding box.
    pub fn rect(&self, index: usize) -> (r: Recti)
        requires
            self.wf(),
            index < self.spec_len(),
        ensures
            r.x == self.position@[index as int].x,
            r.y == self.position@[index as int].y,
            r.w == self.scaled_size_cache@[index as int].x,
            r.h == self.scaled_size_cache@[index as int].y,
            rect_ok(r),
    {
        let p = self.position[index];
        let s = self.scaled_size_cache[index];
        proof {
            crate::sprite::lemma_scaled_in_range(
                self.size@[index as int].x as int,
                self.scale@[index as int].x as int,
            );
            crate::sprite::lemma_scaled_in_range(
                self.size@[index as int].y as int,
                self.scale@[index as int].y as int,
            );
        }
        Recti { x: p.x, y: p.y, w: s.x, h: s.y }
    }
}

/// An admissible size/scale pair yields a scaled component within world
/// bounds.
pub proof fn lemma_scaled_in_range(size: int, scale: int)
    requires
        size_scale_ok(size, scale),
    ensures
        0 <= scaled_component(size, scale) <= COORD_LIMIT as int,
{
    assert(0 <= size * scale <= COORD_LIMIT as int * 100) by (nonlinear_arith)
        requires
            0 <= size <= COORD_LIMIT as int,
            0 <= scale,
            size * scale <= COORD_LIMIT as int * 100,
    ;
    assert(0 <= size * scale / 100 <= COORD_LIMIT as int) by (nonlinear_arith)
        requires
            0 <= size * scale <= COORD_LIMIT as int * 100,
    ;
}

} // verus!
