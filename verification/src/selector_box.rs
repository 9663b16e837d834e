//! RTS-style selection box: a draggable rectangle that selects the
//! colliders it overlaps.
//!
//! The box owns one collider row whose rectangle follows the mouse drag,
//! normalized so its extents stay non-negative whichever way the drag goes.
//! Each update pass collects the colliders currently overlapping the box.

use vstd::prelude::*;

use crate::collider::{
    box_accepts, box_hits_upto, ignore_view, ColliderMgr, Hit, MAX_COLLISION_COUNT,
};
use crate::geom::{Recti, Vec2i, COORD_LIMIT};

verus! {

/// A coordinate a drag corner may take: half the world bound, so the
/// spanned rectangle's extents stay within world bounds.
pub open spec fn drag_pos_ok(v: Vec2i) -> bool {
    &&& -(COORD_LIMIT as int) / 2 <= v.x <= (COORD_LIMIT as int) / 2
    &&& -(COORD_LIMIT as int) / 2 <= v.y <= (COORD_LIMIT as int) / 2
}

/// Selects colliders with a draggable selection rectangle.
pub struct SelectorBox {
    /// The collider row owned by the box; set once by `init`.
    pub collider_i: Option<usize>,
    pub is_dragging: bool,
    pub is_active: bool,
    pub drag_start_position: Vec2i,
    /// Handles of the colliders the box overlapped at the last update.
    pub selected_collider_i: Vec<usize>,
}

impl SelectorBox {
    /// The box has been initialized against `cm`: it owns a valid collider
    /// row.
    pub open spec fn inited(&self, cm: ColliderMgr) -> bool {
        self.collider_i is Some && (self.collider_i->Some_0 as int) < cm.spec_len()
    }

    pub fn new() -> (r: SelectorBox)
        ensures
            r.collider_i is None,
            !r.is_dragging,
            r.is_active,
            r.drag_start_position == (Vec2i { x: 0, y: 0 }),
            r.selected_collider_i@.len() == 0,
    {
        SelectorBox {
            collider_i: None,
            is_dragging: false,
            is_active: true,
            drag_start_position: Vec2i { x: 0, y: 0 },
            selected_collider_i: Vec::new(),
        }
    }

    /// Creates the box's zero-sized collider row.
    pub fn init(&mut self, collider_mgr: &mut ColliderMgr)
        requires
            old(collider_mgr).wf(),
        ensures
            final(self).inited(*final(collider_mgr)),
            final(collider_mgr).wf(),
            final(self).collider_i == Some(old(collider_mgr).spec_len() as usize),
            final(self).is_dragging == old(self).is_dragging,
            final(self).is_active == old(self).is_active,
            final(self).selected_collider_i@ == old(self).selected_collider_i@,
            final(collider_mgr).spec_len() == old(collider_mgr).spec_len() + 1,
            final(collider_mgr).bbox@ == old(collider_mgr).bbox@.push(
                (Recti { x: 0, y: 0, w: 0, h: 0 }),
            ),
            final(collider_mgr).is_active@ == old(collider_mgr).is_active@.push(true),
    {
        let bbox = Recti { x: 0, y: 0, w: 0, h: 0 };
        self.collider_i = Some(collider_mgr.add(bbox));
    }

    /// Routes one frame's mouse snapshot to the drag logic: starting,
    /// continuing or ending a drag.
    pub fn input(
        &mut self,
        mouse_pos: Vec2i,
        l_pressed: bool,
        l_down: bool,
        l_released: bool,
        collider_mgr: &mut ColliderMgr,
    )
        requires
            old(self).inited(*old(collider_mgr)),
            old(collider_mgr).wf(),
            drag_pos_ok(mouse_pos),
            drag_pos_ok(old(self).drag_start_position),
        ensures
            final(self).inited(*final(collider_mgr)),
            final(collider_mgr).wf(),
            final(self).collider_i == old(self).collider_i,
            final(self).is_active == old(self).is_active,
            final(self).selected_collider_i@ == old(self).selected_collider_i@,
            final(collider_mgr).spec_len() == old(collider_mgr).spec_len(),
            drag_pos_ok(final(self).drag_start_position),
            l_pressed ==> final(self).is_dragging && final(self).drag_start_position == mouse_pos,
            !l_pressed && l_down ==> final(self).is_dragging == old(self).is_dragging,
            !l_pressed && !l_down && l_released ==> !final(self).is_dragging,
            !l_pressed && !l_down && !l_released ==> *final(self) == *old(self) && *final(collider_mgr) == *old(collider_mgr),
    {
        if l_pressed {
            self.start_dragging(mouse_pos, collider_mgr);
        } else if l_down {
            self.update_dragging(mouse_pos, collider_mgr);
        } else if l_released {
            self.stop_dragging(collider_mgr);
        }
    }

    /// Begins a drag at the mouse position: the box collider's origin moves
    /// there and the start corner is remembered.
    pub fn start_dragging(&mut self, mouse_pos: Vec2i, collider_mgr: &mut ColliderMgr)
        requires
            old(self).inited(*old(collider_mgr)),
            old(collider_mgr).wf(),
            drag_pos_ok(mouse_pos),
        ensures
            final(self).inited(*final(collider_mgr)),
            final(collider_mgr).wf(),
            final(self).collider_i == old(self).collider_i,
            final(self).is_dragging,
            final(self).is_active == old(self).is_active,
            final(self).drag_start_position == mouse_pos,
            final(self).selected_collider_i@ == old(self).selected_collider_i@,
            final(collider_mgr).spec_len() == old(collider_mgr).spec_len(),
            final(collider_mgr).bbox@[old(self).collider_i->Some_0 as int].x == mouse_pos.x,
            final(collider_mgr).bbox@[old(self).collider_i->Some_0 as int].y == mouse_pos.y,
    {
        self.is_dragging = true;
        self.drag_start_position = mouse_pos;
        let ci = match self.collider_i {
            Some(ci) => ci,
            None => 0,
        };
        collider_mgr.set_position(ci, mouse_pos.x, mouse_pos.y);
    }

    /// Continues a drag: the box collider becomes the rectangle spanned by
    /// the drag start corner and the mouse position, normalized so both
    /// extents are non-negative.
    pub fn update_dragging(&mut self, mouse_pos: Vec2i, collider_mgr: &mut ColliderMgr)
        requires
            old(self).inited(*old(collider_mgr)),
            old(collider_mgr).wf(),
            drag_pos_ok(mouse_pos),
            drag_pos_ok(old(self).drag_start_position),
        ensures
            final(self).inited(*final(collider_mgr)),
            final(collider_mgr).wf(),
            *final(self) == *old(self),
            final(collider_mgr).spec_len() == old(collider_mgr).spec_len(),
            final(collider_mgr).bbox@ == old(collider_mgr).bbox@.update(
                old(self).collider_i->Some_0 as int,
                final(collider_mgr).bbox@[old(self).collider_i->Some_0 as int],
            ),
            ({
                let b = final(collider_mgr).bbox@[old(self).collider_i->Some_0 as int];
                let s = old(self).drag_start_position;
                &&& b.x == if mouse_pos.x >= s.x {
                    s.x as int
                } else {
                    mouse_pos.x as int
                }
                &&& b.w == if mouse_pos.x >= s.x {
                    mouse_pos.x - s.x
                } else {
                    s.x - mouse_pos.x
                }
                &&& b.y == if mouse_pos.y >= s.y {
                    s.y as int
                } else {
                    mouse_pos.y as int
                }
                &&& b.h == if mouse_pos.y >= s.y {
                    mouse_pos.y - s.y
                } else {
                    s.y - mouse_pos.y
                }
            }),
    {
        let ci = match self.collider_i {
            Some(ci) => ci,
            None => 0,
        };
        let s = self.drag_start_position;
        let (x, w) = if mouse_pos.x >= s.x {
            (s.x, mouse_pos.x - s.x)
        } else {
            (mouse_pos.x, s.x - mouse_pos.x)
        };
        let (y, h) = if mouse_pos.y >= s.y {
            (s.y, mouse_pos.y - s.y)
        } else {
            (mouse_pos.y, s.y - mouse_pos.y)
        };
        let old_bbox = collider_mgr.bbox[ci];
        collider_mgr.set_position(ci, x, y);
        let refreshed = collider_mgr.bbox[ci];
        collider_mgr.bbox.set(ci, Recti { x: refreshed.x, y: refreshed.y, w, h });
    }

    /// Ends a drag and resets the box collider to a zero-sized rectangle at
    /// the origin.
    pub fn stop_dragging(&mut self, collider_mgr: &mut ColliderMgr)
        requires
            old(self).inited(*old(collider_mgr)),
            old(collider_mgr).wf(),
        ensures
            final(self).inited(*final(collider_mgr)),
            final(collider_mgr).wf(),
            final(self).collider_i == old(self).collider_i,
            !final(self).is_dragging,
            final(self).is_active == old(self).is_active,
            final(self).drag_start_position == old(self).drag_start_position,
            final(self).selected_collider_i@ == old(self).selected_collider_i@,
            final(collider_mgr).spec_len() == old(collider_mgr).spec_len(),
            final(collider_mgr).bbox@ == old(collider_mgr).bbox@.update(
                old(self).collider_i->Some_0 as int,
                (Recti { x: 0, y: 0, w: 0, h: 0 }),
            ),
    {
        self.is_dragging = false;
        self.reset_collider(collider_mgr);
    }

    /// Resets the box collider to a zero-sized rectangle at the origin.
    pub fn reset_collider(&self, collider_mgr: &mut ColliderMgr)
        requires
            self.inited(*old(collider_mgr)),
            old(collider_mgr).wf(),
        ensures
            final(collider_mgr).wf(),
            final(collider_mgr).spec_len() == old(collider_mgr).spec_len(),
            final(collider_mgr).bbox@ == old(collider_mgr).bbox@.update(
                self.collider_i->Some_0 as int,
                (Recti { x: 0, y: 0, w: 0, h: 0 }),
            ),
            final(collider_mgr).is_active@ == old(collider_mgr).is_active@,
            final(collider_mgr).render_bbox@ == old(collider_mgr).render_bbox@,
    {
        let ci = match self.collider_i {
            Some(ci) => ci,
            None => 0,
        };
        collider_mgr.bbox.set(ci, Recti { x: 0, y: 0, w: 0, h: 0 });
    }

    /// Collects the handles of every active collider the selection box
    /// currently overlaps, in scan order, up to the scratch buffer's
    /// capacity.
    pub fn update(&mut self, collider_mgr: &ColliderMgr, hit_buffer: &mut Vec<Hit>)
        requires
            old(self).inited(*collider_mgr),
            collider_mgr.wf(),
            old(hit_buffer)@.len() == MAX_COLLISION_COUNT,
        ensures
            final(self).inited(*collider_mgr),
            final(hit_buffer)@.len() == MAX_COLLISION_COUNT,
            forall|j: int|
                final(self).selected_collider_i@.len() <= j < MAX_COLLISION_COUNT
                    ==> #[trigger] final(hit_buffer)@[j] == old(hit_buffer)@[j],
            final(self).collider_i == old(self).collider_i,
            final(self).is_dragging == old(self).is_dragging,
            final(self).is_active == old(self).is_active,
            final(self).drag_start_position == old(self).drag_start_position,
            ({
                let hits = box_hits_upto(
                    collider_mgr.bbox@,
                    collider_mgr.is_active@,
                    old(self).collider_i->Some_0 as int,
                    Seq::empty(),
                    collider_mgr.bbox@[old(self).collider_i->Some_0 as int],
                    collider_mgr.spec_len() as int,
                );
                &&& final(self).selected_collider_i@.len() == vstd::math::min(
                    hits.len() as int,
                    MAX_COLLISION_COUNT as int,
                )
                &&& forall|j: int|
                    0 <= j < final(self).selected_collider_i@.len() ==> #[trigger] final(self).selected_collider_i@[j] == hits[j] && box_accepts(
                        collider_mgr.bbox@,
                        collider_mgr.is_active@,
                        old(self).collider_i->Some_0 as int,
                        Seq::empty(),
                        collider_mgr.bbox@[old(self).collider_i->Some_0 as int],
                        hits[j],
                    )
            }),
    {
        self.selected_collider_i = Vec::new();
        let ci = match self.collider_i {
            Some(ci) => ci,
            None => 0,
        };
        let zero = Vec2i::zero();
        proof {
            assert(collider_mgr.spec_moved_bbox(ci as int, zero) == collider_mgr.bbox@[ci as int]);
            assert(ignore_view(None) == Seq::<usize>::empty());
        }
        let hit_count = collider_mgr.intersect_bbox(ci, &zero, hit_buffer, None);
        let ghost hits = box_hits_upto(
            collider_mgr.bbox@,
            collider_mgr.is_active@,
            ci as int,
            Seq::empty(),
            collider_mgr.bbox@[ci as int],
            collider_mgr.spec_len() as int,
        );
        proof {
            crate::collider::lemma_box_hits_upto_props(
                collider_mgr.bbox@,
                collider_mgr.is_active@,
                ci as int,
                Seq::empty(),
                collider_mgr.bbox@[ci as int],
                collider_mgr.spec_len() as int,
            );
        }
        let mut hit_i: usize = 0;
        while hit_i < hit_count
            invariant
                self.collider_i == old(self).collider_i,
                self.is_dragging == old(self).is_dragging,
                self.is_active == old(self).is_active,
                self.drag_start_position == old(self).drag_start_position,
                ci == old(self).collider_i->Some_0,
                hit_count <= hit_buffer@.len(),
                hit_buffer@.len() == MAX_COLLISION_COUNT,
                forall|j: int|
                    hit_count <= j < MAX_COLLISION_COUNT ==> #[trigger] hit_buffer@[j] == old(hit_buffer)@[j],
                hit_i <= hit_count,
                self.selected_collider_i@.len() == hit_i,
                hit_count == vstd::math::min(hits.len() as int, MAX_COLLISION_COUNT as int),
                forall|j: int|
                    0 <= j < hit_count ==> 0 <= hits[j] && box_accepts(
                        collider_mgr.bbox@,
                        collider_mgr.is_active@,
                        ci as int,
                        Seq::empty(),
                        collider_mgr.bbox@[ci as int],
                        hits[j],
                    ) && (#[trigger] hit_buffer@[j]).is_colliding && hit_buffer@[j].collider_i
                        == hits[j],
                forall|j: int|
                    0 <= j < hit_i ==> #[trigger] self.selected_collider_i@[j] == hits[j],
            decreases hit_count - hit_i,
        {
            let hit = hit_buffer[hit_i];
            if hit.is_colliding {
                self.selected_collider_i.push(hit.collider_i);
            }
            hit_i = hit_i + 1;
        }
    }

    /// Spawning shows the selection box again.
    pub fn spawn(&mut self, collider_mgr: &mut ColliderMgr)
        requires
            old(self).inited(*old(collider_mgr)),
            old(collider_mgr).wf(),
        ensures
            final(self).inited(*final(collider_mgr)),
            final(collider_mgr).wf(),
            final(self).is_active,
            final(self).collider_i == old(self).collider_i,
            final(self).is_dragging == old(self).is_dragging,
            final(self).drag_start_position == old(self).drag_start_position,
            final(self).selected_collider_i@ == old(self).selected_collider_i@,
            final(collider_mgr).bbox@ == old(collider_mgr).bbox@,
            final(collider_mgr).is_active@ == old(collider_mgr).is_active@.update(
                old(self).collider_i->Some_0 as int,
                true,
            ),
    {
        self.set_active(true, collider_mgr);
    }

    /// Despawning hides the selection box.
    pub fn despawn(&mut self, collider_mgr: &mut ColliderMgr)
        requires
            old(self).inited(*old(collider_mgr)),
            old(collider_mgr).wf(),
        ensures
            final(self).inited(*final(collider_mgr)),
            final(collider_mgr).wf(),
            !final(self).is_active,
            final(self).collider_i == old(self).collider_i,
            final(self).is_dragging == old(self).is_dragging,
            final(self).drag_start_position == old(self).drag_start_position,
            final(self).selected_collider_i@ == old(self).selected_collider_i@,
            final(collider_mgr).bbox@ == old(collider_mgr).bbox@,
            final(collider_mgr).is_active@ == old(collider_mgr).is_active@.update(
                old(self).collider_i->Some_0 as int,
                false,
            ),
    {
        self.set_active(false, collider_mgr);
    }

    /// Sets the box's activity and mirrors it onto its collider.
    pub fn set_active(&mut self, is_active: bool, collider_mgr: &mut ColliderMgr)
        requires
            old(self).inited(*old(collider_mgr)),
            old(collider_mgr).wf(),
        ensures
            final(self).inited(*final(collider_mgr)),
            final(collider_mgr).wf(),
            final(self).is_active == is_active,
            final(self).collider_i == old(self).collider_i,
            final(self).is_dragging == old(self).is_dragging,
            final(self).drag_start_position == old(self).drag_start_position,
            final(self).selected_collider_i@ == old(self).selected_collider_i@,
            final(collider_mgr).bbox@ == old(collider_mgr).bbox@,
            final(collider_mgr).render_bbox@ == old(collider_mgr).render_bbox@,
            final(collider_mgr).is_active@ == old(collider_mgr).is_active@.update(
                old(self).collider_i->Some_0 as int,
                is_active,
            ),
    {
        self.is_active = is_active;
        let ci = match self.collider_i {
            Some(ci) => ci,
            None => 0,
        };
        collider_mgr.set_active(ci, is_active);
    }

    /// The box's collider handle; `init` must have run.
    pub fn collider_i(&self) -> (r: usize)
        requires
            self.collider_i is Some,
        ensures
            r == self.collider_i->Some_0,
    {
        match self.collider_i {
            Some(ci) => ci,
            None => 0,
        }
    }

    /// The handles collected by the last update pass.
    pub fn selected_collider_i(&self) -> (r: &Vec<usize>)
        ensures
            r@ == self.selected_collider_i@,
    {
        &self.selected_collider_i
    }

    /// Whether an active selection drag is in progress.
    pub fn is_dragging(&self) -> (r: bool)
        ensures
            r == (self.is_active && self.is_dragging),
    {
        self.is_active && self.is_dragging
    }
}

} // verus!
