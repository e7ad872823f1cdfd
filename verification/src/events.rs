//! The redraw bookkeeping of the event loop. The platform loop (window
//! events, timers, the GPU present) lives outside; it drives these
//! decision steps and dispatches to the widget event handler exactly when
//! they say so.

use vstd::prelude::*;
use crate::area::Area;
use crate::cx::{Cx, DrawList};

verus! {

impl Cx {
    /// Whether an animation tick should be delivered this iteration.
    pub fn animate_pending(&self) -> (r: bool)
        ensures
            r == (self.animations@.len() > 0),
    {
        self.animations.len() != 0
    }

    /// Whether an animation-ended event should be delivered after the
    /// tick.
    pub fn animation_ended_pending(&self) -> (r: bool)
        ensures
            r == (self.ended_animations@.len() > 0),
    {
        self.ended_animations.len() > 0
    }

    /// Whether the loop may block on the next platform event: nothing
    /// animates and nothing asked to be redrawn.
    pub fn should_block_wait(&self) -> (r: bool)
        ensures
            r == (self.animations@.len() == 0 && self.dirty_area == Area::Empty),
    {
        self.animations.len() == 0 && self.dirty_area.is_empty()
    }

    /// Begin a redraw cycle if one is due: clear the dirty area into the
    /// redraw area, bump the frame id, reset every list's live-call
    /// watermark and request a repaint. Returns whether the loop must now
    /// deliver a redraw event to the widgets.
    pub fn redraw_step(&mut self) -> (redraw: bool)
        requires
            old(self).frame_id < usize::MAX,
        ensures
            redraw == (old(self).dirty_area != Area::Empty),
            !redraw ==> *final(self) == *old(self),
            redraw ==> {
                &&& *final(self) == (Cx {
                    dirty_area: Area::Empty,
                    redraw_area: old(self).dirty_area,
                    frame_id: (old(self).frame_id + 1) as usize,
                    paint_dirty: true,
                    draw_lists: final(self).draw_lists,
                    ..*old(self)
                })
                &&& final(self).draw_lists@.len() == old(self).draw_lists@.len()
                &&& (forall|l: int|
                    0 <= l < old(self).draw_lists@.len() ==> #[trigger] final(self).draw_lists@[l]
                        == (DrawList { draw_calls_len: 0usize, ..old(self).draw_lists@[l] }))
            },
            old(self).wf() ==> final(self).wf(),
    {
        if self.dirty_area.is_empty() {
            return false;
        }
        let prior = self.dirty_area;
        self.dirty_area = Area::Empty;
        self.redraw_area = prior;
        self.frame_id = self.frame_id + 1;
        self.paint_dirty = true;
        let nl = self.draw_lists.len();
        let mut l: usize = 0;
        while l < nl
            invariant
                nl == self.draw_lists@.len(),
                l <= nl,
                *self == (Cx {
                    dirty_area: Area::Empty,
                    redraw_area: prior,
                    frame_id: self.frame_id,
                    paint_dirty: true,
                    draw_lists: self.draw_lists,
                    ..*old(self)
                }),
                self.frame_id == old(self).frame_id + 1,
                forall|k: int|
                    l <= k < nl ==> #[trigger] self.draw_lists@[k] == old(self).draw_lists@[k],
                forall|k: int|
                    0 <= k < l ==> #[trigger] self.draw_lists@[k] == (DrawList {
                        draw_calls_len: 0usize,
                        ..old(self).draw_lists@[k]
                    }),
            decreases nl - l,
        {
            self.draw_lists[l].draw_calls_len = 0;
            l += 1;
        }
        proof {
            if old(self).wf() {
                assert forall|dl: int, dc: int|
                    0 <= dl < self.draw_lists@.len() && 0 <= dc
                        < self.draw_lists@[dl].draw_calls@.len() implies #[trigger] self.spec_call_wf(
                    dl,
                    dc,
                ) by {
                    assert(old(self).spec_call_wf(dl, dc));
                    assert(self.spec_call_slots(dl, dc) == old(self).spec_call_slots(dl, dc));
                }
            }
        }
        true
    }

    /// Consume a pending repaint request. Returns whether the loop must
    /// now repaint.
    pub fn paint_step(&mut self) -> (repaint: bool)
        ensures
            repaint == old(self).paint_dirty,
            *final(self) == (Cx { paint_dirty: false, ..*old(self) }),
            old(self).wf() ==> final(self).wf(),
    {
        let r = self.paint_dirty;
        self.paint_dirty = false;
        proof {
            if old(self).wf() {
                assert forall|dl: int, dc: int|
                    0 <= dl < self.draw_lists@.len() && 0 <= dc
                        < self.draw_lists@[dl].draw_calls@.len() implies #[trigger] self.spec_call_wf(
                    dl,
                    dc,
                ) by {
                    assert(old(self).spec_call_wf(dl, dc));
                    assert(self.spec_call_slots(dl, dc) == old(self).spec_call_slots(dl, dc));
                }
            }
        }
        r
    }

    /// React to a window resize: the whole scene is to be re-emitted and
    /// repainted.
    pub fn resized_step(&mut self)
        ensures
            *final(self) == (Cx {
                dirty_area: Area::Empty,
                redraw_area: Area::All,
                ..*old(self)
            }),
            old(self).wf() ==> final(self).wf(),
    {
        self.dirty_area = Area::Empty;
        self.redraw_area = Area::All;
        proof {
            if old(self).wf() {
                assert forall|dl: int, dc: int|
                    0 <= dl < self.draw_lists@.len() && 0 <= dc
                        < self.draw_lists@[dl].draw_calls@.len() implies #[trigger] self.spec_call_wf(
                    dl,
                    dc,
                ) by {
                    assert(old(self).spec_call_wf(dl, dc));
                    assert(self.spec_call_slots(dl, dc) == old(self).spec_call_slots(dl, dc));
                }
            }
        }
    }
}

} // verus!
