//! The scroll view: a child, its viewport state, and the update messages
//! that its builder calls have queued.
use vstd::prelude::*;
use crate::geometry::{Point, Rect, Vec2};
use crate::scroll::{Color, ScrollCore, ScrollUpdate};

verus! {

/// A scrollable region around one exclusively owned child.
pub struct Scroll<V> {
    /// Identity in the view tree, stable for the view's lifetime.
    pub id: u64,
    pub child: V,
    pub core: ScrollCore,
    /// Update messages queued by builder calls, oldest first.
    pub pending: Vec<ScrollUpdate>,
}

/// The state after applying `msgs` in order.
pub open spec fn apply_all(core: ScrollCore, msgs: Seq<ScrollUpdate>) -> ScrollCore
    decreases msgs.len(),
{
    if msgs.len() == 0 {
        core
    } else {
        apply_all(core, msgs.drop_last()).update_spec(msgs.last())
    }
}

/// Builds a scroll view with identity `id` around `child`. The child is
/// built by the caller under the identity scope of `id`.
pub fn scroll<V>(id: u64, child: V) -> (r: Scroll<V>)
    ensures
        r.id == id,
        r.child == child,
        r.core == ScrollCore::initial(),
        r.pending@ == Seq::<ScrollUpdate>::empty(),
{
    Scroll { id, child, core: ScrollCore::new(), pending: Vec::new() }
}

impl<V> Scroll<V> {
    pub open spec fn wf(self) -> bool {
        self.core.wf()
    }

    fn queue(self, msg: ScrollUpdate) -> (r: Self)
        ensures
            r.id == self.id,
            r.child == self.child,
            r.core == self.core,
            r.pending@ == self.pending@.push(msg),
    {
        let mut s = self;
        s.pending.push(msg);
        s
    }

    /// Queues a new thumb colour.
    pub fn scroll_bar_color(self, color: Color) -> (r: Self)
        ensures
            r.id == self.id,
            r.child == self.child,
            r.core == self.core,
            r.pending@ == self.pending@.push(ScrollUpdate::ScrollBarColor(color)),
    {
        self.queue(ScrollUpdate::ScrollBarColor(color))
    }

    /// Queues a request to make `to` visible.
    pub fn on_ensure_visible(self, to: Rect) -> (r: Self)
        ensures
            r.id == self.id,
            r.child == self.child,
            r.core == self.core,
            r.pending@ == self.pending@.push(ScrollUpdate::EnsureVisible(to)),
    {
        self.queue(ScrollUpdate::EnsureVisible(to))
    }

    /// Queues a relative scroll.
    pub fn on_scroll_delta(self, delta: Vec2) -> (r: Self)
        ensures
            r.id == self.id,
            r.child == self.child,
            r.core == self.core,
            r.pending@ == self.pending@.push(ScrollUpdate::ScrollDelta(delta)),
    {
        self.queue(ScrollUpdate::ScrollDelta(delta))
    }

    /// Queues a scroll to `origin`, if there is one.
    pub fn on_scroll_to(self, origin: Option<Point>) -> (r: Self)
        ensures
            r.id == self.id,
            r.child == self.child,
            r.core == self.core,
            r.pending@ == (match origin {
                Some(o) => self.pending@.push(ScrollUpdate::ScrollTo(o)),
                None => self.pending@,
            }),
    {
        match origin {
            Some(o) => self.queue(ScrollUpdate::ScrollTo(o)),
            None => self,
        }
    }

    /// Queues showing or hiding the bars.
    pub fn hide_bar(self, value: bool) -> (r: Self)
        ensures
            r.id == self.id,
            r.child == self.child,
            r.core == self.core,
            r.pending@ == self.pending@.push(ScrollUpdate::HiddenBar(value)),
    {
        self.queue(ScrollUpdate::HiddenBar(value))
    }

    /// Pans the smallest distance that makes `rect` visible; returns the new
    /// viewport if it changed.
    pub fn pan_to_visible(&mut self, rect: Rect) -> (changed: Option<Rect>)
        requires
            old(self).wf(),
        ensures
            final(self).core == old(self).core.pan_spec(rect),
            changed == (if final(self).core.child_viewport == old(self).core.child_viewport {
                None
            } else {
                Some(final(self).core.child_viewport)
            }),
            final(self).id == old(self).id,
            final(self).child == old(self).child,
            final(self).pending == old(self).pending,
            final(self).wf(),
    {
        self.core.pan_to_visible(rect)
    }

    /// Applies the queued update messages in order and empties the queue;
    /// returns whether the viewport changed.
    pub fn apply_pending(&mut self) -> (scrolled: bool)
        requires
            old(self).wf(),
        ensures
            final(self).core == apply_all(old(self).core, old(self).pending@),
            scrolled == (final(self).core.child_viewport != old(self).core.child_viewport),
            final(self).pending@ == Seq::<ScrollUpdate>::empty(),
            final(self).id == old(self).id,
            final(self).child == old(self).child,
            final(self).wf(),
    {
        let start = self.core.child_viewport;
        let mut i: usize = 0;
        while i < self.pending.len()
            invariant
                0 <= i <= self.pending@.len(),
                self.pending@ == old(self).pending@,
                self.core == apply_all(old(self).core, self.pending@.take(i as int)),
                self.core.wf(),
                start == old(self).core.child_viewport,
                self.id == old(self).id,
                self.child == old(self).child,
            decreases self.pending@.len() - i,
        {
            proof {
                assert(self.pending@.take(i as int + 1).drop_last() =~= self.pending@.take(i as int));
            }
            let msg = self.pending[i];
            self.core.update(msg);
            i = i + 1;
        }
        proof {
            assert(self.pending@.take(self.pending@.len() as int) =~= self.pending@);
        }
        self.pending = Vec::new();
        self.core.child_viewport != start
    }

    pub fn id(&self) -> (r: u64)
        ensures
            r == self.id,
    {
        self.id
    }

    pub fn debug_name(&self) -> (r: &'static str)
        ensures
            r@ == "Scroll"@,
    {
        proof {
            reveal_strlit("Scroll");
        }
        "Scroll"
    }
}

} // verus!
