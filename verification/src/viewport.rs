//! A scrollable viewport over a list: a window of `height` rows positioned at
//! `offset` inside a list of `size` entries, with a cursor at `selected`.
//!
//! Invariant (whenever `size > 0`): the cursor stays inside the list
//! (`selected < size`) and inside the window
//! (`offset <= selected < offset + height`), and the window does not overrun
//! the end of the list (`offset + height <= size`) unless the whole list fits
//! (`offset == 0`).

use vstd::prelude::*;

verus! {

#[derive(Clone, Copy, Debug, PartialEq, Eq, Structural)]
pub enum ScrollDirection {
    Up,
    Down,
}

#[derive(Clone, Copy, Debug, PartialEq, Eq, Structural)]
pub struct ViewportWindow {
    /// Index of the first visible entry.
    pub offset: usize,
    /// Number of visible rows; kept at least 1.
    pub height: usize,
    /// Total number of entries in the list.
    pub size: usize,
    /// Index of the cursor.
    pub selected: usize,
}

impl ViewportWindow {
    /// The viewport invariant. Every operation preserves it.
    pub open spec fn wf(self) -> bool {
        &&& self.height >= 1
        &&& if self.size == 0 {
                self.selected == 0 && self.offset == 0
            } else {
                &&& self.selected < self.size
                &&& self.offset <= self.selected
                &&& self.selected < self.offset + self.height
                &&& self.offset + self.height <= self.size || self.offset == 0
            }
    }

    /// Where the cursor lands when moved `amount` steps in `direction`,
    /// clamped to `[0, size - 1]`.
    pub open spec fn moved_cursor(self, direction: ScrollDirection, amount: nat) -> nat {
        if self.size == 0 {
            0
        } else if direction is Down {
            if self.selected + amount < self.size {
                (self.selected + amount) as nat
            } else {
                (self.size - 1) as nat
            }
        } else {
            if amount <= self.selected {
                (self.selected - amount) as nat
            } else {
                0
            }
        }
    }

    /// The minimal adjustment of `offset` that brings `sel` back into the
    /// window: scroll just far enough, never further.
    pub open spec fn slid_offset(self, sel: nat) -> nat {
        if sel < self.offset {
            sel
        } else if sel >= self.offset + self.height {
            (sel + 1 - self.height) as nat
        } else {
            self.offset as nat
        }
    }

    /// The offset re-derived after `height` or `size` changed: pulled back
    /// from the end of the list, then pulled down to the cursor, then pushed
    /// forward just enough to show the cursor.
    pub open spec fn refitted_offset(off: nat, sel: nat, size: nat, height: nat) -> nat {
        let max_off: nat = if size >= height { (size - height) as nat } else { 0 };
        let o1: nat = if off > max_off { max_off } else { off };
        let o2: nat = if o1 > sel { sel } else { o1 };
        if sel >= o2 + height {
            (sel + 1 - height) as nat
        } else {
            o2
        }
    }

    /// The whole viewport after `scroll(direction, amount)`.
    pub open spec fn scrolled(self, direction: ScrollDirection, amount: nat) -> ViewportWindow {
        if self.size == 0 {
            self
        } else {
            let sel = self.moved_cursor(direction, amount);
            ViewportWindow {
                offset: self.slid_offset(sel) as usize,
                height: self.height,
                size: self.size,
                selected: sel as usize,
            }
        }
    }

    /// The whole viewport after `resize_total_clamp(new_size)`.
    pub open spec fn clamped_total(self, new_size: usize) -> ViewportWindow {
        if new_size == 0 {
            ViewportWindow { offset: 0, height: self.height, size: 0, selected: 0 }
        } else {
            let sel: usize = if self.selected < new_size {
                self.selected
            } else {
                (new_size - 1) as usize
            };
            ViewportWindow {
                offset: ViewportWindow::refitted_offset(
                    self.offset as nat,
                    sel as nat,
                    new_size as nat,
                    self.height as nat,
                ) as usize,
                height: self.height,
                size: new_size,
                selected: sel,
            }
        }
    }

    /// The whole viewport after `resize_total_reset(new_size)`.
    pub open spec fn reset_total(self, new_size: usize) -> ViewportWindow {
        ViewportWindow {
            offset: 0,
            height: if self.height == 0 { 1usize } else { self.height },
            size: new_size,
            selected: 0,
        }
    }

    /// A fresh viewport at the top of a list of `size` entries. A requested
    /// height of 0 is treated as 1.
    pub fn new(size: usize, height: usize) -> (w: ViewportWindow)
        ensures
            w.wf(),
            w.size == size,
            w.height == if height == 0 { 1usize } else { height },
            w.offset == 0,
            w.selected == 0,
    {
        ViewportWindow {
            offset: 0,
            height: if height == 0 { 1 } else { height },
            size,
            selected: 0,
        }
    }

    /// Move the cursor `amount` steps, clamped to the ends of the list, then
    /// shift the window by the minimal amount that keeps the cursor visible.
    ///
    /// The viewport invariant holds after every call, so it holds after any
    /// sequence of scrolls.
    pub fn scroll(&mut self, direction: ScrollDirection, amount: usize)
        requires
            old(self).wf(),
        ensures
            final(self).wf(),
            final(self).size == old(self).size,
            final(self).height == old(self).height,
            final(self).selected == old(self).moved_cursor(direction, amount as nat),
            final(self).offset == old(self).slid_offset(final(self).selected as nat),
            *final(self) == old(self).scrolled(direction, amount as nat),
    {
        if self.size == 0 {
            return;
        }
        match direction {
            ScrollDirection::Down => {
                let room = self.size - 1 - self.selected;
                if amount <= room {
                    self.selected = self.selected + amount;
                } else {
                    self.selected = self.size - 1;
                }
            }
            ScrollDirection::Up => {
                if amount <= self.selected {
                    self.selected = self.selected - amount;
                } else {
                    self.selected = 0;
                }
            }
        }
        if self.selected < self.offset {
            self.offset = self.selected;
        } else if self.selected - self.offset >= self.height {
            self.offset = self.selected - self.height + 1;
        }
    }

    /// Change the window height without moving the cursor; the offset is
    /// re-derived so the invariant holds again. A requested height of 0 is
    /// treated as 1.
    pub fn resize(&mut self, new_height: usize)
        requires
            old(self).wf(),
        ensures
            final(self).wf(),
            final(self).size == old(self).size,
            final(self).selected == old(self).selected,
            final(self).height == if new_height == 0 { 1usize } else { new_height },
            old(self).size == 0 ==> final(self).offset == 0,
            old(self).size > 0 ==> final(self).offset == ViewportWindow::refitted_offset(
                old(self).offset as nat,
                old(self).selected as nat,
                old(self).size as nat,
                final(self).height as nat,
            ),
    {
        self.height = if new_height == 0 { 1 } else { new_height };
        if self.size == 0 {
            self.offset = 0;
            return;
        }
        self.refit_offset();
    }

    /// Replace the list length after a wholesale rebuild of the content
    /// (a regenerated diff, a re-read log): the cursor and the window return
    /// to the top.
    pub fn resize_total_reset(&mut self, new_size: usize)
        ensures
            final(self).wf(),
            final(self).height == if old(self).height == 0 { 1usize } else { old(self).height },
            final(self).size == new_size,
            final(self).selected == 0,
            final(self).offset == 0,
            *final(self) == old(self).reset_total(new_size),
    {
        if self.height == 0 {
            self.height = 1;
        }
        self.size = new_size;
        self.selected = 0;
        self.offset = 0;
    }

    /// Replace the list length after an incremental update of stably ordered
    /// content (a file list after staging one entry): the cursor is preserved
    /// unless it is now out of bounds, in which case it clamps to
    /// `new_size - 1`; the offset is re-derived.
    pub fn resize_total_clamp(&mut self, new_size: usize)
        requires
            old(self).wf(),
        ensures
            final(self).wf(),
            final(self).height == old(self).height,
            final(self).size == new_size,
            new_size == 0 ==> final(self).selected == 0 && final(self).offset == 0,
            new_size > 0 ==> final(self).selected == if old(self).selected < new_size {
                old(self).selected
            } else {
                (new_size - 1) as usize
            },
            new_size > 0 ==> final(self).offset == ViewportWindow::refitted_offset(
                old(self).offset as nat,
                final(self).selected as nat,
                new_size as nat,
                old(self).height as nat,
            ),
            *final(self) == old(self).clamped_total(new_size),
    {
        self.size = new_size;
        if new_size == 0 {
            self.selected = 0;
            self.offset = 0;
            return;
        }
        if self.selected >= new_size {
            self.selected = new_size - 1;
        }
        self.refit_offset();
    }

    /// Pull the offset back inside the list, then to the cursor, then push it
    /// just far enough forward that the cursor is visible.
    fn refit_offset(&mut self)
        requires
            old(self).height >= 1,
            old(self).size >= 1,
            old(self).selected < old(self).size,
        ensures
            final(self).height == old(self).height,
            final(self).size == old(self).size,
            final(self).selected == old(self).selected,
            final(self).offset == ViewportWindow::refitted_offset(
                old(self).offset as nat,
                old(self).selected as nat,
                old(self).size as nat,
                old(self).height as nat,
            ),
            final(self).wf(),
    {
        let max_off = if self.size >= self.height { self.size - self.height } else { 0 };
        if self.offset > max_off {
            self.offset = max_off;
        }
        if self.offset > self.selected {
            self.offset = self.selected;
        }
        if self.selected - self.offset >= self.height {
            self.offset = self.selected - self.height + 1;
        }
    }
}

/// Scrolling preserves the viewport invariant, whatever the direction and
/// amount: after any sequence of `scroll` calls on a well-formed viewport the
/// invariant still holds.
pub proof fn lemma_scroll_preserves_invariant(
    w: ViewportWindow,
    direction: ScrollDirection,
    amount: nat,
)
    requires
        w.wf(),
    ensures
        w.scrolled(direction, amount).wf(),
{
}

/// The window never jumps further than necessary: among all offsets that
/// would show the cursor at `sel`, the slid offset is the one nearest the
/// old offset.
pub proof fn lemma_slid_offset_minimal(w: ViewportWindow, sel: nat, other: nat)
    requires
        w.wf(),
        w.size > 0,
        sel < w.size,
        other <= sel,
        sel < other + w.height,
    ensures
        ({
            let slid = w.slid_offset(sel);
            let slid_distance: nat = if slid >= w.offset {
                (slid - w.offset) as nat
            } else {
                (w.offset - slid) as nat
            };
            let other_distance: nat = if other >= w.offset {
                (other - w.offset) as nat
            } else {
                (w.offset - other) as nat
            };
            slid_distance <= other_distance
        }),
{
}

/// Re-deriving the offset of a well-formed, non-empty viewport changes
/// nothing: the fitting is a fixpoint on well-formed viewports.
proof fn lemma_refit_fixpoint(w: ViewportWindow)
    requires
        w.wf(),
        w.size > 0,
    ensures
        ViewportWindow::refitted_offset(
            w.offset as nat,
            w.selected as nat,
            w.size as nat,
            w.height as nat,
        ) == w.offset as nat,
{
}

/// The re-derived offset satisfies the viewport invariant.
proof fn lemma_refitted_offset_wf(off: nat, sel: nat, size: nat, height: nat)
    requires
        height >= 1,
        size >= 1,
        sel < size,
    ensures
        ({
            let o = ViewportWindow::refitted_offset(off, sel, size, height);
            &&& o <= sel
            &&& sel < o + height
            &&& o + height <= size || o == 0
        }),
{
}

/// Replacing the list length by the clamping policy is idempotent: applying
/// the same snapshot size twice leaves the same viewport as applying it once.
/// A panel refresh with an unchanged backend snapshot therefore yields an
/// identical panel state both times.
pub proof fn lemma_clamped_total_idempotent(w: ViewportWindow, new_size: usize)
    requires
        w.wf(),
    ensures
        w.clamped_total(new_size).wf(),
        w.clamped_total(new_size).clamped_total(new_size) == w.clamped_total(new_size),
{
    if new_size > 0 {
        let sel: usize = if w.selected < new_size { w.selected } else { (new_size - 1) as usize };
        lemma_refitted_offset_wf(w.offset as nat, sel as nat, new_size as nat, w.height as nat);
        lemma_refit_fixpoint(w.clamped_total(new_size));
    }
}

/// Replacing the list length by the reset policy is idempotent as well.
pub proof fn lemma_reset_total_idempotent(w: ViewportWindow, new_size: usize)
    ensures
        w.reset_total(new_size).wf(),
        w.reset_total(new_size).reset_total(new_size) == w.reset_total(new_size),
{
}

} // verus!
