//! Shared viewport state for bounded TUI lists and previews.

use vstd::prelude::*;

verus! {

/// The largest offset that still shows as many rows as fit: zero for an
/// empty list, otherwise `total - max(height, 1)` floored at zero.
pub open spec fn max_offset_spec(height: nat, total: nat) -> nat {
    if total == 0 {
        0
    } else {
        let h = if height == 0 { 1nat } else { height };
        if total >= h { (total - h) as nat } else { 0 }
    }
}

/// `a` floored by `b`.
pub open spec fn min_nat(a: nat, b: nat) -> nat {
    if a <= b { a } else { b }
}

/// Abstract state of a viewport: the first visible row and the number of
/// rows rendered last.
pub struct ViewportModel {
    pub offset: nat,
    pub height: nat,
}

/// A viewport offset and its most recently rendered height.
#[derive(Debug, Clone, Copy, PartialEq, Eq)]
pub struct Viewport {
    offset: usize,
    height: usize,
}

impl View for Viewport {
    type V = ViewportModel;

    closed spec fn view(&self) -> ViewportModel {
        ViewportModel { offset: self.offset as nat, height: self.height as nat }
    }
}

/// The offset that `ensure_visible` chooses for a clamped starting offset.
pub open spec fn visible_offset(offset: nat, height: nat, active: nat, total: nat) -> nat {
    let a = if active < total { active } else { (total - 1) as nat };
    let h = if height == 0 { 1nat } else { height };
    let moved = if a < offset {
        a
    } else if a >= offset + h {
        (a + 1 - h) as nat
    } else {
        offset
    };
    min_nat(moved, max_offset_spec(height, total))
}

/// Effect of `clamp`.
pub open spec fn clamped(v: ViewportModel, total: nat) -> ViewportModel {
    ViewportModel { offset: min_nat(v.offset, max_offset_spec(v.height, total)), height: v.height }
}

/// Effect of `ensure_visible`.
pub open spec fn ensured(v: ViewportModel, active: nat, total: nat) -> ViewportModel {
    if total == 0 {
        ViewportModel { offset: 0, height: v.height }
    } else {
        ViewportModel {
            offset: visible_offset(clamped(v, total).offset, v.height, active, total),
            height: v.height,
        }
    }
}

/// Effect of `scroll_up`.
pub open spec fn scrolled_up(v: ViewportModel, amount: nat) -> ViewportModel {
    ViewportModel {
        offset: if v.offset >= amount { (v.offset - amount) as nat } else { 0 },
        height: v.height,
    }
}

/// Effect of `scroll_down`.
pub open spec fn scrolled_down(v: ViewportModel, amount: nat, total: nat) -> ViewportModel {
    ViewportModel {
        offset: min_nat(min_nat(v.offset + amount, usize::MAX as nat), max_offset_spec(v.height, total)),
        height: v.height,
    }
}

/// Effect of `end`.
pub open spec fn ended(v: ViewportModel, total: nat) -> ViewportModel {
    ViewportModel { offset: max_offset_spec(v.height, total), height: v.height }
}

/// Effect of `home`.
pub open spec fn homed(v: ViewportModel) -> ViewportModel {
    ViewportModel { offset: 0, height: v.height }
}

/// Rows per page.
pub open spec fn page_of(v: ViewportModel) -> nat {
    if v.height == 0 { 1 } else { v.height }
}

impl Viewport {
    /// A viewport at the top with a one-row height.
    pub fn new() -> (v: Viewport)
        ensures
            v@.offset == 0,
            v@.height == 1,
    {
        Viewport { offset: 0, height: 1 }
    }

    pub fn offset(self) -> (r: usize)
        ensures
            r == self@.offset,
    {
        self.offset
    }

    pub fn height(self) -> (r: usize)
        ensures
            r == self@.height,
    {
        self.height
    }

    fn max_offset(self, total: usize) -> (r: usize)
        ensures
            r == max_offset_spec(self@.height, total as nat),
    {
        if total == 0 {
            0
        } else {
            let h = if self.height == 0 { 1 } else { self.height };
            total.saturating_sub(h)
        }
    }

    /// Clamp the offset so the last page is full.
    pub fn clamp(&mut self, total: usize)
        ensures
            final(self)@ == clamped(old(self)@, total as nat),
    {
        let m = self.max_offset(total);
        if m < self.offset {
            self.offset = m;
        }
    }

    /// Record the actual rendered height and clamp the offset to the data.
    pub fn set_height(&mut self, height: usize, total: usize)
        ensures
            final(self)@.height == height,
            final(self)@.offset == min_nat(old(self)@.offset, max_offset_spec(height as nat, total as nat)),
            final(self)@ == clamped(ViewportModel { offset: old(self)@.offset, height: height as nat }, total as nat),
    {
        self.height = height;
        self.clamp(total);
    }

    /// Keep an active row visible and clamp all state to the current data.
    pub fn ensure_visible(&mut self, active: usize, total: usize)
        ensures
            final(self)@ == ensured(old(self)@, active as nat, total as nat),
            final(self)@.height == old(self)@.height,
            total == 0 ==> final(self)@.offset == 0,
            total > 0 ==> final(self)@.offset == visible_offset(
                min_nat(old(self)@.offset, max_offset_spec(old(self)@.height, total as nat)),
                old(self)@.height,
                active as nat,
                total as nat,
            ),
            // The active row, clamped to the data, lies inside the window.
            total > 0 ==> ({
                let a = min_nat(active as nat, (total - 1) as nat);
                let h = if old(self)@.height == 0 { 1nat } else { old(self)@.height };
                final(self)@.offset <= a < final(self)@.offset + h
            }),
            final(self)@.offset <= max_offset_spec(old(self)@.height, total as nat),
    {
        self.clamp(total);
        if total == 0 {
            return;
        }
        let active = if active < total - 1 { active } else { total - 1 };
        let effective_height = if self.height == 0 { 1 } else { self.height };
        if active < self.offset {
            self.offset = active;
        } else if active >= self.offset.saturating_add(effective_height) {
            self.offset = active + 1 - effective_height;
        }
        self.clamp(total);
    }

    pub fn scroll_up(&mut self, amount: usize)
        ensures
            final(self)@ == scrolled_up(old(self)@, amount as nat),
            final(self)@.height == old(self)@.height,
            final(self)@.offset == if old(self)@.offset >= amount {
                (old(self)@.offset - amount) as nat
            } else {
                0
            },
    {
        self.offset = self.offset.saturating_sub(amount);
    }

    pub fn scroll_down(&mut self, amount: usize, total: usize)
        ensures
            final(self)@ == scrolled_down(old(self)@, amount as nat, total as nat),
            final(self)@.height == old(self)@.height,
            final(self)@.offset == min_nat(
                min_nat(old(self)@.offset + amount as nat, usize::MAX as nat),
                max_offset_spec(old(self)@.height, total as nat),
            ),
    {
        self.offset = self.offset.saturating_add(amount);
        self.clamp(total);
    }

    pub fn home(&mut self)
        ensures
            final(self)@ == homed(old(self)@),
            final(self)@.height == old(self)@.height,
            final(self)@.offset == 0,
    {
        self.offset = 0;
    }

    pub fn end(&mut self, total: usize)
        ensures
            final(self)@ == ended(old(self)@, total as nat),
            final(self)@.height == old(self)@.height,
            final(self)@.offset == max_offset_spec(old(self)@.height, total as nat),
    {
        self.offset = self.max_offset(total);
    }

    pub fn page_size(self) -> (r: usize)
        ensures
            r == page_of(self@),
            r == if self@.height == 0 { 1 } else { self@.height },
    {
        if self.height == 0 { 1 } else { self.height }
    }

    /// The half-open range of rows shown for `total` rows.
    pub fn visible_range(self, total: usize) -> (r: std::ops::Range<usize>)
        ensures
            r.start == min_nat(self@.offset, total as nat),
            r.end == min_nat(min_nat(r.start as nat + self@.height, usize::MAX as nat), total as nat),
            r.start <= r.end <= total,
    {
        let start = if self.offset < total { self.offset } else { total };
        let sum = start.saturating_add(self.height);
        let end = if sum < total { sum } else { total };
        start..end
    }
}

impl Default for Viewport {
    fn default() -> (v: Self)
        ensures
            v@.offset == 0,
            v@.height == 1,
    {
        Viewport { offset: 0, height: 1 }
    }
}

/// Clamping never leaves the offset past the last full page, and a clamped
/// offset is stable under a second clamp.
pub proof fn lemma_clamp_idempotent(offset: nat, height: nat, total: nat)
    ensures
        min_nat(offset, max_offset_spec(height, total)) <= max_offset_spec(height, total),
        min_nat(min_nat(offset, max_offset_spec(height, total)), max_offset_spec(height, total))
            == min_nat(offset, max_offset_spec(height, total)),
{
}

/// After `end`, the visible range of a non-empty list always includes its
/// last row, and it shows `min(height, total)` rows.
pub proof fn lemma_end_shows_last_row(height: nat, total: nat)
    requires
        total > 0,
        height >= 1,
        total + height <= usize::MAX,
    ensures
        ({
            let start = min_nat(max_offset_spec(height, total), total);
            let end = min_nat(start + height, total);
            &&& start < end
            &&& end == total
            &&& end - start == min_nat(height, total)
        }),
{
}

} // verus!
