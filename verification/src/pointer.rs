//! Pointer hit testing for mouse and touchpad input.
//!
//! Rendering records the rectangles of interactive controls. Mouse handling
//! then uses those exact frame coordinates instead of duplicating responsive
//! layout calculations.

use vstd::prelude::*;

use crate::keys::{KeyCode, KeyModifiers};
use crate::shell::Screen;

verus! {

/// A rectangle of terminal cells.
#[derive(Debug, Clone, Copy, PartialEq, Eq, Structural)]
pub struct Rect {
    pub x: u16,
    pub y: u16,
    pub width: u16,
    pub height: u16,
}

impl Rect {
    pub fn new(x: u16, y: u16, width: u16, height: u16) -> (r: Rect)
        ensures
            r == (Rect { x, y, width, height }),
    {
        Rect { x, y, width, height }
    }
}

/// `a + b`, saturating at the largest `u16`.
pub open spec fn sat_add16(a: u16, b: u16) -> int {
    if a + b > u16::MAX { u16::MAX as int } else { a + b }
}

/// Whether the cell (`column`, `row`) lies in the rectangle, whose far
/// edges saturate at the largest coordinate.
pub open spec fn covers(rect: Rect, column: u16, row: u16) -> bool {
    &&& column >= rect.x
    &&& column < sat_add16(rect.x, rect.width)
    &&& row >= rect.y
    &&& row < sat_add16(rect.y, rect.height)
}

#[derive(Debug, Clone, Copy, PartialEq, Eq, Structural)]
pub enum ClickAction {
    Tab(Screen),
    FocusContent,
    Key(KeyCode, KeyModifiers),
    PickerEntry(usize),
    PickerToggle(usize),
    Source(usize),
    IgnoreSource(usize),
    IgnorePattern(usize),
    Namespace(usize),
    History(usize),
    Theme(usize),
}

#[derive(Debug, Clone, Copy, PartialEq, Eq, Structural)]
pub enum ScrollAction {
    Vertical,
    PickerEntries,
    PickerPreview,
}

/// One recorded interactive area.
#[derive(Debug, Clone, Copy, PartialEq, Eq, Structural)]
pub struct Region {
    pub rect: Rect,
    pub click: Option<ClickAction>,
    pub scroll: Option<ScrollAction>,
}

/// The interactive areas of the last frame, in drawing order.
#[derive(Debug)]
pub struct PointerMap {
    regions: Vec<Region>,
}

impl View for PointerMap {
    type V = Seq<Region>;

    closed spec fn view(&self) -> Seq<Region> {
        self.regions@
    }
}

/// The click action of the last-drawn region with one that covers the cell.
pub open spec fn click_hit(rs: Seq<Region>, column: u16, row: u16) -> Option<ClickAction>
    decreases rs.len(),
{
    if rs.len() == 0 {
        None
    } else if rs.last().click is Some && covers(rs.last().rect, column, row) {
        rs.last().click
    } else {
        click_hit(rs.drop_last(), column, row)
    }
}

/// The scroll action of the last-drawn region with one that covers the cell.
pub open spec fn scroll_hit(rs: Seq<Region>, column: u16, row: u16) -> Option<ScrollAction>
    decreases rs.len(),
{
    if rs.len() == 0 {
        None
    } else if rs.last().scroll is Some && covers(rs.last().rect, column, row) {
        rs.last().scroll
    } else {
        scroll_hit(rs.drop_last(), column, row)
    }
}

/// Whether the cell lies in the rectangle.
pub fn contains(rect: Rect, column: u16, row: u16) -> (r: bool)
    ensures
        r == covers(rect, column, row),
{
    column >= rect.x && column < rect.x.saturating_add(rect.width) && row >= rect.y && row
        < rect.y.saturating_add(rect.height)
}

impl PointerMap {
    pub fn new() -> (m: Self)
        ensures
            m@.len() == 0,
    {
        PointerMap { regions: Vec::new() }
    }

    pub fn clear(&mut self)
        ensures
            final(self)@.len() == 0,
    {
        self.regions.clear();
    }

    /// Record a clickable area; empty areas are not recorded.
    pub fn click(&mut self, rect: Rect, action: ClickAction)
        ensures
            final(self)@ == if rect.width > 0 && rect.height > 0 {
                old(self)@.push(Region { rect, click: Some(action), scroll: None })
            } else {
                old(self)@
            },
    {
        if rect.width > 0 && rect.height > 0 {
            self.regions.push(Region { rect, click: Some(action), scroll: None });
        }
    }

    /// Record a scrollable area; empty areas are not recorded.
    pub fn scroll(&mut self, rect: Rect, action: ScrollAction)
        ensures
            final(self)@ == if rect.width > 0 && rect.height > 0 {
                old(self)@.push(Region { rect, click: None, scroll: Some(action) })
            } else {
                old(self)@
            },
    {
        if rect.width > 0 && rect.height > 0 {
            self.regions.push(Region { rect, click: None, scroll: Some(action) });
        }
    }

    /// The click action under a cell: the topmost (last drawn) wins.
    pub fn click_at(&self, column: u16, row: u16) -> (r: Option<ClickAction>)
        ensures
            r == click_hit(self@, column, row),
    {
        let ghost rs = self@;
        let mut i = self.regions.len();
        assert(rs.take(i as int) =~= rs);
        while i > 0
            invariant
                rs == self@,
                i <= self.regions.len(),
                click_hit(rs, column, row) == click_hit(rs.take(i as int), column, row),
            decreases i,
        {
            assert(rs.take(i as int).drop_last() =~= rs.take(i - 1));
            let region = self.regions[i - 1];
            if region.click.is_some() && contains(region.rect, column, row) {
                return region.click;
            }
            i = i - 1;
        }
        None
    }

    /// The scroll action under a cell: the topmost (last drawn) wins.
    pub fn scroll_at(&self, column: u16, row: u16) -> (r: Option<ScrollAction>)
        ensures
            r == scroll_hit(self@, column, row),
    {
        let ghost rs = self@;
        let mut i = self.regions.len();
        assert(rs.take(i as int) =~= rs);
        while i > 0
            invariant
                rs == self@,
                i <= self.regions.len(),
                scroll_hit(rs, column, row) == scroll_hit(rs.take(i as int), column, row),
            decreases i,
        {
            assert(rs.take(i as int).drop_last() =~= rs.take(i - 1));
            let region = self.regions[i - 1];
            if region.scroll.is_some() && contains(region.rect, column, row) {
                return region.scroll;
            }
            i = i - 1;
        }
        None
    }
}

/// The row `offset` rows below the top of `area`, saturating.
pub open spec fn row_at(area: Rect, offset: int) -> u16 {
    (if area.y + offset > u16::MAX { u16::MAX as int } else { area.y + offset }) as u16
}

/// Click areas of `n` full-width one-row lines, the first `first` rows
/// below the top of `area`; line `k` answers with `action(k)`.
pub open spec fn line_regions(area: Rect, first: int, n: nat, action: spec_fn(int) -> ClickAction) -> Seq<Region> {
    if area.width > 0 {
        Seq::new(
            n,
            |k: int|
                Region {
                    rect: Rect { x: area.x, y: row_at(area, first + k), width: area.width, height: 1 },
                    click: Some(action(k)),
                    scroll: None,
                },
        )
    } else {
        Seq::empty()
    }
}

/// The control drawn last over a cell is the one a click reaches there.
pub proof fn lemma_last_drawn_wins(rs: Seq<Region>, rect: Rect, action: ClickAction, column: u16, row: u16)
    requires
        covers(rect, column, row),
    ensures
        click_hit(rs.push(Region { rect, click: Some(action), scroll: None }), column, row) == Some(action),
{
    let t = rs.push(Region { rect, click: Some(action), scroll: None });
    assert(t.last() == Region { rect, click: Some(action), scroll: None });
}

/// A scroll-only area never answers a click: clicks fall through to what
/// was drawn before it.
pub proof fn lemma_scroll_area_transparent_to_clicks(rs: Seq<Region>, rect: Rect, action: ScrollAction, column: u16, row: u16)
    ensures
        click_hit(rs.push(Region { rect, click: None, scroll: Some(action) }), column, row) == click_hit(
            rs,
            column,
            row,
        ),
{
    let t = rs.push(Region { rect, click: None, scroll: Some(action) });
    assert(t.drop_last() =~= rs);
}

} // verus!
