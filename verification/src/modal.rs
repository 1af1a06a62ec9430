//! Geometry and text windows of the shared modal dialogs.
//!
//! Every confirmation and text-input dialog is centered, clamped to the
//! terminal, and keeps the text cursor visible however narrow it gets.

use vstd::prelude::*;

use crate::chars::{string_from_chars, text_chars};
use crate::pointer::Rect;
use crate::text::{
    cursor_index, locate, prefix, prefix_chars, slice_chars, str_width, unicode_str_width,
};

verus! {

/// A centered rectangle of the desired size, clamped to the area.
pub open spec fn centered(area: Rect, desired_width: u16, desired_height: u16) -> Rect {
    let width = if desired_width < area.width { desired_width } else { area.width };
    let height = if desired_height < area.height { desired_height } else { area.height };
    let x = area.x + (area.width - width) / 2;
    let y = area.y + (area.height - height) / 2;
    Rect {
        width,
        height,
        x: if x > u16::MAX { u16::MAX } else { x as u16 },
        y: if y > u16::MAX { u16::MAX } else { y as u16 },
    }
}

/// Return a centered rectangle clamped to the available terminal area.
pub fn dialog_area(area: Rect, desired_width: u16, desired_height: u16) -> (r: Rect)
    ensures
        r == centered(area, desired_width, desired_height),
{
    let width = if desired_width < area.width { desired_width } else { area.width };
    let height = if desired_height < area.height { desired_height } else { area.height };
    Rect::new(
        area.x.saturating_add((area.width - width) / 2),
        area.y.saturating_add((area.height - height) / 2),
        width,
        height,
    )
}

/// Width of a dialog on an area `area_width` cells wide: four cells of
/// margin, and between 24 and 76 cells.
pub fn dialog_width(area_width: u16) -> (w: u16)
    ensures
        w == if area_width < 28 { 24 } else if area_width > 80 { 76 } else { area_width - 4 },
{
    let inner = area_width.saturating_sub(4);
    if inner < 24 {
        24
    } else if inner > 76 {
        76
    } else {
        inner
    }
}

/// Width of the text inside a dialog: its width less borders and padding,
/// and at least one cell.
pub fn body_width(dialog_width: u16) -> (w: usize)
    ensures
        w == if dialog_width <= 5 { 1 } else { dialog_width - 4 },
{
    let inner = dialog_width.saturating_sub(4) as usize;
    if inner < 1 {
        1
    } else {
        inner
    }
}

/// Height of a dialog with `lines` lines of text and its two borders,
/// saturating at the largest height.
pub fn dialog_height(lines: usize) -> (h: u16)
    ensures
        h == if lines + 2 > u16::MAX { u16::MAX as int } else { lines + 2 },
{
    if lines >= 65534 {
        65535
    } else {
        (lines + 2) as u16
    }
}

/// Leftmost character of the window ending at character `k`: going left
/// from `j` while the text from the next character up to `k` still fits.
pub open spec fn window_from(s: Seq<char>, k: int, j: int, width: nat) -> int
    decreases j,
{
    if j > 0 && unicode_str_width(s.subrange(j - 1, k)) <= width {
        window_from(s, k, j - 1, width)
    } else {
        j
    }
}

/// The visible part of an input field `width` cells wide and the cell the
/// cursor is drawn at. Text that fits is shown whole; otherwise the widest
/// window that ends at the cursor and fits is shown, cut to the width.
pub open spec fn input_view(s: Seq<char>, cursor: nat, width: nat) -> (Seq<char>, nat) {
    let k = cursor_index(s, cursor) as int;
    if unicode_str_width(s) <= width {
        (s, unicode_str_width(s.take(k)) as nat)
    } else {
        let start = window_from(s, k, k, width);
        let visible = unicode_str_width(s.subrange(start, k));
        (prefix_chars(s.skip(start), width as int), if visible < width { visible as nat } else { width })
    }
}

pub proof fn lemma_window_from_bounds(s: Seq<char>, k: int, j: int, width: nat)
    requires
        0 <= j <= k,
    ensures
        0 <= window_from(s, k, j, width) <= j,
    decreases j,
{
    if j > 0 && unicode_str_width(s.subrange(j - 1, k)) <= width {
        lemma_window_from_bounds(s, k, j - 1, width);
    }
}

/// The visible window of a text field, keeping the cursor on screen.
pub fn input_window(text_value: &str, cursor: usize, width: usize) -> (r: (String, usize))
    ensures
        (r.0@, r.1 as nat) == input_view(text_value@, cursor as nat, width as nat),
{
    let chars = text_chars(text_value);
    let (k, _) = locate(&chars, cursor);
    if str_width(text_value) <= width {
        let before = string_from_chars(slice_chars(&chars, 0, k).as_slice());
        assert(chars@.subrange(0, k as int) =~= chars@.take(k as int));
        let w = str_width(before.as_str());
        return (string_from_chars(chars.as_slice()), w);
    }
    let mut j = k;
    while j > 0
        invariant
            k <= chars.len(),
            j <= k,
            chars@ == text_value@,
            window_from(chars@, k as int, k as int, width as nat) == window_from(
                chars@,
                k as int,
                j as int,
                width as nat,
            ),
        ensures
            k <= chars.len(),
            j <= k,
            window_from(chars@, k as int, k as int, width as nat) == j,
        decreases j,
    {
        let candidate = string_from_chars(slice_chars(&chars, j - 1, k).as_slice());
        if str_width(candidate.as_str()) > width {
            assert(window_from(chars@, k as int, j as int, width as nat) == j);
            break;
        }
        j = j - 1;
    }
    assert(window_from(chars@, k as int, k as int, width as nat) == j);
    let tail = string_from_chars(slice_chars(&chars, j, chars.len()).as_slice());
    assert(chars@.subrange(j as int, chars.len() as int) =~= chars@.skip(j as int));
    let display = prefix(tail.as_str(), width);
    let visible_text = string_from_chars(slice_chars(&chars, j, k).as_slice());
    let visible = str_width(visible_text.as_str());
    (display, if visible < width { visible } else { width })
}

} // verus!
