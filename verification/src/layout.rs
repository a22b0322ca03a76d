//! Terminal rectangles and the centering rules used by the overlays.

use vstd::prelude::*;

verus! {

/// A terminal rectangle in cells.
#[derive(Debug, Clone, Copy, PartialEq, Eq, Structural)]
pub struct Rect {
    pub x: u16,
    pub y: u16,
    pub width: u16,
    pub height: u16,
}

/// `a - b`, or zero when `b > a`.
pub open spec fn sat_sub(a: int, b: int) -> int {
    if a >= b {
        a - b
    } else {
        0
    }
}

/// The smaller of two numbers.
pub open spec fn min(a: int, b: int) -> int {
    if a <= b {
        a
    } else {
        b
    }
}

/// The larger of two numbers.
pub open spec fn max(a: int, b: int) -> int {
    if a >= b {
        a
    } else {
        b
    }
}

impl Rect {
    /// A rectangle from its corner and size.
    pub fn new(x: u16, y: u16, width: u16, height: u16) -> (r: Rect)
        ensures
            r == (Rect { x, y, width, height }),
    {
        Rect { x, y, width, height }
    }

    /// One past the rightmost column.
    pub open spec fn spec_right(self) -> int {
        self.x + self.width
    }

    /// One past the bottom row.
    pub open spec fn spec_bottom(self) -> int {
        self.y + self.height
    }
}

/// The confirmation overlays' placement: a `width`×`height` box whose corner
/// is offset by half the spare room less one, measured from the parent's
/// origin cell, then clipped to the parent.
pub open spec fn spec_confirm_area(width: u16, height: u16, parent: Rect) -> Rect {
    let x = sat_sub(sat_sub(parent.width as int, width as int), 1) / 2;
    let y = sat_sub(sat_sub(parent.height as int, height as int), 1) / 2;
    Rect {
        x: x as u16,
        y: y as u16,
        width: min(width as int, sat_sub(parent.width as int, x)) as u16,
        height: min(height as int, sat_sub(parent.height as int, y)) as u16,
    }
}

/// The confirmation overlays' placement.
pub fn confirm_area(width: u16, height: u16, parent: Rect) -> (r: Rect)
    ensures
        r == spec_confirm_area(width, height, parent),
{
    let x = parent.width.saturating_sub(width).saturating_sub(1) / 2;
    let y = parent.height.saturating_sub(height).saturating_sub(1) / 2;
    Rect::new(
        x,
        y,
        if width < parent.width.saturating_sub(x) { width } else { parent.width.saturating_sub(x) },
        if height < parent.height.saturating_sub(y) { height } else { parent.height.saturating_sub(y) },
    )
}

/// A box of the preferred size clipped to the parent and centered in it
/// (spare room split with the odd cell after the box).
pub open spec fn spec_centered(parent: Rect, preferred_width: u16, preferred_height: u16) -> Rect {
    let width = min(preferred_width as int, parent.width as int);
    let height = min(preferred_height as int, parent.height as int);
    Rect {
        x: (parent.x + (parent.width - width) / 2) as u16,
        y: (parent.y + (parent.height - height) / 2) as u16,
        width: width as u16,
        height: height as u16,
    }
}

/// A box of the preferred size clipped to the parent and centered in it.
///
/// The parent must lie on the screen (its right and bottom edges fit in
/// `u16`), as every area handed out by a terminal does.
pub fn centered(parent: Rect, preferred_width: u16, preferred_height: u16) -> (r: Rect)
    requires
        parent.spec_right() <= u16::MAX,
        parent.spec_bottom() <= u16::MAX,
    ensures
        r == spec_centered(parent, preferred_width, preferred_height),
        parent.x <= r.x,
        parent.y <= r.y,
        r.spec_right() <= parent.spec_right(),
        r.spec_bottom() <= parent.spec_bottom(),
{
    let width = if preferred_width < parent.width { preferred_width } else { parent.width };
    let height = if preferred_height < parent.height { preferred_height } else { parent.height };
    Rect::new(
        parent.x + (parent.width - width) / 2,
        parent.y + (parent.height - height) / 2,
        width,
        height,
    )
}

/// Saturating `a + b` in `u16`.
pub open spec fn sat_add_u16(a: int, b: int) -> int {
    if a + b <= u16::MAX {
        a + b
    } else {
        u16::MAX as int
    }
}

/// A box of the given size clipped to the parent and centered in it, with
/// the corner saturating at the screen edge.
pub open spec fn spec_centered_area(width: u16, height: u16, parent: Rect) -> Rect {
    let w = min(width as int, parent.width as int);
    let h = min(height as int, parent.height as int);
    Rect {
        x: sat_add_u16(parent.x as int, (parent.width - w) / 2) as u16,
        y: sat_add_u16(parent.y as int, (parent.height - h) / 2) as u16,
        width: w as u16,
        height: h as u16,
    }
}

/// A box of the given size clipped to the parent and centered in it.
pub fn centered_area(width: u16, height: u16, parent: Rect) -> (r: Rect)
    ensures
        r == spec_centered_area(width, height, parent),
{
    let width = if width < parent.width { width } else { parent.width };
    let height = if height < parent.height { height } else { parent.height };
    Rect::new(
        parent.x.saturating_add((parent.width - width) / 2),
        parent.y.saturating_add((parent.height - height) / 2),
        width,
        height,
    )
}

/// The frame's regions: the tab bar (with several tabs), the document
/// body, and the one-row status line at the bottom.
#[derive(Debug, Clone, Copy, PartialEq, Eq, Structural)]
pub struct FrameLayout {
    pub tab_bar: Option<Rect>,
    pub body: Rect,
    pub status: Rect,
}

/// Split the frame: a one-row tab bar on top when several tabs are open,
/// then the body, then the status row.
pub fn frame_layout(area: Rect, multiple_tabs: bool) -> (r: FrameLayout)
    requires
        area.spec_bottom() <= u16::MAX,
        multiple_tabs ==> area.y < u16::MAX,
    ensures
        ({
            let bar: int = if multiple_tabs { 1 } else { 0 };
            let body_h: int = if area.height > bar + 1 { area.height - bar - 1 } else { 0 };
            &&& r.tab_bar == (if multiple_tabs { Some(Rect { x: area.x, y: area.y, width: area.width, height: 1 }) } else { None })
            &&& r.body == Rect { x: area.x, y: (area.y + bar) as u16, width: area.width, height: body_h as u16 }
            &&& r.status == Rect { x: area.x, y: (area.y + bar + body_h) as u16, width: area.width, height: 1 }
        }),
{
    let bar: u16 = if multiple_tabs { 1 } else { 0 };
    let body_h = area.height.saturating_sub(bar + 1);
    let tab_bar = if multiple_tabs { Some(Rect { x: area.x, y: area.y, width: area.width, height: 1 }) } else { None };
    let body = Rect { x: area.x, y: area.y + bar, width: area.width, height: body_h };
    let status = Rect { x: area.x, y: area.y + bar + body_h, width: area.width, height: 1 };
    FrameLayout { tab_bar, body, status }
}

} // verus!
