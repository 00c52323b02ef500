//! Placement of centred boxes on the terminal screen.
use vstd::prelude::*;

verus! {

/// A rectangle of terminal cells.
#[derive(Clone, Copy, Debug, PartialEq, Eq, Structural)]
pub struct Rect {
    pub x: u16,
    pub y: u16,
    pub width: u16,
    pub height: u16,
}

impl Rect {
    /// The rectangle lies on the screen: its far edges are addressable.
    pub open spec fn wf(&self) -> bool {
        self.x + self.width <= u16::MAX && self.y + self.height <= u16::MAX
    }

    pub open spec fn contains_rect(&self, r: Rect) -> bool {
        self.x <= r.x && r.x + r.width <= self.x + self.width && self.y <= r.y && r.y + r.height
            <= self.y + self.height
    }
}

pub open spec fn clamp_len(want: int, avail: int) -> int {
    let w = if want < avail {
        want
    } else {
        avail
    };
    if w < 1 {
        1
    } else {
        w
    }
}

/// A `width` by `height` box in the middle of `area`, shrunk to fit (never below one
/// cell), with the left-over space split evenly (the odd cell going after).
pub fn centered_rect(area: Rect, width: u16, height: u16) -> (r: Rect)
    requires
        area.wf(),
    ensures
        r.width == clamp_len(width as int, area.width as int),
        r.height == clamp_len(height as int, area.height as int),
        r.x == area.x + (if area.width > r.width { (area.width - r.width) / 2 } else { 0 }),
        r.y == area.y + (if area.height > r.height { (area.height - r.height) / 2 } else { 0 }),
{
    let w = if width < area.width {
        width
    } else {
        area.width
    };
    let w = if w < 1 {
        1
    } else {
        w
    };
    let h = if height < area.height {
        height
    } else {
        area.height
    };
    let h = if h < 1 {
        1
    } else {
        h
    };
    let dx = if area.width > w {
        (area.width - w) / 2
    } else {
        0
    };
    let dy = if area.height > h {
        (area.height - h) / 2
    } else {
        0
    };
    Rect { x: area.x + dx, y: area.y + dy, width: w, height: h }
}

/// A centred box of a non-empty area stays inside it, with as much room left on each
/// side (up to one cell).
pub proof fn law_centered_rect_inside(area: Rect, r: Rect, width: u16, height: u16)
    requires
        area.wf(),
        area.width > 0,
        area.height > 0,
        r.width == clamp_len(width as int, area.width as int),
        r.height == clamp_len(height as int, area.height as int),
        r.x == area.x + (if area.width > r.width { (area.width - r.width) / 2 } else { 0 }),
        r.y == area.y + (if area.height > r.height { (area.height - r.height) / 2 } else { 0 }),
    ensures
        area.contains_rect(r),
        0 <= (area.x + area.width - (r.x + r.width)) - (r.x - area.x) <= 1,
        0 <= (area.y + area.height - (r.y + r.height)) - (r.y - area.y) <= 1,
{
}

/// `v * 3 / 5` with the product saturating at `u16::MAX`, kept between `lo` and `hi`.
pub open spec fn three_fifths_clamped(v: u16, lo: int, hi: int) -> int {
    let p = if v * 3 > u16::MAX { u16::MAX as int } else { v * 3 };
    let t = p / 5;
    if t < lo {
        lo
    } else if t > hi {
        hi
    } else {
        t
    }
}

/// Size of a dialog over `area`: three fifths of it, 40 to 80 columns and 12 to 30 rows.
pub fn dialog_size(area: Rect) -> (r: (u16, u16))
    ensures
        r.0 == three_fifths_clamped(area.width, 40, 80),
        r.1 == three_fifths_clamped(area.height, 12, 30),
{
    let w: u16 = if area.width > 21845 { u16::MAX / 5 } else { area.width * 3 / 5 };
    let w = if w < 40 {
        40
    } else if w > 80 {
        80
    } else {
        w
    };
    let h: u16 = if area.height > 21845 { u16::MAX / 5 } else { area.height * 3 / 5 };
    let h = if h < 12 {
        12
    } else if h > 30 {
        30
    } else {
        h
    };
    (w, h)
}

/// A box `max_width` wide (at most the area's width, at least one cell) for centring.
pub fn centered_width(area: Rect, max_width: u16) -> (r: u16)
    ensures
        r == clamp_len(max_width as int, area.width as int),
{
    let w = if area.width < max_width {
        area.width
    } else {
        max_width
    };
    if w < 1 {
        1
    } else {
        w
    }
}

} // verus!
