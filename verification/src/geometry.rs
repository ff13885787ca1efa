//! Rectangles of terminal cells.
use vstd::prelude::*;

verus! {

#[derive(Clone, Copy, Debug, PartialEq, Eq, Structural)]
pub struct Rect {
    pub x: u16,
    pub y: u16,
    pub width: u16,
    pub height: u16,
}

impl Rect {
    /// Every cell of the area has coordinates.
    pub open spec fn wf(self) -> bool {
        self.x + self.width <= u16::MAX && self.y + self.height <= u16::MAX
    }

    /// The other area lies within this one.
    pub open spec fn covers(self, other: Rect) -> bool {
        &&& self.x <= other.x
        &&& self.y <= other.y
        &&& other.x + other.width <= self.x + self.width
        &&& other.y + other.height <= self.y + self.height
    }
}

/// The difference, or zero where it would be negative.
pub open spec fn less(a: u16, b: u16) -> u16 {
    if a >= b {
        (a - b) as u16
    } else {
        0
    }
}

pub open spec fn smaller(a: u16, b: u16) -> u16 {
    if a <= b {
        a
    } else {
        b
    }
}

pub fn min_u16(a: u16, b: u16) -> (r: u16)
    ensures
        r == smaller(a, b),
{
    if a <= b {
        a
    } else {
        b
    }
}

/// An area of the given size in the middle of another.
pub open spec fn centered(width: u16, height: u16, area: Rect) -> Rect {
    Rect {
        x: (area.x + less(area.width, width) / 2) as u16,
        y: (area.y + less(area.height, height) / 2) as u16,
        width,
        height,
    }
}

/// An area of the given size in the middle of another.
pub fn centered_rect(width: u16, height: u16, area: Rect) -> (r: Rect)
    requires
        area.wf(),
    ensures
        r == centered(width, height, area),
        width <= area.width && height <= area.height ==> area.covers(r),
{
    Rect {
        x: area.x + area.width.saturating_sub(width) / 2,
        y: area.y + area.height.saturating_sub(height) / 2,
        width,
        height,
    }
}

/// A window that fits stands in the middle of its area: the margins on opposite sides differ by
/// one at most, the smaller before the larger.
pub proof fn law_windows_stand_in_the_middle(width: u16, height: u16, area: Rect)
    requires
        area.wf(),
        width <= area.width,
        height <= area.height,
    ensures
        ({
            let window = centered(width, height, area);
            let left = window.x - area.x;
            let right = (area.x + area.width) - (window.x + width);
            let above = window.y - area.y;
            let below = (area.y + area.height) - (window.y + height);
            &&& window.width == width
            &&& window.height == height
            &&& area.covers(window)
            &&& 0 <= right - left <= 1
            &&& 0 <= below - above <= 1
        }),
{
}

} // verus!
