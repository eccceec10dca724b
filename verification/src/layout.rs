use vstd::prelude::*;

verus! {

/// A rectangle of terminal cells, in the terminal's own coordinates.
#[derive(Clone, Copy, Debug, PartialEq, Eq, Structural)]
pub struct Rect {
    pub x: u16,
    pub y: u16,
    pub width: u16,
    pub height: u16,
}

/// A rectangle whose far corner still fits in the coordinate space.
pub open spec fn rect_fits(area: Rect) -> bool {
    &&& area.x + area.width <= u16::MAX
    &&& area.y + area.height <= u16::MAX
}

/// The three stacked regions of a frame: after shrinking `area` by a 2-cell
/// margin on every side, a 1-row help line, a 3-row input box, and the rest
/// for the message list. Regions are cut short when the area is too small.
pub open spec fn spec_split_layout(area: Rect) -> (Rect, Rect, Rect)
    recommends
        rect_fits(area),
{
    let ix = if area.width >= 4 {
        (area.x + 2) as u16
    } else {
        area.x
    };
    let iw = if area.width >= 4 {
        (area.width - 4) as u16
    } else {
        0u16
    };
    let iy = if area.height >= 4 {
        (area.y + 2) as u16
    } else {
        area.y
    };
    let ih = if area.height >= 4 {
        (area.height - 4) as u16
    } else {
        0u16
    };
    let h0: u16 = if ih >= 1 {
        1u16
    } else {
        0u16
    };
    let rest: u16 = (ih - h0) as u16;
    let h1: u16 = if rest >= 3 {
        3u16
    } else {
        rest
    };
    let h2: u16 = (rest - h1) as u16;
    ((Rect { x: ix, y: iy, width: iw, height: h0 }), (Rect {
        x: ix,
        y: (iy + h0) as u16,
        width: iw,
        height: h1,
    }), (Rect { x: ix, y: (iy + h0 + h1) as u16, width: iw, height: h2 }))
}

/// Computes the three frame regions of `spec_split_layout`.
pub fn split_layout(area: Rect) -> (r: (Rect, Rect, Rect))
    requires
        rect_fits(area),
    ensures
        r == spec_split_layout(area),
{
    let ix = if area.width >= 4 {
        area.x + 2
    } else {
        area.x
    };
    let iw = if area.width >= 4 {
        area.width - 4
    } else {
        0u16
    };
    let iy = if area.height >= 4 {
        area.y + 2
    } else {
        area.y
    };
    let ih = if area.height >= 4 {
        area.height - 4
    } else {
        0u16
    };
    let h0: u16 = if ih >= 1 {
        1
    } else {
        0
    };
    let rest: u16 = ih - h0;
    let h1: u16 = if rest >= 3 {
        3
    } else {
        rest
    };
    let h2: u16 = rest - h1;
    (
        Rect { x: ix, y: iy, width: iw, height: h0 },
        Rect { x: ix, y: iy + h0, width: iw, height: h1 },
        Rect { x: ix, y: iy + h0 + h1, width: iw, height: h2 },
    )
}

} // verus!
