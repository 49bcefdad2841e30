//! Pixel rectangles, the pixel-to-device coordinate mapping and hit-testing.
use vstd::prelude::*;

verus! {

/// A rectangle in window pixel space: `left`/`right` are columns, `top`/`bottom` rows,
/// with rows growing downwards.
#[derive(Debug, PartialEq, Eq, Structural)]
pub struct RectPos {
    pub top: u32,
    pub left: u32,
    pub bottom: u32,
    pub right: u32,
}

impl Clone for RectPos {
    fn clone(&self) -> (r: RectPos)
        ensures
            r == *self,
    {
        RectPos { top: self.top, left: self.left, bottom: self.bottom, right: self.right }
    }
}

impl Copy for RectPos {

}

impl RectPos {
    /// A rectangle with a non-empty interior.
    pub open spec fn wf(&self) -> bool {
        self.left < self.right && self.top < self.bottom
    }

    /// Builds a rectangle, rejecting one whose edges are not strictly ordered.
    pub fn new(top: u32, left: u32, bottom: u32, right: u32) -> (r: Option<RectPos>)
        ensures
            r is Some <==> (left < right && top < bottom),
            r matches Some(p) ==> p == (RectPos { top, left, bottom, right }),
    {
        if left < right && top < bottom {
            Some(RectPos { top, left, bottom, right })
        } else {
            None
        }
    }

    /// Open-interval containment: points on an edge are outside.
    pub open spec fn contains_spec(&self, p: PointerPos) -> bool {
        self.left < p.x < self.right && self.top < p.y < self.bottom
    }

    /// Hit test of a pointer position against this rectangle.
    pub fn contains(&self, p: PointerPos) -> (r: bool)
        ensures
            r == self.contains_spec(p),
    {
        (self.left as i64) < (p.x as i64) && (p.x as i64) < (self.right as i64) && (
        self.top as i64) < (p.y as i64) && (p.y as i64) < (self.bottom as i64)
    }
}

/// A pointer position in window pixels; it may lie outside the window.
#[derive(Debug, PartialEq, Eq, Structural)]
pub struct PointerPos {
    pub x: i32,
    pub y: i32,
}

impl Clone for PointerPos {
    fn clone(&self) -> (r: PointerPos)
        ensures
            r == *self,
    {
        PointerPos { x: self.x, y: self.y }
    }
}

impl Copy for PointerPos {

}

/// The drawable surface's size in pixels.
#[derive(Debug, PartialEq, Eq, Structural)]
pub struct Size {
    pub width: u32,
    pub height: u32,
}

impl Clone for Size {
    fn clone(&self) -> (r: Size)
        ensures
            r == *self,
    {
        Size { width: self.width, height: self.height }
    }
}

impl Copy for Size {

}

impl Size {
    /// A surface that can be mapped onto: both dimensions positive.
    pub open spec fn drawable(&self) -> bool {
        self.width > 0 && self.height > 0
    }
}

/// An exact device-normalized coordinate, the rational number `num / den`.
#[derive(Debug, PartialEq, Eq, Structural)]
pub struct Ndc {
    pub num: i64,
    pub den: u32,
}

impl Clone for Ndc {
    fn clone(&self) -> (r: Ndc)
        ensures
            r == *self,
    {
        Ndc { num: self.num, den: self.den }
    }
}

impl Copy for Ndc {

}

impl Ndc {
    /// The coordinate equals the integer `k`.
    pub open spec fn is_int(&self, k: int) -> bool {
        self.den > 0 && self.num == k * self.den
    }
}

/// `p / (width / 2) - 1`, written as the fraction `(2p - width) / width`.
pub open spec fn ndc_x_spec(p: u32, width: u32) -> Ndc {
    Ndc { num: (2 * p - width) as i64, den: width }
}

/// `1 - p / (height / 2)`, written as the fraction `(height - 2p) / height`.
pub open spec fn ndc_y_spec(p: u32, height: u32) -> Ndc {
    Ndc { num: (height - 2 * p) as i64, den: height }
}

/// The column whose device x-coordinate is `n`, where that is a whole pixel.
pub open spec fn pixel_x_spec(n: Ndc) -> Option<u32> {
    let twice = n.num + n.den;
    if twice % 2 == 0 && 0 <= twice / 2 <= u32::MAX {
        Some((twice / 2) as u32)
    } else {
        None
    }
}

/// The row whose device y-coordinate is `n`, where that is a whole pixel.
pub open spec fn pixel_y_spec(n: Ndc) -> Option<u32> {
    let twice = n.den - n.num;
    if twice % 2 == 0 && 0 <= twice / 2 <= u32::MAX {
        Some((twice / 2) as u32)
    } else {
        None
    }
}

/// Device x-coordinate of pixel column `p` on a surface `width` pixels wide.
pub fn ndc_x(p: u32, width: u32) -> (r: Ndc)
    requires
        width > 0,
    ensures
        r == ndc_x_spec(p, width),
{
    Ndc { num: 2 * (p as i64) - (width as i64), den: width }
}

/// Device y-coordinate of pixel row `p` on a surface `height` pixels tall.
pub fn ndc_y(p: u32, height: u32) -> (r: Ndc)
    requires
        height > 0,
    ensures
        r == ndc_y_spec(p, height),
{
    Ndc { num: (height as i64) - 2 * (p as i64), den: height }
}

/// The pixel column of a device x-coordinate; `None` when it falls between columns or
/// outside the `u32` range.
pub fn pixel_x(n: Ndc) -> (r: Option<u32>)
    ensures
        r == pixel_x_spec(n),
{
    let twice: i128 = (n.num as i128) + (n.den as i128);
    if twice % 2 == 0 && 0 <= twice / 2 && twice / 2 <= u32::MAX as i128 {
        Some((twice / 2) as u32)
    } else {
        None
    }
}

/// The pixel row of a device y-coordinate; `None` when it falls between rows or
/// outside the `u32` range.
pub fn pixel_y(n: Ndc) -> (r: Option<u32>)
    ensures
        r == pixel_y_spec(n),
{
    let twice: i128 = (n.den as i128) - (n.num as i128);
    if twice % 2 == 0 && 0 <= twice / 2 && twice / 2 <= u32::MAX as i128 {
        Some((twice / 2) as u32)
    } else {
        None
    }
}

/// A rectangle in device-normalized coordinates (y grows upwards).
pub struct NdcRect {
    pub top: Ndc,
    pub left: Ndc,
    pub bottom: Ndc,
    pub right: Ndc,
}

pub open spec fn map_rect_spec(r: RectPos, size: Size) -> NdcRect {
    NdcRect {
        top: ndc_y_spec(r.top, size.height),
        left: ndc_x_spec(r.left, size.width),
        bottom: ndc_y_spec(r.bottom, size.height),
        right: ndc_x_spec(r.right, size.width),
    }
}

pub open spec fn unmap_rect_spec(n: NdcRect) -> Option<RectPos> {
    match (pixel_y_spec(n.top), pixel_x_spec(n.left), pixel_y_spec(n.bottom), pixel_x_spec(n.right)) {
        (Some(top), Some(left), Some(bottom), Some(right)) => Some(
            RectPos { top, left, bottom, right },
        ),
        _ => None,
    }
}

/// Maps a pixel rectangle onto device coordinates for the given surface.
pub fn map_rect(r: &RectPos, size: Size) -> (n: NdcRect)
    requires
        size.drawable(),
    ensures
        n == map_rect_spec(*r, size),
{
    NdcRect {
        top: ndc_y(r.top, size.height),
        left: ndc_x(r.left, size.width),
        bottom: ndc_y(r.bottom, size.height),
        right: ndc_x(r.right, size.width),
    }
}

/// The pixel rectangle whose mapping is `n`, where every edge falls on a whole pixel.
pub fn unmap_rect(n: &NdcRect) -> (r: Option<RectPos>)
    ensures
        r == unmap_rect_spec(*n),
{
    let top = pixel_y(n.top);
    let left = pixel_x(n.left);
    let bottom = pixel_y(n.bottom);
    let right = pixel_x(n.right);
    match (top, left, bottom, right) {
        (Some(top), Some(left), Some(bottom), Some(right)) => Some(
            RectPos { top, left, bottom, right },
        ),
        _ => None,
    }
}

/// Mapping a pixel rectangle onto a drawable surface and back gives the rectangle again.
pub proof fn lemma_map_round_trip(r: RectPos, size: Size)
    requires
        size.drawable(),
    ensures
        unmap_rect_spec(map_rect_spec(r, size)) == Some(r),
{
    let n = map_rect_spec(r, size);
    assert(n.left.num + n.left.den == 2 * r.left);
    assert(n.right.num + n.right.den == 2 * r.right);
    assert(n.top.den - n.top.num == 2 * r.top);
    assert(n.bottom.den - n.bottom.num == 2 * r.bottom);
}

/// The window's top-left pixel maps to device `(-1, 1)` and its bottom-right corner
/// `(width, height)` to `(1, -1)`.
pub proof fn lemma_corners(size: Size)
    requires
        size.drawable(),
    ensures
        ndc_x_spec(0, size.width).is_int(-1),
        ndc_y_spec(0, size.height).is_int(1),
        ndc_x_spec(size.width, size.width).is_int(1),
        ndc_y_spec(size.height, size.height).is_int(-1),
{
}

/// Points on the left or top edge are not inside a rectangle; the point one pixel
/// diagonally inside the top-left corner is, when both sides exceed two pixels.
pub proof fn lemma_hit_boundary(r: RectPos)
    requires
        r.wf(),
        r.right - r.left > 2,
        r.bottom - r.top > 2,
        r.right <= i32::MAX,
        r.bottom <= i32::MAX,
    ensures
        forall|p: PointerPos| p.x == r.left ==> !#[trigger] r.contains_spec(p),
        forall|p: PointerPos| p.y == r.top ==> !#[trigger] r.contains_spec(p),
        r.contains_spec(PointerPos { x: (r.left + 1) as i32, y: (r.top + 1) as i32 }),
{
}

} // verus!
