//! A styled rectangle and the four vertices / six indices that draw it.
use vstd::prelude::*;
use crate::geometry::{map_rect, map_rect_spec, Ndc, RectPos, Size};

verus! {

/// An 8-bit-per-channel RGB color.
#[derive(Debug, PartialEq, Eq, Structural)]
pub struct Rgb {
    pub r: u8,
    pub g: u8,
    pub b: u8,
}

impl Clone for Rgb {
    fn clone(&self) -> (c: Rgb)
        ensures
            c == *self,
    {
        Rgb { r: self.r, g: self.g, b: self.b }
    }
}

impl Copy for Rgb {

}

/// One corner of a rectangle as the renderer consumes it: the device position (its
/// depth is always zero), the fill color, the rectangle's own pixel bounds and the
/// border color, so that one shader can draw both fill and border.
#[derive(Debug, PartialEq, Eq, Structural)]
pub struct Vertex {
    pub x: Ndc,
    pub y: Ndc,
    pub color: Rgb,
    pub rect: RectPos,
    pub border_color: Rgb,
}

impl Clone for Vertex {
    fn clone(&self) -> (v: Vertex)
        ensures
            v == *self,
    {
        *self
    }
}

impl Copy for Vertex {

}

/// The corners A (top-left), B (bottom-left), C (bottom-right), D (top-right) of `r` on a
/// surface of size `size`, all carrying the given colors.
pub open spec fn corners_spec(r: RectPos, color: Rgb, border_color: Rgb, size: Size) -> Seq<
    Vertex,
> {
    let n = map_rect_spec(r, size);
    seq![
        Vertex { x: n.left, y: n.top, color, rect: r, border_color },
        Vertex { x: n.left, y: n.bottom, color, rect: r, border_color },
        Vertex { x: n.right, y: n.bottom, color, rect: r, border_color },
        Vertex { x: n.right, y: n.top, color, rect: r, border_color },
    ]
}

/// Triangles (A, B, C) and (A, C, D) over four vertices numbered from `offset`.
pub open spec fn quad_indices_spec(offset: int) -> Seq<int> {
    seq![offset, offset + 1, offset + 2, offset, offset + 2, offset + 3]
}

/// A pixel rectangle with its four style colors.
pub struct Rectangle {
    pub position: RectPos,
    pub color: Rgb,
    pub color_hover: Rgb,
    pub border_color: Rgb,
    pub border_color_clicked: Rgb,
}

impl Rectangle {
    pub fn new(
        position: RectPos,
        color: Rgb,
        color_hover: Rgb,
        border_color: Rgb,
        border_color_clicked: Rgb,
    ) -> (r: Rectangle)
        ensures
            r == (Rectangle { position, color, color_hover, border_color, border_color_clicked }),
    {
        Rectangle { position, color, color_hover, border_color, border_color_clicked }
    }

    pub fn position(&self) -> (p: &RectPos)
        ensures
            *p == self.position,
    {
        &self.position
    }

    /// Fill color: the highlight color while `fill_active`, else the plain one.
    pub open spec fn fill_spec(&self, fill_active: bool) -> Rgb {
        if fill_active {
            self.color_hover
        } else {
            self.color
        }
    }

    /// Border color: the emphasized one while `border_active`, else the plain one.
    pub open spec fn border_spec(&self, border_active: bool) -> Rgb {
        if border_active {
            self.border_color_clicked
        } else {
            self.border_color
        }
    }

    pub open spec fn vertices_spec(&self, fill_active: bool, border_active: bool, size: Size) -> Seq<
        Vertex,
    > {
        corners_spec(
            self.position,
            self.fill_spec(fill_active),
            self.border_spec(border_active),
            size,
        )
    }

    /// The four corners A, B, C, D of this rectangle in device coordinates, filled with
    /// the highlight color when `fill_active` and bordered with the emphasized color when
    /// `border_active`.
    pub fn vertices(&self, fill_active: bool, border_active: bool, size: Size) -> (v: [Vertex; 4])
        requires
            size.drawable(),
        ensures
            v@ == self.vertices_spec(fill_active, border_active, size),
    {
        let n = map_rect(&self.position, size);
        let color = if fill_active {
            self.color_hover
        } else {
            self.color
        };
        let border_color = if border_active {
            self.border_color_clicked
        } else {
            self.border_color
        };
        let rect = self.position;
        let v = [
            Vertex { x: n.left, y: n.top, color, rect, border_color },
            Vertex { x: n.left, y: n.bottom, color, rect, border_color },
            Vertex { x: n.right, y: n.bottom, color, rect, border_color },
            Vertex { x: n.right, y: n.top, color, rect, border_color },
        ];
        assert(v@ =~= self.vertices_spec(fill_active, border_active, size));
        v
    }

    /// The six indices of this rectangle's two triangles, for vertices stored from
    /// position `offset` of a shared vertex buffer.
    pub fn indices(&self, offset: u16) -> (i: [u16; 6])
        requires
            offset <= u16::MAX - 3,
        ensures
            i@.map_values(|x: u16| x as int) == quad_indices_spec(offset as int),
    {
        let i = [offset, offset + 1, offset + 2, offset, offset + 2, offset + 3];
        assert(i@.map_values(|x: u16| x as int) =~= quad_indices_spec(offset as int));
        i
    }

    pub fn num_indices(&self) -> (n: u32)
        ensures
            n == 6,
    {
        6
    }
}

} // verus!
