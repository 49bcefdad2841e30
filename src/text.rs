//! Placement of a shaped text run inside a rectangle.
use vstd::prelude::*;
use crate::geometry::RectPos;
use crate::rectangle::Rgb;

verus! {

/// Font size, in pixels, at which every label is shaped.
pub const FONT_SIZE: u32 = 30;

/// Line height, in pixels, of every label.
pub const LINE_HEIGHT: u32 = 42;

/// A text label: the box it is placed in, its two colors, and the width of its glyph
/// run as last measured by the text-shaping engine.
pub struct Text {
    pub rect_pos: RectPos,
    pub color: Rgb,
    pub color_active: Rgb,
    pub width: u32,
}

/// Where and how to draw a label: its left edge and baseline box top in pixels, the
/// box that clips it, and its color.
pub struct TextArea {
    pub left: u32,
    pub top: i64,
    pub bounds: RectPos,
    pub color: Rgb,
}

impl Text {
    /// A label with nothing measured yet.
    pub fn new(rect_pos: RectPos, color: Rgb, color_active: Rgb) -> (t: Text)
        ensures
            t == (Text { rect_pos, color, color_active, width: 0 }),
    {
        Text { rect_pos, color, color_active, width: 0 }
    }

    /// Records the glyph-run width that the shaping engine measured for the current text.
    pub fn set_width(&mut self, width: u32)
        ensures
            *final(self) == (Text { width, ..*old(self) }),
    {
        self.width = width;
    }

    /// The glyph-run width last measured for this label.
    pub fn measured_width(&self) -> (w: u32)
        ensures
            w == self.width,
    {
        self.width
    }

    /// Top of the text line so that it is centred vertically in the box.
    pub open spec fn top_spec(&self) -> int {
        self.rect_pos.bottom - (self.rect_pos.bottom - self.rect_pos.top) / 2 - LINE_HEIGHT / 2
    }

    pub fn top(&self) -> (t: i64)
        requires
            self.rect_pos.wf(),
        ensures
            t == self.top_spec(),
    {
        let center = self.rect_pos.bottom - (self.rect_pos.bottom - self.rect_pos.top) / 2;
        (center as i64) - ((LINE_HEIGHT / 2) as i64)
    }

    /// The box that clips the label.
    pub fn bounds(&self) -> (b: RectPos)
        ensures
            b == self.rect_pos,
    {
        self.rect_pos
    }

    pub open spec fn text_area_spec(&self, is_active: bool) -> TextArea {
        TextArea {
            left: self.rect_pos.left,
            top: self.top_spec() as i64,
            bounds: self.rect_pos,
            color: if is_active {
                self.color_active
            } else {
                self.color
            },
        }
    }

    /// The draw request for this label, in its active or inactive color.
    pub fn text_area(&self, is_active: bool) -> (a: TextArea)
        requires
            self.rect_pos.wf(),
        ensures
            a == self.text_area_spec(is_active),
    {
        TextArea {
            left: self.rect_pos.left,
            top: self.top(),
            bounds: self.bounds(),
            color: if is_active {
                self.color_active
            } else {
                self.color
            },
        }
    }
}

} // verus!
