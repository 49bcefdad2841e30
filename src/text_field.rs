//! A single-line text input: activation, editing and cursor placement.
use vstd::prelude::*;
use crate::geometry::{PointerPos, RectPos};
use crate::rectangle::{Rectangle, Rgb};
use crate::text::Text;

verus! {

/// Inset, in pixels, between a field's border and its text; also the gap between the
/// end of the text and the cursor.
pub const PADDING: u32 = 10;

/// Width in pixels of the text cursor.
pub const CURSOR_WIDTH: u32 = 2;

pub struct TextFieldConfig {
    pub rect_pos: RectPos,
    pub fill_color: Rgb,
    pub fill_color_active: Rgb,
    pub border_color: Rgb,
    pub border_color_active: Rgb,
    pub text_color: Rgb,
}

/// A field whose box leaves room for the padding on every side.
pub open spec fn roomy(r: RectPos) -> bool {
    r.left + 2 * PADDING < r.right && r.top + 2 * PADDING < r.bottom
}

/// The box inside the padding, where the text is laid out.
pub open spec fn padded_spec(r: RectPos) -> RectPos {
    RectPos {
        top: (r.top + PADDING) as u32,
        left: (r.left + PADDING) as u32,
        bottom: (r.bottom - PADDING) as u32,
        right: (r.right - PADDING) as u32,
    }
}

/// Left edge of the cursor for text `width` pixels wide in field box `r`: just after the
/// text while it fits the padded box, else pinned `PADDING` pixels left of the right edge.
pub open spec fn cursor_left_spec(r: RectPos, width: u32) -> int {
    if width > r.right - r.left - 2 * PADDING {
        r.right - PADDING
    } else {
        r.left + width + PADDING
    }
}

pub open spec fn cursor_rect_spec(r: RectPos, width: u32) -> RectPos {
    RectPos {
        top: (r.top + PADDING) as u32,
        left: cursor_left_spec(r, width) as u32,
        bottom: (r.bottom - PADDING) as u32,
        right: (cursor_left_spec(r, width) + CURSOR_WIDTH) as u32,
    }
}

/// Relies on `String::pop`: it removes and returns the last character, and returns
/// `None` on an empty string.
#[verifier::external_body]
fn pop_char(s: &mut String) -> (c: Option<char>)
    ensures
        old(s)@.len() == 0 ==> c is None && final(s)@ == old(s)@,
        old(s)@.len() > 0 ==> c == Some(old(s)@.last()) && final(s)@ == old(s)@.drop_last(),
{
    s.pop()
}

pub struct TextField {
    pub text: Text,
    pub rectangle: Rectangle,
    pub content: String,
    pub active: bool,
    pub last_cursor_blink: Option<u64>,
}

impl TextField {
    /// The label sits in the padded box of a roomy field, and only an active field has a
    /// blink origin.
    pub open spec fn wf(&self) -> bool {
        &&& roomy(self.rectangle.position)
        &&& self.text.rect_pos == padded_spec(self.rectangle.position)
        &&& (!self.active ==> self.last_cursor_blink is None)
    }

    /// An inactive, empty field.
    pub fn new(cfg: TextFieldConfig) -> (f: TextField)
        requires
            roomy(cfg.rect_pos),
        ensures
            f.wf(),
            f.rectangle == (Rectangle {
                position: cfg.rect_pos,
                color: cfg.fill_color,
                color_hover: cfg.fill_color_active,
                border_color: cfg.border_color,
                border_color_clicked: cfg.border_color_active,
            }),
            f.text == (Text {
                rect_pos: padded_spec(cfg.rect_pos),
                color: cfg.text_color,
                color_active: cfg.text_color,
                width: 0,
            }),
            f.content@.len() == 0,
            !f.active,
            f.last_cursor_blink is None,
    {
        let padded_rect = RectPos {
            top: cfg.rect_pos.top + PADDING,
            left: cfg.rect_pos.left + PADDING,
            bottom: cfg.rect_pos.bottom - PADDING,
            right: cfg.rect_pos.right - PADDING,
        };
        TextField {
            rectangle: Rectangle::new(
                cfg.rect_pos,
                cfg.fill_color,
                cfg.fill_color_active,
                cfg.border_color,
                cfg.border_color_active,
            ),
            text: Text::new(padded_rect, cfg.text_color, cfg.text_color),
            content: String::new(),
            active: false,
            last_cursor_blink: None,
        }
    }

    pub fn get_last_cursor_blink(&self) -> (t: &Option<u64>)
        ensures
            *t == self.last_cursor_blink,
    {
        &self.last_cursor_blink
    }

    /// Restarts the cursor blink at time `now`.
    pub fn set_last_cursor_blink(&mut self, now: u64)
        ensures
            *final(self) == (TextField { last_cursor_blink: Some(now), ..*old(self) }),
    {
        self.last_cursor_blink = Some(now);
    }

    pub fn is_active(&self) -> (a: bool)
        ensures
            a == self.active,
    {
        self.active
    }

    /// The cursor: a thin black rectangle after the text, pinned near the right edge when
    /// the text overflows the padded box.
    pub fn get_cursor(&self) -> (c: Rectangle)
        requires
            self.wf(),
        ensures
            c.position == cursor_rect_spec(self.rectangle.position, self.text.width),
            c.position.wf(),
            c.position.right <= self.rectangle.position.right,
            self.text.width > self.rectangle.position.right - self.rectangle.position.left - 2
                * PADDING ==> c.position.left == self.rectangle.position.right - PADDING,
            c.color == (Rgb { r: 0, g: 0, b: 0 }),
            c.color_hover == (Rgb { r: 0, g: 0, b: 0 }),
            c.border_color == (Rgb { r: 0, g: 0, b: 0 }),
            c.border_color_clicked == (Rgb { r: 0, g: 0, b: 0 }),
    {
        let rect_pos = self.rectangle.position();
        let text_width = self.text.width;
        let buffer_width = rect_pos.right - rect_pos.left - 2 * PADDING;
        let left = if text_width > buffer_width {
            rect_pos.right - PADDING
        } else {
            rect_pos.left + text_width + PADDING
        };
        let black = Rgb { r: 0, g: 0, b: 0 };
        Rectangle::new(
            RectPos {
                top: rect_pos.top + PADDING,
                left,
                bottom: rect_pos.bottom - PADDING,
                right: left + CURSOR_WIDTH,
            },
            black,
            black,
            black,
            black,
        )
    }

    /// Appends `text` while the field is active. Returns whether the content changed, in
    /// which case its measured width must be refreshed with `set_text_width`.
    pub fn add_text(&mut self, text: &str) -> (changed: bool)
        ensures
            final(self).content@ == (if old(self).active {
                old(self).content@ + text@
            } else {
                old(self).content@
            }),
            changed == (old(self).active && text@.len() > 0),
            text@.len() == 0 ==> final(self).content@ == old(self).content@,
            final(self).text == old(self).text,
            final(self).rectangle == old(self).rectangle,
            final(self).active == old(self).active,
            final(self).last_cursor_blink == old(self).last_cursor_blink,
    {
        if self.active {
            self.content.append(text);
            assert(text@.len() == 0 ==> self.content@ =~= old(self).content@);
            !text.is_empty()
        } else {
            false
        }
    }

    /// Removes the last character while the field is active. Returns whether the content
    /// changed, in which case its measured width must be refreshed with `set_text_width`.
    pub fn remove_character(&mut self) -> (changed: bool)
        ensures
            final(self).content@ == (if old(self).active && old(self).content@.len() > 0 {
                old(self).content@.drop_last()
            } else {
                old(self).content@
            }),
            changed == (old(self).active && old(self).content@.len() > 0),
            final(self).text == old(self).text,
            final(self).rectangle == old(self).rectangle,
            final(self).active == old(self).active,
            final(self).last_cursor_blink == old(self).last_cursor_blink,
    {
        if self.active {
            let c = pop_char(&mut self.content);
            c.is_some()
        } else {
            false
        }
    }

    /// Records the width that the shaping engine measured for the current content.
    pub fn set_text_width(&mut self, width: u32)
        ensures
            final(self).text == (Text { width, ..old(self).text }),
            final(self).content == old(self).content,
            final(self).rectangle == old(self).rectangle,
            final(self).active == old(self).active,
            final(self).last_cursor_blink == old(self).last_cursor_blink,
    {
        self.text.set_width(width);
    }

    /// Activates the field, starting the cursor blink at `now` unless it already runs.
    pub fn set_active(&mut self, now: u64)
        ensures
            final(self).active,
            final(self).last_cursor_blink == (if old(self).last_cursor_blink is None {
                Some(now)
            } else {
                old(self).last_cursor_blink
            }),
            final(self).text == old(self).text,
            final(self).rectangle == old(self).rectangle,
            final(self).content == old(self).content,
    {
        self.active = true;
        if self.last_cursor_blink.is_none() {
            self.last_cursor_blink = Some(now);
        }
    }

    /// Deactivates the field and clears its blink origin.
    pub fn set_inactive(&mut self)
        ensures
            !final(self).active,
            final(self).last_cursor_blink is None,
            final(self).text == old(self).text,
            final(self).rectangle == old(self).rectangle,
            final(self).content == old(self).content,
    {
        self.active = false;
        self.last_cursor_blink = None;
    }

    pub fn is_hovered(&self, p: PointerPos) -> (h: bool)
        ensures
            h == self.rectangle.position.contains_spec(p),
    {
        self.rectangle.position.contains(p)
    }
}

} // verus!
