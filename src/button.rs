//! A push button: hover highlighting and click detection.
use vstd::prelude::*;
use crate::geometry::{PointerPos, RectPos};
use crate::rectangle::{Rectangle, Rgb};
use crate::text::Text;

verus! {

pub struct ButtonConfig {
    pub rect_pos: RectPos,
    pub fill_color: Rgb,
    pub fill_color_active: Rgb,
    pub border_color: Rgb,
    pub border_color_active: Rgb,
    pub text: String,
    pub text_color: Rgb,
    pub text_color_active: Rgb,
}

/// A button. `pressed` is set when the primary pointer button went down over it, and
/// cleared when that button comes up again.
pub struct Button {
    pub text: Text,
    pub rectangle: Rectangle,
    pub label: String,
    pub pressed: bool,
}

impl Button {
    pub open spec fn wf(&self) -> bool {
        self.rectangle.position.wf() && self.text.rect_pos == self.rectangle.position
    }

    /// A button that is not pressed, its label centred in its rectangle.
    pub fn new(cfg: ButtonConfig) -> (b: Button)
        requires
            cfg.rect_pos.wf(),
        ensures
            b.wf(),
            b.rectangle == (Rectangle {
                position: cfg.rect_pos,
                color: cfg.fill_color,
                color_hover: cfg.fill_color_active,
                border_color: cfg.border_color,
                border_color_clicked: cfg.border_color_active,
            }),
            b.text == (Text {
                rect_pos: cfg.rect_pos,
                color: cfg.text_color,
                color_active: cfg.text_color_active,
                width: 0,
            }),
            b.label@ == cfg.text@,
            !b.pressed,
    {
        Button {
            rectangle: Rectangle::new(
                cfg.rect_pos,
                cfg.fill_color,
                cfg.fill_color_active,
                cfg.border_color,
                cfg.border_color_active,
            ),
            text: Text::new(cfg.rect_pos, cfg.text_color, cfg.text_color_active),
            label: cfg.text,
            pressed: false,
        }
    }

    pub fn text(&self) -> (t: &Text)
        ensures
            *t == self.text,
    {
        &self.text
    }

    pub fn rectangle(&self) -> (r: &Rectangle)
        ensures
            *r == self.rectangle,
    {
        &self.rectangle
    }

    pub fn is_hovered(&self, p: PointerPos) -> (h: bool)
        ensures
            h == self.rectangle.position.contains_spec(p),
    {
        self.rectangle.position.contains(p)
    }

    /// Sets whether the primary pointer button went down over this button.
    pub fn set_pressed(&mut self, pressed: bool)
        ensures
            *final(self) == (Button { pressed, ..*old(self) }),
    {
        self.pressed = pressed;
    }

    /// The primary pointer button comes up at `p`: the button clicks when it was pressed
    /// and `p` is still over it. It is no longer pressed either way.
    pub fn release(&mut self, p: PointerPos) -> (clicked: bool)
        ensures
            clicked == (old(self).pressed && old(self).rectangle.position.contains_spec(p)),
            *final(self) == (Button { pressed: false, ..*old(self) }),
    {
        let clicked = self.pressed && self.is_hovered(p);
        self.pressed = false;
        clicked
    }
}

} // verus!
