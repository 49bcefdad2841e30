use gpu_widgets::button::{Button, ButtonConfig};
use gpu_widgets::geometry::{ndc_x, ndc_y, PointerPos, RectPos, Size};
use gpu_widgets::rectangle::{Rectangle, Rgb};
use gpu_widgets::text::{Text, LINE_HEIGHT};
use gpu_widgets::text_field::{TextField, TextFieldConfig, PADDING};

fn rect(top: u32, left: u32, bottom: u32, right: u32) -> RectPos {
    RectPos { top, left, bottom, right }
}

fn rgb(r: u8, g: u8, b: u8) -> Rgb {
    Rgb { r, g, b }
}

fn styled(position: RectPos) -> Rectangle {
    Rectangle::new(position, rgb(1, 0, 0), rgb(2, 0, 0), rgb(0, 1, 0), rgb(0, 2, 0))
}

fn field() -> TextField {
    TextField::new(TextFieldConfig {
        rect_pos: rect(10, 10, 90, 200),
        fill_color: rgb(230, 230, 230),
        fill_color_active: rgb(255, 255, 255),
        border_color: rgb(77, 77, 77),
        border_color_active: rgb(26, 26, 26),
        text_color: rgb(10, 10, 10),
    })
}

#[test]
fn rectangle_vertices_order_and_colors() {
    let size = Size { width: 800, height: 600 };
    let r = styled(rect(100, 100, 400, 500));
    let v = r.vertices(false, false, size);
    assert_eq!((v[0].x, v[0].y), (ndc_x(100, 800), ndc_y(100, 600)));
    assert_eq!((v[1].x, v[1].y), (ndc_x(100, 800), ndc_y(400, 600)));
    assert_eq!((v[2].x, v[2].y), (ndc_x(500, 800), ndc_y(400, 600)));
    assert_eq!((v[3].x, v[3].y), (ndc_x(500, 800), ndc_y(100, 600)));
    for vertex in v {
        assert_eq!(vertex.color, rgb(1, 0, 0));
        assert_eq!(vertex.border_color, rgb(0, 1, 0));
        assert_eq!(vertex.rect, rect(100, 100, 400, 500));
    }
    let hovered = r.vertices(true, false, size);
    assert_eq!(hovered[0].color, rgb(2, 0, 0));
    assert_eq!(hovered[0].border_color, rgb(0, 1, 0));
    let pressed = r.vertices(true, true, size);
    assert_eq!(pressed[2].color, rgb(2, 0, 0));
    assert_eq!(pressed[2].border_color, rgb(0, 2, 0));
    let emphasized_only = r.vertices(false, true, size);
    assert_eq!(emphasized_only[1].color, rgb(1, 0, 0));
    assert_eq!(emphasized_only[1].border_color, rgb(0, 2, 0));
}

#[test]
fn rectangle_indices_offset() {
    let r = styled(rect(1, 1, 5, 5));
    assert_eq!(r.indices(0), [0, 1, 2, 0, 2, 3]);
    assert_eq!(r.indices(8), [8, 9, 10, 8, 10, 11]);
    assert_eq!(r.indices(u16::MAX - 3), [65532, 65533, 65534, 65532, 65534, 65535]);
    assert_eq!(r.num_indices(), 6);
    assert_eq!(*r.position(), rect(1, 1, 5, 5));
}

#[test]
fn text_is_centred_vertically() {
    let t = Text::new(rect(100, 100, 400, 500), rgb(200, 200, 200), rgb(255, 255, 255));
    assert_eq!(LINE_HEIGHT, 42);
    assert_eq!(t.top(), 229);
    let a = t.text_area(false);
    assert_eq!(a.left, 100);
    assert_eq!(a.top, 229);
    assert_eq!(a.bounds, rect(100, 100, 400, 500));
    assert_eq!(a.color, rgb(200, 200, 200));
    assert_eq!(t.text_area(true).color, rgb(255, 255, 255));
    let small = Text::new(rect(0, 0, 10, 10), rgb(0, 0, 0), rgb(0, 0, 0));
    assert_eq!(small.top(), -16);
}

#[test]
fn button_click_needs_press_and_release_inside() {
    let mut b = Button::new(ButtonConfig {
        rect_pos: rect(100, 100, 400, 500),
        fill_color: rgb(128, 0, 128),
        fill_color_active: rgb(255, 0, 255),
        border_color: rgb(0, 0, 0),
        border_color_active: rgb(255, 255, 255),
        text: String::from("Submit"),
        text_color: rgb(200, 200, 200),
        text_color_active: rgb(255, 255, 255),
    });
    assert_eq!(b.label, "Submit");
    assert_eq!(b.text().rect_pos, rect(100, 100, 400, 500));
    assert_eq!(b.rectangle().color, rgb(128, 0, 128));
    let inside = PointerPos { x: 200, y: 200 };
    let outside = PointerPos { x: 600, y: 200 };
    assert!(b.is_hovered(inside));
    assert!(!b.is_hovered(outside));
    assert!(!b.release(inside));
    b.set_pressed(true);
    assert!(!b.release(outside));
    assert!(!b.pressed);
    b.set_pressed(true);
    assert!(b.release(inside));
    assert!(!b.release(inside));
}

#[test]
fn field_starts_inactive_and_empty() {
    let f = field();
    assert!(!f.is_active());
    assert_eq!(f.content, "");
    assert_eq!(*f.get_last_cursor_blink(), None);
    assert_eq!(f.text.rect_pos, rect(20, 20, 80, 190));
    assert!(f.is_hovered(PointerPos { x: 100, y: 50 }));
    assert!(!f.is_hovered(PointerPos { x: 10, y: 50 }));
}

#[test]
fn field_edits_only_while_active() {
    let mut f = field();
    assert!(!f.add_text("ab"));
    assert_eq!(f.content, "");
    f.set_active(5);
    assert!(f.add_text("ab"));
    assert!(f.add_text("ç🚀"));
    assert_eq!(f.content, "abç🚀");
    assert!(f.remove_character());
    assert_eq!(f.content, "abç");
    f.set_inactive();
    assert!(!f.remove_character());
    assert_eq!(f.content, "abç");
}

#[test]
fn edit_idempotence() {
    let mut f = field();
    f.set_active(1);
    f.add_text("hi");
    f.set_text_width(24);
    assert!(!f.add_text(""));
    assert_eq!(f.content, "hi");
    assert_eq!(f.text.measured_width(), 24);
    let mut e = field();
    e.set_active(1);
    assert!(!e.remove_character());
    assert_eq!(e.content, "");
}

#[test]
fn blink_origin_follows_activation() {
    let mut f = field();
    f.set_active(7);
    assert_eq!(*f.get_last_cursor_blink(), Some(7));
    f.set_active(9);
    assert_eq!(*f.get_last_cursor_blink(), Some(7));
    f.set_last_cursor_blink(12);
    assert_eq!(*f.get_last_cursor_blink(), Some(12));
    f.set_inactive();
    assert!(!f.is_active());
    assert_eq!(*f.get_last_cursor_blink(), None);
}

#[test]
fn cursor_follows_text_then_clamps() {
    let mut f = field();
    let c = f.get_cursor();
    assert_eq!(c.position, rect(20, 20, 80, 22));
    assert_eq!(c.color, rgb(0, 0, 0));
    f.set_text_width(50);
    assert_eq!(f.get_cursor().position, rect(20, 70, 80, 72));
    // interior width is 200 - 10 - 2 * PADDING = 170
    f.set_text_width(170);
    assert_eq!(f.get_cursor().position, rect(20, 190, 80, 192));
    f.set_text_width(171);
    assert_eq!(f.get_cursor().position.left, 200 - PADDING);
    f.set_text_width(u32::MAX);
    let pinned = f.get_cursor().position;
    assert_eq!(pinned.left, 190);
    assert!(pinned.right <= 200);
}
