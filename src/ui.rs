//! The widget collection with its shared pointer state: input routing and per-frame
//! batching of all widget geometry into one vertex/index stream.
use vstd::prelude::*;
use crate::button::Button;
use crate::geometry::{PointerPos, RectPos, Size};
use crate::rectangle::{quad_indices_spec, Rectangle, Rgb, Vertex};
use crate::text::TextArea;
use crate::text_field::{cursor_rect_spec, TextField};

verus! {

/// Most widgets one collection holds, so that a frame's vertices can be numbered with
/// 16-bit indices (each widget draws at most two rectangles of four vertices).
pub const MAX_COMPONENTS: usize = 8192;

pub enum Component {
    Button(Button),
    TextField(TextField),
}

impl Component {
    pub open spec fn wf(&self) -> bool {
        match self {
            Component::Button(b) => b.wf(),
            Component::TextField(f) => f.wf(),
        }
    }

    pub open spec fn rect(&self) -> RectPos {
        match self {
            Component::Button(b) => b.rectangle.position,
            Component::TextField(f) => f.rectangle.position,
        }
    }

    pub open spec fn is_active_field(&self) -> bool {
        match self {
            Component::TextField(f) => f.active,
            _ => false,
        }
    }

    pub open spec fn is_pressed_button(&self) -> bool {
        match self {
            Component::Button(b) => b.pressed,
            _ => false,
        }
    }

    /// Rectangles this widget draws: its own, plus the cursor of an active field.
    pub open spec fn num_rects(&self) -> nat {
        if self.is_active_field() {
            2
        } else {
            1
        }
    }
}

/// `i` is the first widget, in declaration order, under pointer `p`.
pub open spec fn is_target(cs: Seq<Component>, p: PointerPos, i: int) -> bool {
    &&& 0 <= i < cs.len()
    &&& cs[i].rect().contains_spec(p)
    &&& forall|j: int| 0 <= j < i ==> !(#[trigger] cs[j].rect().contains_spec(p))
}

/// Effect of a primary-button press on one widget, `target` telling whether the press
/// landed on it: a button becomes pressed exactly when targeted; a field becomes active
/// (starting its blink at `now` unless running) when targeted and inactive otherwise.
pub open spec fn after_press(c: Component, target: bool, now: u64) -> Component {
    match c {
        Component::Button(b) => Component::Button(Button { pressed: target, ..b }),
        Component::TextField(f) => Component::TextField(
            if target {
                TextField {
                    active: true,
                    last_cursor_blink: if f.last_cursor_blink is None {
                        Some(now)
                    } else {
                        f.last_cursor_blink
                    },
                    ..f
                }
            } else {
                TextField { active: false, last_cursor_blink: None, ..f }
            },
        ),
    }
}

pub open spec fn pressed_components(cs: Seq<Component>, p: PointerPos, now: u64) -> Seq<
    Component,
> {
    Seq::new(cs.len(), |i: int| after_press(cs[i], is_target(cs, p, i), now))
}

/// Releasing the primary button at `p` clicks widget `c`.
pub open spec fn fires(c: Component, p: PointerPos) -> bool {
    c.is_pressed_button() && c.rect().contains_spec(p)
}

/// Effect of a primary-button release on one widget: no button stays pressed.
pub open spec fn after_release(c: Component) -> Component {
    match c {
        Component::Button(b) => Component::Button(Button { pressed: false, ..b }),
        _ => c,
    }
}

/// A key press, as far as widgets distinguish keys.
pub enum KeyPress {
    Backspace,
    Enter,
    Escape,
    /// Any other key, with the text it produces, if any.
    Text(Option<String>),
}

/// The content of field `f` after key `k`.
pub open spec fn edited_content(f: TextField, k: KeyPress) -> Seq<char> {
    if f.active {
        match k {
            KeyPress::Backspace => if f.content@.len() > 0 {
                f.content@.drop_last()
            } else {
                f.content@
            },
            KeyPress::Text(Some(s)) => f.content@ + s@,
            _ => f.content@,
        }
    } else {
        f.content@
    }
}

/// Key `k` changes the content of widget `c`: it is the active field, and `k` removes a
/// character from non-empty content or types some text.
pub open spec fn edits(c: Component, k: KeyPress) -> bool {
    match c {
        Component::TextField(f) => f.active && match k {
            KeyPress::Backspace => f.content@.len() > 0,
            KeyPress::Text(Some(s)) => s@.len() > 0,
            _ => false,
        },
        _ => false,
    }
}

/// `d` is widget `c` after key `k`: only a field's content changes.
pub open spec fn after_key(c: Component, d: Component, k: KeyPress) -> bool {
    match (c, d) {
        (Component::Button(a), Component::Button(b)) => a == b,
        (Component::TextField(f), Component::TextField(g)) => {
            &&& g.content@ == edited_content(f, k)
            &&& g.text == f.text
            &&& g.rectangle == f.rectangle
            &&& g.active == f.active
            &&& g.last_cursor_blink == f.last_cursor_blink
        },
        _ => false,
    }
}

/// What the owner of a `Ui` must do after an event.
pub enum Response {
    /// The event means nothing to the widgets.
    Ignored,
    /// The state may have changed: redraw.
    Handled,
    /// The button at this position was clicked.
    Clicked(usize),
    /// The content of the field at this position changed: shape it again and report its
    /// width with `set_text_width`.
    TextChanged(usize),
    /// The surface now has this size.
    Resized(Size),
    /// The application should quit.
    Exit,
}

/// An input event, as the widgets see it.
pub enum UiEvent {
    PointerMoved(PointerPos),
    PointerButton { primary: bool, pressed: bool },
    Key(KeyPress),
    Resized(Size),
}

/// The widgets, the pointer shared by all of them, and the surface size.
pub struct Ui {
    pub components: Vec<Component>,
    pub pointer: PointerPos,
    /// The primary pointer button is down.
    pub clicked: bool,
    pub size: Size,
}

/// At most one text field is active.
pub open spec fn exclusive_active(cs: Seq<Component>) -> bool {
    forall|i: int, j: int|
        0 <= i < cs.len() && 0 <= j < cs.len() && #[trigger] cs[i].is_active_field()
            && #[trigger] cs[j].is_active_field() ==> i == j
}

/// At most one button is pressed.
pub open spec fn exclusive_pressed(cs: Seq<Component>) -> bool {
    forall|i: int, j: int|
        0 <= i < cs.len() && 0 <= j < cs.len() && #[trigger] cs[i].is_pressed_button()
            && #[trigger] cs[j].is_pressed_button() ==> i == j
}

impl Ui {
    pub open spec fn wf(&self) -> bool {
        &&& self.components@.len() <= MAX_COMPONENTS
        &&& forall|i: int| 0 <= i < self.components@.len() ==> #[trigger] self.components@[i].wf()
        &&& exclusive_active(self.components@)
        &&& exclusive_pressed(self.components@)
    }

    /// A collection of idle widgets on a surface of the given size, the pointer at the
    /// window's origin and no button down.
    pub fn new(components: Vec<Component>, size: Size) -> (ui: Ui)
        requires
            components@.len() <= MAX_COMPONENTS,
            forall|i: int| 0 <= i < components@.len() ==> #[trigger] components@[i].wf(),
            forall|i: int|
                0 <= i < components@.len() ==> !(#[trigger] components@[i].is_active_field()),
            forall|i: int|
                0 <= i < components@.len() ==> !(#[trigger] components@[i].is_pressed_button()),
        ensures
            ui.wf(),
            ui.components@ == components@,
            ui.pointer == (PointerPos { x: 0, y: 0 }),
            !ui.clicked,
            ui.size == size,
    {
        Ui { components, pointer: PointerPos { x: 0, y: 0 }, clicked: false, size }
    }

    /// Records the pointer's new position; hover is derived from it when drawing.
    pub fn pointer_moved(&mut self, p: PointerPos)
        ensures
            *final(self) == (Ui { pointer: p, ..*old(self) }),
    {
        self.pointer = p;
    }

    /// Takes a surface size, unless one of its dimensions is zero.
    pub fn resize(&mut self, size: Size) -> (accepted: bool)
        ensures
            accepted == size.drawable(),
            *final(self) == (if accepted {
                Ui { size, ..*old(self) }
            } else {
                *old(self)
            }),
    {
        if size.width > 0 && size.height > 0 {
            self.size = size;
            true
        } else {
            false
        }
    }

    /// One hit-test pass for a primary-button press at the pointer, at time `now`: the
    /// first widget under the pointer is pressed (a button) or activated (a field); every
    /// other button is released and every other field deactivated.
    pub fn handle_click(&mut self, now: u64)
        requires
            old(self).wf(),
        ensures
            final(self).wf(),
            final(self).components@ == pressed_components(
                old(self).components@,
                old(self).pointer,
                now,
            ),
            final(self).pointer == old(self).pointer,
            final(self).clicked == old(self).clicked,
            final(self).size == old(self).size,
    {
        let ghost cs = self.components@;
        let p = self.pointer;
        let n = self.components.len();
        let mut hit = false;
        let mut i: usize = 0;
        while i < n
            invariant
                n == cs.len(),
                n <= MAX_COMPONENTS,
                0 <= i <= n,
                self.pointer == p,
                self.clicked == old(self).clicked,
                self.size == old(self).size,
                self.components@.len() == n,
                hit <==> exists|j: int| 0 <= j < i && #[trigger] cs[j].rect().contains_spec(p),
                forall|j: int|
                    0 <= j < i ==> #[trigger] self.components@[j] == after_press(
                        cs[j],
                        is_target(cs, p, j),
                        now,
                    ),
                forall|j: int| i <= j < n ==> #[trigger] self.components@[j] == cs[j],
            decreases n - i,
        {
            let ghost before = self.components@;
            let target = match &mut self.components[i] {
                Component::Button(b) => {
                    let t = !hit && b.is_hovered(p);
                    b.set_pressed(t);
                    t
                },
                Component::TextField(f) => {
                    let t = !hit && f.is_hovered(p);
                    if t {
                        f.set_active(now);
                    } else {
                        f.set_inactive();
                    }
                    t
                },
            };
            assert(target == is_target(cs, p, i as int));
            hit = hit || target;
            i += 1;
        }
        proof {
            assert(self.components@ =~= pressed_components(cs, p, now));
            lemma_press_keeps_wf(cs, p, now);
        }
    }

    /// The primary button comes up at the pointer: every button is released, and the one
    /// that was pressed clicks when the pointer is still over it.
    pub fn release(&mut self) -> (clicked: Option<usize>)
        requires
            old(self).wf(),
        ensures
            final(self).wf(),
            final(self).components@ == old(self).components@.map_values(
                |c: Component| after_release(c),
            ),
            final(self).pointer == old(self).pointer,
            final(self).clicked == old(self).clicked,
            final(self).size == old(self).size,
            clicked matches Some(i) ==> i < old(self).components@.len() && fires(
                old(self).components@[i as int],
                old(self).pointer,
            ),
            clicked is None ==> forall|i: int|
                0 <= i < old(self).components@.len() ==> !fires(
                    #[trigger] old(self).components@[i],
                    old(self).pointer,
                ),
    {
        let ghost cs = self.components@;
        let p = self.pointer;
        let n = self.components.len();
        let mut result: Option<usize> = None;
        let mut i: usize = 0;
        while i < n
            invariant
                n == cs.len(),
                0 <= i <= n,
                self.pointer == p,
                self.clicked == old(self).clicked,
                self.size == old(self).size,
                self.components@.len() == n,
                result matches Some(k) ==> k < n && fires(cs[k as int], p),
                result is None ==> forall|j: int| 0 <= j < i ==> !fires(#[trigger] cs[j], p),
                forall|j: int| 0 <= j < i ==> #[trigger] self.components@[j] == after_release(cs[j]),
                forall|j: int| i <= j < n ==> #[trigger] self.components@[j] == cs[j],
            decreases n - i,
        {
            match &mut self.components[i] {
                Component::Button(b) => {
                    if b.release(p) {
                        result = Some(i);
                    }
                },
                Component::TextField(_) => {},
            }
            i += 1;
        }
        proof {
            assert(self.components@ =~= cs.map_values(|c: Component| after_release(c)));
            assert forall|j: int| 0 <= j < n implies #[trigger] self.components@[j].wf() by {
                assert(cs[j].wf());
            }
            assert(exclusive_active(self.components@)) by {
                assert forall|a: int, b: int|
                    0 <= a < n && 0 <= b < n && #[trigger] self.components@[a].is_active_field()
                        && #[trigger] self.components@[b].is_active_field() implies a == b by {
                    assert(cs[a].is_active_field() && cs[b].is_active_field());
                }
            }
        }
        result
    }

    /// Routes a key press to the active field: Backspace removes its last character, a
    /// key that types text appends it. Returns the field whose content changed.
    pub fn key_input(&mut self, key: &KeyPress) -> (changed: Option<usize>)
        requires
            old(self).wf(),
        ensures
            final(self).wf(),
            final(self).components@.len() == old(self).components@.len(),
            forall|i: int|
                0 <= i < old(self).components@.len() ==> after_key(
                    old(self).components@[i],
                    #[trigger] final(self).components@[i],
                    *key,
                ),
            final(self).pointer == old(self).pointer,
            final(self).clicked == old(self).clicked,
            final(self).size == old(self).size,
            changed matches Some(i) ==> i < old(self).components@.len() && edits(
                old(self).components@[i as int],
                *key,
            ),
            changed is None ==> forall|i: int|
                0 <= i < old(self).components@.len() ==> !edits(
                    #[trigger] old(self).components@[i],
                    *key,
                ),
    {
        let ghost cs = self.components@;
        let n = self.components.len();
        let mut result: Option<usize> = None;
        let mut i: usize = 0;
        while i < n
            invariant
                n == cs.len(),
                0 <= i <= n,
                self.pointer == old(self).pointer,
                self.clicked == old(self).clicked,
                self.size == old(self).size,
                self.components@.len() == n,
                result matches Some(k) ==> k < n && edits(cs[k as int], *key),
                result is None ==> forall|j: int| 0 <= j < i ==> !edits(#[trigger] cs[j], *key),
                forall|j: int| 0 <= j < i ==> after_key(cs[j], #[trigger] self.components@[j], *key),
                forall|j: int| i <= j < n ==> #[trigger] self.components@[j] == cs[j],
            decreases n - i,
        {
            match &mut self.components[i] {
                Component::Button(_) => {},
                Component::TextField(f) => {
                    let edited = match key {
                        KeyPress::Backspace => f.remove_character(),
                        KeyPress::Text(Some(s)) => f.add_text(s.as_str()),
                        _ => false,
                    };
                    if edited {
                        result = Some(i);
                    }
                },
            }
            i += 1;
        }
        proof {
            let ds = self.components@;
            assert forall|j: int| 0 <= j < n implies #[trigger] ds[j].wf() by {
                assert(cs[j].wf());
                assert(after_key(cs[j], ds[j], *key));
            }
            assert forall|a: int, b: int|
                0 <= a < n && 0 <= b < n && #[trigger] ds[a].is_active_field()
                    && #[trigger] ds[b].is_active_field() implies a == b by {
                assert(after_key(cs[a], ds[a], *key));
                assert(after_key(cs[b], ds[b], *key));
                assert(cs[a].is_active_field() && cs[b].is_active_field());
            }
            assert forall|a: int, b: int|
                0 <= a < n && 0 <= b < n && #[trigger] ds[a].is_pressed_button()
                    && #[trigger] ds[b].is_pressed_button() implies a == b by {
                assert(after_key(cs[a], ds[a], *key));
                assert(after_key(cs[b], ds[b], *key));
                assert(cs[a].is_pressed_button() && cs[b].is_pressed_button());
            }
        }
        result
    }

    /// Applies one input event at time `now` and says what the owner has to do: a press
    /// of the primary button while it is up runs the hit-test pass, its release clicks
    /// the button pressed under the pointer, keys go to the active field, Escape asks to
    /// quit, and a resize is taken unless a dimension is zero.
    pub fn input(&mut self, event: UiEvent, now: u64) -> (r: Response)
        requires
            old(self).wf(),
        ensures
            final(self).wf(),
            final(self).size == (match event {
                UiEvent::Resized(s) => if s.drawable() {
                    s
                } else {
                    old(self).size
                },
                _ => old(self).size,
            }),
            final(self).pointer == (match event {
                UiEvent::PointerMoved(p) => p,
                _ => old(self).pointer,
            }),
            match event {
                UiEvent::PointerMoved(_) => {
                    &&& final(self).components == old(self).components
                    &&& final(self).clicked == old(self).clicked
                    &&& r is Handled
                },
                UiEvent::PointerButton { primary, pressed } => {
                    &&& r is Handled || r is Clicked
                    &&& if !primary || pressed == old(self).clicked {
                        &&& final(self).components == old(self).components
                        &&& final(self).clicked == old(self).clicked
                        &&& r is Handled
                    } else if pressed {
                        &&& final(self).clicked
                        &&& final(self).components@ == pressed_components(
                            old(self).components@,
                            old(self).pointer,
                            now,
                        )
                    } else {
                        &&& !final(self).clicked
                        &&& final(self).components@ == old(self).components@.map_values(
                            |c: Component| after_release(c),
                        )
                        &&& r matches Response::Clicked(i) ==> i < old(
                            self,
                        ).components@.len() && fires(
                            old(self).components@[i as int],
                            old(self).pointer,
                        )
                        &&& r is Handled ==> forall|i: int|
                            0 <= i < old(self).components@.len() ==> !fires(
                                #[trigger] old(self).components@[i],
                                old(self).pointer,
                            )
                    }
                },
                UiEvent::Key(k) => {
                    &&& final(self).clicked == old(self).clicked
                    &&& if k is Escape {
                        &&& final(self).components == old(self).components
                        &&& r is Exit
                    } else {
                        &&& r is Handled || r is TextChanged
                        &&& final(self).components@.len() == old(self).components@.len()
                        &&& forall|i: int|
                            0 <= i < old(self).components@.len() ==> after_key(
                                old(self).components@[i],
                                #[trigger] final(self).components@[i],
                                k,
                            )
                        &&& r matches Response::TextChanged(i) ==> i < old(
                            self,
                        ).components@.len() && edits(old(self).components@[i as int], k)
                        &&& r is Handled ==> forall|i: int|
                            0 <= i < old(self).components@.len() ==> !edits(
                                #[trigger] old(self).components@[i],
                                k,
                            )
                    }
                },
                UiEvent::Resized(s) => {
                    &&& final(self).components == old(self).components
                    &&& final(self).clicked == old(self).clicked
                    &&& r == (if s.drawable() {
                        Response::Resized(s)
                    } else {
                        Response::Ignored
                    })
                },
            },
    {
        match event {
            UiEvent::PointerMoved(p) => {
                self.pointer_moved(p);
                Response::Handled
            },
            UiEvent::PointerButton { primary, pressed } => {
                if !primary || pressed == self.clicked {
                    Response::Handled
                } else if pressed {
                    self.clicked = true;
                    self.handle_click(now);
                    Response::Handled
                } else {
                    self.clicked = false;
                    match self.release() {
                        Some(i) => Response::Clicked(i),
                        None => Response::Handled,
                    }
                }
            },
            UiEvent::Key(k) => {
                if let KeyPress::Escape = k {
                    Response::Exit
                } else {
                    match self.key_input(&k) {
                        Some(i) => Response::TextChanged(i),
                        None => Response::Handled,
                    }
                }
            },
            UiEvent::Resized(s) => {
                if self.resize(s) {
                    Response::Resized(s)
                } else {
                    Response::Ignored
                }
            },
        }
    }

    /// Builds this frame's geometry: every widget in declaration order, each rectangle's
    /// indices offset by the number of vertices before it. Nothing is drawn on a surface
    /// with a zero dimension.
    pub fn compose(&self) -> (f: Frame)
        requires
            self.wf(),
        ensures
            !self.size.drawable() ==> f.vertices@.len() == 0 && f.indices@.len() == 0
                && f.text_areas@.len() == 0,
            self.size.drawable() ==> {
                &&& f.vertices@.len() == 4 * rect_count(self.components@)
                &&& f.indices@.len() == 6 * rect_count(self.components@)
                &&& f.vertices@ == frame_vertices(self.components@, self.pointer, self.size)
                &&& f.indices@.map_values(|x: u16| x as int) == frame_indices(
                    rect_count(self.components@),
                )
                &&& f.text_areas@ == Seq::new(
                    self.components@.len(),
                    |i: int| text_draw_spec(self.components@[i], i, self.pointer),
                )
            },
    {
        let mut vertices: Vec<Vertex> = Vec::new();
        let mut indices: Vec<u16> = Vec::new();
        let mut text_areas: Vec<TextDraw> = Vec::new();
        if self.size.width == 0 || self.size.height == 0 {
            return Frame { vertices, indices, text_areas };
        }
        let ghost cs = self.components@;
        let p = self.pointer;
        let size = self.size;
        let n = self.components.len();
        let mut count: usize = 0;
        let mut i: usize = 0;
        while i < n
            invariant
                self.wf(),
                cs == self.components@,
                p == self.pointer,
                size == self.size,
                size.drawable(),
                n == cs.len(),
                0 <= i <= n,
                count == rect_count(cs.subrange(0, i as int)),
                count <= 2 * i,
                vertices@ == frame_vertices(cs.subrange(0, i as int), p, size),
                indices@.map_values(|x: u16| x as int) == frame_indices(count as nat),
                text_areas@ == Seq::new(i as nat, |k: int| text_draw_spec(cs[k], k, p)),
            decreases n - i,
        {
            proof {
                let s = cs.subrange(0, i + 1);
                assert(s.drop_last() =~= cs.subrange(0, i as int));
                assert(s.last() == cs[i as int]);
                assert(cs[i as int].wf());
            }
            match &self.components[i] {
                Component::Button(b) => {
                    let hovered = b.is_hovered(p);
                    push_quad(
                        &mut vertices,
                        &mut indices,
                        b.rectangle(),
                        hovered,
                        hovered && b.pressed,
                        size,
                        count,
                    );
                    assert(frame_indices((count + 1) as nat) == frame_indices(count as nat)
                        + quad_indices_spec(4 * count));
                    count += 1;
                    text_areas.push(
                        TextDraw { widget: i, area: b.text().text_area(hovered && b.pressed) },
                    );
                },
                Component::TextField(f) => {
                    let active = f.is_active();
                    let hovered = f.is_hovered(p);
                    push_quad(&mut vertices, &mut indices, &f.rectangle, hovered, active, size, count);
                    assert(frame_indices((count + 1) as nat) == frame_indices(count as nat)
                        + quad_indices_spec(4 * count));
                    count += 1;
                    if active {
                        let cursor = f.get_cursor();
                        push_quad(&mut vertices, &mut indices, &cursor, false, false, size, count);
                        assert(frame_indices((count + 1) as nat) == frame_indices(count as nat)
                            + quad_indices_spec(4 * count));
                        count += 1;
                        assert(vertices@ =~= frame_vertices(cs.subrange(0, i + 1), p, size));
                    }
                    text_areas.push(TextDraw { widget: i, area: f.text.text_area(active) });
                },
            }
            assert(text_areas@ =~= Seq::new((i + 1) as nat, |k: int| text_draw_spec(cs[k], k, p)));
            i += 1;
        }
        assert(cs.subrange(0, n as int) =~= cs);
        proof {
            lemma_frame_vertices_len(cs, p, size);
            lemma_frame_indices(count as nat);
        }
        Frame { vertices, indices, text_areas }
    }
}

/// The cursor of field `f`.
pub open spec fn cursor_spec(f: TextField) -> Rectangle {
    Rectangle {
        position: cursor_rect_spec(f.rectangle.position, f.text.width),
        color: Rgb { r: 0, g: 0, b: 0 },
        color_hover: Rgb { r: 0, g: 0, b: 0 },
        border_color: Rgb { r: 0, g: 0, b: 0 },
        border_color_clicked: Rgb { r: 0, g: 0, b: 0 },
    }
}

/// The vertices widget `c` contributes to a frame with the pointer at `p`: every widget
/// is filled with its highlight color while hovered; a button's border is emphasized
/// while it is hovered and pressed, a field's while it is active, when its cursor
/// follows it.
pub open spec fn component_vertices(c: Component, p: PointerPos, size: Size) -> Seq<Vertex> {
    match c {
        Component::Button(b) => {
            let hovered = b.rectangle.position.contains_spec(p);
            b.rectangle.vertices_spec(hovered, hovered && b.pressed, size)
        },
        Component::TextField(f) => {
            let own = f.rectangle.vertices_spec(
                f.rectangle.position.contains_spec(p),
                f.active,
                size,
            );
            if f.active {
                own + cursor_spec(f).vertices_spec(false, false, size)
            } else {
                own
            }
        },
    }
}

/// The vertices of all widgets, in declaration order.
pub open spec fn frame_vertices(cs: Seq<Component>, p: PointerPos, size: Size) -> Seq<Vertex>
    decreases cs.len(),
{
    if cs.len() == 0 {
        seq![]
    } else {
        frame_vertices(cs.drop_last(), p, size) + component_vertices(cs.last(), p, size)
    }
}

/// The number of rectangles the widgets draw.
pub open spec fn rect_count(cs: Seq<Component>) -> nat
    decreases cs.len(),
{
    if cs.len() == 0 {
        0
    } else {
        rect_count(cs.drop_last()) + cs.last().num_rects()
    }
}

/// The indices of `n` rectangles whose vertices lie four by four in one buffer.
pub open spec fn frame_indices(n: nat) -> Seq<int>
    decreases n,
{
    if n == 0 {
        seq![]
    } else {
        frame_indices((n - 1) as nat) + quad_indices_spec(4 * (n - 1))
    }
}

/// A request to draw the label of the widget at position `widget`.
pub struct TextDraw {
    pub widget: usize,
    pub area: TextArea,
}

/// The label of widget `c`, at position `i`: a button's is in its active color while
/// hovered and pressed, a field's while active.
pub open spec fn text_draw_spec(c: Component, i: int, p: PointerPos) -> TextDraw {
    match c {
        Component::Button(b) => TextDraw {
            widget: i as usize,
            area: b.text.text_area_spec(b.rectangle.position.contains_spec(p) && b.pressed),
        },
        Component::TextField(f) => TextDraw {
            widget: i as usize,
            area: f.text.text_area_spec(f.active),
        },
    }
}

/// One frame's geometry: a vertex buffer, the 16-bit indices into it, and the labels.
pub struct Frame {
    pub vertices: Vec<Vertex>,
    pub indices: Vec<u16>,
    pub text_areas: Vec<TextDraw>,
}

/// Appends the vertices and indices of one rectangle, the `count`-th of the frame.
fn push_quad(
    vertices: &mut Vec<Vertex>,
    indices: &mut Vec<u16>,
    rect: &Rectangle,
    fill_active: bool,
    border_active: bool,
    size: Size,
    count: usize,
)
    requires
        size.drawable(),
        count < 16384,
    ensures
        final(vertices)@ == old(vertices)@ + rect.vertices_spec(fill_active, border_active, size),
        final(indices)@.map_values(|x: u16| x as int) == old(indices)@.map_values(
            |x: u16| x as int,
        ) + quad_indices_spec(4 * count),
{
    let v = rect.vertices(fill_active, border_active, size);
    vertices.push(v[0]);
    vertices.push(v[1]);
    vertices.push(v[2]);
    vertices.push(v[3]);
    let ix = rect.indices((4 * count) as u16);
    indices.push(ix[0]);
    indices.push(ix[1]);
    indices.push(ix[2]);
    indices.push(ix[3]);
    indices.push(ix[4]);
    indices.push(ix[5]);
    assert(vertices@ =~= old(vertices)@ + rect.vertices_spec(fill_active, border_active, size));
    assert(ix@.map_values(|x: u16| x as int)[0] == ix@[0] as int);
    assert(indices@.map_values(|x: u16| x as int) =~= old(indices)@.map_values(|x: u16| x as int)
        + quad_indices_spec(4 * count));
}

/// A press keeps every widget well formed, keeps at most one field active and at most
/// one button pressed.
proof fn lemma_press_keeps_wf(cs: Seq<Component>, p: PointerPos, now: u64)
    requires
        cs.len() <= MAX_COMPONENTS,
        forall|i: int| 0 <= i < cs.len() ==> #[trigger] cs[i].wf(),
    ensures
        ({
            let ds = pressed_components(cs, p, now);
            &&& forall|i: int| 0 <= i < ds.len() ==> #[trigger] ds[i].wf()
            &&& exclusive_active(ds)
            &&& exclusive_pressed(ds)
        }),
{
    let ds = pressed_components(cs, p, now);
    assert forall|i: int| 0 <= i < ds.len() implies #[trigger] ds[i].wf() by {
        assert(cs[i].wf());
    }
    assert forall|i: int, j: int|
        0 <= i < ds.len() && 0 <= j < ds.len() && #[trigger] ds[i].is_active_field()
            && #[trigger] ds[j].is_active_field() implies i == j by {
        lemma_single_target(cs, p, i, j);
    }
    assert forall|i: int, j: int|
        0 <= i < ds.len() && 0 <= j < ds.len() && #[trigger] ds[i].is_pressed_button()
            && #[trigger] ds[j].is_pressed_button() implies i == j by {
        lemma_single_target(cs, p, i, j);
    }
}

/// Only one widget is the target of a press.
proof fn lemma_single_target(cs: Seq<Component>, p: PointerPos, i: int, j: int)
    requires
        is_target(cs, p, i),
        is_target(cs, p, j),
    ensures
        i == j,
{
    if i < j {
        assert(!cs[i].rect().contains_spec(p));
    } else if j < i {
        assert(!cs[j].rect().contains_spec(p));
    }
}


/// Rectangle `j` of a frame owns index positions `6j .. 6j + 5`, which number its own four
/// vertices `4j .. 4j + 3` as the triangles (A, B, C) and (A, C, D).
pub proof fn lemma_frame_indices(n: nat)
    ensures
        frame_indices(n).len() == 6 * n,
        forall|j: int, k: int|
            0 <= j < n && 0 <= k < 6 ==> #[trigger] frame_indices(n)[6 * j + k]
                == quad_indices_spec(4 * j)[k],
    decreases n,
{
    if n > 0 {
        let m = (n - 1) as nat;
        lemma_frame_indices(m);
        assert forall|j: int, k: int| 0 <= j < n && 0 <= k < 6 implies #[trigger] frame_indices(
            n,
        )[6 * j + k] == quad_indices_spec(4 * j)[k] by {
            if j < m {
                assert(frame_indices(m)[6 * j + k] == quad_indices_spec(4 * j)[k]);
            }
        }
    }
}

/// A frame holds four vertices for each rectangle the widgets draw.
pub proof fn lemma_frame_vertices_len(cs: Seq<Component>, p: PointerPos, size: Size)
    ensures
        frame_vertices(cs, p, size).len() == 4 * rect_count(cs),
    decreases cs.len(),
{
    if cs.len() > 0 {
        lemma_frame_vertices_len(cs.drop_last(), p, size);
    }
}

/// With no field active, hence no cursor, every widget draws exactly one rectangle.
proof fn lemma_rect_count_no_cursor(cs: Seq<Component>)
    requires
        forall|i: int| 0 <= i < cs.len() ==> !(#[trigger] cs[i].is_active_field()),
    ensures
        rect_count(cs) == cs.len(),
    decreases cs.len(),
{
    if cs.len() > 0 {
        let d = cs.drop_last();
        assert forall|i: int| 0 <= i < d.len() implies !(#[trigger] d[i].is_active_field()) by {
            assert(d[i] == cs[i]);
        }
        lemma_rect_count_no_cursor(d);
        assert(!cs[cs.len() - 1].is_active_field());
    }
}

/// Batching without a cursor: `n` widgets give `4n` vertices and `6n` indices, and the
/// indices of widget `j` all lie in `4j .. 4j + 3`, past every vertex of the widgets before.
pub proof fn lemma_batching(cs: Seq<Component>, p: PointerPos, size: Size)
    requires
        forall|i: int| 0 <= i < cs.len() ==> !(#[trigger] cs[i].is_active_field()),
    ensures
        rect_count(cs) == cs.len(),
        frame_vertices(cs, p, size).len() == 4 * cs.len(),
        frame_indices(rect_count(cs)).len() == 6 * cs.len(),
        forall|j: int, k: int|
            0 <= j < cs.len() && 0 <= k < 6 ==> 4 * j <= #[trigger] frame_indices(
                rect_count(cs),
            )[6 * j + k] <= 4 * j + 3,
{
    lemma_rect_count_no_cursor(cs);
    lemma_frame_vertices_len(cs, p, size);
    lemma_frame_indices(cs.len());
    assert forall|j: int, k: int| 0 <= j < cs.len() && 0 <= k < 6 implies 4 * j
        <= #[trigger] frame_indices(rect_count(cs))[6 * j + k] <= 4 * j + 3 by {
        assert(frame_indices(cs.len())[6 * j + k] == quad_indices_spec(4 * j)[k]);
    }
}

// `Ui::input` replaces the widgets by `pressed_components` on a primary press while the
// button is up, leaves them as they are on pointer moves, and on the release reports a
// click exactly for a widget that `fires`; the three laws below read through that.

/// Pressing with the pointer on button `i`, the first widget in declaration order under
/// it, and releasing anywhere inside that button clicks button `i` and nothing else.
pub proof fn lemma_click_fires(cs: Seq<Component>, p: PointerPos, q: PointerPos, now: u64, i: int)
    requires
        is_target(cs, p, i),
        cs[i] is Button,
        cs[i].rect().contains_spec(q),
    ensures
        forall|j: int|
            0 <= j < cs.len() ==> (fires(#[trigger] pressed_components(cs, p, now)[j], q) <==> j
                == i),
{
    assert forall|j: int| 0 <= j < cs.len() implies (fires(
        #[trigger] pressed_components(cs, p, now)[j],
        q,
    ) <==> j == i) by {
        if j != i && is_target(cs, p, j) {
            lemma_single_target(cs, p, i, j);
        }
    }
}

/// Pressing on widget `a`, the first widget in declaration order under the pointer, and
/// releasing at a point `q` outside it clicks no widget.
pub proof fn lemma_click_exclusive(
    cs: Seq<Component>,
    p: PointerPos,
    q: PointerPos,
    now: u64,
    a: int,
)
    requires
        is_target(cs, p, a),
        !cs[a].rect().contains_spec(q),
    ensures
        forall|j: int| 0 <= j < cs.len() ==> !fires(#[trigger] pressed_components(cs, p, now)[j], q),
{
    assert forall|j: int| 0 <= j < cs.len() implies !fires(
        #[trigger] pressed_components(cs, p, now)[j],
        q,
    ) by {
        if j != a && is_target(cs, p, j) {
            lemma_single_target(cs, p, a, j);
        }
    }
}

/// Pressing on field `b`, the first widget in declaration order under the pointer,
/// activates it with a blink origin and deactivates every other field, clearing its
/// blink origin.
pub proof fn lemma_field_exclusive(cs: Seq<Component>, p: PointerPos, now: u64, b: int)
    requires
        is_target(cs, p, b),
        cs[b] is TextField,
    ensures
        pressed_components(cs, p, now)[b].is_active_field(),
        pressed_components(cs, p, now)[b]->TextField_0.last_cursor_blink is Some,
        forall|j: int|
            0 <= j < cs.len() && j != b ==> match #[trigger] pressed_components(cs, p, now)[j] {
                Component::TextField(f) => !f.active && f.last_cursor_blink is None,
                Component::Button(_) => true,
            },
{
    assert forall|j: int| 0 <= j < cs.len() && j != b implies match #[trigger] pressed_components(
        cs,
        p,
        now,
    )[j] {
        Component::TextField(f) => !f.active && f.last_cursor_blink is None,
        Component::Button(_) => true,
    } by {
        if is_target(cs, p, j) {
            lemma_single_target(cs, p, b, j);
        }
    }
}

} // verus!
