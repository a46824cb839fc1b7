use vstd::prelude::*;
use crate::color::Color;
use crate::gui_label::{GuiLabel, LabelModel};
use crate::input::{Button, ButtonArgs, ButtonState, Input, Motion, MouseButton};
use crate::shapes::{half, rect_contains, Point, Rect, Size, MILLI};

verus! {

/// What a button holds, as plain values.
pub struct ButtonModel {
    pub base_color: Color,
    pub hovered_color: Color,
    pub pressed_color: Color,
    pub touching: bool,
    pub pressed: bool,
    pub origin: Point,
    pub bounds: Rect,
    pub label: LabelModel,
}

/// The button with its size set to `size`, its corner kept and its label
/// centered on the new bounds.
pub open spec fn resized(m: ButtonModel, size: Size) -> ButtonModel {
    let r = ButtonModel { bounds: Rect { pos: m.bounds.pos, size }, ..m };
    ButtonModel { label: label_centered(r), ..r }
}

/// The color of an idle button unless configured otherwise.
pub open spec fn default_base_color() -> Color {
    Color { r: 500, g: 500, b: 500, a: 1000 }
}

/// The color of a hovered button unless configured otherwise.
pub open spec fn default_hovered_color() -> Color {
    Color { r: 800, g: 800, b: 800, a: 1000 }
}

/// The color of a pressed button unless configured otherwise.
pub open spec fn default_pressed_color() -> Color {
    Color { r: 1000, g: 600, b: 600, a: 1000 }
}

/// The font size of a button's label.
pub open spec fn button_font_size() -> u32 {
    24
}

/// `v` times the fraction `f` (in thousandths), rounded toward zero.
pub open spec fn scale_milli(v: int, f: int) -> int {
    let p = v * f;
    if p >= 0 {
        p / 1000
    } else {
        -((-p) / 1000)
    }
}

/// The top-left corner that puts the anchor `origin` of a box of size `size` at `p`.
pub open spec fn anchored_x(p: Point, size: Size, origin: Point) -> int {
    p.x - scale_milli(size.w as int, origin.x as int)
}

pub open spec fn anchored_y(p: Point, size: Size, origin: Point) -> int {
    p.y - scale_milli(size.h as int, origin.y as int)
}

pub open spec fn fits_i64(v: int) -> bool {
    i64::MIN <= v <= i64::MAX
}

/// Whether the label of a button whose top-left corner is `pos` can be centered
/// in machine integers.
pub open spec fn center_fits(pos: Point, size: Size) -> bool {
    fits_i64(pos.x + half(size.w as int)) && fits_i64(pos.y + half(size.h as int))
}

/// Whether `set_position(p)` stays within machine integers.
pub open spec fn position_fits(m: ButtonModel, p: Point) -> bool {
    let x = anchored_x(p, m.bounds.size, m.origin);
    let y = anchored_y(p, m.bounds.size, m.origin);
    &&& fits_i64(x)
    &&& fits_i64(y)
    &&& fits_i64(x + half(m.bounds.size.w as int))
    &&& fits_i64(y + half(m.bounds.size.h as int))
}

/// The label of `m`, centered on the button's bounds.
pub open spec fn label_centered(m: ButtonModel) -> LabelModel {
    LabelModel {
        origin: Point { x: 500, y: 500 },
        position: Point {
            x: (m.bounds.pos.x + half(m.bounds.size.w as int)) as i64,
            y: (m.bounds.pos.y + half(m.bounds.size.h as int)) as i64,
        },
        ..m.label
    }
}

/// The button after its anchor was placed at `p`.
pub open spec fn placed(m: ButtonModel, p: Point) -> ButtonModel {
    let moved = ButtonModel {
        bounds: Rect {
            pos: Point {
                x: anchored_x(p, m.bounds.size, m.origin) as i64,
                y: anchored_y(p, m.bounds.size, m.origin) as i64,
            },
            size: m.bounds.size,
        },
        ..m
    };
    ButtonModel { label: label_centered(moved), ..moved }
}

/// Idle shows the base color, pressed (while touched) the pressed color, and
/// touched but not pressed the hovered color.
pub open spec fn color_of(m: ButtonModel) -> Color {
    if !m.touching {
        m.base_color
    } else if m.pressed {
        m.pressed_color
    } else {
        m.hovered_color
    }
}

/// The pressed state after a button event, and whether the event is a click.
///
/// Every button event ends a press. The left mouse button over the button
/// presses it on `Press`, and its `Release` clicks if there was a press. Any
/// other button (another mouse button, a key, another device), or the left
/// one away from the button, ends the press silently.
pub open spec fn button_event(touching: bool, pressed: bool, args: ButtonArgs) -> (bool, bool) {
    match args.button {
        Button::Mouse(b) => {
            if b == MouseButton::Left && touching {
                let now = args.state == ButtonState::Press;
                (now, pressed && !now)
            } else {
                (false, false)
            }
        },
        _ => (false, false),
    }
}

/// The button after an input event, and whether the event clicked it.
pub open spec fn input_step(m: ButtonModel, e: Input) -> (ButtonModel, bool) {
    match e {
        Input::Button(args) => {
            let (now, click) = button_event(m.touching, m.pressed, args);
            (ButtonModel { pressed: now, ..m }, click)
        },
        Input::Move(Motion::MouseCursor(p)) => (
            ButtonModel { touching: rect_contains(m.bounds, p), ..m },
            false,
        ),
        _ => (m, false),
    }
}

/// A left-button event of the given state.
pub open spec fn left(state: ButtonState) -> Input {
    Input::Button(ButtonArgs { button: Button::Mouse(MouseButton::Left), state })
}

/// Moving onto the button, pressing there and releasing there clicks exactly
/// once, on the release, whatever state the button was in before.
pub proof fn lemma_click_on_release(m: ButtonModel, p: Point)
    requires
        rect_contains(m.bounds, p),
    ensures
        ({
            let (m1, c1) = input_step(m, Input::Move(Motion::MouseCursor(p)));
            let (m2, c2) = input_step(m1, left(ButtonState::Press));
            let (m3, c3) = input_step(m2, left(ButtonState::Release));
            !c1 && !c2 && c3
        }),
{
}

/// A press made while the pointer is away from the button never turns into a
/// click, even when the pointer then moves onto the button and is released there.
pub proof fn lemma_no_click_after_press_outside(m: ButtonModel, p: Point)
    requires
        !m.touching,
        rect_contains(m.bounds, p),
    ensures
        ({
            let (m1, c1) = input_step(m, left(ButtonState::Press));
            let (m2, c2) = input_step(m1, Input::Move(Motion::MouseCursor(p)));
            let (m3, c3) = input_step(m2, left(ButtonState::Release));
            !c1 && !c2 && !c3
        }),
{
}

/// With the default colors, an untouched button shows the base color, a
/// touched one that is not pressed the hovered color, and a pressed one the
/// pressed color.
pub proof fn lemma_default_color_selection(m: ButtonModel)
    requires
        m.base_color == default_base_color(),
        m.hovered_color == default_hovered_color(),
        m.pressed_color == default_pressed_color(),
    ensures
        !m.touching ==> color_of(m) == default_base_color(),
        m.touching && !m.pressed ==> color_of(m) == default_hovered_color(),
        m.touching && m.pressed ==> color_of(m) == default_pressed_color(),
{
}

/// Only a release of the left mouse button over a pressed button clicks, and
/// it ends the press.
pub proof fn lemma_click_only_on_left_release(m: ButtonModel, e: Input)
    ensures
        input_step(m, e).1 ==> {
            &&& e == left(ButtonState::Release)
            &&& m.pressed
            &&& m.touching
            &&& !input_step(m, e).0.pressed
        },
{
}

/// After any button event, the button is pressed only while the pointer is
/// over it.
pub proof fn lemma_press_needs_pointer(m: ButtonModel, args: ButtonArgs)
    ensures
        input_step(m, Input::Button(args)).0.pressed ==> input_step(m, Input::Button(args)).0.touching,
{
}

/// A pointer move sets whether the pointer is over the button from the
/// half-open box of its bounds, and never presses or releases it.
pub proof fn lemma_move_tracks_pointer(m: ButtonModel, p: Point)
    ensures
        ({
            let (m1, c) = input_step(m, Input::Move(Motion::MouseCursor(p)));
            &&& m1.touching <==> (m.bounds.pos.x <= p.x < m.bounds.pos.x + m.bounds.size.w
                && m.bounds.pos.y <= p.y < m.bounds.pos.y + m.bounds.size.h)
            &&& m1.pressed == m.pressed
            &&& !c
        }),
{
}

/// A button with no width or no height is never under the pointer.
pub proof fn lemma_empty_bounds_never_touched(m: ButtonModel, p: Point)
    requires
        m.bounds.size.w <= 0 || m.bounds.size.h <= 0,
    ensures
        !input_step(m, Input::Move(Motion::MouseCursor(p))).0.touching,
{
}

/// A left press away from the button is not registered.
pub proof fn lemma_press_outside_not_registered(m: ButtonModel)
    requires
        !m.touching,
    ensures
        !input_step(m, left(ButtonState::Press)).0.pressed,
        !input_step(m, left(ButtonState::Press)).1,
{
}

/// A left release over a button that was not pressed does not click.
pub proof fn lemma_release_without_press(m: ButtonModel)
    requires
        !m.pressed,
    ensures
        !input_step(m, left(ButtonState::Release)).0.pressed,
        !input_step(m, left(ButtonState::Release)).1,
{
}

/// One step of drawing a button, in the order the window must perform them.
#[derive(Clone, Copy, Debug, PartialEq, Eq, Structural)]
pub enum GuiDrawCommand {
    /// Fill a rectangle with a color.
    Rectangle(Color, Rect),
    /// Draw the button's label.
    Label,
}

/// `v` times the fraction `f` in thousandths, rounded toward zero.
fn scaled(v: i64, f: i64) -> (r: i128)
    ensures
        r == scale_milli(v as int, f as int),
        -0x4000_0000_0000_0000_0000_0000_0000_0000 <= r <= 0x4000_0000_0000_0000_0000_0000_0000_0000,
{
    proof {
        let a = v as int;
        let b = f as int;
        assert(-0x8000_0000_0000_0000 <= a <= 0x7fff_ffff_ffff_ffff);
        assert(-0x8000_0000_0000_0000 <= b <= 0x7fff_ffff_ffff_ffff);
        assert(a * b <= 0x4000_0000_0000_0000_0000_0000_0000_0000 && a * b >= -0x4000_0000_0000_0000_0000_0000_0000_0000)
            by (nonlinear_arith)
            requires
                -0x8000_0000_0000_0000 <= a <= 0x7fff_ffff_ffff_ffff,
                -0x8000_0000_0000_0000 <= b <= 0x7fff_ffff_ffff_ffff,
        ;
    }
    let p = v as i128 * f as i128;
    let r = p / (MILLI as i128);
    assert(-0x4000_0000_0000_0000_0000_0000_0000_0000 <= r <= 0x4000_0000_0000_0000_0000_0000_0000_0000);
    r
}

/// A rectangular push button with a centered text label.
pub struct GuiButton {
    base_color: Color,
    hovered_color: Color,
    pressed_color: Color,
    is_touching_mouse: bool,
    is_pressed: bool,
    origin: Point,
    bounds: Rect,
    label: GuiLabel,
}

impl View for GuiButton {
    type V = ButtonModel;

    closed spec fn view(&self) -> ButtonModel {
        ButtonModel {
            base_color: self.base_color,
            hovered_color: self.hovered_color,
            pressed_color: self.pressed_color,
            touching: self.is_touching_mouse,
            pressed: self.is_pressed,
            origin: self.origin,
            bounds: self.bounds,
            label: self.label@,
        }
    }
}

impl GuiButton {
    /// An idle button with empty bounds at the origin and the default colors.
    pub fn new(lbl: &str) -> (b: GuiButton)
        ensures
            b@ == (ButtonModel {
                base_color: default_base_color(),
                hovered_color: default_hovered_color(),
                pressed_color: default_pressed_color(),
                touching: false,
                pressed: false,
                origin: Point { x: 0, y: 0 },
                bounds: Rect { pos: Point { x: 0, y: 0 }, size: Size { w: 0, h: 0 } },
                label: LabelModel {
                    text: lbl@,
                    font_size: button_font_size(),
                    origin: Point { x: 500, y: 500 },
                    position: Point { x: 0, y: 0 },
                },
            }),
    {
        let mut button = GuiButton {
            label: GuiLabel::new(lbl.to_owned()).font_size(24),
            origin: Point { x: 0, y: 0 },
            bounds: Rect { pos: Point { x: 0, y: 0 }, size: Size { w: 0, h: 0 } },
            is_touching_mouse: false,
            is_pressed: false,
            base_color: Color { r: 500, g: 500, b: 500, a: 1000 },
            hovered_color: Color { r: 800, g: 800, b: 800, a: 1000 },
            pressed_color: Color { r: 1000, g: 600, b: 600, a: 1000 },
        };
        button.set_label_pos();
        button
    }

    pub fn set_label(&mut self, new_label: &str)
        ensures
            final(self)@ == (ButtonModel {
                label: LabelModel { text: new_label@, ..old(self)@.label },
                ..old(self)@
            }),
    {
        self.label.set_label(new_label.to_owned());
    }

    /// Centers the label on the button.
    fn set_label_pos(&mut self)
        requires
            center_fits(old(self).bounds.pos, old(self).bounds.size),
        ensures
            final(self)@ == (ButtonModel { label: label_centered(old(self)@), ..old(self)@ }),
    {
        let pos = self.bounds.center();
        self.label.set_origin(Point { x: 500, y: 500 });
        self.label.set_position(pos);
    }

    /// The color to draw the button in, from whether it is hovered or pressed.
    pub fn get_color(&self) -> (c: Color)
        ensures
            c == color_of(self@),
    {
        if !self.is_touching_mouse {
            self.base_color
        } else if self.is_pressed {
            self.pressed_color
        } else {
            self.hovered_color
        }
    }

    /// Places the button so that its anchor (see `set_origin`) lies at `pos`,
    /// and centers the label on it.
    pub fn set_position(&mut self, pos: Point)
        requires
            position_fits(old(self)@, pos),
        ensures
            final(self)@ == placed(old(self)@, pos),
    {
        let dx = scaled(self.bounds.size.w, self.origin.x);
        let dy = scaled(self.bounds.size.h, self.origin.y);
        let x = (pos.x as i128 - dx) as i64;
        let y = (pos.y as i128 - dy) as i64;
        self.bounds.pos = Point { x, y };
        self.set_label_pos();
    }

    /// Whether `set_position(pos)` can place the button within machine integers.
    pub fn can_place(&self, pos: Point) -> (r: bool)
        ensures
            r == position_fits(self@, pos),
    {
        let dx = scaled(self.bounds.size.w, self.origin.x);
        let dy = scaled(self.bounds.size.h, self.origin.y);
        let x = pos.x as i128 - dx;
        let y = pos.y as i128 - dy;
        let cx = x + self.bounds.size.w as i128 / 2;
        let cy = y + self.bounds.size.h as i128 / 2;
        let lo = i64::MIN as i128;
        let hi = i64::MAX as i128;
        lo <= x && x <= hi && lo <= y && y <= hi && lo <= cx && cx <= hi && lo <= cy && cy <= hi
    }

    pub fn position(self, pos: Point) -> (b: GuiButton)
        requires
            position_fits(self@, pos),
        ensures
            b@ == placed(self@, pos),
    {
        let mut b = self;
        b.set_position(pos);
        b
    }

    /// Sets the anchor that `set_position` places, in thousandths of the size.
    /// The bounds stay where they are until the next `set_position`.
    pub fn set_origin(&mut self, origin: Point)
        ensures
            final(self)@ == (ButtonModel { origin, ..old(self)@ }),
    {
        self.origin = origin;
    }

    pub fn origin(self, origin: Point) -> (b: GuiButton)
        ensures
            b@ == (ButtonModel { origin, ..self@ }),
    {
        let mut b = self;
        b.set_origin(origin);
        b
    }

    /// Whether `set_size(size)` can center the label within machine integers.
    pub fn can_resize(&self, size: Size) -> (r: bool)
        ensures
            r == center_fits(self@.bounds.pos, size),
    {
        let cx = self.bounds.pos.x as i128 + size.w as i128 / 2;
        let cy = self.bounds.pos.y as i128 + size.h as i128 / 2;
        let lo = i64::MIN as i128;
        let hi = i64::MAX as i128;
        lo <= cx && cx <= hi && lo <= cy && cy <= hi
    }

    /// Sets the size and centers the label on the new bounds; the top-left
    /// corner stays where it is until the next `set_position`.
    pub fn set_size(&mut self, size: Size)
        requires
            center_fits(old(self)@.bounds.pos, size),
        ensures
            final(self)@ == resized(old(self)@, size),
    {
        self.bounds.size = size;
        self.set_label_pos();
    }

    pub fn size(self, size: Size) -> (b: GuiButton)
        requires
            center_fits(self@.bounds.pos, size),
        ensures
            b@ == resized(self@, size),
    {
        let mut b = self;
        b.set_size(size);
        b
    }

    /// The color that the button shows when it is neither hovered nor pressed.
    pub fn base_color(self, color: Color) -> (b: GuiButton)
        ensures
            b@ == (ButtonModel { base_color: color, ..self@ }),
    {
        GuiButton { base_color: color, ..self }
    }

    /// The color that the button shows while the pointer is over it.
    pub fn hovered_color(self, color: Color) -> (b: GuiButton)
        ensures
            b@ == (ButtonModel { hovered_color: color, ..self@ }),
    {
        GuiButton { hovered_color: color, ..self }
    }

    /// The color that the button shows while it is pressed.
    pub fn pressed_color(self, color: Color) -> (b: GuiButton)
        ensures
            b@ == (ButtonModel { pressed_color: color, ..self@ }),
    {
        GuiButton { pressed_color: color, ..self }
    }

    fn on_button(&mut self, args: &ButtonArgs) -> (click: bool)
        ensures
            final(self)@ == (ButtonModel {
                pressed: button_event(old(self)@.touching, old(self)@.pressed, *args).0,
                ..old(self)@
            }),
            click == button_event(old(self)@.touching, old(self)@.pressed, *args).1,
    {
        if let Button::Mouse(button) = args.button {
            let last_state = self.is_pressed;
            if button == MouseButton::Left && self.is_touching_mouse {
                self.is_pressed = args.state == ButtonState::Press;
                last_state && !self.is_pressed
            } else {
                self.is_pressed = false;
                false
            }
        } else {
            self.is_pressed = false;
            false
        }
    }

    fn on_move(&mut self, args: &Motion)
        ensures
            final(self)@ == (match *args {
                Motion::MouseCursor(p) => ButtonModel {
                    touching: rect_contains(old(self)@.bounds, p),
                    ..old(self)@
                },
                _ => old(self)@,
            }),
    {
        if let Motion::MouseCursor(p) = args {
            self.is_touching_mouse = self.bounds.contains(*p);
        }
    }

    /// Handles one input event of the window; returns whether it clicked the button.
    pub fn on_input(&mut self, input_event: &Input) -> (click: bool)
        ensures
            (final(self)@, click) == input_step(old(self)@, *input_event),
    {
        match input_event {
            Input::Button(args) => {
                return self.on_button(args);
            },
            Input::Move(args) => self.on_move(args),
            _ => {},
        }
        false
    }

    /// The steps that draw the button: its bounds filled in the color of its
    /// state, then its label on top.
    pub fn draw(&self) -> (cmds: Vec<GuiDrawCommand>)
        ensures
            cmds@ == seq![GuiDrawCommand::Rectangle(color_of(self@), self@.bounds), GuiDrawCommand::Label],
    {
        let color = self.get_color();
        vec![GuiDrawCommand::Rectangle(color, self.bounds), GuiDrawCommand::Label]
    }

    pub fn bounds(&self) -> (r: Rect)
        ensures
            r == self@.bounds,
    {
        self.bounds
    }

    pub fn label(&self) -> (r: &GuiLabel)
        ensures
            r@ == self@.label,
    {
        &self.label
    }
}

} // verus!
