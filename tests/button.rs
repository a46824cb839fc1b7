use skyfall::color::Color;
use skyfall::gui_button::{GuiButton, GuiDrawCommand};
use skyfall::input::{Button, ButtonArgs, ButtonState, Input, Key, Motion, MouseButton};
use skyfall::shapes::{Point, Rect, Size};

const BASE: Color = Color { r: 500, g: 500, b: 500, a: 1000 };
const HOVERED: Color = Color { r: 800, g: 800, b: 800, a: 1000 };
const PRESSED: Color = Color { r: 1000, g: 600, b: 600, a: 1000 };

fn mouse(button: MouseButton, state: ButtonState) -> Input {
    Input::Button(ButtonArgs { button: Button::Mouse(button), state })
}

fn move_to(x: i64, y: i64) -> Input {
    Input::Move(Motion::MouseCursor(Point::new(x, y)))
}

fn button_at_100() -> GuiButton {
    GuiButton::new("Play").size(Size::new(100, 50)).position(Point::new(100, 100))
}

#[test]
fn new_button_defaults() {
    let b = GuiButton::new("Play");
    assert_eq!(b.bounds(), Rect::new(0, 0, 0, 0));
    assert_eq!(b.get_color(), BASE);
    assert_eq!(b.label().text(), "Play");
    assert_eq!(b.label().position(), Point::new(0, 0));
}

#[test]
fn click_fires_once_on_release() {
    let mut b = button_at_100();
    assert!(!b.on_input(&move_to(120, 120)));
    assert!(!b.on_input(&mouse(MouseButton::Left, ButtonState::Press)));
    assert!(b.on_input(&mouse(MouseButton::Left, ButtonState::Release)));
    assert!(!b.on_input(&mouse(MouseButton::Left, ButtonState::Release)));
}

#[test]
fn holding_the_button_does_not_fire() {
    let mut b = button_at_100();
    b.on_input(&move_to(120, 120));
    assert!(!b.on_input(&mouse(MouseButton::Left, ButtonState::Press)));
    assert!(!b.on_input(&mouse(MouseButton::Left, ButtonState::Press)));
    assert!(!b.on_input(&move_to(130, 130)));
}

#[test]
fn press_outside_then_release_inside_does_not_click() {
    let mut b = button_at_100();
    assert!(!b.on_input(&move_to(0, 0)));
    assert!(!b.on_input(&mouse(MouseButton::Left, ButtonState::Press)));
    assert!(!b.on_input(&move_to(120, 120)));
    assert!(!b.on_input(&mouse(MouseButton::Left, ButtonState::Release)));
}

#[test]
fn release_outside_after_press_inside_does_not_click() {
    let mut b = button_at_100();
    b.on_input(&move_to(120, 120));
    b.on_input(&mouse(MouseButton::Left, ButtonState::Press));
    b.on_input(&move_to(500, 500));
    assert!(!b.on_input(&mouse(MouseButton::Left, ButtonState::Release)));
}

#[test]
fn right_button_does_not_click() {
    let mut b = button_at_100();
    b.on_input(&move_to(120, 120));
    assert!(!b.on_input(&mouse(MouseButton::Right, ButtonState::Press)));
    assert!(!b.on_input(&mouse(MouseButton::Right, ButtonState::Release)));
    assert_eq!(b.get_color(), HOVERED);
}

#[test]
fn key_event_ends_a_press_without_click() {
    let mut b = button_at_100();
    b.on_input(&move_to(120, 120));
    b.on_input(&mouse(MouseButton::Left, ButtonState::Press));
    let key = Input::Button(ButtonArgs { button: Button::Keyboard(Key::Other), state: ButtonState::Press });
    assert!(!b.on_input(&key));
    assert_eq!(b.get_color(), HOVERED);
    assert!(!b.on_input(&mouse(MouseButton::Left, ButtonState::Release)));
}

#[test]
fn other_device_event_ends_a_press_without_click() {
    let mut b = button_at_100();
    b.on_input(&move_to(120, 120));
    b.on_input(&mouse(MouseButton::Left, ButtonState::Press));
    let other = Input::Button(ButtonArgs { button: Button::Other, state: ButtonState::Release });
    assert!(!b.on_input(&other));
    assert_eq!(b.get_color(), HOVERED);
}

#[test]
fn key_event_after_leaving_clears_the_press() {
    let mut b = button_at_100();
    b.on_input(&move_to(120, 120));
    b.on_input(&mouse(MouseButton::Left, ButtonState::Press));
    b.on_input(&move_to(500, 500));
    let key = Input::Button(ButtonArgs { button: Button::Keyboard(Key::Other), state: ButtonState::Press });
    assert!(!b.on_input(&key));
    b.on_input(&move_to(120, 120));
    assert_eq!(b.get_color(), HOVERED);
    assert!(!b.on_input(&mouse(MouseButton::Left, ButtonState::Release)));
}

#[test]
fn other_events_change_nothing() {
    let mut b = button_at_100();
    b.on_input(&move_to(120, 120));
    assert!(!b.on_input(&Input::Other));
    assert!(!b.on_input(&Input::Move(Motion::Other)));
    assert_eq!(b.get_color(), HOVERED);
}

#[test]
fn color_follows_state() {
    let mut b = button_at_100();
    assert_eq!(b.get_color(), BASE);
    b.on_input(&move_to(150, 149));
    assert_eq!(b.get_color(), HOVERED);
    b.on_input(&mouse(MouseButton::Left, ButtonState::Press));
    assert_eq!(b.get_color(), PRESSED);
    b.on_input(&move_to(200, 100));
    assert_eq!(b.get_color(), BASE);
}

#[test]
fn custom_colors_are_used() {
    let red = Color::new(1000, 0, 0, 1000);
    let green = Color::new(0, 1000, 0, 1000);
    let blue = Color::new(0, 0, 1000, 1000);
    let mut b = button_at_100().base_color(red).hovered_color(green).pressed_color(blue);
    assert_eq!(b.get_color(), red);
    b.on_input(&move_to(120, 120));
    assert_eq!(b.get_color(), green);
    b.on_input(&mouse(MouseButton::Left, ButtonState::Press));
    assert_eq!(b.get_color(), blue);
}

#[test]
fn position_places_the_anchor() {
    let b = GuiButton::new("Quit").size(Size::new(200, 60)).origin(Point::new(500, 1000)).position(Point::new(400, 300));
    assert_eq!(b.bounds(), Rect::new(300, 240, 200, 60));
    assert_eq!(b.label().position(), Point::new(400, 270));
}

#[test]
fn negative_offsets_round_toward_zero() {
    let b = GuiButton::new("x").size(Size::new(-3, 3)).origin(Point::new(500, 500)).position(Point::new(0, 0));
    assert_eq!(b.bounds(), Rect::new(1, -1, -3, 3));
}

#[test]
fn resize_keeps_corner_and_recenters_label() {
    let mut b = GuiButton::new("Quit").origin(Point::new(500, 500)).size(Size::new(100, 100)).position(Point::new(50, 50));
    assert_eq!(b.bounds(), Rect::new(0, 0, 100, 100));
    b.set_size(Size::new(10, 10));
    assert_eq!(b.bounds(), Rect::new(0, 0, 10, 10));
    assert_eq!(b.label().position(), Point::new(5, 5));
    b.set_position(Point::new(50, 50));
    assert_eq!(b.bounds(), Rect::new(45, 45, 10, 10));
    assert_eq!(b.label().position(), Point::new(50, 50));
}

#[test]
fn set_label_replaces_text() {
    let mut b = GuiButton::new("Play");
    b.set_label("Resume");
    assert_eq!(b.label().text(), "Resume");
}

#[test]
fn draw_fills_bounds_then_label() {
    let mut b = button_at_100();
    assert_eq!(
        b.draw(),
        vec![GuiDrawCommand::Rectangle(BASE, Rect::new(100, 100, 100, 50)), GuiDrawCommand::Label]
    );
    b.on_input(&move_to(100, 100));
    assert_eq!(
        b.draw(),
        vec![GuiDrawCommand::Rectangle(HOVERED, Rect::new(100, 100, 100, 50)), GuiDrawCommand::Label]
    );
}

#[test]
fn size_builder_recenters_label() {
    let b = GuiButton::new("Play").size(Size::new(10, 10));
    assert_eq!(b.bounds(), Rect::new(0, 0, 10, 10));
    assert_eq!(b.label().position(), Point::new(5, 5));
}

#[test]
fn empty_button_is_never_hovered() {
    let mut b = GuiButton::new("Play");
    assert!(!b.on_input(&move_to(0, 0)));
    assert_eq!(b.get_color(), BASE);
}

#[test]
fn release_without_press_does_not_click() {
    let mut b = button_at_100();
    b.on_input(&move_to(120, 120));
    assert!(!b.on_input(&mouse(MouseButton::Left, ButtonState::Release)));
    assert_eq!(b.get_color(), HOVERED);
}
