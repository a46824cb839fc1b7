use vstd::prelude::*;
use crate::color::Color;
use crate::input::{Button, ButtonState, Input, Key};
use crate::shapes::{half, Point, Rect, Size};

verus! {

/// Whether the game runs or waits in its pause menu.
#[derive(Clone, Copy, Debug, PartialEq, Eq, Structural)]
pub enum GameState {
    InGame,
    Paused,
}

/// One step of drawing a frame, in the order the window must perform them.
#[derive(Clone, Copy, Debug, PartialEq, Eq, Structural)]
pub enum DrawCommand {
    /// Fill the whole frame with a color.
    Clear(Color),
    /// Draw the ground rectangle.
    Ground(Rect),
    /// Draw the local player and what it carries.
    Player,
}

/// Where the view of the world is placed.
#[derive(Clone, Copy, Debug, PartialEq, Eq, Structural)]
pub struct Camera {
    pub position: Point,
}

/// The camera position that follows the player, led by the pointer: the
/// pointer is offset by half the window width, and both are inverted.
pub open spec fn camera_x(cursor: Point, player: Point, width: int) -> int {
    -player.x - (cursor.x - half(width))
}

pub open spec fn camera_y(cursor: Point, player: Point, width: int) -> int {
    -player.y - (cursor.y - half(width))
}

pub open spec fn camera_fits(cursor: Point, player: Point, width: int) -> bool {
    &&& i64::MIN <= camera_x(cursor, player, width) <= i64::MAX
    &&& i64::MIN <= camera_y(cursor, player, width) <= i64::MAX
}

/// The game state after an input event, and whether it toggles the debug overlay.
pub open spec fn scene_input(e: Input) -> (GameState, bool) {
    match e {
        Input::Button(args) => {
            if args.button == Button::Keyboard(Key::Escape) {
                (GameState::Paused, false)
            } else if args.button == Button::Keyboard(Key::F2) {
                (GameState::InGame, args.state == ButtonState::Press)
            } else {
                (GameState::InGame, false)
            }
        },
        _ => (GameState::InGame, false),
    }
}

/// The scene of a running game: background, ground, and the state that decides
/// what the local player and the camera do each frame.
pub struct SceneManager {
    bg_color: Color,
    show_debug: bool,
    window_size: Size,
    ground: Rect,
}

impl SceneManager {
    pub closed spec fn bg_color_spec(&self) -> Color {
        self.bg_color
    }

    pub closed spec fn show_debug_spec(&self) -> bool {
        self.show_debug
    }

    pub closed spec fn window_size_spec(&self) -> Size {
        self.window_size
    }

    pub closed spec fn ground_spec(&self) -> Rect {
        self.ground
    }

    pub fn new() -> (s: SceneManager)
        ensures
            s.bg_color_spec() == (Color { r: 400, g: 140, b: 160, a: 1000 }),
            !s.show_debug_spec(),
            s.window_size_spec() == (Size { w: 0, h: 0 }),
            s.ground_spec() == (Rect { pos: Point { x: 0, y: 0 }, size: Size { w: 800, h: 400 } }),
    {
        SceneManager {
            bg_color: Color { r: 400, g: 140, b: 160, a: 1000 },
            show_debug: false,
            window_size: Size { w: 0, h: 0 },
            ground: Rect { pos: Point { x: 0, y: 0 }, size: Size { w: 800, h: 400 } },
        }
    }

    /// The window size is taken from each drawn frame, so a resize changes nothing.
    pub fn resize(&mut self, _size: Size)
        ensures
            *final(self) == *old(self),
    {
    }

    /// Escape pauses the game; pressing F2 toggles the debug overlay.
    pub fn on_input(&mut self, input: &Input) -> (r: GameState)
        ensures
            r == scene_input(*input).0,
            final(self).show_debug_spec() == (old(self).show_debug_spec() != scene_input(
                *input,
            ).1),
            final(self).bg_color_spec() == old(self).bg_color_spec(),
            final(self).window_size_spec() == old(self).window_size_spec(),
            final(self).ground_spec() == old(self).ground_spec(),
    {
        match input {
            Input::Button(args) => {
                if args.button == Button::Keyboard(Key::Escape) {
                    return GameState::Paused;
                }
                if args.button == Button::Keyboard(Key::F2) {
                    if args.state == ButtonState::Press {
                        self.show_debug = !self.show_debug;
                    }
                }
            },
            _ => {},
        }
        GameState::InGame
    }

    pub fn show_debug(&self) -> (r: bool)
        ensures
            r == self.show_debug_spec(),
    {
        self.show_debug
    }

    /// Whether `update_camera(cursor, player_pos, ..)` stays within machine integers.
    pub fn can_follow(&self, cursor: Point, player_pos: Point) -> (r: bool)
        ensures
            r == camera_fits(cursor, player_pos, self.window_size_spec().w as int),
    {
        let offset = self.window_size.w as i128 / 2;
        let x = -(player_pos.x as i128) - (cursor.x as i128 - offset);
        let y = -(player_pos.y as i128) - (cursor.y as i128 - offset);
        let lo = i64::MIN as i128;
        let hi = i64::MAX as i128;
        lo <= x && x <= hi && lo <= y && y <= hi
    }

    /// Moves the camera to follow the player at `player_pos`, led by the pointer at `cursor`.
    pub fn update_camera(&mut self, cursor: Point, player_pos: Point, camera: &mut Camera)
        requires
            camera_fits(cursor, player_pos, old(self).window_size_spec().w as int),
        ensures
            *final(self) == *old(self),
            final(camera).position.x == camera_x(
                cursor,
                player_pos,
                old(self).window_size_spec().w as int,
            ),
            final(camera).position.y == camera_y(
                cursor,
                player_pos,
                old(self).window_size_spec().w as int,
            ),
    {
        let offset = self.window_size.w as i128 / 2;
        let x = -(player_pos.x as i128) - (cursor.x as i128 - offset);
        let y = -(player_pos.y as i128) - (cursor.y as i128 - offset);
        camera.position = Point { x: x as i64, y: y as i64 };
    }

    /// The per-frame update of the scene: the camera follows the player.
    pub fn update(&mut self, cursor: Point, player_pos: Point, camera: &mut Camera)
        requires
            camera_fits(cursor, player_pos, old(self).window_size_spec().w as int),
        ensures
            *final(self) == *old(self),
            final(camera).position.x == camera_x(
                cursor,
                player_pos,
                old(self).window_size_spec().w as int,
            ),
            final(camera).position.y == camera_y(
                cursor,
                player_pos,
                old(self).window_size_spec().w as int,
            ),
    {
        self.update_camera(cursor, player_pos, camera);
    }

    /// The steps that draw one frame: clear to the background, the ground, then
    /// the player. Remembers the size of the window drawn into.
    pub fn draw(&mut self, window_size: Size) -> (cmds: Vec<DrawCommand>)
        ensures
            cmds@ == seq![
                DrawCommand::Clear(old(self).bg_color_spec()),
                DrawCommand::Ground(old(self).ground_spec()),
                DrawCommand::Player,
            ],
            final(self).window_size_spec() == window_size,
            final(self).bg_color_spec() == old(self).bg_color_spec(),
            final(self).show_debug_spec() == old(self).show_debug_spec(),
            final(self).ground_spec() == old(self).ground_spec(),
    {
        let cmds = vec![
            DrawCommand::Clear(self.bg_color),
            DrawCommand::Ground(self.ground),
            DrawCommand::Player,
        ];
        self.window_size = window_size;
        cmds
    }
}

} // verus!
