//! The two menus. Both show a background and two buttons, dim the button
//! under the pointer, and leave when a button is clicked.

use vstd::prelude::*;
use crate::draw::{
    background, background_quad, button_tint, Quad, Surface, SurfaceView, Texture, FULL_TINT,
    HOVER_TINT,
};
use crate::hover::{in_rectangle, ButtonChecker};
use crate::input::InputState;
use crate::transition::Transition;
use crate::units::UNIT;

verus! {

/// Left edge of both buttons of the main menu.
pub const MENU_BUTTON_X: i64 = 80 * UNIT;

/// Top edge of the play button.
pub const PLAY_BUTTON_Y: i64 = 275 * UNIT;

/// Width of the play button.
pub const PLAY_BUTTON_WIDTH: i64 = 200 * UNIT;

/// Top edge of the hard-mode button.
pub const HARD_MODE_BUTTON_Y: i64 = 400 * UNIT;

/// Width of the hard-mode button.
pub const HARD_MODE_BUTTON_WIDTH: i64 = 400 * UNIT;

/// Left edge of both buttons of the hard-mode prompt, which puts them in the
/// middle of the window.
pub const PROMPT_BUTTON_X: i64 = 540 * UNIT;

/// Top edge of the yes button.
pub const YES_BUTTON_Y: i64 = 330 * UNIT;

/// Top edge of the no button.
pub const NO_BUTTON_Y: i64 = 450 * UNIT;

/// Width of the yes and the no button.
pub const PROMPT_BUTTON_WIDTH: i64 = 200 * UNIT;

/// Height of every button.
pub const BUTTON_HEIGHT: i64 = 100 * UNIT;

/// A button: an axis-aligned rectangle on the screen, in position units.
#[derive(Clone, Copy, Debug, PartialEq, Eq, Structural)]
pub struct Button {
    pub x: i64,
    pub y: i64,
    pub width: i64,
    pub height: i64,
}

impl Button {
    /// Whether the point lies on the button.
    pub open spec fn covers(self, pointer: (int, int)) -> bool {
        in_rectangle(
            pointer.0,
            pointer.1,
            self.x as int,
            self.y as int,
            self.width as int,
            self.height as int,
        )
    }

    /// The rectangle that shows the button: its own outline, filled from
    /// `texture` and dimmed if `hovered`.
    pub open spec fn face(self, hovered: bool, texture: u8) -> Quad {
        Quad {
            x: self.x,
            y: self.y,
            width: self.width,
            height: self.height,
            tint: button_tint(hovered),
            texture,
        }
    }
}

/// The play button of the main menu.
pub open spec fn spec_play_button() -> Button {
    Button { x: MENU_BUTTON_X, y: PLAY_BUTTON_Y, width: PLAY_BUTTON_WIDTH, height: BUTTON_HEIGHT }
}

/// The play button of the main menu.
#[verifier::when_used_as_spec(spec_play_button)]
pub fn play_button() -> (button: Button)
    ensures
        button == spec_play_button(),
{
    Button { x: MENU_BUTTON_X, y: PLAY_BUTTON_Y, width: PLAY_BUTTON_WIDTH, height: BUTTON_HEIGHT }
}

/// The hard-mode button of the main menu.
pub open spec fn spec_hard_mode_button() -> Button {
    Button {
        x: MENU_BUTTON_X,
        y: HARD_MODE_BUTTON_Y,
        width: HARD_MODE_BUTTON_WIDTH,
        height: BUTTON_HEIGHT,
    }
}

/// The hard-mode button of the main menu.
#[verifier::when_used_as_spec(spec_hard_mode_button)]
pub fn hard_mode_button() -> (button: Button)
    ensures
        button == spec_hard_mode_button(),
{
    Button {
        x: MENU_BUTTON_X,
        y: HARD_MODE_BUTTON_Y,
        width: HARD_MODE_BUTTON_WIDTH,
        height: BUTTON_HEIGHT,
    }
}

/// The yes button of the hard-mode prompt.
pub open spec fn spec_yes_button() -> Button {
    Button { x: PROMPT_BUTTON_X, y: YES_BUTTON_Y, width: PROMPT_BUTTON_WIDTH, height: BUTTON_HEIGHT }
}

/// The yes button of the hard-mode prompt.
#[verifier::when_used_as_spec(spec_yes_button)]
pub fn yes_button() -> (button: Button)
    ensures
        button == spec_yes_button(),
{
    Button { x: PROMPT_BUTTON_X, y: YES_BUTTON_Y, width: PROMPT_BUTTON_WIDTH, height: BUTTON_HEIGHT }
}

/// The no button of the hard-mode prompt.
pub open spec fn spec_no_button() -> Button {
    Button { x: PROMPT_BUTTON_X, y: NO_BUTTON_Y, width: PROMPT_BUTTON_WIDTH, height: BUTTON_HEIGHT }
}

/// The no button of the hard-mode prompt.
#[verifier::when_used_as_spec(spec_no_button)]
pub fn no_button() -> (button: Button)
    ensures
        button == spec_no_button(),
{
    Button { x: PROMPT_BUTTON_X, y: NO_BUTTON_Y, width: PROMPT_BUTTON_WIDTH, height: BUTTON_HEIGHT }
}

/// Which of a menu's two buttons was clicked.
#[derive(Clone, Copy, Debug, PartialEq, Eq, Structural)]
pub enum Pick {
    First,
    Second,
}

/// The button that a click selects. Nothing is selected unless the mouse
/// button is held; of two buttons under the pointer the first wins.
pub open spec fn picked(pointer: (int, int), pressed: bool, first: Button, second: Button) -> Option<Pick> {
    if !pressed {
        None
    } else if first.covers(pointer) {
        Some(Pick::First)
    } else if second.covers(pointer) {
        Some(Pick::Second)
    } else {
        None
    }
}

/// How many of the two buttons lie under the pointer.
pub open spec fn buttons_under(pointer: (int, int), first: Button, second: Button) -> nat {
    let on_first: nat = if first.covers(pointer) { 1 } else { 0 };
    let on_second: nat = if second.covers(pointer) { 1 } else { 0 };
    on_first + on_second
}

/// The picture of a menu: the background, then the first button from slot 1
/// and the second from slot 2, each dimmed while the pointer is over it.
pub open spec fn menu_picture(pointer: (int, int), first: Button, second: Button) -> Seq<Quad> {
    seq![
        background(),
        first.face(first.covers(pointer), 1),
        second.face(second.covers(pointer), 2),
    ]
}

/// Finds the button that a click selects.
fn pick_button(checker: &ButtonChecker, pressed: bool, first: Button, second: Button) -> (pick: Option<Pick>)
    ensures
        pick == picked(checker.pointer(), pressed, first, second),
{
    if pressed {
        if checker.is_button_hovered(first.x, first.y, first.width, first.height) {
            Some(Pick::First)
        } else if checker.is_button_hovered(second.x, second.y, second.width, second.height) {
            Some(Pick::Second)
        } else {
            None
        }
    } else {
        None
    }
}

/// Builds the rectangle that shows `button`.
fn draw_button(checker: &ButtonChecker, button: Button, texture: u8) -> (quad: Quad)
    ensures
        quad == button.face(button.covers(checker.pointer()), texture),
{
    let tint: u8 = if checker.is_button_hovered(button.x, button.y, button.width, button.height) {
        HOVER_TINT
    } else {
        FULL_TINT
    };
    Quad { x: button.x, y: button.y, width: button.width, height: button.height, tint, texture }
}

/// Builds the picture of a menu.
fn draw_menu(checker: &ButtonChecker, first: Button, second: Button) -> (batch: Vec<Quad>)
    ensures
        batch@ == menu_picture(checker.pointer(), first, second),
{
    let mut batch: Vec<Quad> = Vec::new();
    batch.push(background_quad());
    batch.push(draw_button(checker, first, 1));
    batch.push(draw_button(checker, second, 2));
    batch
}

/// The main menu: "play" starts a normal game, "hard mode" opens the
/// hard-mode prompt.
#[derive(Debug)]
pub struct MenuScene {
    renderer: Surface,
    button_handler: ButtonChecker,
}

impl MenuScene {
    /// The draw surface of the main menu: three slots, holding the background
    /// and the two buttons.
    pub open spec fn layout() -> SurfaceView {
        SurfaceView {
            slots: 3,
            textures: seq![Texture::MainMenuBackground, Texture::PlayButton, Texture::OtherButton],
        }
    }

    /// How the scene's own draw surface is set up.
    pub closed spec fn loaded(&self) -> SurfaceView {
        self.renderer@
    }

    #[verifier::type_invariant]
    spec fn inv(&self) -> bool {
        self.loaded() == Self::layout()
    }

    /// The pointer position that the scene saw last.
    pub closed spec fn pointer(&self) -> (int, int) {
        self.button_handler.pointer()
    }

    /// What a frame with the given input leads to.
    pub open spec fn decision(window: InputState) -> Option<Transition> {
        match picked(
            (window.mouse_x as int, window.mouse_y as int),
            window.left_button,
            play_button(),
            hard_mode_button(),
        ) {
            Some(Pick::First) => Some(Transition::Game { hard: false }),
            Some(Pick::Second) => Some(Transition::HardModeMenu),
            None => None,
        }
    }

    /// The picture of the scene in its current state.
    pub open spec fn picture(&self) -> Seq<Quad> {
        menu_picture(self.pointer(), play_button(), hard_mode_button())
    }

    /// A menu that has not seen the pointer yet: it takes it to rest in the
    /// top left corner.
    pub fn new() -> (scene: MenuScene)
        ensures
            scene.loaded() == Self::layout(),
            scene.pointer() == (0int, 0int),
    {
        let mut renderer = Surface::new(3);
        renderer.load_texture(Texture::MainMenuBackground);
        renderer.load_texture(Texture::PlayButton);
        renderer.load_texture(Texture::OtherButton);
        assert(renderer@.textures =~= Self::layout().textures);
        MenuScene { renderer, button_handler: ButtonChecker::new() }
    }

    /// How the draw surface of the scene is set up.
    pub fn surface(&self) -> (surface: &Surface)
        ensures
            surface@ == self.loaded(),
            surface@ == Self::layout(),
    {
        proof {
            use_type_invariant(self);
        }
        &self.renderer
    }

    /// Moves the scene one frame forward. The scene takes note of the pointer
    /// and asks to be replaced exactly if the left mouse button is held while
    /// the pointer is on one of the buttons. The time that has passed plays no
    /// part.
    pub fn update(&mut self, window: &InputState, delta_time: u64) -> (transition: Option<Transition>)
        ensures
            final(self).pointer() == (window.mouse_x as int, window.mouse_y as int),
            final(self).loaded() == old(self).loaded(),
            transition == Self::decision(*window),
            transition.is_some() <==> window.left_button && buttons_under(
                (window.mouse_x as int, window.mouse_y as int),
                play_button(),
                hard_mode_button(),
            ) == 1,
    {
        proof {
            use_type_invariant(&*self);
        }
        let (mouse_x, mouse_y) = window.get_mouse_position();
        let mut button_handler = self.button_handler;
        button_handler.update_mouse_position(mouse_x, mouse_y);
        self.button_handler = button_handler;
        let pressed = window.is_left_button_down();
        match pick_button(&self.button_handler, pressed, play_button(), hard_mode_button()) {
            Some(Pick::First) => Some(Transition::Game { hard: false }),
            Some(Pick::Second) => Some(Transition::HardModeMenu),
            None => None,
        }
    }

    /// The rectangles of the current picture, in drawing order. The scene is
    /// left as it is.
    pub fn render(&self) -> (batch: Vec<Quad>)
        ensures
            batch@ == self.picture(),
    {
        draw_menu(&self.button_handler, play_button(), hard_mode_button())
    }
}

/// The hard-mode prompt: "yes" starts a hard game, "no" goes back to the main
/// menu.
#[derive(Debug)]
pub struct HardModeMenuScene {
    renderer: Surface,
    button_handler: ButtonChecker,
}

impl HardModeMenuScene {
    /// The draw surface of the prompt: three slots, holding the background and
    /// the two buttons.
    pub open spec fn layout() -> SurfaceView {
        SurfaceView {
            slots: 3,
            textures: seq![
                Texture::HardModeMenuBackground,
                Texture::YesButton,
                Texture::NoButton,
            ],
        }
    }

    /// How the scene's own draw surface is set up.
    pub closed spec fn loaded(&self) -> SurfaceView {
        self.renderer@
    }

    #[verifier::type_invariant]
    spec fn inv(&self) -> bool {
        self.loaded() == Self::layout()
    }

    /// The pointer position that the scene saw last.
    pub closed spec fn pointer(&self) -> (int, int) {
        self.button_handler.pointer()
    }

    /// What a frame with the given input leads to.
    pub open spec fn decision(window: InputState) -> Option<Transition> {
        match picked(
            (window.mouse_x as int, window.mouse_y as int),
            window.left_button,
            yes_button(),
            no_button(),
        ) {
            Some(Pick::First) => Some(Transition::Game { hard: true }),
            Some(Pick::Second) => Some(Transition::Menu),
            None => None,
        }
    }

    /// The picture of the scene in its current state.
    pub open spec fn picture(&self) -> Seq<Quad> {
        menu_picture(self.pointer(), yes_button(), no_button())
    }

    /// A prompt that has not seen the pointer yet: it takes it to rest in the
    /// top left corner.
    pub fn new() -> (scene: HardModeMenuScene)
        ensures
            scene.loaded() == Self::layout(),
            scene.pointer() == (0int, 0int),
    {
        let mut renderer = Surface::new(3);
        renderer.load_texture(Texture::HardModeMenuBackground);
        renderer.load_texture(Texture::YesButton);
        renderer.load_texture(Texture::NoButton);
        assert(renderer@.textures =~= Self::layout().textures);
        HardModeMenuScene { renderer, button_handler: ButtonChecker::new() }
    }

    /// How the draw surface of the scene is set up.
    pub fn surface(&self) -> (surface: &Surface)
        ensures
            surface@ == self.loaded(),
            surface@ == Self::layout(),
    {
        proof {
            use_type_invariant(self);
        }
        &self.renderer
    }

    /// Moves the scene one frame forward. The scene takes note of the pointer
    /// and asks to be replaced exactly if the left mouse button is held while
    /// the pointer is on one of the buttons. The time that has passed plays no
    /// part.
    pub fn update(&mut self, window: &InputState, delta_time: u64) -> (transition: Option<Transition>)
        ensures
            final(self).pointer() == (window.mouse_x as int, window.mouse_y as int),
            final(self).loaded() == old(self).loaded(),
            transition == Self::decision(*window),
            transition.is_some() <==> window.left_button && buttons_under(
                (window.mouse_x as int, window.mouse_y as int),
                yes_button(),
                no_button(),
            ) == 1,
    {
        proof {
            use_type_invariant(&*self);
        }
        let (mouse_x, mouse_y) = window.get_mouse_position();
        let mut button_handler = self.button_handler;
        button_handler.update_mouse_position(mouse_x, mouse_y);
        self.button_handler = button_handler;
        let pressed = window.is_left_button_down();
        match pick_button(&self.button_handler, pressed, yes_button(), no_button()) {
            Some(Pick::First) => Some(Transition::Game { hard: true }),
            Some(Pick::Second) => Some(Transition::Menu),
            None => None,
        }
    }

    /// The rectangles of the current picture, in drawing order. The scene is
    /// left as it is.
    pub fn render(&self) -> (batch: Vec<Quad>)
        ensures
            batch@ == self.picture(),
    {
        draw_menu(&self.button_handler, yes_button(), no_button())
    }
}

/// A click that selects a button is a click on exactly one button: where the
/// two buttons of a menu do not both lie under the pointer, something is
/// selected if and only if the mouse button is held and exactly one button
/// lies under the pointer.
pub proof fn lemma_pick_needs_one_button(
    pointer: (int, int),
    pressed: bool,
    first: Button,
    second: Button,
)
    requires
        !(first.covers(pointer) && second.covers(pointer)),
    ensures
        picked(pointer, pressed, first, second).is_some() <==> pressed && buttons_under(
            pointer,
            first,
            second,
        ) == 1,
{
}

/// No point lies on both buttons of the main menu, nor on both buttons of the
/// hard-mode prompt.
pub proof fn lemma_buttons_do_not_overlap(pointer: (int, int))
    ensures
        !(play_button().covers(pointer) && hard_mode_button().covers(pointer)),
        !(yes_button().covers(pointer) && no_button().covers(pointer)),
{
}

/// The main menu leaves only on a click on one button: whatever keys are held
/// and wherever the pointer is, a frame leads away from the menu if and only
/// if the left mouse button is held and the pointer is on exactly one button.
pub proof fn lemma_menu_leaves_on_click_only(window: InputState)
    ensures
        MenuScene::decision(window).is_some() <==> window.left_button && buttons_under(
            (window.mouse_x as int, window.mouse_y as int),
            play_button(),
            hard_mode_button(),
        ) == 1,
{
}

/// The hard-mode prompt leaves only on a click on one button: whatever keys
/// are held and wherever the pointer is, a frame leads away from the prompt
/// if and only if the left mouse button is held and the pointer is on exactly
/// one button.
pub proof fn lemma_prompt_leaves_on_click_only(window: InputState)
    ensures
        HardModeMenuScene::decision(window).is_some() <==> window.left_button && buttons_under(
            (window.mouse_x as int, window.mouse_y as int),
            yes_button(),
            no_button(),
        ) == 1,
{
}

} // verus!
