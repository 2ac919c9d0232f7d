//! The scenes of the game, one by one and as one type.

pub mod dummy;
pub mod game;
pub mod menu;

pub use self::dummy::DummyScene;
pub use self::game::{Enemy, GameScene, GameView};
pub use self::menu::{HardModeMenuScene, MenuScene};

use vstd::prelude::*;
use crate::draw::{Quad, Surface, SurfaceView};
use crate::input::InputState;
use crate::transition::Transition;

verus! {

/// Any one of the scenes of the game.
#[derive(Debug)]
pub enum Scene {
    Dummy(DummyScene),
    Menu(MenuScene),
    HardModeMenu(HardModeMenuScene),
    Game(GameScene),
}

impl Scene {
    /// Whether a frame with the given input ends the scene, and what follows.
    pub open spec fn outcome(&self, window: InputState, elapsed: u64) -> Option<Transition> {
        match self {
            Scene::Dummy(_) => None,
            Scene::Menu(_) => MenuScene::decision(window),
            Scene::HardModeMenu(_) => HardModeMenuScene::decision(window),
            Scene::Game(game) => game@.outcome(window, elapsed),
        }
    }

    /// Whether this scene is `before` one frame later: a scene of the same
    /// kind, in the state that the frame leaves it in.
    pub open spec fn follows(&self, before: Scene, window: InputState, elapsed: u64) -> bool {
        match (before, self) {
            (Scene::Dummy(_), Scene::Dummy(_)) => true,
            (Scene::Menu(_), Scene::Menu(menu)) => menu.pointer() == (
                window.mouse_x as int,
                window.mouse_y as int,
            ),
            (Scene::HardModeMenu(_), Scene::HardModeMenu(prompt)) => prompt.pointer() == (
                window.mouse_x as int,
                window.mouse_y as int,
            ),
            (Scene::Game(old_game), Scene::Game(game)) => game@ == old_game@.next(window, elapsed),
            _ => false,
        }
    }

    /// Whether this scene is what `transition` asks for: a scene of that kind
    /// in its first state. For a game either assignment of skins will do.
    pub open spec fn answers(&self, transition: Transition) -> bool {
        match transition {
            Transition::Menu => self matches Scene::Menu(menu) && menu.pointer() == (0int, 0int),
            Transition::HardModeMenu => self matches Scene::HardModeMenu(prompt)
                && prompt.pointer() == (0int, 0int),
            Transition::Game { hard } => self matches Scene::Game(game) && (game@
                == GameView::fresh(hard, 1) || game@ == GameView::fresh(hard, 2)),
        }
    }

    /// How the draw surface of a scene of this kind is set up.
    pub open spec fn layout(&self) -> SurfaceView {
        match self {
            Scene::Dummy(_) => DummyScene::layout(),
            Scene::Menu(_) => MenuScene::layout(),
            Scene::HardModeMenu(_) => HardModeMenuScene::layout(),
            Scene::Game(_) => GameScene::layout(),
        }
    }

    /// The picture of the scene in its current state.
    pub open spec fn picture(&self) -> Seq<Quad> {
        match self {
            Scene::Dummy(_) => Seq::empty(),
            Scene::Menu(menu) => menu.picture(),
            Scene::HardModeMenu(prompt) => prompt.picture(),
            Scene::Game(game) => game@.picture(),
        }
    }

    /// How the draw surface of the scene is set up.
    pub fn surface(&self) -> (surface: &Surface)
        ensures
            surface@ == self.layout(),
    {
        match self {
            Scene::Dummy(dummy) => dummy.surface(),
            Scene::Menu(menu) => menu.surface(),
            Scene::HardModeMenu(prompt) => prompt.surface(),
            Scene::Game(game) => game.surface(),
        }
    }

    /// Builds the scene that `transition` asks for.
    pub fn enter(transition: Transition) -> (scene: Scene)
        ensures
            scene.answers(transition),
    {
        match transition {
            Transition::Menu => Scene::Menu(MenuScene::new()),
            Transition::HardModeMenu => Scene::HardModeMenu(HardModeMenuScene::new()),
            Transition::Game { hard } => Scene::Game(GameScene::new(hard)),
        }
    }

    /// Moves the scene one frame of `delta_time` microseconds forward and says
    /// whether it asks to be replaced, and by what.
    pub fn update(&mut self, window: &InputState, delta_time: u64) -> (transition: Option<Transition>)
        ensures
            final(self).follows(*old(self), *window, delta_time),
            transition == old(self).outcome(*window, delta_time),
    {
        match self {
            Scene::Dummy(dummy) => dummy.update(window, delta_time),
            Scene::Menu(menu) => menu.update(window, delta_time),
            Scene::HardModeMenu(prompt) => prompt.update(window, delta_time),
            Scene::Game(game) => game.update(window, delta_time),
        }
    }

    /// The rectangles of the current picture, in drawing order. The scene is
    /// left as it is.
    pub fn render(&self) -> (batch: Vec<Quad>)
        ensures
            batch@ == self.picture(),
    {
        match self {
            Scene::Dummy(dummy) => dummy.render(),
            Scene::Menu(menu) => menu.render(),
            Scene::HardModeMenu(prompt) => prompt.render(),
            Scene::Game(game) => game.render(),
        }
    }
}

/// Drawing is repeatable: two batches that `render` returns for one scene,
/// with no frame in between, hold the same rectangles in the same order.
pub proof fn lemma_render_is_repeatable(scene: Scene, first: Seq<Quad>, second: Seq<Quad>)
    requires
        first == scene.picture(),
        second == scene.picture(),
    ensures
        first == second,
{
}

/// A frame either replaces the scene or leaves a scene of the same kind: a
/// scene that follows another one is of its kind.
pub proof fn lemma_follower_is_of_same_kind(
    before: Scene,
    after: Scene,
    window: InputState,
    elapsed: u64,
)
    requires
        after.follows(before, window, elapsed),
    ensures
        before is Dummy <==> after is Dummy,
        before is Menu <==> after is Menu,
        before is HardModeMenu <==> after is HardModeMenu,
        before is Game <==> after is Game,
{
}

} // verus!
