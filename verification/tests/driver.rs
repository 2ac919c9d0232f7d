use wars::draw::{Quad, Surface, Texture};
use wars::driver::{Frame, SceneDriver};
use wars::input::InputState;
use wars::scenes::{DummyScene, GameScene, HardModeMenuScene, MenuScene, Scene};
use wars::transition::Transition;
use wars::units::UNIT;

fn click(x: i64, y: i64) -> InputState {
    InputState { mouse_x: x * UNIT, mouse_y: y * UNIT, left_button: true, ..InputState::idle() }
}

#[test]
fn the_placeholder_never_leaves_and_draws_nothing() {
    let mut dummy = DummyScene::new();
    let everything = InputState {
        mouse_x: 100 * UNIT,
        mouse_y: 300 * UNIT,
        left_button: true,
        left: true,
        right: true,
        up: true,
        a: true,
        d: true,
        w: true,
        escape: true,
    };
    for delta_time in [0, 16_667, u64::MAX] {
        assert_eq!(dummy.update(&everything, delta_time), None);
        assert_eq!(dummy.update(&InputState::idle(), delta_time), None);
    }
    assert_eq!(dummy.render(), Vec::<Quad>::new());
    assert_eq!(
        *dummy.surface(),
        Surface { slots: 2, textures: vec![Texture::CanPooper, Texture::RaiRaiRakuRaku] }
    );
}

#[test]
fn entering_builds_the_scene_that_was_asked_for() {
    assert!(matches!(Scene::enter(Transition::Menu), Scene::Menu(_)));
    assert!(matches!(Scene::enter(Transition::HardModeMenu), Scene::HardModeMenu(_)));
    match Scene::enter(Transition::Game { hard: true }) {
        Scene::Game(game) => {
            assert!(game.is_hard_mode());
            assert_eq!(game.player_position(), 200 * UNIT);
            assert_eq!(game.enemies().len(), 3);
        }
        other => panic!("not a game: {:?}", other),
    }
    match Scene::enter(Transition::Game { hard: false }) {
        Scene::Game(game) => assert!(!game.is_hard_mode()),
        other => panic!("not a game: {:?}", other),
    }
}

#[test]
fn a_scene_of_any_kind_updates_and_renders_as_that_kind() {
    let mut scene = Scene::Menu(MenuScene::new());
    assert_eq!(scene.update(&click(100, 300), 16_667), Some(Transition::Game { hard: false }));
    assert_eq!(scene.render().len(), 3);
    assert_eq!(scene.render()[1].tint, 70);
    let mut scene = Scene::HardModeMenu(HardModeMenuScene::new());
    assert_eq!(scene.update(&click(640, 500), 16_667), Some(Transition::Menu));
    assert_eq!(scene.render()[2].tint, 70);
    let mut scene = Scene::Game(GameScene::with_roll(1, true));
    assert_eq!(scene.update(&InputState::idle(), 1_000_000), None);
    assert_eq!(scene.render()[4].x, 550 * UNIT);
    let mut scene = Scene::Dummy(DummyScene::new());
    assert_eq!(scene.update(&click(100, 300), 16_667), None);
    assert_eq!(scene.render().len(), 0);
}

#[test]
fn every_kind_of_scene_sets_up_its_own_surface() {
    assert_eq!(Scene::Dummy(DummyScene::new()).surface().slots, 2);
    assert_eq!(Scene::Menu(MenuScene::new()).surface().slots, 3);
    assert_eq!(Scene::HardModeMenu(HardModeMenuScene::new()).surface().slots, 3);
    assert_eq!(Scene::Game(GameScene::with_roll(1, false)).surface().slots, 5);
    assert_eq!(
        Scene::Game(GameScene::with_roll(1, false)).surface().textures,
        vec![Texture::GameBackground, Texture::CanPooper, Texture::RaiRaiRakuRaku]
    );
    assert_eq!(Scene::Menu(MenuScene::new()).surface().textures[0], Texture::MainMenuBackground);
    assert_eq!(
        Scene::HardModeMenu(HardModeMenuScene::new()).surface().textures[0],
        Texture::HardModeMenuBackground
    );
}

#[test]
fn the_driver_draws_a_scene_that_stays() {
    let mut driver = SceneDriver::new(Scene::Menu(MenuScene::new()));
    let hover = InputState { left_button: false, ..click(100, 300) };
    match driver.frame(&hover, 16_667) {
        Frame::Picture(batch) => {
            assert_eq!(batch.len(), 3);
            assert_eq!(batch[1].tint, 70);
            assert_eq!(batch[2].tint, 100);
            assert_eq!(batch, driver.scene().render());
        }
        other => panic!("the menu left: {:?}", other),
    }
    assert!(matches!(driver.scene(), Scene::Menu(_)));
}

#[test]
fn the_driver_replaces_a_scene_that_leaves_and_draws_nothing() {
    let mut driver = SceneDriver::new(Scene::Menu(MenuScene::new()));
    assert_eq!(
        driver.frame(&click(100, 300), 16_667),
        Frame::Switched(Transition::Game { hard: false })
    );
    match driver.scene() {
        Scene::Game(game) => {
            assert!(!game.is_hard_mode());
            assert_eq!(game.player_position(), 200 * UNIT);
            assert_eq!(game.player_y_position(), 370 * UNIT);
            assert_eq!(game.gravity(), 0);
            assert_eq!(game.enemies().len(), 3);
        }
        other => panic!("not a game: {:?}", other),
    }
}

#[test]
fn the_driver_walks_through_the_menus_into_a_hard_game_and_back() {
    let mut driver = SceneDriver::new(Scene::Menu(MenuScene::new()));
    assert_eq!(driver.frame(&click(450, 450), 16_667), Frame::Switched(Transition::HardModeMenu));
    assert!(matches!(driver.scene(), Scene::HardModeMenu(_)));
    assert_eq!(driver.frame(&click(640, 500), 16_667), Frame::Switched(Transition::Menu));
    assert!(matches!(driver.scene(), Scene::Menu(_)));
    assert_eq!(driver.frame(&click(450, 450), 16_667), Frame::Switched(Transition::HardModeMenu));
    assert_eq!(
        driver.frame(&click(640, 380), 16_667),
        Frame::Switched(Transition::Game { hard: true })
    );
    match driver.scene() {
        Scene::Game(game) => assert!(game.is_hard_mode()),
        other => panic!("not a game: {:?}", other),
    }
    let escape = InputState { escape: true, ..InputState::idle() };
    assert_eq!(driver.frame(&escape, 16_667), Frame::Switched(Transition::Menu));
    assert!(matches!(driver.scene(), Scene::Menu(_)));
}

#[test]
fn a_menu_entered_anew_has_forgotten_the_pointer() {
    let mut driver = SceneDriver::new(Scene::HardModeMenu(HardModeMenuScene::new()));
    assert_eq!(driver.frame(&click(640, 500), 16_667), Frame::Switched(Transition::Menu));
    let batch = driver.scene().render();
    assert_eq!(batch[1].tint, 100);
    assert_eq!(batch[2].tint, 100);
}

#[test]
fn the_driver_runs_a_game_until_it_is_lost() {
    let mut game = GameScene::with_roll(1, true);
    game.place_player(400 * UNIT, 370 * UNIT);
    let mut driver = SceneDriver::new(Scene::Game(game));
    let mut frames = 0;
    loop {
        match driver.frame(&InputState::idle(), 100_000) {
            Frame::Picture(batch) => {
                frames += 1;
                assert_eq!(batch.len(), 5);
                assert_eq!(batch[4].x, 600 * UNIT - frames * 5 * UNIT);
            }
            Frame::Switched(transition) => {
                assert_eq!(transition, Transition::Menu);
                break;
            }
        }
        assert!(frames < 100);
    }
    assert_eq!(frames, 10);
    assert!(matches!(driver.scene(), Scene::Menu(_)));
}

#[test]
fn the_driver_keeps_the_placeholder_for_good() {
    let mut driver = SceneDriver::new(Scene::Dummy(DummyScene::new()));
    for _ in 0..5 {
        assert_eq!(driver.frame(&click(100, 300), 16_667), Frame::Picture(Vec::new()));
        assert!(matches!(driver.scene(), Scene::Dummy(_)));
    }
}
