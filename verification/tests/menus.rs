use wars::draw::{Quad, Surface, Texture};
use wars::input::InputState;
use wars::scenes::menu::{hard_mode_button, no_button, play_button, yes_button, Button};
use wars::scenes::{HardModeMenuScene, MenuScene};
use wars::transition::Transition;
use wars::units::UNIT;

fn pointer(x: i64, y: i64, pressed: bool) -> InputState {
    InputState { mouse_x: x * UNIT, mouse_y: y * UNIT, left_button: pressed, ..InputState::idle() }
}

fn background() -> Quad {
    Quad { x: 0, y: 0, width: 1280 * UNIT, height: 720 * UNIT, tint: 100, texture: 0 }
}

#[test]
fn buttons_are_where_the_menus_show_them() {
    assert_eq!(
        play_button(),
        Button { x: 80 * UNIT, y: 275 * UNIT, width: 200 * UNIT, height: 100 * UNIT }
    );
    assert_eq!(
        hard_mode_button(),
        Button { x: 80 * UNIT, y: 400 * UNIT, width: 400 * UNIT, height: 100 * UNIT }
    );
    assert_eq!(
        yes_button(),
        Button { x: 540 * UNIT, y: 330 * UNIT, width: 200 * UNIT, height: 100 * UNIT }
    );
    assert_eq!(
        no_button(),
        Button { x: 540 * UNIT, y: 450 * UNIT, width: 200 * UNIT, height: 100 * UNIT }
    );
}

#[test]
fn menu_ignores_a_click_on_the_background() {
    let mut menu = MenuScene::new();
    assert_eq!(menu.update(&pointer(10, 10, true), 16_667), None);
    assert_eq!(menu.update(&pointer(300, 300, true), 16_667), None);
    assert_eq!(menu.update(&pointer(100, 390, true), 16_667), None);
}

#[test]
fn menu_play_starts_a_normal_game() {
    let mut menu = MenuScene::new();
    assert_eq!(
        menu.update(&pointer(100, 300, true), 16_667),
        Some(Transition::Game { hard: false })
    );
}

#[test]
fn menu_hard_mode_opens_the_prompt() {
    let mut menu = MenuScene::new();
    assert_eq!(menu.update(&pointer(450, 450, true), 16_667), Some(Transition::HardModeMenu));
}

#[test]
fn menu_needs_the_mouse_button() {
    let mut menu = MenuScene::new();
    assert_eq!(menu.update(&pointer(100, 300, false), 16_667), None);
    assert_eq!(menu.update(&pointer(450, 450, false), 16_667), None);
}

#[test]
fn menu_does_not_react_to_keys_or_time() {
    let mut menu = MenuScene::new();
    let keys = InputState {
        left: true,
        right: true,
        up: true,
        a: true,
        d: true,
        w: true,
        escape: true,
        ..pointer(100, 300, false)
    };
    for delta_time in [0, 1, 16_667, u64::MAX] {
        assert_eq!(menu.update(&keys, delta_time), None);
    }
    let click = InputState { left_button: true, ..keys };
    for delta_time in [0, 1, 16_667, u64::MAX] {
        assert_eq!(menu.update(&click, delta_time), Some(Transition::Game { hard: false }));
    }
}

#[test]
fn menu_buttons_react_on_their_edges() {
    let mut menu = MenuScene::new();
    let on_corner = InputState {
        mouse_x: 280 * UNIT,
        mouse_y: 375 * UNIT,
        left_button: true,
        ..InputState::idle()
    };
    assert_eq!(menu.update(&on_corner, 0), Some(Transition::Game { hard: false }));
    let past_corner = InputState { mouse_x: 280 * UNIT + 1, ..on_corner };
    assert_eq!(menu.update(&past_corner, 0), None);
    let below_corner = InputState { mouse_y: 375 * UNIT + 1, ..on_corner };
    assert_eq!(menu.update(&below_corner, 0), None);
}

#[test]
fn prompt_yes_starts_a_hard_game() {
    let mut prompt = HardModeMenuScene::new();
    assert_eq!(
        prompt.update(&pointer(640, 380, true), 16_667),
        Some(Transition::Game { hard: true })
    );
}

#[test]
fn prompt_no_goes_back_to_the_menu() {
    let mut prompt = HardModeMenuScene::new();
    assert_eq!(prompt.update(&pointer(640, 500, true), 16_667), Some(Transition::Menu));
}

#[test]
fn prompt_ignores_everything_else() {
    let mut prompt = HardModeMenuScene::new();
    assert_eq!(prompt.update(&pointer(640, 380, false), 16_667), None);
    assert_eq!(prompt.update(&pointer(640, 500, false), 16_667), None);
    assert_eq!(prompt.update(&pointer(640, 440, true), 16_667), None);
    assert_eq!(prompt.update(&pointer(100, 300, true), 16_667), None);
    let escape = InputState { escape: true, ..pointer(0, 0, false) };
    assert_eq!(prompt.update(&escape, 16_667), None);
}

#[test]
fn a_new_menu_shows_both_buttons_bright() {
    let menu = MenuScene::new();
    assert_eq!(
        menu.render(),
        vec![
            background(),
            Quad {
                x: 80 * UNIT,
                y: 275 * UNIT,
                width: 200 * UNIT,
                height: 100 * UNIT,
                tint: 100,
                texture: 1
            },
            Quad {
                x: 80 * UNIT,
                y: 400 * UNIT,
                width: 400 * UNIT,
                height: 100 * UNIT,
                tint: 100,
                texture: 2
            },
        ]
    );
}

#[test]
fn menu_dims_the_button_under_the_pointer() {
    let mut menu = MenuScene::new();
    menu.update(&pointer(100, 300, false), 16_667);
    let batch = menu.render();
    assert_eq!(batch.len(), 3);
    assert_eq!(batch[0], background());
    assert_eq!(batch[1].tint, 70);
    assert_eq!(batch[2].tint, 100);
    menu.update(&pointer(450, 450, false), 16_667);
    let batch = menu.render();
    assert_eq!(batch[1].tint, 100);
    assert_eq!(batch[2].tint, 70);
    menu.update(&pointer(700, 700, true), 16_667);
    let batch = menu.render();
    assert_eq!(batch[1].tint, 100);
    assert_eq!(batch[2].tint, 100);
}

#[test]
fn prompt_shows_its_buttons_in_the_middle() {
    let mut prompt = HardModeMenuScene::new();
    prompt.update(&pointer(640, 500, false), 16_667);
    assert_eq!(
        prompt.render(),
        vec![
            background(),
            Quad {
                x: 540 * UNIT,
                y: 330 * UNIT,
                width: 200 * UNIT,
                height: 100 * UNIT,
                tint: 100,
                texture: 1
            },
            Quad {
                x: 540 * UNIT,
                y: 450 * UNIT,
                width: 200 * UNIT,
                height: 100 * UNIT,
                tint: 70,
                texture: 2
            },
        ]
    );
}

#[test]
fn menus_draw_the_same_picture_twice() {
    let mut menu = MenuScene::new();
    menu.update(&pointer(100, 300, true), 16_667);
    assert_eq!(menu.render(), menu.render());
    let mut prompt = HardModeMenuScene::new();
    prompt.update(&pointer(640, 380, true), 16_667);
    assert_eq!(prompt.render(), prompt.render());
}

#[test]
fn menus_load_a_background_and_two_buttons() {
    assert_eq!(
        *MenuScene::new().surface(),
        Surface {
            slots: 3,
            textures: vec![Texture::MainMenuBackground, Texture::PlayButton, Texture::OtherButton]
        }
    );
    assert_eq!(
        *HardModeMenuScene::new().surface(),
        Surface {
            slots: 3,
            textures: vec![Texture::HardModeMenuBackground, Texture::YesButton, Texture::NoButton]
        }
    );
}
