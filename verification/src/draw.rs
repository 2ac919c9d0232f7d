//! What a scene hands to the draw surface: the textures it wants loaded and,
//! each frame, the rectangles of its picture.

use vstd::prelude::*;
use crate::units::UNIT;

verus! {

/// Tint of a rectangle that is drawn as it is, in percent.
pub const FULL_TINT: u8 = 100;

/// Tint of a button while the pointer is over it, in percent.
pub const HOVER_TINT: u8 = 70;

/// Width of the window in position units.
pub const SCREEN_WIDTH: i64 = 1280 * UNIT;

/// Height of the window in position units.
pub const SCREEN_HEIGHT: i64 = 720 * UNIT;

/// The vertex shader that every scene's draw surface is built with.
pub const VERTEX_SHADER: &'static str = "assets/shaders/2d_renderer_basic.vs";

/// The fragment shader that every scene's draw surface is built with.
pub const FRAGMENT_SHADER: &'static str = "assets/shaders/2d_renderer_basic.fs";

/// One rectangle of a picture. A batch of them, in order, is one frame.
#[derive(Clone, Copy, Debug, PartialEq, Eq, Structural)]
pub struct Quad {
    /// Left edge, in position units.
    pub x: i64,
    /// Top edge, in position units.
    pub y: i64,
    /// Width, in position units.
    pub width: i64,
    /// Height, in position units.
    pub height: i64,
    /// Uniform scale of all four colour channels, in percent.
    pub tint: u8,
    /// Texture slot the rectangle is filled from; it doubles as its depth.
    pub texture: u8,
}

/// The rectangle that covers the whole window with the texture in slot 0.
pub open spec fn background() -> Quad {
    Quad { x: 0, y: 0, width: SCREEN_WIDTH, height: SCREEN_HEIGHT, tint: FULL_TINT, texture: 0 }
}

/// The tint of a button: dimmed while the pointer is over it.
pub open spec fn button_tint(hovered: bool) -> u8 {
    if hovered {
        HOVER_TINT
    } else {
        FULL_TINT
    }
}

/// Builds the rectangle that covers the whole window.
pub fn background_quad() -> (quad: Quad)
    ensures
        quad == background(),
{
    Quad { x: 0, y: 0, width: SCREEN_WIDTH, height: SCREEN_HEIGHT, tint: FULL_TINT, texture: 0 }
}

/// The image files of the game.
#[derive(Clone, Copy, Debug, PartialEq, Eq, Structural)]
pub enum Texture {
    MainMenuBackground,
    PlayButton,
    OtherButton,
    HardModeMenuBackground,
    YesButton,
    NoButton,
    GameBackground,
    CanPooper,
    RaiRaiRakuRaku,
}

impl Texture {
    /// The path of the image file, as a sequence of characters.
    pub open spec fn spec_path(self) -> Seq<char> {
        match self {
            Texture::MainMenuBackground => "assets/textures/backgrounds/main_menu_background.png"@,
            Texture::PlayButton => "assets/textures/ui/play_button.png"@,
            Texture::OtherButton => "assets/textures/ui/other_button.png"@,
            Texture::HardModeMenuBackground => "assets/textures/backgrounds/hard_mode_menu_background.png"@,
            Texture::YesButton => "assets/textures/ui/yes_button.png"@,
            Texture::NoButton => "assets/textures/ui/no_button.png"@,
            Texture::GameBackground => "assets/textures/backgrounds/game_background.png"@,
            Texture::CanPooper => "assets/textures/props/can_pooper.png"@,
            Texture::RaiRaiRakuRaku => "assets/textures/props/rai_rai_raku_raku.png"@,
        }
    }

    /// The path of the image file.
    pub fn path(self) -> (path: &'static str)
        ensures
            path@ == self.spec_path(),
    {
        match self {
            Texture::MainMenuBackground => "assets/textures/backgrounds/main_menu_background.png",
            Texture::PlayButton => "assets/textures/ui/play_button.png",
            Texture::OtherButton => "assets/textures/ui/other_button.png",
            Texture::HardModeMenuBackground => "assets/textures/backgrounds/hard_mode_menu_background.png",
            Texture::YesButton => "assets/textures/ui/yes_button.png",
            Texture::NoButton => "assets/textures/ui/no_button.png",
            Texture::GameBackground => "assets/textures/backgrounds/game_background.png",
            Texture::CanPooper => "assets/textures/props/can_pooper.png",
            Texture::RaiRaiRakuRaku => "assets/textures/props/rai_rai_raku_raku.png",
        }
    }
}

/// How a draw surface is set up, as plain values.
pub struct SurfaceView {
    /// Number of texture slots of the surface.
    pub slots: u8,
    /// The images that are loaded; the image at index `i` is in slot `i`.
    pub textures: Seq<Texture>,
}

/// How a scene's draw surface is set up: how many texture slots it has and
/// which image goes into the first of them, slot 0 first.
#[derive(Debug, PartialEq, Eq)]
pub struct Surface {
    /// Number of texture slots of the surface.
    pub slots: u8,
    /// The images to load; the image at index `i` goes into slot `i`.
    pub textures: Vec<Texture>,
}

impl View for Surface {
    type V = SurfaceView;

    open spec fn view(&self) -> SurfaceView {
        SurfaceView { slots: self.slots, textures: self.textures@ }
    }
}

impl Surface {
    /// A surface with `max_texture_slots` texture slots and nothing loaded.
    pub fn new(max_texture_slots: u8) -> (surface: Surface)
        ensures
            surface@ == (SurfaceView { slots: max_texture_slots, textures: Seq::empty() }),
    {
        Surface { slots: max_texture_slots, textures: Vec::new() }
    }

    /// Loads `texture` into the first slot that is still free.
    pub fn load_texture(&mut self, texture: Texture)
        ensures
            final(self)@ == (SurfaceView {
                slots: old(self)@.slots,
                textures: old(self)@.textures.push(texture),
            }),
    {
        self.textures.push(texture);
    }
}

} // verus!
