//! A placeholder scene.

use vstd::prelude::*;
use crate::draw::{Quad, Surface, SurfaceView, Texture};
use crate::input::InputState;
use crate::transition::Transition;

verus! {

/// A scene that has its textures loaded, shows nothing and never leaves.
#[derive(Debug)]
pub struct DummyScene {
    renderer: Surface,
}

impl DummyScene {
    /// The draw surface of the placeholder: two slots, one for each of the two
    /// character skins.
    pub open spec fn layout() -> SurfaceView {
        SurfaceView { slots: 2, textures: seq![Texture::CanPooper, Texture::RaiRaiRakuRaku] }
    }

    /// How the scene's own draw surface is set up.
    pub closed spec fn loaded(&self) -> SurfaceView {
        self.renderer@
    }

    #[verifier::type_invariant]
    spec fn inv(&self) -> bool {
        self.loaded() == Self::layout()
    }

    /// The placeholder, with its draw surface set up.
    pub fn new() -> (scene: DummyScene)
        ensures
            scene.loaded() == Self::layout(),
    {
        let mut renderer = Surface::new(2);
        renderer.load_texture(Texture::CanPooper);
        renderer.load_texture(Texture::RaiRaiRakuRaku);
        assert(renderer@.textures =~= Self::layout().textures);
        DummyScene { renderer }
    }

    /// How the draw surface of the scene is set up.
    pub fn surface(&self) -> (surface: &Surface)
        ensures
            surface@ == self.loaded(),
            surface@ == Self::layout(),
    {
        proof {
            use_type_invariant(self);
        }
        &self.renderer
    }

    /// Moves the scene one frame forward: nothing happens, whatever the input
    /// and however much time has passed.
    pub fn update(&mut self, window: &InputState, delta_time: u64) -> (transition: Option<Transition>)
        ensures
            transition is None,
            final(self).loaded() == old(self).loaded(),
    {
        None
    }

    /// The rectangles of the current picture: none.
    pub fn render(&self) -> (batch: Vec<Quad>)
        ensures
            batch@ == Seq::<Quad>::empty(),
    {
        Vec::new()
    }
}

} // verus!
