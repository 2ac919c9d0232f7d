//! The driver: it owns the one active scene and runs it frame by frame.

use vstd::prelude::*;
use crate::draw::Quad;
use crate::input::InputState;
use crate::scenes::Scene;
use crate::transition::Transition;

verus! {

/// What one frame of the driver produced.
#[derive(Debug, PartialEq, Eq)]
pub enum Frame {
    /// The scene stayed; these are the rectangles of its picture.
    Picture(Vec<Quad>),
    /// The scene asked for this transition and was replaced. Nothing is drawn
    /// in such a frame.
    Switched(Transition),
}

/// Owns the one active scene and runs it frame by frame.
#[derive(Debug)]
pub struct SceneDriver {
    scene: Scene,
}

impl View for SceneDriver {
    type V = Scene;

    closed spec fn view(&self) -> Scene {
        self.scene
    }
}

impl SceneDriver {
    /// A driver that starts with `initial`.
    pub fn new(initial: Scene) -> (driver: SceneDriver)
        ensures
            driver@ == initial,
    {
        SceneDriver { scene: initial }
    }

    /// The active scene.
    pub fn scene(&self) -> (scene: &Scene)
        ensures
            *scene == self@,
    {
        &self.scene
    }

    /// Runs one frame of `delta_time` microseconds. The active scene is moved
    /// forward. If it asks to be replaced, the scene it asks for is built and
    /// takes its place, the old scene is dropped, and nothing is drawn.
    /// Otherwise the scene stays and its picture is returned.
    pub fn frame(&mut self, window: &InputState, delta_time: u64) -> (frame: Frame)
        ensures
            match old(self)@.outcome(*window, delta_time) {
                Some(transition) => frame == Frame::Switched(transition) && final(self)@.answers(
                    transition,
                ),
                None => final(self)@.follows(old(self)@, *window, delta_time) && (frame matches Frame::Picture(
                    batch,
                ) && batch@ == final(self)@.picture()),
            },
    {
        match self.scene.update(window, delta_time) {
            Some(transition) => {
                self.scene = Scene::enter(transition);
                Frame::Switched(transition)
            },
            None => Frame::Picture(self.scene.render()),
        }
    }
}

} // verus!
