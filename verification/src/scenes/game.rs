//! The game: a player who runs, jumps and falls, and three enemies.
//!
//! In normal mode the enemies stand still and the player clears them one by
//! one by walking up to the nearest; the game is won when none is left. In
//! hard mode the enemies march towards the player, and the game is lost when
//! the nearest of them reaches the player.

use vstd::prelude::*;
use crate::chance::sample_uniform;
use crate::draw::{background, background_quad, Quad, Surface, SurfaceView, Texture, FULL_TINT};
use crate::input::{InputState, Key};
use crate::transition::Transition;
use crate::units::{
    closer_than, displace, displaced, is_closer_than, lemma_saturate_monotone, saturate, shift,
    UNIT,
};

verus! {

/// Speed of the player along both axes, in pixels per second.
pub const PLAYER_SPEED: i64 = 200;

/// What the gravity accumulator gains, in pixels per second.
pub const GRAVITY_CONSTANT: i64 = 5;

/// Speed at which the enemies march in hard mode, in pixels per second.
pub const ENEMY_SPEED: i64 = 50;

/// Height of the ground: where the player rests and where the enemies stand.
pub const REST_HEIGHT: i64 = 370 * UNIT;

/// Distance below which the player and an enemy touch.
pub const REACH: i64 = 150 * UNIT;

/// Width and height of the player and of every enemy.
pub const ACTOR_SIZE: i64 = 150 * UNIT;

/// Where the player starts.
pub const PLAYER_START: i64 = 200 * UNIT;

/// Where the enemy that is farthest from the player starts.
pub const FAR_ENEMY_START: i64 = 1000 * UNIT;

/// Where the middle enemy starts.
pub const MIDDLE_ENEMY_START: i64 = 800 * UNIT;

/// Where the enemy that is nearest to the player starts.
pub const NEAR_ENEMY_START: i64 = 600 * UNIT;

/// An enemy. All it has is its horizontal position; it stands on the ground.
#[derive(Clone, Copy, Debug, PartialEq, Eq, Structural)]
pub struct Enemy {
    pub x_position: i64,
}

/// The horizontal positions of a row of enemies.
pub open spec fn positions(enemies: Seq<Enemy>) -> Seq<i64> {
    enemies.map_values(|enemy: Enemy| enemy.x_position)
}

/// The state of a game as plain values.
pub struct GameView {
    /// Whether the game is played in hard mode. Never changes.
    pub hard: bool,
    /// Horizontal position of the player.
    pub player_x: i64,
    /// Vertical position of the player; smaller is higher on the screen.
    pub player_y: i64,
    /// Nominal vertical speed of the player, in pixels per second.
    pub player_y_speed: i64,
    /// What the player falls by in one frame while above the ground.
    pub gravity: i64,
    /// Texture slot of the player's skin.
    pub player_texture: u8,
    /// Texture slot of the enemies' skin.
    pub enemy_texture: u8,
    /// Horizontal positions of the enemies that are left, in the order in
    /// which they were spawned: the farthest first, the nearest last.
    pub enemies: Seq<i64>,
}

impl GameView {
    /// What holds of every game: the two skins are the slots 1 and 2, one
    /// each; at most three enemies are left, and all three in hard mode; and
    /// no enemy stands to the right of one spawned before it.
    pub open spec fn wf(self) -> bool {
        &&& (self.player_texture == 1 && self.enemy_texture == 2) || (self.player_texture == 2
            && self.enemy_texture == 1)
        &&& self.enemies.len() <= 3
        &&& self.hard ==> self.enemies.len() == 3
        &&& forall|i: int, j: int|
            0 <= i < j < self.enemies.len() ==> self.enemies[i] >= self.enemies[j]
    }

    /// The game as it starts, with the player in the skin of the given slot
    /// and the enemies in the other one. Any slot but 1 counts as 2.
    pub open spec fn fresh(hard: bool, player_texture: u8) -> GameView {
        GameView {
            hard,
            player_x: PLAYER_START,
            player_y: REST_HEIGHT,
            player_y_speed: PLAYER_SPEED,
            gravity: 0,
            player_texture: if player_texture == 1 { 1 } else { 2 },
            enemy_texture: if player_texture == 1 { 2 } else { 1 },
            enemies: seq![FAR_ENEMY_START, MIDDLE_ENEMY_START, NEAR_ENEMY_START],
        }
    }

    /// The game after gravity has acted for `elapsed` microseconds. The
    /// accumulator grows with time; a player above the ground then falls by
    /// the whole accumulator, while for a player on or below the ground the
    /// accumulator is emptied.
    pub open spec fn weighed(self, elapsed: u64) -> GameView {
        let gravity = displaced(self.gravity, GRAVITY_CONSTANT as int, elapsed);
        if self.player_y < REST_HEIGHT {
            GameView { player_y: saturate(self.player_y + gravity), gravity, ..self }
        } else {
            GameView { gravity: 0, ..self }
        }
    }

    /// The game after the player has followed the keys for `elapsed`
    /// microseconds: to the left, then to the right, then upwards, each at the
    /// player's speed and each only if its key is held.
    pub open spec fn steered(self, window: InputState, elapsed: u64) -> GameView {
        let x_after_left = if window.steers_left() {
            displaced(self.player_x, -PLAYER_SPEED, elapsed)
        } else {
            self.player_x
        };
        let x_after_right = if window.steers_right() {
            displaced(x_after_left, PLAYER_SPEED as int, elapsed)
        } else {
            x_after_left
        };
        let y_after_thrust = if window.thrusts() {
            displaced(self.player_y, -PLAYER_SPEED, elapsed)
        } else {
            self.player_y
        };
        GameView { player_x: x_after_right, player_y: y_after_thrust, ..self }
    }

    /// The game after every enemy has marched to the left for `elapsed`
    /// microseconds.
    pub open spec fn marched(self, elapsed: u64) -> GameView {
        GameView {
            enemies: self.enemies.map_values(|x: i64| displaced(x, -ENEMY_SPEED, elapsed)),
            ..self
        }
    }

    /// Whether the nearest enemy, the last of the row, is within reach of the
    /// player horizontally.
    pub open spec fn caught(self) -> bool {
        self.enemies.len() > 0 && closer_than(self.enemies.last(), self.player_x, REACH)
    }

    /// Whether the player clears the nearest enemy: it is within reach
    /// horizontally, and the player is within reach of the ground.
    pub open spec fn strikes(self) -> bool {
        self.caught() && closer_than(REST_HEIGHT, self.player_y, REACH)
    }

    /// The game one frame later. The player is moved first, by gravity and
    /// then by the keys. If escape is held nothing else happens. Otherwise
    /// the enemies march in hard mode, and in normal mode the nearest enemy is
    /// removed if the player clears it.
    pub open spec fn next(self, window: InputState, elapsed: u64) -> GameView {
        let moved = self.weighed(elapsed).steered(window, elapsed);
        if window.escape {
            moved
        } else if self.hard {
            moved.marched(elapsed)
        } else if moved.strikes() {
            GameView { enemies: moved.enemies.drop_last(), ..moved }
        } else {
            moved
        }
    }

    /// Whether the frame ends the game, and what follows: always the main
    /// menu. The game ends when escape is held; in hard mode, when the nearest
    /// enemy has caught the player after marching; in normal mode, when no
    /// enemy is left after the frame.
    pub open spec fn outcome(self, window: InputState, elapsed: u64) -> Option<Transition> {
        let after = self.next(window, elapsed);
        let over = if window.escape {
            true
        } else if self.hard {
            after.caught()
        } else {
            after.enemies.len() == 0
        };
        if over {
            Some(Transition::Menu)
        } else {
            None
        }
    }

    /// The rectangle that shows the player.
    pub open spec fn player_quad(self) -> Quad {
        Quad {
            x: self.player_x,
            y: self.player_y,
            width: ACTOR_SIZE,
            height: ACTOR_SIZE,
            tint: FULL_TINT,
            texture: self.player_texture,
        }
    }

    /// The rectangle that shows an enemy at the horizontal position `x`.
    pub open spec fn enemy_quad(self, x: i64) -> Quad {
        Quad {
            x,
            y: REST_HEIGHT,
            width: ACTOR_SIZE,
            height: ACTOR_SIZE,
            tint: FULL_TINT,
            texture: self.enemy_texture,
        }
    }

    /// The picture of the game: the background, the player, then the enemies
    /// that are left, in their order.
    pub open spec fn picture(self) -> Seq<Quad> {
        seq![background(), self.player_quad()] + self.enemies.map_values(
            |x: i64| self.enemy_quad(x),
        )
    }
}

/// Lets gravity act on a player at height `y` for `elapsed` microseconds and
/// returns the new height and the new accumulator.
fn fall(y: i64, gravity: i64, elapsed: u64) -> (fallen: (i64, i64))
    ensures
        fallen.1 == if y < REST_HEIGHT {
            displaced(gravity, GRAVITY_CONSTANT as int, elapsed)
        } else {
            0
        },
        fallen.0 == if y < REST_HEIGHT {
            saturate(y + displaced(gravity, GRAVITY_CONSTANT as int, elapsed))
        } else {
            y
        },
{
    let gained = displace(gravity, GRAVITY_CONSTANT, elapsed);
    if y < REST_HEIGHT {
        (shift(y, gained), gained)
    } else {
        (y, 0)
    }
}

/// Lets a player at `(x, y)` follow the keys for `elapsed` microseconds and
/// returns the new position.
fn steer(x: i64, y: i64, window: &InputState, elapsed: u64) -> (steered: (i64, i64))
    ensures
        steered.0 == {
            let x_after_left = if window.steers_left() {
                displaced(x, -PLAYER_SPEED, elapsed)
            } else {
                x
            };
            if window.steers_right() {
                displaced(x_after_left, PLAYER_SPEED as int, elapsed)
            } else {
                x_after_left
            }
        },
        steered.1 == if window.thrusts() {
            displaced(y, -PLAYER_SPEED, elapsed)
        } else {
            y
        },
{
    let mut x = x;
    let mut y = y;
    if window.is_key_down(Key::Left) || window.is_key_down(Key::A) {
        x = displace(x, -PLAYER_SPEED, elapsed);
    }
    if window.is_key_down(Key::Right) || window.is_key_down(Key::D) {
        x = displace(x, PLAYER_SPEED, elapsed);
    }
    if window.is_key_down(Key::Up) || window.is_key_down(Key::W) {
        y = displace(y, -PLAYER_SPEED, elapsed);
    }
    (x, y)
}

/// Lets every enemy of the row march to the left for `elapsed` microseconds.
fn march(enemies: &Vec<Enemy>, elapsed: u64) -> (marched: Vec<Enemy>)
    ensures
        positions(marched@) == positions(enemies@).map_values(
            |x: i64| displaced(x, -ENEMY_SPEED, elapsed),
        ),
{
    let mut marched: Vec<Enemy> = Vec::new();
    let mut i: usize = 0;
    while i < enemies.len()
        invariant
            i <= enemies.len(),
            marched.len() == i,
            forall|k: int|
                0 <= k < i ==> (#[trigger] marched[k]).x_position == displaced(
                    enemies[k].x_position,
                    -ENEMY_SPEED,
                    elapsed,
                ),
        decreases enemies.len() - i,
    {
        marched.push(Enemy { x_position: displace(enemies[i].x_position, -ENEMY_SPEED, elapsed) });
        i += 1;
    }
    assert(positions(marched@) =~= positions(enemies@).map_values(
        |x: i64| displaced(x, -ENEMY_SPEED, elapsed),
    ));
    marched
}

/// Every game starts well formed: whatever slot is asked for, the player
/// and the enemies wear the skins of the slots 1 and 2, one each.
pub proof fn lemma_fresh_is_well_formed(hard: bool, player_texture: u8)
    ensures
        GameView::fresh(hard, player_texture).wf(),
        GameView::fresh(hard, player_texture).player_texture != GameView::fresh(
            hard,
            player_texture,
        ).enemy_texture,
{
}

/// A frame keeps a game well formed, and it changes neither the mode nor
/// the skins: the player and the enemies wear the slots 1 and 2, one each,
/// for as long as the game lasts.
pub proof fn lemma_next_keeps_well_formed(game: GameView, window: InputState, elapsed: u64)
    requires
        game.wf(),
    ensures
        game.next(window, elapsed).wf(),
        game.next(window, elapsed).hard == game.hard,
        game.next(window, elapsed).player_texture == game.player_texture,
        game.next(window, elapsed).enemy_texture == game.enemy_texture,
        game.next(window, elapsed).player_texture != game.next(window, elapsed).enemy_texture,
{
    let moved = game.weighed(elapsed).steered(window, elapsed);
    if !window.escape && game.hard {
        let after = moved.marched(elapsed);
        assert forall|i: int, j: int| 0 <= i < j < after.enemies.len() implies after.enemies[i]
            >= after.enemies[j] by {
            lemma_saturate_monotone(
                moved.enemies[j] + (-ENEMY_SPEED) * elapsed,
                moved.enemies[i] + (-ENEMY_SPEED) * elapsed,
            );
        }
    }
}

/// Holding escape ends the game in favour of the main menu, whatever the
/// state of the game, the other keys and the time that has passed; and the
/// enemies are left as they were.
pub proof fn lemma_escape_always_leaves(game: GameView, window: InputState, elapsed: u64)
    requires
        window.escape,
    ensures
        game.outcome(window, elapsed) == Some(Transition::Menu),
        game.next(window, elapsed).enemies == game.enemies,
{
}

/// In normal mode the row of enemies only ever loses its last member: after
/// a frame it is what it was, or what it was without the nearest enemy. It is
/// never reordered or added to.
pub proof fn lemma_normal_mode_shrinks_from_tail(game: GameView, window: InputState, elapsed: u64)
    requires
        !game.hard,
    ensures
        game.next(window, elapsed).enemies == game.enemies || (game.enemies.len() > 0
            && game.next(window, elapsed).enemies == game.enemies.drop_last()),
{
}

/// In hard mode no enemy is ever removed, and none moves to the right.
pub proof fn lemma_hard_mode_keeps_every_enemy(game: GameView, window: InputState, elapsed: u64)
    requires
        game.hard,
    ensures
        game.next(window, elapsed).enemies.len() == game.enemies.len(),
        forall|i: int|
            0 <= i < game.enemies.len() ==> game.next(window, elapsed).enemies[i]
                <= game.enemies[i],
{
}

/// In hard mode a frame without escape is lost exactly if the nearest enemy,
/// after marching, is less than the reach away from where the player has
/// moved to. Only the horizontal distance counts.
pub proof fn lemma_hard_mode_is_lost_within_reach(game: GameView, window: InputState, elapsed: u64)
    requires
        game.wf(),
        game.hard,
        !window.escape,
    ensures
        game.outcome(window, elapsed).is_some() <==> closer_than(
            displaced(game.enemies[2], -ENEMY_SPEED, elapsed),
            game.weighed(elapsed).steered(window, elapsed).player_x,
            REACH,
        ),
{
}

/// In normal mode a frame without escape in which the player clears the
/// nearest enemy removes that enemy and no other.
pub proof fn lemma_strike_clears_the_nearest_enemy(game: GameView, window: InputState, elapsed: u64)
    requires
        !game.hard,
        !window.escape,
        game.weighed(elapsed).steered(window, elapsed).strikes(),
    ensures
        game.next(window, elapsed).enemies == game.enemies.drop_last(),
        game.next(window, elapsed).enemies.len() == game.enemies.len() - 1,
{
}

/// A normal game ends, short of escape, exactly in a frame after which no
/// enemy is left: one that starts with none, or one in which the player
/// clears the last.
pub proof fn lemma_normal_mode_ends_when_cleared(game: GameView, window: InputState, elapsed: u64)
    requires
        !game.hard,
        !window.escape,
    ensures
        game.outcome(window, elapsed).is_some() <==> game.enemies.len() == 0 || (
        game.enemies.len() == 1 && game.weighed(elapsed).steered(window, elapsed).strikes()),
{
}

/// The game scene.
#[derive(Debug)]
pub struct GameScene {
    renderer: Surface,
    player_texture: u8,
    player_position: i64,
    player_y_position: i64,
    player_y_speed: i64,
    gravity: i64,
    enemy_texture: u8,
    enemies: Vec<Enemy>,
    is_hard_mode: bool,
}

impl View for GameScene {
    type V = GameView;

    closed spec fn view(&self) -> GameView {
        GameView {
            hard: self.is_hard_mode,
            player_x: self.player_position,
            player_y: self.player_y_position,
            player_y_speed: self.player_y_speed,
            gravity: self.gravity,
            player_texture: self.player_texture,
            enemy_texture: self.enemy_texture,
            enemies: positions(self.enemies@),
        }
    }
}

impl GameScene {
    /// The draw surface of the game: five slots, of which the first three
    /// hold the background and the two character skins.
    pub open spec fn layout() -> SurfaceView {
        SurfaceView {
            slots: 5,
            textures: seq![Texture::GameBackground, Texture::CanPooper, Texture::RaiRaiRakuRaku],
        }
    }

    /// How the scene's own draw surface is set up.
    pub closed spec fn loaded(&self) -> SurfaceView {
        self.renderer@
    }

    #[verifier::type_invariant]
    spec fn inv(&self) -> bool {
        self@.wf() && self.loaded() == Self::layout()
    }

    /// A fresh game in which chance decides who wears which skin.
    pub fn new(is_hard_mode: bool) -> (scene: GameScene)
        ensures
            scene@ == GameView::fresh(is_hard_mode, 1) || scene@ == GameView::fresh(is_hard_mode, 2),
            scene@.wf(),
            scene.loaded() == Self::layout(),
    {
        let roll: i32 = sample_uniform(1, 3);
        GameScene::with_roll(roll, is_hard_mode)
    }

    /// A fresh game in which `roll` decides who wears which skin: on 1 the
    /// player gets the skin in slot 1 and the enemies the one in slot 2, on
    /// any other number the other way round.
    pub fn with_roll(roll: i32, is_hard_mode: bool) -> (scene: GameScene)
        ensures
            scene@ == GameView::fresh(is_hard_mode, if roll == 1 { 1u8 } else { 2u8 }),
            scene@.wf(),
            scene.loaded() == Self::layout(),
    {
        let mut renderer = Surface::new(5);
        renderer.load_texture(Texture::GameBackground);
        renderer.load_texture(Texture::CanPooper);
        renderer.load_texture(Texture::RaiRaiRakuRaku);
        assert(renderer@.textures =~= Self::layout().textures);
        let (player_texture, enemy_texture): (u8, u8) = if roll == 1 {
            (1, 2)
        } else {
            (2, 1)
        };
        let mut enemies: Vec<Enemy> = Vec::new();
        enemies.push(Enemy { x_position: FAR_ENEMY_START });
        enemies.push(Enemy { x_position: MIDDLE_ENEMY_START });
        enemies.push(Enemy { x_position: NEAR_ENEMY_START });
        assert(positions(enemies@) =~= seq![FAR_ENEMY_START, MIDDLE_ENEMY_START, NEAR_ENEMY_START]);
        GameScene {
            renderer,
            player_texture,
            enemy_texture,
            enemies,
            player_position: PLAYER_START,
            player_y_position: REST_HEIGHT,
            player_y_speed: PLAYER_SPEED,
            gravity: 0,
            is_hard_mode,
        }
    }

    /// Moves the game one frame of `delta_time` microseconds forward and says
    /// whether it is over.
    pub fn update(&mut self, window: &InputState, delta_time: u64) -> (transition: Option<Transition>)
        ensures
            final(self)@ == old(self)@.next(*window, delta_time),
            transition == old(self)@.outcome(*window, delta_time),
            final(self)@.wf(),
            final(self).loaded() == old(self).loaded(),
            window.escape ==> transition == Some(Transition::Menu),
    {
        proof {
            use_type_invariant(&*self);
        }
        let (fallen_y, gravity) = fall(self.player_y_position, self.gravity, delta_time);
        let (x, y) = steer(self.player_position, fallen_y, window, delta_time);
        self.gravity = gravity;
        self.player_position = x;
        self.player_y_position = y;
        if window.is_key_down(Key::Escape) {
            return Some(Transition::Menu);
        }
        if self.is_hard_mode {
            let marched = march(&self.enemies, delta_time);
            self.enemies = marched;
            if is_closer_than(self.enemies[2].x_position, self.player_position, REACH) {
                return Some(Transition::Menu);
            }
        } else {
            let count: usize = self.enemies.len();
            if count > 0 {
                if is_closer_than(self.enemies[count - 1].x_position, self.player_position, REACH)
                    && is_closer_than(REST_HEIGHT, self.player_y_position, REACH) {
                    let ghost before = self.enemies@;
                    let mut remaining: Vec<Enemy> = Vec::new();
                    std::mem::swap(&mut remaining, &mut self.enemies);
                    remaining.pop();
                    assert(positions(remaining@) =~= positions(before).drop_last());
                    self.enemies = remaining;
                    if self.enemies.len() == 0 {
                        return Some(Transition::Menu);
                    }
                }
            } else {
                return Some(Transition::Menu);
            }
        }
        None
    }

    /// Puts the player at the given position and leaves the rest of the game
    /// as it is.
    pub fn place_player(&mut self, x: i64, y: i64)
        ensures
            final(self)@ == (GameView { player_x: x, player_y: y, ..old(self)@ }),
            final(self)@.wf(),
            final(self).loaded() == old(self).loaded(),
    {
        proof {
            use_type_invariant(&*self);
        }
        self.player_position = x;
        self.player_y_position = y;
    }

    /// How the draw surface of the scene is set up.
    pub fn surface(&self) -> (surface: &Surface)
        ensures
            surface@ == self.loaded(),
            surface@ == Self::layout(),
    {
        proof {
            use_type_invariant(self);
        }
        &self.renderer
    }

    /// Whether the game is played in hard mode.
    pub fn is_hard_mode(&self) -> (hard: bool)
        ensures
            hard == self@.hard,
    {
        self.is_hard_mode
    }

    /// Horizontal position of the player.
    pub fn player_position(&self) -> (x: i64)
        ensures
            x == self@.player_x,
    {
        self.player_position
    }

    /// Vertical position of the player.
    pub fn player_y_position(&self) -> (y: i64)
        ensures
            y == self@.player_y,
    {
        self.player_y_position
    }

    /// Nominal vertical speed of the player, in pixels per second.
    pub fn player_y_speed(&self) -> (speed: i64)
        ensures
            speed == self@.player_y_speed,
    {
        self.player_y_speed
    }

    /// What the player falls by in one frame while above the ground.
    pub fn gravity(&self) -> (gravity: i64)
        ensures
            gravity == self@.gravity,
    {
        self.gravity
    }

    /// Texture slot of the player's skin: 1 or 2.
    pub fn player_texture(&self) -> (slot: u8)
        ensures
            slot == self@.player_texture,
            slot == 1 || slot == 2,
    {
        proof {
            use_type_invariant(self);
        }
        self.player_texture
    }

    /// Texture slot of the enemies' skin: of the slots 1 and 2 the one that
    /// the player does not wear.
    pub fn enemy_texture(&self) -> (slot: u8)
        ensures
            slot == self@.enemy_texture,
            slot == 3 - self@.player_texture,
    {
        proof {
            use_type_invariant(self);
        }
        self.enemy_texture
    }

    /// The enemies that are left, the farthest first and the nearest last.
    pub fn enemies(&self) -> (enemies: &Vec<Enemy>)
        ensures
            positions(enemies@) == self@.enemies,
            enemies.len() <= 3,
    {
        proof {
            use_type_invariant(self);
        }
        &self.enemies
    }

    /// The rectangles of the current picture, in drawing order. The game is
    /// left as it is.
    pub fn render(&self) -> (batch: Vec<Quad>)
        ensures
            batch@ == self@.picture(),
    {
        let mut batch: Vec<Quad> = Vec::new();
        batch.push(background_quad());
        batch.push(
            Quad {
                x: self.player_position,
                y: self.player_y_position,
                width: ACTOR_SIZE,
                height: ACTOR_SIZE,
                tint: FULL_TINT,
                texture: self.player_texture,
            },
        );
        let mut i: usize = 0;
        while i < self.enemies.len()
            invariant
                i <= self.enemies.len(),
                batch.len() == i + 2,
                batch[0] == background(),
                batch[1] == self@.player_quad(),
                forall|k: int|
                    2 <= k < i + 2 ==> #[trigger] batch[k] == self@.enemy_quad(
                        self.enemies[k - 2].x_position,
                    ),
            decreases self.enemies.len() - i,
        {
            batch.push(
                Quad {
                    x: self.enemies[i].x_position,
                    y: REST_HEIGHT,
                    width: ACTOR_SIZE,
                    height: ACTOR_SIZE,
                    tint: FULL_TINT,
                    texture: self.enemy_texture,
                },
            );
            i += 1;
        }
        proof {
            let head = seq![background(), self@.player_quad()];
            let row = self@.enemies.map_values(|x: i64| self@.enemy_quad(x));
            assert forall|k: int| 0 <= k < batch.len() implies batch[k] == (head + row)[k] by {
                if k >= 2 {
                    assert(row[k - 2] == self@.enemy_quad(self@.enemies[k - 2]));
                }
            }
            assert(batch@ =~= head + row);
        }
        batch
    }
}

} // verus!
