//! A level in play: the camera, the player and the enemy slots, advanced one
//! frame at a time.

use crate::enemies::{Enemy, EnemyUpdateState};
use crate::entity::{
    lemma_lies_in_touches, Entity, Priority, Sprite, SCREEN_HEIGHT, SCREEN_WIDTH, WORLD_LIMIT,
};
use crate::level::{Level, TileProperty};
use crate::number::FixedNumber;
use crate::player::{Input, Player};
use crate::sfx::{SfxPlayer, SoundEffect};
use crate::vector::{Vec2, Vector2D};
use vstd::prelude::*;

verus! {

/// Number of enemy slots of a level.
pub const ENEMY_SLOTS: usize = 16;

/// First tile of the wizard that died.
pub const WIZARD_DEAD_START: u16 = 63 * 4;

/// The scrolling map: the camera and the level that it shows. The camera
/// position is the level position of the top left corner of the screen.
#[derive(Debug)]
pub struct LevelMap {
    /// The camera position.
    pub position: Vector2D,
    /// The level.
    pub level: Level,
    /// Horizontal scroll offset that the render layer was told, in pixels.
    pub scroll_x: i32,
    /// Vertical scroll offset that the render layer was told, in pixels.
    pub scroll_y: i32,
}

/// How a frame ended.
#[derive(Clone, Copy, Debug, PartialEq, Eq, Structural)]
pub enum UpdateState {
    /// The level goes on.
    Normal,
    /// The wizard died.
    Dead,
    /// The wizard reached the goal.
    Complete,
}

/// A level in play.
#[derive(Debug)]
pub struct PlayingLevel {
    /// Number of frames played.
    pub timer: i32,
    /// The camera and the level.
    pub background: LevelMap,
    /// The wizard and the hat.
    pub player: Player,
    /// The enemy slots.
    pub enemies: [Enemy; 16],
}

/// `v` limited to the range from `low` to `high`.
pub open spec fn clamped(v: int, low: int, high: int) -> int {
    if v < low {
        low
    } else if v > high {
        high
    } else {
        v
    }
}

/// Whether `v` can be stored in an `i32`.
pub fn fits_i32(v: i64) -> (r: bool)
    ensures
        r == crate::number::in_i32(v as int),
{
    i32::MIN as i64 <= v && v <= i32::MAX as i64
}

/// The point that the camera wants at the centre of the screen: the wizard
/// counts three times as much as the hat.
pub open spec fn camera_focus(hat: Vec2, wizard: Vec2) -> Vec2 {
    hat.plus(wizard.times_int(3)).over_int(4)
}

/// The largest camera position along an axis of `tiles` tiles, for a screen
/// of `screen` pixels.
pub open spec fn camera_limit(tiles: int, screen: int) -> int {
    (tiles * 8 - screen) * 1024
}

/// The camera position of the next frame. The centre of the screen moves a
/// quarter of the way to the focus, and the screen stays inside a level of
/// `width` by `height` tiles.
#[verifier::opaque]
pub open spec fn next_camera(camera: Vec2, hat: Vec2, wizard: Vec2, width: int, height: int) -> Vec2 {
    let half_screen = Vec2::whole(SCREEN_WIDTH / 2, SCREEN_HEIGHT / 2);
    let target = camera.plus(half_screen).times_int(3).plus(camera_focus(hat, wizard)).over_int(
        4,
    ).minus(half_screen);
    Vec2 {
        x: clamped(target.x, 0, camera_limit(width, SCREEN_WIDTH as int)),
        y: clamped(target.y, 0, camera_limit(height, SCREEN_HEIGHT as int)),
    }
}

/// The camera position lies within `WORLD_LIMIT`, so that the next camera
/// position can be computed without overflow.
pub open spec fn camera_in_world(camera: Vec2) -> bool {
    &&& -WORLD_LIMIT <= camera.x <= WORLD_LIMIT
    &&& -WORLD_LIMIT <= camera.y <= WORLD_LIMIT
}

/// The camera position shows nothing outside a level of `width` by `height`
/// tiles.
pub open spec fn camera_in_level(camera: Vec2, width: int, height: int) -> bool {
    &&& 0 <= camera.x <= camera_limit(width, SCREEN_WIDTH as int)
    &&& 0 <= camera.y <= camera_limit(height, SCREEN_HEIGHT as int)
}

impl LevelMap {
    /// The map after the render layer was told the scroll offset.
    pub open spec fn committed(self) -> LevelMap {
        LevelMap {
            scroll_x: self.position@.floor().0 as i32,
            scroll_y: self.position@.floor().1 as i32,
            ..self
        }
    }

    /// Tells the render layer the scroll offset: the camera position in whole
    /// pixels.
    pub fn commit_position(&mut self)
        ensures
            *final(self) == old(self).committed(),
    {
        let scroll = self.position.floor();
        self.scroll_x = scroll.0;
        self.scroll_y = scroll.1;
    }
}

/// The enemy slots for the spawn points `slimes`: one slime for each of the
/// first sixteen points, in their order, and empty slots after them.
pub open spec fn spawned(slimes: Seq<(i32, i32)>) -> Seq<Enemy> {
    Seq::new(
        16,
        |i: int|
            if i < slimes.len() {
                Enemy::Slime(
                    crate::enemies::Slime::created(
                        Vector2D::of(Vec2::whole(slimes[i].0 as int, slimes[i].1 as int)),
                    ),
                )
            } else {
                Enemy::Empty
            },
    )
}

/// The sounds of the enemies of the first `slots` slots that began to die at
/// the frame `timer`, in the order of the slots.
pub open spec fn death_sounds(enemies: Seq<Enemy>, timer: int, slots: int) -> Seq<SoundEffect>
    decreases slots,
{
    if slots <= 0 {
        Seq::empty()
    } else if enemies[slots - 1].died_at(timer) {
        death_sounds(enemies, timer, slots - 1).push(SoundEffect::SlimeDeath)
    } else {
        death_sounds(enemies, timer, slots - 1)
    }
}

impl PlayingLevel {
    /// The level and the player are well formed, the level is as large as
    /// the screen, the camera lies within the world, and every enemy can be
    /// updated. The camera need not show the level: a frame brings it there.
    pub open spec fn wf(&self) -> bool {
        &&& self.background.level.wf()
        &&& self.background.level.covers_screen()
        &&& camera_in_world(self.background.position@)
        &&& 0 <= self.timer
        &&& self.player.wf()
        &&& forall|i: int| 0 <= i < 16 ==> (#[trigger] self.enemies@[i]).wf(self.timer as int)
    }

    /// A frame with the buttons `input` can be computed without overflow: the
    /// level is well formed, the timer can count one more frame, and the
    /// player can be updated.
    pub open spec fn updatable(&self, input: Input) -> bool {
        &&& self.wf()
        &&& self.timer < i32::MAX
        &&& self.player.updatable(input)
    }

    /// The player after the frame with the buttons `input`, before its
    /// sprites are placed.
    pub open spec fn player_after(&self, input: Input) -> Player {
        self.player.after_frame(
            input,
            self.timer + 1,
            &self.background.level,
            self.enemies@,
        )
    }

    /// The enemy of slot `i` and its message after the frame with the
    /// buttons `input`, before its sprite is placed. The enemies see the
    /// wizard and the hat as they are after their own move.
    pub open spec fn enemy_after(&self, input: Input, i: int) -> (Enemy, EnemyUpdateState) {
        self.enemies@[i].updated(
            &self.background.level,
            self.player_after(input).wizard.position@,
            self.player_after(input).hat_state,
            self.timer + 1,
        )
    }

    /// The enemies after the frame with the buttons `input`, before their
    /// sprites are placed.
    pub open spec fn enemies_after(&self, input: Input) -> Seq<Enemy> {
        Seq::new(16, |i: int| self.enemy_after(input, i).0)
    }

    /// The sounds of the frame with the buttons `input`, for a sound player
    /// made at the frame `frame`: those of the player, then one for each
    /// enemy that begins to die, in the order of the slots.
    pub open spec fn frame_sounds(&self, input: Input, frame: int) -> Seq<SoundEffect> {
        self.player.frame_sounds(input, self.timer + 1, &self.background.level, frame)
            + death_sounds(self.enemies_after(input), self.timer + 1, 16)
    }

    /// Some enemy kills the wizard in the frame with the buttons `input`.
    pub open spec fn enemy_kills(&self, input: Input) -> bool {
        exists|i: int|
            0 <= i < 16 && (#[trigger] self.enemy_after(input, i)).1
                == EnemyUpdateState::KillPlayer
    }

    /// The camera position after the frame with the buttons `input`.
    pub open spec fn camera_after(&self, input: Input) -> Vec2 {
        next_camera(
            self.background.position@,
            self.player_after(input).hat.position@,
            self.player_after(input).wizard.position@,
            self.background.level.width as int,
            self.background.level.height as int,
        )
    }

    /// The mask of the wizard touches a lethal tile where the wizard is when
    /// the frame begins.
    pub open spec fn lethal_at_entry(&self) -> bool {
        self.player.wizard.collision_mask.touches(
            &self.background.level,
            self.player.wizard.position@,
            TileProperty::Lethal,
        )
    }

    /// How the frame with the buttons `input` ends. The wizard dies where an
    /// enemy kills it, or where its mask touches a lethal tile before or
    /// after its move: no velocity takes it out of a lethal tile alive.
    /// Otherwise the level is complete where its mask touches a goal tile
    /// after its move.
    pub open spec fn outcome(&self, input: Input) -> UpdateState {
        let wizard = self.player_after(input).wizard;
        if self.enemy_kills(input) || self.lethal_at_entry() || wizard.collision_mask.touches(
            &self.background.level,
            wizard.position@,
            TileProperty::Lethal,
        ) {
            UpdateState::Dead
        } else if wizard.collision_mask.touches(
            &self.background.level,
            wizard.position@,
            TileProperty::Goal,
        ) {
            UpdateState::Complete
        } else {
            UpdateState::Normal
        }
    }

    /// Opens a level: the wizard stands at the start, the camera is at the
    /// origin, and the slimes sit in the first slots. Spawn points beyond the
    /// sixteenth are left out.
    pub fn open_level(level: Level) -> (r: PlayingLevel)
        requires
            level.wf(),
        ensures
            r.timer == 0,
            r.background == (LevelMap {
                position: Vector2D::of(Vec2 { x: 0, y: 0 }),
                level,
                scroll_x: 0,
                scroll_y: 0,
            }),
            r.player == Player::created(
                Vector2D::of(Vec2::whole(level.start_pos.0 as int, level.start_pos.1 as int)),
            ),
            r.enemies@ == spawned(level.slimes@),
            level.covers_screen() ==> r.wf(),
    {
        let mut e: [Enemy; 16] = [Enemy::Empty; 16];
        let mut enemy_count: usize = 0;
        while enemy_count < level.slimes.len() && enemy_count < ENEMY_SLOTS
            invariant
                level.wf(),
                0 <= enemy_count <= 16,
                enemy_count <= level.slimes@.len(),
                forall|i: int|
                    0 <= i < enemy_count ==> (#[trigger] e@[i]) == spawned(level.slimes@)[i],
                forall|i: int| enemy_count <= i < 16 ==> (#[trigger] e@[i]) == Enemy::Empty,
            decreases 16 - enemy_count,
        {
            let slime = level.slimes[enemy_count];
            let start = Vector2D::from_ints(slime.0, slime.1);
            proof {
                Vector2D::lemma_view_of(start);
            }
            e[enemy_count] = Enemy::new_slime(start);
            enemy_count += 1;
        }

        let start_pos = Vector2D::from_ints(level.start_pos.0, level.start_pos.1);
        let camera = Vector2D::zero();
        proof {
            Vector2D::lemma_view_of(start_pos);
            Vector2D::lemma_view_of(camera);
        }
        PlayingLevel {
            timer: 0,
            background: LevelMap { position: camera, level, scroll_x: 0, scroll_y: 0 },
            player: Player::new(start_pos),
            enemies: e,
        }
    }

    /// Whether a frame with the buttons `input` can be computed without
    /// overflow.
    pub fn can_update(&self, input: &Input) -> (r: bool)
        requires
            self.wf(),
        ensures
            r == self.updatable(*input),
    {
        self.timer < i32::MAX && self.player.can_update(input)
    }

    /// Begins the death of the wizard: it rises by one pixel per frame and is
    /// drawn above everything else.
    pub fn dead_start(&mut self)
        ensures
            *final(self) == (PlayingLevel {
                player: Player {
                    wizard: Entity {
                        velocity: Vector2D::of(Vec2::whole(0, -1)),
                        sprite: Sprite { priority: Priority::Highest, ..old(self).player.wizard.sprite },
                        ..old(self).player.wizard
                    },
                    ..old(self).player
                },
                ..*old(self)
            }),
    {
        let velocity = Vector2D::from_ints(0, -1);
        proof {
            Vector2D::lemma_view_of(velocity);
        }
        self.player.wizard.velocity = velocity;
        self.player.wizard.sprite.priority = Priority::Highest;
    }

    /// The wizard one frame further into its death: it gains 1/32 downwards
    /// and moves by its velocity through whatever is there.
    pub open spec fn dying_wizard(&self) -> Entity {
        let wizard = self.player.wizard;
        let velocity = wizard.velocity@.plus(Vec2 { x: 0, y: 32 });
        let position = wizard.position@.plus(velocity);
        (Entity {
            velocity: Vector2D::of(velocity),
            position: Vector2D::of(position),
            ..wizard
        }).with_tile((WIZARD_DEAD_START + (self.timer + 1) / 8 % 2 * 4) as u16).committed(
            self.background.position@,
        )
    }

    /// The dying wizard can be moved by one more frame without overflow.
    pub open spec fn can_die_on(&self) -> bool {
        let wizard = self.player.wizard;
        let velocity = wizard.velocity@.plus(Vec2 { x: 0, y: 32 });
        &&& 0 <= self.timer < i32::MAX
        &&& velocity.fits()
        &&& wizard.position@.plus(velocity).fits()
        &&& wizard.position@.plus(velocity).minus(self.background.position@).fits()
    }

    /// Whether the dying wizard can be moved by one more frame without
    /// overflow.
    pub fn can_dead_update(&self) -> (r: bool)
        ensures
            r == self.can_die_on(),
    {
        if self.timer < 0 || self.timer == i32::MAX {
            return false;
        }
        let wizard = &self.player.wizard;
        let camera = &self.background.position;
        let velocity_x = wizard.velocity.x.raw as i64;
        let velocity_y = wizard.velocity.y.raw as i64 + 32;
        let x = wizard.position.x.raw as i64 + velocity_x;
        let y = wizard.position.y.raw as i64 + velocity_y;
        fits_i32(velocity_y) && fits_i32(x) && fits_i32(y) && fits_i32(x - camera.x.raw as i64)
            && fits_i32(y - camera.y.raw as i64)
    }

    /// Advances the death of the wizard by one frame. Returns whether the
    /// wizard is still less than eight pixels below the screen.
    pub fn dead_update(&mut self) -> (r: bool)
        requires
            old(self).can_die_on(),
        ensures
            *final(self) == (PlayingLevel {
                timer: (old(self).timer + 1) as i32,
                player: Player { wizard: old(self).dying_wizard(), ..old(self).player },
                ..*old(self)
            }),
            r == (final(self).player.wizard.position@.y - final(self).background.position@.y < (
            SCREEN_HEIGHT + 8) * 1024),
    {
        self.timer += 1;

        let velocity = self.player.wizard.velocity.add(
            Vector2D::new(FixedNumber::zero(), FixedNumber::new(1).div_int(32)),
        );
        let position = self.player.wizard.position.add(velocity);
        proof {
            Vector2D::lemma_view_of(velocity);
            Vector2D::lemma_view_of(position);
        }
        self.player.wizard.velocity = velocity;
        self.player.wizard.position = position;
        self.player.wizard.sprite.tile_id = (self.timer / 8 % 2 * 4) as u16 + WIZARD_DEAD_START;

        self.player.wizard.commit_position(self.background.position);

        self.player.wizard.position.y.sub(self.background.position.y).raw < FixedNumber::new(
            SCREEN_HEIGHT + 8,
        ).raw
    }

    /// The camera position of the next frame.
    pub fn get_next_map_position(&self) -> (r: Vector2D)
        requires
            self.background.level.wf(),
            self.background.level.covers_screen(),
            self.player.wizard.in_world(),
            self.player.hat.near_world(),
            camera_in_world(self.background.position@),
        ensures
            r@ == next_camera(
                self.background.position@,
                self.player.hat.position@,
                self.player.wizard.position@,
                self.background.level.width as int,
                self.background.level.height as int,
            ),
            camera_in_level(
                r@,
                self.background.level.width as int,
                self.background.level.height as int,
            ),
    {
        reveal(next_camera);
        let hat_pos = self.player.hat.position;
        let player_pos = self.player.wizard.position;

        let new_target_position = hat_pos.add(player_pos.mul_int(3)).div_int(4);

        let screen = Vector2D::from_ints(SCREEN_WIDTH, SCREEN_HEIGHT);
        let half_screen = screen.div_int(2);
        let current_centre = self.background.position.add(half_screen);

        let mut target_position = current_centre.mul_int(3).add(new_target_position).div_int(
            4,
        ).sub(half_screen);

        let width: i32 = (self.background.level.width * 8 - SCREEN_WIDTH as u32) as i32;
        let height: i32 = (self.background.level.height * 8 - SCREEN_HEIGHT as u32) as i32;
        target_position.x = target_position.x.clamp(FixedNumber::zero(), FixedNumber::new(width));
        target_position.y = target_position.y.clamp(
            FixedNumber::zero(),
            FixedNumber::new(height),
        );

        target_position
    }
    /// The enemy of slot `i` and its message after its update in a frame in
    /// which the player has moved already.
    pub open spec fn enemy_updated(&self, i: int) -> (Enemy, EnemyUpdateState) {
        self.enemies@[i].updated(
            &self.background.level,
            self.player.wizard.position@,
            self.player.hat_state,
            self.timer as int,
        )
    }

    /// The enemies after their update in a frame in which the player has
    /// moved already.
    pub open spec fn enemies_updated(&self) -> Seq<Enemy> {
        Seq::new(16, |i: int| self.enemy_updated(i).0)
    }

    /// Updates the enemies in the order of their slots, and asks for the
    /// sound of each enemy that begins to die. Returns whether one of the
    /// enemies kills the wizard.
    pub fn update_enemies(&mut self, sfx_player: &mut SfxPlayer) -> (r: bool)
        requires
            old(self).background.level.wf(),
            0 <= old(self).timer,
            old(self).player.wizard.in_world(),
            forall|i: int|
                0 <= i < 16 ==> (#[trigger] old(self).enemies@[i]).wf(old(self).timer as int),
        ensures
            final(self).timer == old(self).timer,
            final(self).background == old(self).background,
            final(self).player == old(self).player,
            final(self).enemies@ == old(self).enemies_updated(),
            forall|i: int|
                0 <= i < 16 ==> (#[trigger] final(self).enemies@[i]).wf(old(self).timer as int),
            r == exists|i: int|
                0 <= i < 16 && (#[trigger] old(self).enemy_updated(i)).1
                    == EnemyUpdateState::KillPlayer,
            final(sfx_player)@ == old(sfx_player)@ + death_sounds(
                old(self).enemies_updated(),
                old(self).timer as int,
                16,
            ),
            final(sfx_player).frame == old(sfx_player).frame,
    {
        let mut player_dead = false;
        let mut i: usize = 0;
        while i < ENEMY_SLOTS
            invariant
                0 <= i <= 16,
                self.timer == old(self).timer,
                0 <= self.timer,
                self.background == old(self).background,
                self.background.level.wf(),
                self.player == old(self).player,
                self.player.wizard.in_world(),
                forall|j: int|
                    0 <= j < i ==> (#[trigger] self.enemies@[j]) == old(self).enemy_updated(j).0,
                forall|j: int| 0 <= j < i ==> (#[trigger] self.enemies@[j]).wf(self.timer as int),
                forall|j: int| i <= j < 16 ==> (#[trigger] self.enemies@[j]) == old(self).enemies@[j],
                forall|j: int|
                    0 <= j < 16 ==> (#[trigger] old(self).enemies@[j]).wf(old(self).timer as int),
                player_dead == exists|j: int|
                    0 <= j < i && (#[trigger] old(self).enemy_updated(j)).1
                        == EnemyUpdateState::KillPlayer,
                sfx_player@ == old(sfx_player)@ + death_sounds(
                    old(self).enemies_updated(),
                    self.timer as int,
                    i as int,
                ),
                sfx_player.frame == old(sfx_player).frame,
            decreases 16 - i,
        {
            let mut enemy = self.enemies[i];
            let message = enemy.update(
                &self.background.level,
                self.player.wizard.position,
                self.player.hat_state,
                self.timer,
            );
            self.enemies[i] = enemy;
            if enemy.has_died_at(self.timer) {
                sfx_player.slime_death();
            }
            proof {
                let sounds = death_sounds(old(self).enemies_updated(), self.timer as int, i as int);
                assert(death_sounds(old(self).enemies_updated(), self.timer as int, i + 1) == if enemy.died_at(
                    self.timer as int,
                ) {
                    sounds.push(SoundEffect::SlimeDeath)
                } else {
                    sounds
                });
                assert((old(sfx_player)@ + sounds).push(SoundEffect::SlimeDeath) =~= old(
                    sfx_player,
                )@ + sounds.push(SoundEffect::SlimeDeath));
            }
            match message {
                EnemyUpdateState::KillPlayer => {
                    player_dead = true;
                },
                EnemyUpdateState::Nothing => {},
            }
            i += 1;
        }
        player_dead
    }

    /// Moves the camera after the wizard and the hat, and tells the render
    /// layer the scroll offset and the screen positions of all sprites.
    pub fn commit_frame(&mut self)
        requires
            old(self).background.level.wf(),
            old(self).background.level.covers_screen(),
            old(self).player.wizard.in_world(),
            old(self).player.hat.near_world(),
            camera_in_world(old(self).background.position@),
            forall|i: int|
                0 <= i < 16 ==> (#[trigger] old(self).enemies@[i]).wf(old(self).timer as int),
        ensures
            final(self).timer == old(self).timer,
            final(self).background == (LevelMap {
                position: Vector2D::of(old(self).next_map_position()),
                ..old(self).background
            }).committed(),
            final(self).background.position@ == old(self).next_map_position(),
            camera_in_level(
                final(self).background.position@,
                old(self).background.level.width as int,
                old(self).background.level.height as int,
            ),
            final(self).player == old(self).player.committed(old(self).next_map_position()),
            forall|i: int|
                0 <= i < 16 ==> (#[trigger] final(self).enemies@[i]) == old(self).enemies@[i].committed(
                    old(self).next_map_position(),
                ),
            forall|i: int|
                0 <= i < 16 ==> (#[trigger] final(self).enemies@[i]).wf(old(self).timer as int),
    {
        let camera = self.get_next_map_position();
        proof {
            Vector2D::lemma_view_of(camera);
        }
        self.background.position = camera;
        self.background.commit_position();

        self.player.wizard.commit_position(self.background.position);
        self.player.hat.commit_position(self.background.position);

        let ghost placed_background = self.background;
        let ghost placed_player = self.player;
        let mut k: usize = 0;
        while k < ENEMY_SLOTS
            invariant
                0 <= k <= 16,
                -WORLD_LIMIT <= camera@.x <= WORLD_LIMIT,
                -WORLD_LIMIT <= camera@.y <= WORLD_LIMIT,
                self.timer == old(self).timer,
                self.background == placed_background,
                self.background.position == camera,
                self.player == placed_player,
                forall|j: int|
                    0 <= j < 16 ==> (#[trigger] old(self).enemies@[j]).wf(self.timer as int),
                forall|j: int|
                    0 <= j < k ==> (#[trigger] self.enemies@[j]) == old(self).enemies@[j].committed(
                        camera@,
                    ),
                forall|j: int| k <= j < 16 ==> (#[trigger] self.enemies@[j]) == old(self).enemies@[j],
            decreases 16 - k,
        {
            let mut enemy = self.enemies[k];
            enemy.commit(self.background.position);
            self.enemies[k] = enemy;
            k += 1;
        }
        proof {
            assert forall|j: int| 0 <= j < 16 implies (#[trigger] self.enemies@[j]).wf(
                self.timer as int,
            ) by {
                old(self).enemies@[j].lemma_committed_is_wf(camera@, self.timer as int);
            }
        }
    }

    /// The camera position of the next frame, for the wizard and the hat as
    /// they are.
    pub open spec fn next_map_position(&self) -> Vec2 {
        next_camera(
            self.background.position@,
            self.player.hat.position@,
            self.player.wizard.position@,
            self.background.level.width as int,
            self.background.level.height as int,
        )
    }

    /// Advances the level by one frame: the player moves, then the enemies
    /// in the order of their slots, then the camera follows and all sprites
    /// are placed on the screen. Returns how the frame ended.
    pub fn update_frame(&mut self, input: &Input, sfx_player: &mut SfxPlayer) -> (r: UpdateState)
        requires
            old(self).updatable(*input),
            0 <= old(sfx_player).frame,
        ensures
            r == old(self).outcome(*input),
            old(self).lethal_at_entry() ==> r == UpdateState::Dead,
            old(self).player.wizard.collision_mask.lies_in(
                &old(self).background.level,
                old(self).player.wizard.position@,
                TileProperty::Lethal,
            ) ==> r == UpdateState::Dead,
            final(self).timer == old(self).timer + 1,
            final(self).background == (LevelMap {
                position: Vector2D::of(old(self).camera_after(*input)),
                ..old(self).background
            }).committed(),
            final(self).player == old(self).player_after(*input).committed(
                old(self).camera_after(*input),
            ),
            forall|i: int|
                0 <= i < 16 ==> (#[trigger] final(self).enemies@[i]) == old(self).enemy_after(
                    *input,
                    i,
                ).0.committed(old(self).camera_after(*input)),
            final(self).wf(),
            camera_in_level(
                final(self).background.position@,
                old(self).background.level.width as int,
                old(self).background.level.height as int,
            ),
            final(sfx_player)@ == old(sfx_player)@ + old(self).frame_sounds(
                *input,
                old(sfx_player).frame as int,
            ),
            final(sfx_player).frame == old(sfx_player).frame,
    {
        let lethal_at_entry = self.player.wizard.killision_at_point(
            &self.background.level,
            self.player.wizard.position,
        );
        proof {
            let wizard = self.player.wizard;
            if wizard.collision_mask.lies_in(
                &self.background.level,
                wizard.position@,
                TileProperty::Lethal,
            ) {
                lemma_lies_in_touches(
                    wizard.collision_mask,
                    &self.background.level,
                    wizard.position@,
                    TileProperty::Lethal,
                );
            }
        }
        self.timer += 1;
        proof {
            assert forall|i: int| 0 <= i < 16 implies (#[trigger] self.enemies@[i]).placed()
                && self.enemies@[i].wf(self.timer as int) by {
                self.enemies@[i].lemma_wf_is_placed(old(self).timer as int);
                self.enemies@[i].lemma_wf_is_lasting(old(self).timer as int, self.timer as int);
            }
        }
        self.player.update_frame(
            input,
            self.timer,
            &self.background.level,
            &self.enemies,
            sfx_player,
        );
        let ghost moved = *self;
        let enemy_kills = self.update_enemies(sfx_player);
        proof {
            assert forall|i: int| 0 <= i < 16 implies #[trigger] moved.enemy_updated(i) == old(
                self,
            ).enemy_after(*input, i) by {}
            assert(moved.enemies_updated() =~= old(self).enemies_after(*input));
            if enemy_kills {
                let j = choose|j: int|
                    0 <= j < 16 && (#[trigger] moved.enemy_updated(j)).1
                        == EnemyUpdateState::KillPlayer;
                assert(old(self).enemy_after(*input, j).1 == EnemyUpdateState::KillPlayer);
            }
            if old(self).enemy_kills(*input) {
                let j = choose|j: int|
                    0 <= j < 16 && (#[trigger] old(self).enemy_after(*input, j)).1
                        == EnemyUpdateState::KillPlayer;
                assert(moved.enemy_updated(j).1 == EnemyUpdateState::KillPlayer);
            }
        }
        self.commit_frame();

        let player_dead = enemy_kills || lethal_at_entry || self.player.wizard.killision_at_point(
            &self.background.level,
            self.player.wizard.position,
        );
        if player_dead {
            UpdateState::Dead
        } else if self.player.wizard.completion_at_point(
            &self.background.level,
            self.player.wizard.position,
        ) {
            UpdateState::Complete
        } else {
            UpdateState::Normal
        }
    }
}

} // verus!
