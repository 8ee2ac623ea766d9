//! Enemies. Every species is a variant of `Enemy`; `Empty` marks a slot whose
//! enemy is gone. A species keeps the frame at which it entered its state, and
//! derives the time spent in the state from the frame timer.

use crate::entity::{CollisionMask, Entity, SpriteSize};
use crate::level::Level;
use crate::number::FixedNumber;
use crate::player::HatState;
use crate::vector::{lemma_small_is_measurable, lemma_square_bounds, Vec2, Vector2D};
use vstd::prelude::*;

verus! {

/// First tile of the resting slime.
pub const SLIME_IDLE_START: u16 = 19 * 4;

/// First tile of the jumping slime.
pub const SLIME_JUMP_START: u16 = 20 * 4;

/// First tile of the dying slime.
pub const SLIME_SPLAT_START: u16 = 24 * 4;

/// Distance from the wizard, in pixels, below which a slime touches it.
pub const SLIME_TOUCH_RADIUS: i32 = 16;

/// Distance from the wizard, in pixels, below which a resting slime starts to
/// jump.
pub const SLIME_ALERT_RADIUS: i32 = 64;

/// Raw distance along one axis from which on a distance is not measured:
/// 1024 pixels.
pub const MEASURE_LIMIT: i32 = 0x10_0000;

/// Raw horizontal speed of a jumping slime: 1/4.
pub const SLIME_SPEED: i32 = 256;

/// Number of frames for which each image of a slime is shown.
pub const SLIME_FRAME_LENGTH: i32 = 4;

/// Number of images after which a jump ends.
pub const SLIME_JUMP_FRAMES: i32 = 7;

/// Number of images after which a dying slime is removed.
pub const SLIME_DEATH_FRAMES: i32 = 4;

/// What the update of one species asks of the slot that holds it.
#[derive(Clone, Copy, Debug, PartialEq, Eq, Structural)]
pub enum UpdateState {
    /// Nothing.
    Nothing,
    /// The wizard was touched and dies.
    KillPlayer,
    /// The enemy is gone and the slot is to be freed.
    Remove,
}

/// What the update of a slot tells the level.
#[derive(Clone, Copy, Debug, PartialEq, Eq, Structural)]
pub enum EnemyUpdateState {
    /// Nothing.
    Nothing,
    /// The wizard was touched and dies.
    KillPlayer,
}

/// What every species has.
#[derive(Clone, Copy, Debug, PartialEq, Eq, Structural)]
pub struct EnemyInfo {
    pub entity: Entity,
}

/// The states of a slime. `Jumping` and `Dying` hold the frame at which the
/// state was entered.
#[derive(Clone, Copy, Debug, PartialEq, Eq, Structural)]
pub enum SlimeState {
    Idle,
    Jumping(i32),
    Dying(i32),
}

/// A slime: it rests until the wizard comes near, then jumps towards it.
#[derive(Clone, Copy, Debug, PartialEq, Eq, Structural)]
pub struct Slime {
    pub enemy_info: EnemyInfo,
    pub state: SlimeState,
}

/// One slot of the enemy table.
#[derive(Clone, Copy, Debug, PartialEq, Eq, Structural)]
pub enum Enemy {
    Slime(Slime),
    Empty,
}

/// The squared distance between `a` and `b` is below the square of `radius`
/// pixels.
pub open spec fn within_radius(a: Vec2, b: Vec2, radius: int) -> bool {
    a.minus(b).magnitude_squared() < radius * radius * 1024
}

/// A vector with a component of 1024 pixels or more has a squared length of
/// at least the square of 1024 pixels.
pub proof fn lemma_far_is_outside(v: Vec2)
    requires
        v.x <= -MEASURE_LIMIT || v.x >= MEASURE_LIMIT || v.y <= -MEASURE_LIMIT || v.y
            >= MEASURE_LIMIT,
    ensures
        v.magnitude_squared() >= 1024 * 1024 * 1024,
{
    lemma_square_bounds(v.x);
    lemma_square_bounds(v.y);
    if v.x <= -MEASURE_LIMIT || v.x >= MEASURE_LIMIT {
        assert(v.x * v.x >= 0x10_0000 * 0x10_0000) by (nonlinear_arith)
            requires
                v.x <= -0x10_0000 || v.x >= 0x10_0000,
        ;
    } else {
        assert(v.y * v.y >= 0x10_0000 * 0x10_0000) by (nonlinear_arith)
            requires
                v.y <= -0x10_0000 || v.y >= 0x10_0000,
        ;
    }
}

impl EnemyInfo {
    /// An enemy at rest at `start_pos`.
    pub fn new(start_pos: Vector2D, collision: CollisionMask) -> (r: EnemyInfo)
        ensures
            r.entity == (Entity { position: start_pos, ..Entity::created(collision) }),
    {
        let mut enemy_info = EnemyInfo { entity: Entity::new(collision) };
        enemy_info.entity.position = start_pos;
        enemy_info
    }

    /// Moves the enemy by its velocity.
    pub fn update(&mut self, level: &Level)
        requires
            level.wf(),
            old(self).entity.collision_mask.movable(
                old(self).entity.position@,
                old(self).entity.velocity@,
            ),
        ensures
            final(self).entity == old(self).entity.moved(level),
    {
        self.entity.update_position(level);
        proof {
            Vector2D::lemma_view_of(self.entity.position);
        }
    }

    /// Writes the screen position of the enemy to its sprite.
    pub fn commit(&mut self, background_offset: Vector2D)
        requires
            old(self).entity.position@.minus(background_offset@).fits(),
        ensures
            final(self).entity == old(self).entity.committed(background_offset@),
    {
        self.entity.commit_position(background_offset);
    }
}

impl Slime {
    /// The slime can be updated at the frame `timer`: its entity is well
    /// formed, it moves along the ground no faster than `SLIME_SPEED`, and
    /// it entered its state at a frame that has passed.
    pub open spec fn wf(self, timer: int) -> bool {
        &&& self.enemy_info.entity.wf()
        &&& self.enemy_info.entity.velocity@.y == 0
        &&& -SLIME_SPEED <= self.enemy_info.entity.velocity@.x <= SLIME_SPEED
        &&& match self.state {
            SlimeState::Idle => true,
            SlimeState::Jumping(start) => 0 <= start <= timer,
            SlimeState::Dying(start) => 0 <= start <= timer,
        }
    }

    /// What a slime does when the wizard touches it: it dies where the hat
    /// pulls the wizard along, and kills the wizard otherwise.
    pub open spec fn touched(
        state: SlimeState,
        collided: bool,
        hat_state: HatState,
        timer: int,
    ) -> (SlimeState, UpdateState) {
        if !collided {
            (state, UpdateState::Nothing)
        } else if hat_state == HatState::WizardTowards {
            (SlimeState::Dying(timer as i32), UpdateState::Nothing)
        } else {
            (state, UpdateState::KillPlayer)
        }
    }

    /// The image of a jump that has lasted `elapsed` frames: the images are
    /// shown forwards and then backwards.
    pub open spec fn jump_tile(elapsed: int) -> int {
        let offset = elapsed / (SLIME_FRAME_LENGTH as int);
        SLIME_JUMP_START + 4 * if offset >= 4 {
            7 - offset
        } else {
            offset
        }
    }

    /// The slime and its request after it has looked at the wizard and
    /// before it moves.
    pub open spec fn reacted(self, player: Vec2, hat_state: HatState, timer: int) -> (
        Slime,
        UpdateState,
    ) {
        let entity = self.enemy_info.entity;
        let collided = within_radius(entity.position@, player, SLIME_TOUCH_RADIUS as int);
        match self.state {
            SlimeState::Idle => {
                let alert = within_radius(entity.position@, player, SLIME_ALERT_RADIUS as int);
                let tile = SLIME_IDLE_START + (timer / 16 % 2) * 4;
                let state = if alert {
                    SlimeState::Jumping(timer as i32)
                } else {
                    SlimeState::Idle
                };
                let velocity = if alert {
                    Vector2D::of(
                        Vec2 {
                            x: if entity.position@.x > player.x {
                                -SLIME_SPEED
                            } else {
                                SLIME_SPEED as int
                            },
                            y: 0,
                        },
                    )
                } else {
                    entity.velocity
                };
                let (state, request) = Self::touched(state, collided, hat_state, timer);
                (
                    Slime {
                        enemy_info: EnemyInfo {
                            entity: Entity { velocity, ..entity.with_tile(tile as u16) },
                        },
                        state,
                    },
                    request,
                )
            },
            SlimeState::Jumping(start) => {
                let landed = (timer - start) / (SLIME_FRAME_LENGTH as int) >= SLIME_JUMP_FRAMES;
                let after = if landed {
                    Entity { velocity: Vector2D::of(Vec2 { x: 0, y: 0 }), ..entity }
                } else {
                    entity.with_tile(Self::jump_tile(timer - start) as u16)
                };
                let state = if landed {
                    SlimeState::Idle
                } else {
                    self.state
                };
                let (state, request) = Self::touched(state, collided, hat_state, timer);
                (Slime { enemy_info: EnemyInfo { entity: after }, state }, request)
            },
            SlimeState::Dying(start) => {
                let offset = (timer - start) / (SLIME_FRAME_LENGTH as int);
                let still = Entity { velocity: Vector2D::of(Vec2 { x: 0, y: 0 }), ..entity };
                if offset >= SLIME_DEATH_FRAMES {
                    (Slime { enemy_info: EnemyInfo { entity: still }, ..self }, UpdateState::Remove)
                } else {
                    (
                        Slime {
                            enemy_info: EnemyInfo {
                                entity: still.with_tile((SLIME_SPLAT_START + offset * 4) as u16),
                            },
                            ..self
                        },
                        UpdateState::Nothing,
                    )
                }
            },
        }
    }

    /// The slime and its request after one frame: it reacts, and it moves
    /// unless it asked for something.
    pub open spec fn updated(
        self,
        level: &Level,
        player: Vec2,
        hat_state: HatState,
        timer: int,
    ) -> (Slime, UpdateState) {
        let (slime, request) = self.reacted(player, hat_state, timer);
        if request == UpdateState::Nothing {
            (Slime { enemy_info: EnemyInfo { entity: slime.enemy_info.entity.moved(level) }, ..slime }, request)
        } else {
            (slime, request)
        }
    }

    /// The slime that `new` makes: at rest at `start_pos`, with a mask of 14
    /// by 14 pixels.
    pub open spec fn created(start_pos: Vector2D) -> Slime {
        Slime {
            enemy_info: EnemyInfo {
                entity: (Entity {
                    position: start_pos,
                    ..Entity::created(CollisionMask { x: 14, y: 14 })
                }).with_size(SpriteSize::S16x16),
            },
            state: SlimeState::Idle,
        }
    }

    /// A resting slime at `start_pos`.
    pub fn new(start_pos: Vector2D) -> (r: Slime)
        ensures
            r == Slime::created(start_pos),
    {
        let mut slime = Slime {
            enemy_info: EnemyInfo::new(start_pos, CollisionMask { x: 14, y: 14 }),
            state: SlimeState::Idle,
        };
        slime.enemy_info.entity.sprite.size = SpriteSize::S16x16;
        slime
    }

    /// Whether the wizard at `player_pos` is nearer than `radius` pixels. A
    /// wizard that is 1024 pixels or more away along an axis is not near, and
    /// its distance is not computed.
    pub fn player_within(&self, player_pos: Vector2D, radius: i32) -> (r: bool)
        requires
            self.enemy_info.entity.position@.minus(player_pos@).fits(),
            0 <= radius <= 1024,
        ensures
            r == within_radius(self.enemy_info.entity.position@, player_pos@, radius as int),
    {
        assert(radius * radius <= 1024 * 1024) by (nonlinear_arith)
            requires
                0 <= radius <= 1024,
        ;
        let limit = FixedNumber::new(radius * radius);
        let offset = self.enemy_info.entity.position.sub(player_pos);
        if offset.x.raw <= -MEASURE_LIMIT || offset.x.raw >= MEASURE_LIMIT || offset.y.raw
            <= -MEASURE_LIMIT || offset.y.raw >= MEASURE_LIMIT {
            proof {
                lemma_far_is_outside(offset@);
            }
            return false;
        }
        proof {
            lemma_small_is_measurable(offset@);
        }
        offset.magnitude_squared().raw < limit.raw
    }

    /// Advances the slime by one frame.
    pub fn update(&mut self, level: &Level, player_pos: Vector2D, hat_state: HatState, timer: i32) -> (r:
        UpdateState)
        requires
            level.wf(),
            old(self).wf(timer as int),
            0 <= timer,
            old(self).enemy_info.entity.position@.minus(player_pos@).fits(),
        ensures
            (*final(self), r) == old(self).updated(level, player_pos@, hat_state, timer as int),
            final(self).wf(timer as int),
    {
        let player_has_collided = self.player_within(player_pos, SLIME_TOUCH_RADIUS);

        match self.state {
            SlimeState::Idle => {
                let offset = (timer / 16 % 2) * 4;
                self.enemy_info.entity.sprite.tile_id = SLIME_IDLE_START + offset as u16;

                if self.player_within(player_pos, SLIME_ALERT_RADIUS) {
                    self.state = SlimeState::Jumping(timer);
                    let x_vel = if self.enemy_info.entity.position.x.raw > player_pos.x.raw {
                        FixedNumber::new(-1)
                    } else {
                        FixedNumber::new(1)
                    };
                    self.enemy_info.entity.velocity = Vector2D::new(
                        x_vel.div_int(4),
                        FixedNumber::zero(),
                    );
                }
                if player_has_collided {
                    if hat_state == HatState::WizardTowards {
                        self.state = SlimeState::Dying(timer);
                    } else {
                        return UpdateState::KillPlayer;
                    }
                }
            },
            SlimeState::Jumping(jumping_start_frame) => {
                let offset = (timer - jumping_start_frame) / SLIME_FRAME_LENGTH;

                if offset >= SLIME_JUMP_FRAMES {
                    self.enemy_info.entity.velocity = Vector2D::zero();
                    self.state = SlimeState::Idle;
                } else {
                    let sprite_offset = if offset >= 4 {
                        7 - offset
                    } else {
                        offset
                    };
                    self.enemy_info.entity.sprite.tile_id = SLIME_JUMP_START + (sprite_offset
                        * 4) as u16;
                }
                if player_has_collided {
                    if hat_state == HatState::WizardTowards {
                        self.state = SlimeState::Dying(timer);
                    } else {
                        return UpdateState::KillPlayer;
                    }
                }
            },
            SlimeState::Dying(dying_start_frame) => {
                let offset = (timer - dying_start_frame) / SLIME_FRAME_LENGTH;
                self.enemy_info.entity.velocity = Vector2D::zero();

                if offset >= SLIME_DEATH_FRAMES {
                    return UpdateState::Remove;
                }
                self.enemy_info.entity.sprite.tile_id = SLIME_SPLAT_START + (offset * 4) as u16;
            },
        }

        proof {
            self.enemy_info.entity.lemma_in_world_is_movable();
            self.enemy_info.entity.lemma_moved_stays_in_world(level);
        }
        self.enemy_info.update(level);

        UpdateState::Nothing
    }

    /// Writes the screen position of the slime to its sprite.
    pub fn commit(&mut self, background_offset: Vector2D)
        requires
            old(self).enemy_info.entity.position@.minus(background_offset@).fits(),
        ensures
            final(self).enemy_info.entity == old(self).enemy_info.entity.committed(
                background_offset@,
            ),
            final(self).state == old(self).state,
    {
        self.enemy_info.commit(background_offset);
    }
}

impl Enemy {
    /// The slot can be updated at the frame `timer`.
    pub open spec fn wf(self, timer: int) -> bool {
        match self {
            Enemy::Slime(slime) => slime.wf(timer),
            Enemy::Empty => true,
        }
    }

    /// The edges of the mask of the enemy are fixed-point numbers.
    pub open spec fn placed(self) -> bool {
        match self {
            Enemy::Slime(slime) => slime.enemy_info.entity.collision_mask.placeable(
                slime.enemy_info.entity.position@,
            ),
            Enemy::Empty => true,
        }
    }

    /// The vector from `point` to the enemy is a pair of fixed-point numbers.
    pub open spec fn comparable_to(self, point: Vec2) -> bool {
        match self {
            Enemy::Slime(slime) => slime.enemy_info.entity.position@.minus(point).fits(),
            Enemy::Empty => true,
        }
    }

    /// The screen position of the enemy, for a camera at `offset`, is a pair
    /// of fixed-point numbers.
    pub open spec fn committable(self, offset: Vec2) -> bool {
        match self {
            Enemy::Slime(slime) => slime.enemy_info.entity.position@.minus(offset).fits(),
            Enemy::Empty => true,
        }
    }

    /// The enemy occupies the cell of the point `point`. An empty slot
    /// occupies nothing.
    pub open spec fn occupies(self, point: Vec2) -> bool {
        match self {
            Enemy::Slime(slime) => slime.enemy_info.entity.occupies(point),
            Enemy::Empty => false,
        }
    }

    /// The slot and its message after one frame. An empty slot stays empty
    /// and says nothing; a slime that asks to be removed leaves an empty
    /// slot.
    pub open spec fn updated(
        self,
        level: &Level,
        player: Vec2,
        hat_state: HatState,
        timer: int,
    ) -> (Enemy, EnemyUpdateState) {
        match self {
            Enemy::Empty => (Enemy::Empty, EnemyUpdateState::Nothing),
            Enemy::Slime(slime) => {
                let (next, request) = slime.updated(level, player, hat_state, timer);
                match request {
                    UpdateState::Remove => (Enemy::Empty, EnemyUpdateState::Nothing),
                    UpdateState::KillPlayer => (Enemy::Slime(next), EnemyUpdateState::KillPlayer),
                    UpdateState::Nothing => (Enemy::Slime(next), EnemyUpdateState::Nothing),
                }
            },
        }
    }

    /// The slot after its screen position was written to its sprite.
    pub open spec fn committed(self, offset: Vec2) -> Enemy {
        match self {
            Enemy::Empty => Enemy::Empty,
            Enemy::Slime(slime) => Enemy::Slime(
                Slime {
                    enemy_info: EnemyInfo { entity: slime.enemy_info.entity.committed(offset) },
                    ..slime
                },
            ),
        }
    }

    /// An enemy that can be updated has a mask whose edges are fixed-point
    /// numbers, and it can be compared with every place within the world.
    pub proof fn lemma_wf_is_placed(self, timer: int)
        requires
            self.wf(timer),
        ensures
            self.placed(),
            forall|point: Vec2|
                -0x1000_0000 <= point.x <= 0x1000_0000 && -0x1000_0000 <= point.y <= 0x1000_0000
                    ==> #[trigger] self.comparable_to(point) && self.committable(point),
    {
    }

    /// An enemy that can be updated at a frame can be updated at every later
    /// frame.
    pub proof fn lemma_wf_is_lasting(self, timer: int, later: int)
        requires
            self.wf(timer),
            timer <= later,
        ensures
            self.wf(later),
    {
    }

    /// Placing the sprite of an enemy leaves the enemy well formed.
    pub proof fn lemma_committed_is_wf(self, offset: Vec2, timer: int)
        requires
            self.wf(timer),
        ensures
            self.committed(offset).wf(timer),
    {
    }

    /// The enemy began to die at the frame `timer`.
    pub open spec fn died_at(self, timer: int) -> bool {
        self matches Enemy::Slime(slime) && slime.state == SlimeState::Dying(timer as i32)
    }

    /// Whether the enemy began to die at the frame `timer`.
    pub fn has_died_at(&self, timer: i32) -> (r: bool)
        ensures
            r == self.died_at(timer as int),
    {
        match self {
            Enemy::Slime(slime) => match slime.state {
                SlimeState::Dying(start) => start == timer,
                _ => false,
            },
            Enemy::Empty => false,
        }
    }

    /// A slot with a resting slime at `start_pos`.
    pub fn new_slime(start_pos: Vector2D) -> (r: Enemy)
        ensures
            r == Enemy::Slime(Slime::created(start_pos)),
    {
        Enemy::Slime(Slime::new(start_pos))
    }

    /// Advances the enemy in the slot by one frame.
    pub fn update(&mut self, level: &Level, player_pos: Vector2D, hat_state: HatState, timer: i32) -> (r:
        EnemyUpdateState)
        requires
            level.wf(),
            0 <= timer,
            old(self).wf(timer as int),
            old(self).comparable_to(player_pos@),
        ensures
            (*final(self), r) == old(self).updated(level, player_pos@, hat_state, timer as int),
            final(self).wf(timer as int),
    {
        let update_state = match self {
            Enemy::Slime(slime) => slime.update(level, player_pos, hat_state, timer),
            Enemy::Empty => UpdateState::Nothing,
        };

        match update_state {
            UpdateState::Remove => {
                *self = Enemy::Empty;
                EnemyUpdateState::Nothing
            },
            UpdateState::KillPlayer => EnemyUpdateState::KillPlayer,
            UpdateState::Nothing => EnemyUpdateState::Nothing,
        }
    }

    /// Writes the screen position of the enemy to its sprite.
    pub fn commit(&mut self, background_offset: Vector2D)
        requires
            old(self).committable(background_offset@),
        ensures
            *final(self) == old(self).committed(background_offset@),
    {
        match self {
            Enemy::Slime(slime) => slime.commit(background_offset),
            Enemy::Empty => {},
        }
    }

    /// Whether the enemy is in the way of the hat at `position`.
    pub fn collides_with_hat(&self, position: Vector2D) -> (r: bool)
        requires
            self.placed(),
        ensures
            r == self.occupies(position@),
    {
        match self {
            Enemy::Slime(slime) => slime.enemy_info.entity.contains_point(position),
            Enemy::Empty => false,
        }
    }
}

impl Default for Enemy {
    fn default() -> (r: Enemy)
        ensures
            r == Enemy::Empty,
    {
        Enemy::Empty
    }
}

/// A slime that asks to be removed leaves an empty slot, and an empty slot
/// is inert: its update changes nothing and says nothing, writing its screen
/// position changes nothing, and it is never in the way of the hat.
pub proof fn lemma_removed_slot_is_inert(
    enemy: Enemy,
    level: &Level,
    player: Vec2,
    hat_state: HatState,
    timer: int,
    later_player: Vec2,
    later_hat_state: HatState,
    later_timer: int,
    offset: Vec2,
    point: Vec2,
)
    requires
        enemy matches Enemy::Slime(slime) && slime.updated(level, player, hat_state, timer).1
            == UpdateState::Remove,
    ensures
        ({
            let slot = enemy.updated(level, player, hat_state, timer).0;
            &&& slot == Enemy::Empty
            &&& slot.updated(level, later_player, later_hat_state, later_timer) == (
                Enemy::Empty,
                EnemyUpdateState::Nothing,
            )
            &&& slot.committed(offset) == Enemy::Empty
            &&& !slot.occupies(point)
        }),
{
}

/// A dying slime asks to be removed as soon as sixteen frames have passed
/// since it began to die, and not before.
pub proof fn lemma_dying_slime_is_removed(
    slime: Slime,
    level: &Level,
    player: Vec2,
    hat_state: HatState,
    timer: int,
)
    requires
        slime.state matches SlimeState::Dying(start) && start <= timer,
    ensures
        slime.updated(level, player, hat_state, timer).1 == UpdateState::Remove <==> timer - (
        slime.state->Dying_0) >= 16,
{
}

} // verus!
