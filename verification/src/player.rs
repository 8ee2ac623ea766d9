//! The wizard, the hat, and the state machine that ties them together.
//!
//! A frame of the player runs in five steps: the throw button is handled,
//! the ground below the wizard is probed, the wizard is steered and moved,
//! the sprites are dressed, and the hat follows its rule of motion. Each step
//! has a spec function that says what the player is after it, and
//! `Player::after_frame` chains them.

use crate::enemies::Enemy;
use crate::entity::{CollisionMask, Entity, Sprite, SpriteSize};
use crate::level::{Level, TileProperty};
use crate::number::{mul_raw, trunc_div, trunc_rem, FixedNumber};
use crate::sfx::{SfxPlayer, SoundEffect};
use crate::vector::{
    lemma_direction_is_short, lemma_magnitude_at_most, lemma_small_is_measurable, Vec2, Vector2D,
};
use vstd::prelude::*;

verus! {

/// First tile of the walking wizard.
pub const WIZARD_TILE_START: u16 = 0 * 4;

/// Tile of the wizard that rises.
pub const WIZARD_JUMP: u16 = 4 * 4;

/// First tile of the wizard that falls.
pub const WIZARD_FALL_START: u16 = 5 * 4;

/// First tile of the hat before any recall.
pub const HAT_TILE_START: u16 = 9 * 4;

/// First tile of the hat after one recall.
pub const HAT_TILE_START_SECOND: u16 = 28 * 4;

/// First tile of the hat after two recalls.
pub const HAT_TILE_START_THIRD: u16 = 38 * 4;

/// Raw distance from its resting place below which the hat is caught: 16
/// pixels.
pub const CATCH_DISTANCE: i32 = 16 * 1024;

/// Number of recalls that are granted between two stays of the wizard on
/// the ground. The recall count never exceeds it.
pub const MAX_RECALLS: i8 = 2;

/// Number of frames after a throw in which a slow hat is stopped.
pub const HAT_SLOW_FRAMES: i32 = 10;

/// Raw speed below which a freshly thrown hat is stopped: 2.
pub const HAT_SLOW_SPEED: i32 = 2 * 1024;

/// Raw speed of a throw along an axis, before normalisation: 5.
pub const THROW_SPEED: i32 = 5;

/// Largest raw speed along one axis at which `Player::update_frame` is
/// known not to overflow: 64 pixels per frame.
pub const SPEED_LIMIT: i32 = 0x1_0000;

/// Largest raw distance along one axis between the wizard and the hat at
/// which `Player::update_frame` is known not to overflow: 896 pixels.
pub const REACH_LIMIT: i32 = 0xe_0000;

/// Where the hat is in relation to the wizard.
#[derive(Clone, Copy, Debug, PartialEq, Eq, Structural)]
pub enum HatState {
    /// The hat rests on the head of the wizard.
    OnHead,
    /// The hat flies and is drawn back to the wizard.
    Thrown,
    /// The hat hangs in the air and the wizard is pulled towards it.
    WizardTowards,
}

/// Reading of one axis of the direction pad.
#[derive(Clone, Copy, Debug, PartialEq, Eq, Structural)]
pub enum Tri {
    Negative,
    Zero,
    Positive,
}

/// What the buttons say in one frame.
#[derive(Clone, Copy, Debug, PartialEq, Eq, Structural)]
pub struct Input {
    /// The throw button went down in this frame.
    pub a_just_pressed: bool,
    /// The jump button went down in this frame.
    pub b_just_pressed: bool,
    /// Horizontal reading of the direction pad.
    pub x_tri: Tri,
    /// Vertical reading of the direction pad.
    pub y_tri: Tri,
}

impl Tri {
    /// The reading as a number: -1, 0 or 1.
    pub open spec fn sign(self) -> int {
        match self {
            Tri::Negative => -1,
            Tri::Zero => 0,
            Tri::Positive => 1,
        }
    }

    /// The reading as a number: -1, 0 or 1.
    pub fn to_int(self) -> (r: i32)
        ensures
            r == self.sign(),
    {
        match self {
            Tri::Negative => -1,
            Tri::Zero => 0,
            Tri::Positive => 1,
        }
    }
}

impl Input {
    /// The direction pad points somewhere.
    pub open spec fn has_direction(self) -> bool {
        self.x_tri != Tri::Zero || self.y_tri != Tri::Zero
    }

    /// The direction in which the pad points, with components -1, 0 or 1.
    pub open spec fn direction(self) -> Vec2 {
        Vec2::whole(self.x_tri.sign(), self.y_tri.sign())
    }

    /// A frame in which no button is down.
    pub fn idle() -> (r: Input)
        ensures
            r == (Input {
                a_just_pressed: false,
                b_just_pressed: false,
                x_tri: Tri::Zero,
                y_tri: Tri::Zero,
            }),
    {
        Input { a_just_pressed: false, b_just_pressed: false, x_tri: Tri::Zero, y_tri: Tri::Zero }
    }
}

/// The recall count after one more recall was asked for: a recall that is
/// granted is counted, and one that is refused leaves the count as it is.
pub open spec fn recalls_after_press(num_recalls: int) -> int {
    if num_recalls < MAX_RECALLS {
        num_recalls + 1
    } else {
        num_recalls
    }
}

impl HatState {
    /// A press of the throw button throws the hat: the hat is on the head
    /// and the direction pad points somewhere.
    pub open spec fn throws(self, a_pressed: bool, has_direction: bool) -> bool {
        self == HatState::OnHead && a_pressed && has_direction
    }

    /// A press of the throw button begins a recall: the hat is thrown and
    /// fewer than `MAX_RECALLS` recalls were made since the wizard last stood
    /// on the ground.
    pub open spec fn recalls(self, a_pressed: bool, num_recalls: int) -> bool {
        self == HatState::Thrown && a_pressed && num_recalls < MAX_RECALLS
    }

    /// The state after the throw button was looked at. A press throws the
    /// hat where the direction pad points somewhere, recalls a thrown hat
    /// where a recall is still granted, and ends a recall that is under way.
    pub open spec fn pressed(self, a_pressed: bool, has_direction: bool, num_recalls: int) -> HatState {
        if !a_pressed {
            self
        } else {
            match self {
                HatState::OnHead => if has_direction {
                    HatState::Thrown
                } else {
                    HatState::OnHead
                },
                HatState::Thrown => if num_recalls < MAX_RECALLS {
                    HatState::WizardTowards
                } else {
                    HatState::Thrown
                },
                HatState::WizardTowards => HatState::Thrown,
            }
        }
    }

    /// The state after the hat has followed its rule of motion at the raw
    /// distance `distance` from its resting place. A hat that is off the
    /// head, thrown or recalled, comes back to the head below
    /// `CATCH_DISTANCE`, and only after it has left that range.
    pub open spec fn settled(self, distance: int, left_range: bool) -> HatState {
        match self {
            HatState::OnHead => HatState::OnHead,
            HatState::Thrown => if left_range && distance < CATCH_DISTANCE {
                HatState::OnHead
            } else {
                HatState::Thrown
            },
            HatState::WizardTowards => if left_range && distance < CATCH_DISTANCE {
                HatState::OnHead
            } else {
                HatState::WizardTowards
            },
        }
    }

    /// The state at the end of a frame. The state changes at most once in a
    /// frame: a hat that the button has thrown, recalled or set free in this
    /// frame is not back on the head in it. A hat whose state the button has
    /// left as it was follows the rule of motion of that state.
    pub open spec fn next(
        self,
        a_pressed: bool,
        has_direction: bool,
        num_recalls: int,
        distance: int,
        left_range: bool,
    ) -> HatState {
        if self.pressed(a_pressed, has_direction, num_recalls) != self {
            self.pressed(a_pressed, has_direction, num_recalls)
        } else {
            self.settled(distance, left_range)
        }
    }

    /// The state after the throw button was looked at.
    pub fn after_button(self, a_pressed: bool, has_direction: bool, num_recalls: i8) -> (r:
        HatState)
        ensures
            r == self.pressed(a_pressed, has_direction, num_recalls as int),
    {
        if !a_pressed {
            return self;
        }
        match self {
            HatState::OnHead => if has_direction {
                HatState::Thrown
            } else {
                HatState::OnHead
            },
            HatState::Thrown => if num_recalls < MAX_RECALLS {
                HatState::WizardTowards
            } else {
                HatState::Thrown
            },
            HatState::WizardTowards => HatState::Thrown,
        }
    }

    /// The state after the hat has followed its rule of motion.
    pub fn after_motion(self, distance: FixedNumber, left_range: bool) -> (r: HatState)
        ensures
            r == self.settled(distance@, left_range),
    {
        match self {
            HatState::OnHead => HatState::OnHead,
            HatState::Thrown => if left_range && distance.raw < CATCH_DISTANCE {
                HatState::OnHead
            } else {
                HatState::Thrown
            },
            HatState::WizardTowards => if left_range && distance.raw < CATCH_DISTANCE {
                HatState::OnHead
            } else {
                HatState::WizardTowards
            },
        }
    }

    /// The state at the end of a frame.
    pub fn after_frame(
        self,
        a_pressed: bool,
        has_direction: bool,
        num_recalls: i8,
        distance: FixedNumber,
        left_range: bool,
    ) -> (r: HatState)
        ensures
            r == self.next(a_pressed, has_direction, num_recalls as int, distance@, left_range),
    {
        let pressed = self.after_button(a_pressed, has_direction, num_recalls);
        if pressed != self {
            pressed
        } else {
            self.after_motion(distance, left_range)
        }
    }
}

/// Whether the hat has left the catch range, after a frame at the raw
/// distance `distance` from its resting place.
pub open spec fn latched(left_range: bool, distance: int) -> bool {
    left_range || distance > CATCH_DISTANCE
}

/// Every state has exactly one successor for every reading of the button,
/// the direction pad, the recall count, the distance and the latch, and no
/// state is a dead end: from each state some reading leads to each of the
/// states that the state machine joins it to.
pub proof fn lemma_hat_state_is_total(
    state: HatState,
    a_pressed: bool,
    has_direction: bool,
    num_recalls: int,
    distance: int,
    left_range: bool,
)
    ensures
        state.next(a_pressed, has_direction, num_recalls, distance, left_range) == HatState::OnHead
            || state.next(a_pressed, has_direction, num_recalls, distance, left_range)
            == HatState::Thrown || state.next(
            a_pressed,
            has_direction,
            num_recalls,
            distance,
            left_range,
        ) == HatState::WizardTowards,
        HatState::OnHead.next(true, true, num_recalls, distance, left_range) == HatState::Thrown,
        HatState::Thrown.next(false, has_direction, num_recalls, 0, true) == HatState::OnHead,
        HatState::Thrown.next(true, has_direction, 0, distance, left_range)
            == HatState::WizardTowards,
        HatState::WizardTowards.next(false, has_direction, num_recalls, 0, true)
            == HatState::OnHead,
        HatState::WizardTowards.next(true, has_direction, num_recalls, distance, left_range)
            == HatState::Thrown,
        !a_pressed ==> HatState::OnHead.next(
            a_pressed,
            has_direction,
            num_recalls,
            distance,
            left_range,
        ) == HatState::OnHead,
{
}

/// A hat that is off the head comes back only once it has left the catch
/// range, whether it is thrown or recalled. While the latch is not set, no
/// reading of the button and no distance brings it back; with the latch set
/// it comes back exactly below `CATCH_DISTANCE`. A recall that begins in a
/// frame goes on at the end of that frame, at whatever distance the hat is,
/// and so do a throw and a hat that is set free from a recall. The latch is
/// set by a frame at a distance above `CATCH_DISTANCE`, and such a frame
/// never brings the hat back.
pub proof fn lemma_catch_needs_latch(
    state: HatState,
    a_pressed: bool,
    has_direction: bool,
    num_recalls: int,
    distance: int,
    left_range: bool,
)
    ensures
        state != HatState::OnHead ==> (state.settled(distance, left_range) == HatState::OnHead
            <==> left_range && distance < CATCH_DISTANCE),
        state != HatState::OnHead && !left_range ==> state.next(
            a_pressed,
            has_direction,
            num_recalls,
            distance,
            left_range,
        ) != HatState::OnHead,
        state.recalls(a_pressed, num_recalls) ==> state.next(
            a_pressed,
            has_direction,
            num_recalls,
            distance,
            left_range,
        ) == HatState::WizardTowards,
        state.throws(a_pressed, has_direction) ==> state.next(
            a_pressed,
            has_direction,
            num_recalls,
            distance,
            left_range,
        ) == HatState::Thrown,
        state == HatState::WizardTowards && a_pressed ==> state.next(
            a_pressed,
            has_direction,
            num_recalls,
            distance,
            left_range,
        ) == HatState::Thrown,
        !left_range && latched(left_range, distance) ==> distance > CATCH_DISTANCE
            && state.settled(distance, latched(left_range, distance)) == state,
        state.settled(distance, latched(left_range, distance)) == state.settled(
            distance,
            left_range,
        ),
{
}

/// The recall count stays between nothing and `MAX_RECALLS`: a press never
/// takes it beyond.
pub proof fn lemma_recall_count_is_capped(num_recalls: int)
    requires
        0 <= num_recalls <= MAX_RECALLS,
    ensures
        0 <= recalls_after_press(num_recalls) <= MAX_RECALLS,
        num_recalls == MAX_RECALLS ==> recalls_after_press(num_recalls) == MAX_RECALLS,
        num_recalls == MAX_RECALLS ==> HatState::Thrown.pressed(true, true, num_recalls)
            == HatState::Thrown,
{
}

/// The index `i` of a sequence that runs from 0 up to `n - 1` and back down.
pub open spec fn ping_pong_index(i: int, n: int) -> int {
    let cycle = 2 * (n - 1);
    let k = trunc_rem(i, cycle);
    if k >= n {
        cycle - k
    } else {
        k
    }
}

/// The index `i` of a sequence that runs from 0 up to `n - 1` and back down.
pub fn ping_pong(i: i32, n: i32) -> (r: i32)
    requires
        2 <= n <= 0x4000_0000,
    ensures
        r == ping_pong_index(i as int, n as int),
        i >= 0 ==> 0 <= r < n,
{
    let cycle = 2 * (n - 1);
    let i = i % cycle;
    if i >= n {
        cycle - i
    } else {
        i
    }
}

/// The velocity of a hat thrown in the direction `direction`: five times the
/// normalised direction, and a third more downwards.
pub open spec fn throw_velocity(direction: Vec2) -> Vec2 {
    let velocity = direction.normalised().times_int(5);
    Vec2 {
        x: velocity.x,
        y: if velocity.y > 0 {
            mul_raw(velocity.y, trunc_div(4096, 3))
        } else {
            velocity.y
        },
    }
}

/// First tile of the hat for a recall count.
pub open spec fn hat_base_tile(num_recalls: int) -> int {
    if num_recalls == 0 {
        HAT_TILE_START as int
    } else if num_recalls == 1 {
        HAT_TILE_START_SECOND as int
    } else {
        HAT_TILE_START_THIRD as int
    }
}

/// The image of the flying hat at the frame `timer`, out of ten. Each image
/// is shown for one frame before any recall, for two frames after one recall,
/// and for four frames after that.
pub open spec fn hat_spin(timer: int, num_recalls: int) -> int {
    if num_recalls == 0 {
        timer % 10
    } else if num_recalls == 1 {
        timer / 2 % 10
    } else {
        timer / 4 % 10
    }
}

/// Where the hat rests, relative to the wizard, for an image of the wizard:
/// the vector from the hat to the wizard.
pub open spec fn resting_offset(wizard_frame: int) -> Vec2 {
    if wizard_frame == 1 || wizard_frame == 2 {
        Vec2::whole(0, 9)
    } else if wizard_frame == 5 {
        Vec2::whole(0, 10)
    } else {
        Vec2::whole(0, 8)
    }
}

/// The velocity that a wizard with the velocity `v` asks for. On the ground
/// it takes up 1/16 per frame from the direction pad, keeps 54/64 of its
/// velocity, and jumps with -3/2. In the air it takes up 1/64, keeps 63/64,
/// and gains 1/16 downwards.
#[verifier::opaque]
pub open spec fn steered_velocity(v: Vec2, on_ground: bool, input: Input) -> Vec2 {
    if on_ground {
        let damped = (Vec2 {
            x: v.x + trunc_div(input.x_tri.sign() * 1024, 16),
            y: v.y,
        }).times_int(54).over_int(64);
        if input.b_just_pressed {
            Vec2 { x: damped.x, y: -1536 }
        } else {
            damped
        }
    } else {
        (Vec2 { x: v.x + trunc_div(input.x_tri.sign() * 1024, 64), y: v.y }).times_int(
            63,
        ).over_int(64).plus(Vec2 { x: 0, y: 64 })
    }
}

/// The image of the wizard after it has moved by `moved` in the frame
/// `timer`, as the number that decides where the hat rests and as the tile of
/// the sprite. A wizard that moves sideways walks, one that rises jumps, and
/// one that falls flaps its beard once it falls fast.
#[verifier::opaque]
pub open spec fn wizard_image(moved: Vec2, timer: int, frame: u8, tile: u16) -> (u8, u16) {
    let step = ping_pong_index(timer / 16, 4);
    let walking = if moved.x != 0 {
        (step as u8, (WIZARD_TILE_START + step * 4) as u16)
    } else {
        (frame, tile)
    };
    if moved.y < -64 {
        (5u8, WIZARD_JUMP)
    } else if moved.y > 64 {
        (
            0u8,
            (WIZARD_FALL_START + 4 * if moved.y * 2 > 3072 {
                (timer / 4) % 4
            } else {
                0
            }) as u16,
        )
    } else {
        walking
    }
}

/// The wizard and the hat.
#[derive(Clone, Copy, Debug, PartialEq, Eq, Structural)]
pub struct Player {
    pub wizard: Entity,
    pub hat: Entity,
    pub hat_state: HatState,
    /// Whether the hat has left the catch range since it was thrown.
    pub hat_left_range: bool,
    /// Number of frames in which the thrown hat was stopped for being slow.
    pub hat_slow_counter: i32,
    /// Image of the wizard; it decides where the hat rests.
    pub wizard_frame: u8,
    /// Number of recalls since the wizard last stood on the ground.
    pub num_recalls: i8,
    pub is_on_ground: bool,
    /// The side to which the wizard last moved.
    pub facing: Tri,
}

impl Player {
    /// The masks cover at least one cell, the wizard lies within the world,
    /// and the counters are in range.
    pub open spec fn wf(self) -> bool {
        &&& self.wizard.wf()
        &&& self.hat.collision_mask.x >= 2
        &&& self.hat.collision_mask.y >= 2
        &&& 0 <= self.num_recalls <= MAX_RECALLS
        &&& 0 <= self.hat_slow_counter <= HAT_SLOW_FRAMES
    }

    /// The player is well formed, and the speeds and the distance between
    /// the wizard and a hat that is off the head are small enough for a frame
    /// to be computed without overflow.
    pub open spec fn within_limits(self) -> bool {
        &&& self.wf()
        &&& self.hat.in_world()
        &&& self.wizard.slower_than(SPEED_LIMIT as int)
        &&& self.hat.slower_than(SPEED_LIMIT as int)
        &&& self.reach_within(REACH_LIMIT as int)
    }

    /// The hat is on the head, or it is at most `limit` away from the wizard
    /// along each axis.
    pub open spec fn reach_within(self, limit: int) -> bool {
        self.hat_state == HatState::OnHead || self.reach() <= limit
    }

    /// A frame with the buttons `input` can be computed without overflow: the
    /// player is within its limits, and a hat that is thrown in this frame is
    /// at most `REACH_LIMIT` away from the wizard.
    pub open spec fn updatable(self, input: Input) -> bool {
        &&& self.within_limits()
        &&& self.hat_state.pressed(
            input.a_just_pressed,
            input.has_direction(),
            self.num_recalls as int,
        ) != HatState::OnHead ==> self.reach() <= REACH_LIMIT
    }

    /// The larger of the horizontal and the vertical raw distance between
    /// the wizard and the hat.
    pub open spec fn reach(self) -> int {
        let d = self.wizard.position@.minus(self.hat.position@);
        let dx = if d.x < 0 {
            -d.x
        } else {
            d.x
        };
        let dy = if d.y < 0 {
            -d.y
        } else {
            d.y
        };
        if dx < dy {
            dy
        } else {
            dx
        }
    }

    /// The player that `new` makes for a wizard that starts at
    /// `start_position`.
    pub open spec fn created(start_position: Vector2D) -> Player {
        Player {
            wizard: Entity {
                sprite: Sprite {
                    tile_id: WIZARD_TILE_START,
                    size: SpriteSize::S16x16,
                    visible: true,
                    ..Entity::created(CollisionMask { x: 6, y: 14 }).sprite
                },
                position: start_position,
                ..Entity::created(CollisionMask { x: 6, y: 14 })
            },
            hat: Entity {
                sprite: Sprite {
                    tile_id: HAT_TILE_START,
                    size: SpriteSize::S16x16,
                    visible: true,
                    ..Entity::created(CollisionMask { x: 6, y: 6 }).sprite
                },
                ..Entity::created(CollisionMask { x: 6, y: 6 })
            },
            hat_slow_counter: 0,
            hat_state: HatState::OnHead,
            hat_left_range: false,
            wizard_frame: 0,
            num_recalls: 0,
            is_on_ground: true,
            facing: Tri::Zero,
        }
    }

    /// The player after the throw button was looked at.
    #[verifier::opaque]
    pub open spec fn after_buttons(self, input: Input) -> Player {
        if !input.a_just_pressed {
            self
        } else {
            match self.hat_state {
                HatState::OnHead => if input.has_direction() {
                    Player {
                        hat: Entity {
                            velocity: Vector2D::of(throw_velocity(input.direction())),
                            ..self.hat
                        },
                        hat_state: HatState::Thrown,
                        hat_left_range: false,
                        hat_slow_counter: 0,
                        ..self
                    }
                } else {
                    self
                },
                HatState::Thrown => if self.num_recalls < MAX_RECALLS {
                    Player {
                        num_recalls: recalls_after_press(self.num_recalls as int) as i8,
                        hat: Entity { velocity: Vector2D::of(Vec2 { x: 0, y: 0 }), ..self.hat },
                        wizard: Entity {
                            velocity: Vector2D::of(Vec2 { x: 0, y: 0 }),
                            ..self.wizard
                        },
                        hat_state: HatState::WizardTowards,
                        ..self
                    }
                } else {
                    self
                },
                HatState::WizardTowards => Player {
                    hat_state: HatState::Thrown,
                    wizard: Entity {
                        velocity: Vector2D::of(self.wizard.velocity@.over_int(8)),
                        ..self.wizard
                    },
                    ..self
                },
            }
        }
    }

    /// The sound of the throw button, for a sound player made at the frame
    /// `frame`: a whoosh where the hat is thrown.
    pub open spec fn button_sounds(self, input: Input, frame: int) -> Seq<SoundEffect> {
        if input.a_just_pressed && self.hat_state == HatState::OnHead && input.has_direction() {
            seq![SfxPlayer::whoosh(frame)]
        } else {
            Seq::empty()
        }
    }

    /// Whether the wizard stands on the ground: its mask, one pixel further
    /// down, touches a solid tile.
    pub open spec fn grounded(self, level: &Level) -> bool {
        self.wizard.collision_mask.touches(
            level,
            self.wizard.position@.plus(Vec2::whole(0, 1)),
            TileProperty::Solid,
        )
    }

    /// The player after the ground was probed.
    pub open spec fn after_ground_probe(self, level: &Level) -> Player {
        Player { is_on_ground: self.grounded(level), ..self }
    }

    /// The sound of the ground probe: a landing, where the wizard comes down
    /// faster than one pixel per frame.
    pub open spec fn landing_sounds(self, level: &Level) -> Seq<SoundEffect> {
        if self.grounded(level) && !self.is_on_ground && self.wizard.velocity@.y > 1024 {
            seq![SoundEffect::Land]
        } else {
            Seq::empty()
        }
    }

    /// The player after the wizard was steered and moved. Nothing happens
    /// while the wizard is pulled towards the hat. Otherwise the recall count
    /// starts again on the ground, the wizard moves by the velocity it asks
    /// for as far as the level lets it, and keeps the distance moved as its
    /// velocity.
    #[verifier::opaque]
    pub open spec fn after_control(self, input: Input, timer: int, level: &Level) -> Player {
        if self.hat_state == HatState::WizardTowards {
            self
        } else {
            let arrived = self.wizard_moved(
                steered_velocity(self.wizard.velocity@, self.is_on_ground, input),
                level,
            );
            let image = wizard_image(
                arrived.velocity@,
                timer,
                self.wizard_frame,
                self.wizard.sprite.tile_id,
            );
            Player {
                num_recalls: if self.is_on_ground {
                    0
                } else {
                    self.num_recalls
                },
                wizard: arrived.with_tile(image.1),
                wizard_frame: image.0,
                facing: if input.x_tri != Tri::Zero {
                    input.x_tri
                } else {
                    self.facing
                },
                ..self
            }
        }
    }

    /// The sound of the steering: a jump.
    pub open spec fn control_sounds(self, input: Input) -> Seq<SoundEffect> {
        if self.hat_state != HatState::WizardTowards && self.is_on_ground
            && input.b_just_pressed {
            seq![SoundEffect::Jump]
        } else {
            Seq::empty()
        }
    }

    /// The player after the sprites were turned to the side that the wizard
    /// faces.
    pub open spec fn dressed(self) -> Player {
        let base = hat_base_tile(self.num_recalls as int);
        match self.facing {
            Tri::Negative => Player {
                wizard: Entity {
                    sprite: Sprite { hflip: true, ..self.wizard.sprite },
                    ..self.wizard
                },
                hat: self.hat.with_tile((base + 4 * 5) as u16),
                ..self
            },
            Tri::Positive => Player {
                wizard: Entity {
                    sprite: Sprite { hflip: false, ..self.wizard.sprite },
                    ..self.wizard
                },
                hat: self.hat.with_tile(base as u16),
                ..self
            },
            Tri::Zero => self,
        }
    }

    /// The vector from the resting place of the hat to the hat.
    pub open spec fn hat_offset(self) -> Vec2 {
        self.hat.position@.minus(self.wizard.position@).plus(
            resting_offset(self.wizard_frame as int),
        )
    }

    /// Raw distance of the hat from its resting place.
    pub open spec fn hat_distance(self) -> int {
        self.hat_offset().magnitude()
    }

    /// The vector from the hat to its resting place.
    pub open spec fn hat_pull(self) -> Vec2 {
        self.wizard.position@.minus(self.hat.position@).minus(
            resting_offset(self.wizard_frame as int),
        )
    }

    /// Whether the thrown hat is stopped in this frame for being slow.
    pub open spec fn hat_is_slowed(self) -> bool {
        self.hat_slow_counter < HAT_SLOW_FRAMES && self.hat.velocity@.magnitude() < HAT_SLOW_SPEED
    }

    /// The player after a frame of a thrown hat. The hat is stopped where it
    /// is slow shortly after the throw, and otherwise gains a quarter of the
    /// direction to its resting place. It moves around tiles and enemies and
    /// keeps the distance moved as its velocity. It is caught where it is
    /// nearer to its resting place than `CATCH_DISTANCE`, after it has been
    /// further away than that.
    #[verifier::opaque]
    pub open spec fn after_thrown(
        self,
        timer: int,
        level: &Level,
        enemies: Seq<Enemy>,
        state_changed: bool,
    ) -> Player {
        let pull = self.hat_pull();
        let distance = pull.magnitude();
        let tile = hat_base_tile(self.num_recalls as int) + hat_spin(
            timer,
            self.num_recalls as int,
        ) * 4;
        let velocity = if self.hat_is_slowed() {
            Vec2 { x: 0, y: 0 }
        } else {
            self.hat.velocity@.plus(pull.normalised().over_int(4))
        };
        let pushed = (Entity { velocity: Vector2D::of(velocity), ..self.hat }).with_tile(
            tile as u16,
        );
        let arrived = pushed.moved_with_enemy(level, enemies);
        let moved = arrived.position@.minus(self.hat.position@);
        Player {
            hat: Entity { velocity: Vector2D::of(moved), ..arrived },
            hat_slow_counter: if self.hat_is_slowed() {
                (self.hat_slow_counter + 1) as i32
            } else {
                self.hat_slow_counter
            },
            hat_left_range: latched(self.hat_left_range, distance),
            hat_state: if state_changed {
                HatState::Thrown
            } else {
                HatState::Thrown.settled(distance, self.hat_left_range)
            },
            ..self
        }
    }

    /// The player after a frame of a hat on the head: the hat sits at its
    /// resting place, and the latch and the slow counter start again.
    pub open spec fn after_on_head(self) -> Player {
        Player {
            hat_slow_counter: 0,
            hat_left_range: false,
            hat: Entity {
                position: Vector2D::of(
                    self.wizard.position@.minus(resting_offset(self.wizard_frame as int)),
                ),
                ..self.hat
            },
            ..self
        }
    }

    /// The velocity with which the wizard is pulled towards the hat: its
    /// speed plus one, in the direction of the hat. Where the hat is at its
    /// resting place the velocity stays as it is.
    #[verifier::opaque]
    pub open spec fn pull_velocity(self) -> Vec2 {
        let offset = self.hat_offset();
        let distance = offset.magnitude();
        if distance != 0 {
            offset.over(distance).times(self.wizard.velocity@.magnitude() + 1024)
        } else {
            self.wizard.velocity@
        }
    }

    /// The state of the hat after it has followed its rule of motion. A hat
    /// whose state the button has changed in this frame keeps that state;
    /// every other hat follows the rule of its state.
    pub open spec fn settled_state(self, state_changed: bool) -> HatState {
        if state_changed {
            self.hat_state
        } else {
            self.hat_state.settled(self.hat_distance(), self.hat_left_range)
        }
    }

    /// The player after a frame in which the wizard is pulled towards the
    /// hat. The wizard moves as far as the level lets it and keeps the
    /// distance moved as its velocity. The latch is set where the hat is
    /// further from its resting place than `CATCH_DISTANCE`. Where the recall
    /// ends, the hat is back on the head and the wizard keeps an eighth of
    /// that velocity.
    #[verifier::opaque]
    pub open spec fn after_pull(self, timer: int, level: &Level, state_changed: bool) -> Player {
        let distance = self.hat_distance();
        let tile = hat_base_tile(self.num_recalls as int) + 4 * (timer / 2 % 10);
        let arrived = self.wizard_moved(self.pull_velocity(), level);
        let state = self.settled_state(state_changed);
        Player {
            hat: self.hat.with_tile(tile as u16),
            wizard: if state == HatState::OnHead {
                Entity { velocity: Vector2D::of(arrived.velocity@.over_int(8)), ..arrived }
            } else {
                arrived
            },
            hat_left_range: latched(self.hat_left_range, distance),
            hat_state: state,
            ..self
        }
    }

    /// The latch after the hat has followed the rule of motion of its state:
    /// a hat that is off the head sets it beyond `CATCH_DISTANCE`, and a hat
    /// on the head clears it.
    pub open spec fn latch_after_motion(self) -> bool {
        match self.hat_state {
            HatState::Thrown => latched(self.hat_left_range, self.hat_distance()),
            HatState::OnHead => false,
            HatState::WizardTowards => latched(self.hat_left_range, self.hat_distance()),
        }
    }

    /// The player of a frame at the moment at which the hat begins to move:
    /// after the buttons, the ground probe, the steering and the dressing.
    pub open spec fn before_hat_motion(self, input: Input, timer: int, level: &Level) -> Player {
        self.after_buttons(input).after_ground_probe(level).after_control(
            input,
            timer,
            level,
        ).dressed()
    }

    /// Raw distance of the hat from its resting place at the moment of a
    /// frame at which the hat begins to move.
    pub open spec fn distance_in_frame(self, input: Input, timer: int, level: &Level) -> int {
        self.before_hat_motion(input, timer, level).hat_distance()
    }

    /// The player after the hat has followed the rule of motion of its
    /// state.
    pub open spec fn after_hat_motion(
        self,
        timer: int,
        level: &Level,
        enemies: Seq<Enemy>,
        state_changed: bool,
    ) -> Player {
        match self.hat_state {
            HatState::Thrown => self.after_thrown(timer, level, enemies, state_changed),
            HatState::OnHead => self.after_on_head(),
            HatState::WizardTowards => self.after_pull(timer, level, state_changed),
        }
    }

    /// The sound of the motion of the hat: a catch, where the hat comes back
    /// to the head.
    pub open spec fn hat_sounds(self, state_changed: bool) -> Seq<SoundEffect> {
        if self.hat_state != HatState::OnHead && self.settled_state(state_changed)
            == HatState::OnHead {
            seq![SoundEffect::Catch]
        } else {
            Seq::empty()
        }
    }

    /// The player after the screen positions of the wizard and the hat were
    /// written to their sprites, for a camera at `offset`.
    pub open spec fn committed(self, offset: Vec2) -> Player {
        Player {
            wizard: self.wizard.committed(offset),
            hat: self.hat.committed(offset),
            ..self
        }
    }

    /// The throw button changes the state of the hat in the frame with the
    /// buttons `input`.
    pub open spec fn pressed_changes(self, input: Input) -> bool {
        self.hat_state.pressed(
            input.a_just_pressed,
            input.has_direction(),
            self.num_recalls as int,
        ) != self.hat_state
    }

    /// The player after one frame.
    #[verifier::opaque]
    pub open spec fn after_frame(
        self,
        input: Input,
        timer: int,
        level: &Level,
        enemies: Seq<Enemy>,
    ) -> Player {
        self.after_buttons(input).after_ground_probe(level).after_control(
            input,
            timer,
            level,
        ).dressed().after_hat_motion(timer, level, enemies, self.pressed_changes(input))
    }

    /// The sounds of one frame, in the order in which they are asked for,
    /// for a sound player made at the frame `frame`.
    #[verifier::opaque]
    pub open spec fn frame_sounds(
        self,
        input: Input,
        timer: int,
        level: &Level,
        frame: int,
    ) -> Seq<SoundEffect> {
        let pressed = self.after_buttons(input);
        let probed = pressed.after_ground_probe(level);
        let dressed = probed.after_control(input, timer, level).dressed();
        self.button_sounds(input, frame) + pressed.landing_sounds(level) + probed.control_sounds(
            input,
        ) + dressed.hat_sounds(self.pressed_changes(input))
    }

    /// A wizard at `start_position` with the hat on its head.
    pub fn new(start_position: Vector2D) -> (r: Player)
        ensures
            r == Player::created(start_position),
    {
        let mut hat = Entity::new(CollisionMask { x: 6, y: 6 });
        let mut wizard = Entity::new(CollisionMask { x: 6, y: 14 });

        wizard.sprite.tile_id = WIZARD_TILE_START;
        hat.sprite.tile_id = HAT_TILE_START;
        wizard.sprite.size = SpriteSize::S16x16;
        hat.sprite.size = SpriteSize::S16x16;
        wizard.sprite.visible = true;
        hat.sprite.visible = true;

        wizard.position = start_position;

        Player {
            wizard,
            hat,
            hat_slow_counter: 0,
            hat_state: HatState::OnHead,
            hat_left_range: false,
            wizard_frame: 0,
            num_recalls: 0,
            is_on_ground: true,
            facing: Tri::Zero,
        }
    }

    /// Whether the wizard and the hat are at most `REACH_LIMIT` apart along
    /// each axis.
    pub fn is_in_reach(&self) -> (r: bool)
        ensures
            r == (self.reach() <= REACH_LIMIT),
    {
        let dx = self.wizard.position.x.raw as i64 - self.hat.position.x.raw as i64;
        let dy = self.wizard.position.y.raw as i64 - self.hat.position.y.raw as i64;
        let limit = REACH_LIMIT as i64;
        -limit <= dx && dx <= limit && -limit <= dy && dy <= limit
    }

    /// Whether the player is within the limits up to which a frame is known
    /// not to overflow.
    pub fn is_within_limits(&self) -> (r: bool)
        ensures
            r == self.within_limits(),
    {
        let wizard = &self.wizard;
        let hat = &self.hat;
        if wizard.collision_mask.x < 2 || wizard.collision_mask.y < 2 || hat.collision_mask.x < 2
            || hat.collision_mask.y < 2 {
            return false;
        }
        if self.num_recalls < 0 || self.num_recalls > MAX_RECALLS || self.hat_slow_counter < 0
            || self.hat_slow_counter > HAT_SLOW_FRAMES {
            return false;
        }
        if !wizard.is_in_world() || !hat.is_in_world() {
            return false;
        }
        if !wizard.is_slower_than(SPEED_LIMIT) || !hat.is_slower_than(SPEED_LIMIT) {
            return false;
        }
        self.hat_state == HatState::OnHead || self.is_in_reach()
    }

    /// Whether a frame with the buttons `input` can be computed without
    /// overflow.
    pub fn can_update(&self, input: &Input) -> (r: bool)
        ensures
            r == self.updatable(*input),
    {
        if !self.is_within_limits() {
            return false;
        }
        let pressed = self.hat_state.after_button(
            input.a_just_pressed,
            input.x_tri != Tri::Zero || input.y_tri != Tri::Zero,
            self.num_recalls,
        );
        pressed == HatState::OnHead || self.is_in_reach()
    }

    /// The velocity of a hat thrown in the direction of the pad.
    pub fn throw_velocity(input: &Input) -> (r: Vector2D)
        ensures
            r@ == throw_velocity(input.direction()),
            -10240 < r@.x < 10240,
            -10240 < r@.y < 13650,
    {
        let direction = Vector2D::from_ints(input.x_tri.to_int(), input.y_tri.to_int());
        proof {
            lemma_small_is_measurable(direction@);
            if direction@.magnitude() != 0 {
                lemma_direction_is_short(direction@);
            }
        }
        let mut velocity = direction.normalise().mul_int(THROW_SPEED);
        if velocity.y.raw > 0 {
            let factor = FixedNumber::new(4).div_int(3);
            assert(factor@ == 1365);
            velocity.y = velocity.y.mul(factor);
        }
        velocity
    }

    /// Handles the throw button: throws the hat, recalls it, or ends the
    /// recall.
    pub fn handle_buttons(&mut self, input: &Input, sfx_player: &mut SfxPlayer)
        requires
            old(self).updatable(*input),
            0 <= old(sfx_player).frame,
        ensures
            *final(self) == old(self).after_buttons(*input),
            final(self).within_limits(),
            final(self).hat_left_range == (old(self).hat_left_range && !old(self).hat_state.throws(
                input.a_just_pressed,
                input.has_direction(),
            )),
            final(self).hat_state == old(self).hat_state.pressed(
                input.a_just_pressed,
                input.has_direction(),
                old(self).num_recalls as int,
            ),
            final(sfx_player)@ == old(sfx_player)@ + old(self).button_sounds(
                *input,
                old(sfx_player).frame as int,
            ),
            final(sfx_player).frame == old(sfx_player).frame,
    {
        reveal(Player::after_buttons);
        if input.a_just_pressed {
            match self.hat_state {
                HatState::OnHead => {
                    if input.x_tri != Tri::Zero || input.y_tri != Tri::Zero {
                        let velocity = Self::throw_velocity(input);
                        proof {
                            Vector2D::lemma_view_of(velocity);
                        }
                        self.hat.velocity = velocity;
                        self.hat_state = HatState::Thrown;
                        self.hat_left_range = false;
                        self.hat_slow_counter = 0;
                        sfx_player.throw();
                    }
                },
                HatState::Thrown => {
                    if self.num_recalls < MAX_RECALLS {
                        self.num_recalls += 1;
                        self.hat.velocity = Vector2D::zero();
                        self.wizard.velocity = Vector2D::zero();
                        self.hat_state = HatState::WizardTowards;
                    }
                },
                HatState::WizardTowards => {
                    self.hat_state = HatState::Thrown;
                    let slowed = self.wizard.velocity.div_int(8);
                    proof {
                        Vector2D::lemma_view_of(slowed);
                    }
                    self.wizard.velocity = slowed;
                },
            }
        }
        proof {
            assert(final(sfx_player)@ =~= old(sfx_player)@ + old(self).button_sounds(
                *input,
                old(sfx_player).frame as int,
            ));
        }
    }
    /// Probes the ground below the wizard.
    pub fn probe_ground(&mut self, level: &Level, sfx_player: &mut SfxPlayer)
        requires
            level.wf(),
            old(self).within_limits(),
        ensures
            *final(self) == old(self).after_ground_probe(level),
            final(sfx_player)@ == old(sfx_player)@ + old(self).landing_sounds(level),
            final(sfx_player).frame == old(sfx_player).frame,
    {
        let was_on_ground = self.is_on_ground;
        let below = self.wizard.position.add(Vector2D::from_ints(0, 1));
        let is_on_ground = self.wizard.collision_at_point(level, below);

        if is_on_ground && !was_on_ground && self.wizard.velocity.y.raw > FixedNumber::new(1).raw {
            sfx_player.land();
        }
        self.is_on_ground = is_on_ground;
    }

    /// The velocity that the wizard asks for.
    pub fn steer(&self, input: &Input) -> (r: Vector2D)
        requires
            self.wizard.slower_than(SPEED_LIMIT as int),
        ensures
            r@ == steered_velocity(self.wizard.velocity@, self.is_on_ground, *input),
            -SPEED_LIMIT - 64 <= r@.x <= SPEED_LIMIT + 64,
            -SPEED_LIMIT - 64 <= r@.y <= SPEED_LIMIT + 64,
    {
        reveal(steered_velocity);
        let mut velocity = self.wizard.velocity;
        if self.is_on_ground {
            velocity.x = velocity.x.add(FixedNumber::new(input.x_tri.to_int()).div_int(16));
            velocity = velocity.mul_int(54).div_int(64);
            if input.b_just_pressed {
                velocity.y = FixedNumber::new(3).neg().div_int(2);
            }
        } else {
            velocity.x = velocity.x.add(FixedNumber::new(input.x_tri.to_int()).div_int(64));
            velocity = velocity.mul_int(63).div_int(64);
            let gravity = Vector2D::from_ints(0, 1).div_int(16);
            velocity = velocity.add(gravity);
        }
        velocity
    }

    /// Chooses the image of the wizard from the distance it has moved.
    pub fn animate_wizard(&mut self, timer: i32)
        requires
            0 <= timer,
            old(self).wizard.velocity@.x != i32::MIN,
            old(self).wizard.velocity@.y * 2 <= i32::MAX,
            old(self).wizard.velocity@.y * 2 >= i32::MIN,
        ensures
            *final(self) == (Player {
                wizard: old(self).wizard.with_tile(
                    wizard_image(
                        old(self).wizard.velocity@,
                        timer as int,
                        old(self).wizard_frame,
                        old(self).wizard.sprite.tile_id,
                    ).1,
                ),
                wizard_frame: wizard_image(
                    old(self).wizard.velocity@,
                    timer as int,
                    old(self).wizard_frame,
                    old(self).wizard.sprite.tile_id,
                ).0,
                ..*old(self)
            }),
    {
        reveal(wizard_image);
        if self.wizard.velocity.x.abs().raw > 0 {
            let offset = ping_pong(timer / 16, 4) as u16;
            self.wizard_frame = offset as u8;
            self.wizard.sprite.tile_id = WIZARD_TILE_START + offset * 4;
        }
        if self.wizard.velocity.y.raw < FixedNumber::new(1).neg().div_int(16).raw {
            self.wizard_frame = 5;
            self.wizard.sprite.tile_id = WIZARD_JUMP;
        } else if self.wizard.velocity.y.raw > FixedNumber::new(1).div_int(16).raw {
            let offset = if self.wizard.velocity.y.mul_int(2).raw > FixedNumber::new(3).raw {
                ((timer / 4) % 4) as u16
            } else {
                0
            };
            self.wizard_frame = 0;
            self.wizard.sprite.tile_id = WIZARD_FALL_START + offset * 4;
        }
    }

    /// The wizard after it has moved with the velocity `velocity` through
    /// `level`: it keeps the distance moved as its velocity.
    pub open spec fn wizard_moved(self, velocity: Vec2, level: &Level) -> Entity {
        let arrived = (Entity { velocity: Vector2D::of(velocity), ..self.wizard }).moved(level);
        Entity {
            velocity: Vector2D::of(arrived.position@.minus(self.wizard.position@)),
            ..arrived
        }
    }

    /// Moves the wizard with the velocity `velocity` as far as the level lets
    /// it, and makes the distance moved its velocity.
    pub fn move_wizard(&mut self, velocity: Vector2D, level: &Level)
        requires
            level.wf(),
            old(self).wizard.wf(),
            -0x3fff_ffff <= velocity@.x <= 0x3fff_ffff,
            -0x3fff_ffff <= velocity@.y <= 0x3fff_ffff,
        ensures
            *final(self) == (Player {
                wizard: old(self).wizard_moved(velocity@, level),
                ..*old(self)
            }),
            final(self).wizard.wf(),
            final(self).wizard.velocity@ == final(self).wizard.position@.minus(
                old(self).wizard.position@,
            ),
            crate::entity::within_sweep(final(self).wizard.velocity@.x, velocity@.x),
            crate::entity::within_sweep(final(self).wizard.velocity@.y, velocity@.y),
    {
        proof {
            Vector2D::lemma_view_of(velocity);
        }
        self.wizard.velocity = velocity;
        proof {
            self.wizard.lemma_in_world_is_movable();
            self.wizard.lemma_moved_stays_in_world(level);
        }
        let moved = self.wizard.update_position(level);
        proof {
            Vector2D::lemma_view_of(moved);
        }
        self.wizard.velocity = moved;
    }

    /// Steers and moves the wizard, unless it is pulled towards the hat.
    pub fn control_wizard(
        &mut self,
        input: &Input,
        timer: i32,
        level: &Level,
        sfx_player: &mut SfxPlayer,
    )
        requires
            level.wf(),
            0 <= timer,
            old(self).within_limits(),
        ensures
            *final(self) == old(self).after_control(*input, timer as int, level),
            final(self).wf(),
            final(self).hat == old(self).hat,
            final(self).hat_state == old(self).hat_state,
            final(self).hat_left_range == old(self).hat_left_range,
            final(self).hat_slow_counter == old(self).hat_slow_counter,
            final(self).wizard.slower_than(SPEED_LIMIT + 64),
            final(self).reach_within(REACH_LIMIT + SPEED_LIMIT + 64),
            final(sfx_player)@ == old(sfx_player)@ + old(self).control_sounds(*input),
            final(sfx_player).frame == old(sfx_player).frame,
    {
        reveal(Player::after_control);
        if self.hat_state != HatState::WizardTowards {
            if self.is_on_ground {
                self.num_recalls = 0;
            }
            let velocity = self.steer(input);
            if self.is_on_ground && input.b_just_pressed {
                sfx_player.jump();
            }
            self.move_wizard(velocity, level);
            self.animate_wizard(timer);

            if input.x_tri != Tri::Zero {
                self.facing = input.x_tri;
            }
        }
    }

    /// First tile of the hat for the recall count of the player.
    pub fn hat_base_tile(&self) -> (r: u16)
        ensures
            r == hat_base_tile(self.num_recalls as int),
    {
        if self.num_recalls == 0 {
            HAT_TILE_START
        } else if self.num_recalls == 1 {
            HAT_TILE_START_SECOND
        } else {
            HAT_TILE_START_THIRD
        }
    }

    /// The vector from the resting place of the hat to the wizard.
    pub fn hat_resting_position(&self) -> (r: Vector2D)
        ensures
            r@ == resting_offset(self.wizard_frame as int),
    {
        if self.wizard_frame == 1 || self.wizard_frame == 2 {
            Vector2D::from_ints(0, 9)
        } else if self.wizard_frame == 5 {
            Vector2D::from_ints(0, 10)
        } else {
            Vector2D::from_ints(0, 8)
        }
    }

    /// Turns the sprites to the side that the wizard faces.
    pub fn dress(&mut self)
        ensures
            *final(self) == old(self).dressed(),
    {
        let hat_base_tile = self.hat_base_tile();
        match self.facing {
            Tri::Negative => {
                self.wizard.sprite.hflip = true;
                self.hat.sprite.tile_id = hat_base_tile + 4 * 5;
            },
            Tri::Positive => {
                self.wizard.sprite.hflip = false;
                self.hat.sprite.tile_id = hat_base_tile;
            },
            Tri::Zero => {},
        }
    }
    /// The distance of the hat from its resting place, and the direction
    /// from the hat to that place.
    pub fn pull_on_hat(&self) -> (r: (FixedNumber, Vector2D))
        requires
            self.reach() <= REACH_LIMIT + SPEED_LIMIT + 64,
        ensures
            r.0@ == self.hat_pull().magnitude(),
            r.0@ == self.hat_distance(),
            r.1@ == self.hat_pull().normalised(),
            -2048 < r.1@.x < 2048,
            -2048 < r.1@.y < 2048,
    {
        let hat_resting_position = self.hat_resting_position();
        let distance_vector = self.wizard.position.sub(self.hat.position).sub(
            hat_resting_position,
        );
        proof {
            lemma_small_is_measurable(distance_vector@);
            lemma_opposite_has_same_magnitude(distance_vector@, self.hat_offset());
            if distance_vector@.magnitude() != 0 {
                lemma_direction_is_short(distance_vector@);
            }
        }
        let distance = distance_vector.magnitude();
        let direction = if distance.raw == 0 {
            Vector2D::zero()
        } else {
            distance_vector.div(distance)
        };
        (distance, direction)
    }

    /// The image of the flying hat at the frame `timer`, out of ten.
    pub fn hat_spin(&self, timer: i32) -> (r: u16)
        requires
            0 <= timer,
        ensures
            r == hat_spin(timer as int, self.num_recalls as int),
            r < 10,
    {
        let slowed = if self.num_recalls == 0 {
            timer
        } else if self.num_recalls == 1 {
            timer / 2
        } else {
            timer / 4
        };
        (slowed % 10) as u16
    }

    /// Gives the thrown hat its velocity for this frame: none where it is
    /// slow shortly after the throw, and a quarter of `direction` more than
    /// before otherwise.
    pub fn push_thrown_hat(&mut self, direction: Vector2D)
        requires
            old(self).wf(),
            old(self).hat.slower_than(SPEED_LIMIT as int),
            -2048 < direction@.x < 2048,
            -2048 < direction@.y < 2048,
        ensures
            final(self).hat.velocity@ == if old(self).hat_is_slowed() {
                Vec2 { x: 0, y: 0 }
            } else {
                old(self).hat.velocity@.plus(direction@.over_int(4))
            },
            final(self).hat_slow_counter == if old(self).hat_is_slowed() {
                old(self).hat_slow_counter + 1
            } else {
                old(self).hat_slow_counter as int
            },
            *final(self) == (Player {
                hat: Entity { velocity: final(self).hat.velocity, ..old(self).hat },
                hat_slow_counter: final(self).hat_slow_counter,
                ..*old(self)
            }),
            final(self).hat.slower_than(SPEED_LIMIT + 512),
            final(self).wf(),
    {
        proof {
            lemma_small_is_measurable(self.hat.velocity@);
        }
        if self.hat_slow_counter < HAT_SLOW_FRAMES && self.hat.velocity.magnitude().raw
            < HAT_SLOW_SPEED {
            self.hat.velocity = Vector2D::zero();
            self.hat_slow_counter += 1;
        } else {
            self.hat.velocity = self.hat.velocity.add(direction.div_int(4));
        }
    }

    /// Moves the thrown hat for one frame.
    pub fn move_thrown_hat(
        &mut self,
        timer: i32,
        level: &Level,
        enemies: &[Enemy],
        state_changed: bool,
        sfx_player: &mut SfxPlayer,
    )
        requires
            level.wf(),
            0 <= timer,
            old(self).wf(),
            old(self).hat.in_world(),
            old(self).hat.slower_than(SPEED_LIMIT as int),
            old(self).reach() <= REACH_LIMIT + SPEED_LIMIT + 64,
            old(self).hat_state == HatState::Thrown,
            forall|i: int| 0 <= i < enemies@.len() ==> (#[trigger] enemies@[i]).placed(),
        ensures
            *final(self) == old(self).after_thrown(
                timer as int,
                level,
                enemies@,
                state_changed,
            ),
            final(self).wf(),
            final(self).hat_state == old(self).settled_state(state_changed),
            final(self).hat_left_range == latched(
                old(self).hat_left_range,
                old(self).hat_distance(),
            ),
            final(self).hat.near_world(),
            final(sfx_player)@ == old(sfx_player)@ + old(self).hat_sounds(state_changed),
            final(sfx_player).frame == old(sfx_player).frame,
    {
        reveal(Player::after_thrown);
        let pull = self.pull_on_hat();
        let distance = pull.0;
        let direction = pull.1;
        let tile = self.hat_base_tile() + self.hat_spin(timer) * 4;
        self.hat.sprite.tile_id = tile;
        self.push_thrown_hat(direction);
        proof {
            Vector2D::lemma_view_of(self.hat.velocity);
            self.hat.lemma_in_world_is_movable();
        }
        let moved = self.hat.update_position_with_enemy(level, enemies);
        proof {
            Vector2D::lemma_view_of(moved);
        }
        self.hat.velocity = moved;
        if distance.raw > CATCH_DISTANCE {
            self.hat_left_range = true;
        }
        if !state_changed && self.hat_left_range && distance.raw < CATCH_DISTANCE {
            sfx_player.catch();
            self.hat_state = HatState::OnHead;
        }
    }

    /// Puts the hat on the head of the wizard.
    pub fn rest_hat(&mut self)
        requires
            old(self).wf(),
        ensures
            *final(self) == old(self).after_on_head(),
            final(self).wf(),
            final(self).hat_state == old(self).hat_state,
            !final(self).hat_left_range,
            final(self).hat.near_world(),
    {
        let hat_resting_position = self.hat_resting_position();
        self.hat_slow_counter = 0;
        self.hat_left_range = false;
        let place = self.wizard.position.sub(hat_resting_position);
        proof {
            Vector2D::lemma_view_of(place);
        }
        self.hat.position = place;
    }

    /// Pulls the wizard towards the hat for one frame.
    pub fn pull_wizard(
        &mut self,
        timer: i32,
        level: &Level,
        state_changed: bool,
        sfx_player: &mut SfxPlayer,
    )
        requires
            level.wf(),
            0 <= timer,
            old(self).wf(),
            old(self).wizard.slower_than(SPEED_LIMIT + 64),
            old(self).reach() <= REACH_LIMIT + SPEED_LIMIT + 64,
            old(self).hat_state == HatState::WizardTowards,
        ensures
            *final(self) == old(self).after_pull(timer as int, level, state_changed),
            final(self).wf(),
            final(self).hat_state == old(self).settled_state(state_changed),
            final(self).hat_left_range == latched(
                old(self).hat_left_range,
                old(self).hat_distance(),
            ),
            final(self).hat.position == old(self).hat.position,
            final(sfx_player)@ == old(sfx_player)@ + old(self).hat_sounds(state_changed),
            final(sfx_player).frame == old(sfx_player).frame,
    {
        reveal(Player::pull_velocity);
        reveal(Player::after_pull);
        let hat_base_tile = self.hat_base_tile();
        let hat_resting_position = self.hat_resting_position();
        self.hat.sprite.tile_id = hat_base_tile + 4 * (timer / 2 % 10) as u16;
        let distance_vector = self.hat.position.sub(self.wizard.position).add(
            hat_resting_position,
        );
        proof {
            lemma_small_is_measurable(distance_vector@);
            lemma_small_is_measurable(self.wizard.velocity@);
            lemma_magnitude_at_most(self.wizard.velocity@, SPEED_LIMIT + 64);
        }
        let distance = distance_vector.magnitude();
        if distance.raw != 0 {
            let v = self.wizard.velocity.magnitude().add(FixedNumber::new(1));
            let direction = distance_vector.div(distance);
            proof {
                lemma_direction_is_short(distance_vector@);
                lemma_scaled_direction_fits(direction@.x, v@);
                lemma_scaled_direction_fits(direction@.y, v@);
            }
            self.wizard.velocity = direction.mul(v);
        }
        proof {
            Vector2D::lemma_view_of(self.wizard.velocity);
        }
        self.move_wizard(self.wizard.velocity, level);
        let caught = !state_changed && self.hat_left_range && distance.raw < CATCH_DISTANCE;
        if distance.raw > CATCH_DISTANCE {
            self.hat_left_range = true;
        }
        if caught {
            let slowed = self.wizard.velocity.div_int(8);
            proof {
                Vector2D::lemma_view_of(slowed);
            }
            self.wizard.velocity = slowed;
            self.hat_state = HatState::OnHead;
            sfx_player.catch();
        }
    }

    /// Lets the hat follow the rule of motion of its state.
    pub fn move_hat(
        &mut self,
        timer: i32,
        level: &Level,
        enemies: &[Enemy],
        state_changed: bool,
        sfx_player: &mut SfxPlayer,
    )
        requires
            level.wf(),
            0 <= timer,
            old(self).wf(),
            old(self).hat.in_world(),
            old(self).hat.slower_than(SPEED_LIMIT as int),
            old(self).wizard.slower_than(SPEED_LIMIT + 64),
            old(self).reach_within(REACH_LIMIT + SPEED_LIMIT + 64),
            forall|i: int| 0 <= i < enemies@.len() ==> (#[trigger] enemies@[i]).placed(),
        ensures
            *final(self) == old(self).after_hat_motion(
                timer as int,
                level,
                enemies@,
                state_changed,
            ),
            final(self).wf(),
            final(self).hat_state == old(self).settled_state(state_changed),
            final(self).hat_left_range == old(self).latch_after_motion(),
            final(self).hat.near_world(),
            final(sfx_player)@ == old(sfx_player)@ + old(self).hat_sounds(state_changed),
            final(sfx_player).frame == old(sfx_player).frame,
    {
        match self.hat_state {
            HatState::Thrown => self.move_thrown_hat(
                timer,
                level,
                enemies,
                state_changed,
                sfx_player,
            ),
            HatState::OnHead => {
                self.rest_hat();
            },
            HatState::WizardTowards => self.pull_wizard(timer, level, state_changed, sfx_player),
        }
    }

    /// Advances the wizard and the hat by one frame: handles the buttons,
    /// probes the ground, steers and moves the wizard, and moves the hat.
    pub fn update_frame(
        &mut self,
        input: &Input,
        timer: i32,
        level: &Level,
        enemies: &[Enemy],
        sfx_player: &mut SfxPlayer,
    )
        requires
            level.wf(),
            0 <= timer,
            old(self).updatable(*input),
            0 <= old(sfx_player).frame,
            forall|i: int| 0 <= i < enemies@.len() ==> (#[trigger] enemies@[i]).placed(),
        ensures
            *final(self) == old(self).after_frame(*input, timer as int, level, enemies@),
            final(self).wf(),
            final(self).hat_state == old(self).hat_state.next(
                input.a_just_pressed,
                input.has_direction(),
                old(self).num_recalls as int,
                old(self).distance_in_frame(*input, timer as int, level),
                old(self).hat_left_range,
            ),
            old(self).hat_state.recalls(input.a_just_pressed, old(self).num_recalls as int)
                ==> final(self).hat_state == HatState::WizardTowards,
            old(self).hat_state.throws(input.a_just_pressed, input.has_direction())
                ==> final(self).hat_state == HatState::Thrown,
            old(self).hat_state == HatState::WizardTowards && input.a_just_pressed
                ==> final(self).hat_state == HatState::Thrown,
            final(self).hat_left_range == old(self).before_hat_motion(
                *input,
                timer as int,
                level,
            ).latch_after_motion(),
            0 <= final(self).num_recalls <= MAX_RECALLS,
            final(self).hat.near_world(),
            final(sfx_player)@ == old(sfx_player)@ + old(self).frame_sounds(
                *input,
                timer as int,
                level,
                old(sfx_player).frame as int,
            ),
            final(sfx_player).frame == old(sfx_player).frame,
    {
        reveal(Player::after_frame);
        reveal(Player::frame_sounds);
        let state_before = self.hat_state;
        self.handle_buttons(input, sfx_player);
        let state_changed = self.hat_state != state_before;
        self.probe_ground(level, sfx_player);
        self.control_wizard(input, timer, level, sfx_player);
        self.dress();
        self.move_hat(timer, level, enemies, state_changed, sfx_player);
    }
}

/// A vector and its opposite have the same length.
pub proof fn lemma_opposite_has_same_magnitude(v: Vec2, w: Vec2)
    requires
        w.x == -v.x,
        w.y == -v.y,
    ensures
        v.magnitude_squared() == w.magnitude_squared(),
        v.magnitude() == w.magnitude(),
{
    assert(v.x * v.x == w.x * w.x) by (nonlinear_arith)
        requires
            w.x == -v.x,
    ;
    assert(v.y * v.y == w.y * w.y) by (nonlinear_arith)
        requires
            w.y == -v.y,
    ;
}

/// A component of a direction times a speed of at most 256 pixels per frame
/// is a fixed-point number below 512.
pub proof fn lemma_scaled_direction_fits(d: int, v: int)
    requires
        -2048 < d < 2048,
        0 <= v <= 0x4_0000,
    ensures
        -0x8_0000 <= mul_raw(d, v) <= 0x8_0000,
{
    assert(-2048 * v <= d * v <= 2048 * v) by (nonlinear_arith)
        requires
            -2048 < d < 2048,
            0 <= v,
    ;
}

} // verus!
