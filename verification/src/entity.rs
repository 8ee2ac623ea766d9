//! Entities: a position, a velocity and a collision mask, moved through the
//! tile grid one axis at a time.
//!
//! The rules of movement are stated over `Vec2` positions. `touches` says
//! which cells the mask of an entity covers at a position, `bisect` is the
//! search for the contact point along one axis, and `step` is the position
//! after one frame of movement.

use crate::enemies::Enemy;
use crate::level::{Level, TileProperty};
use crate::number::{in_i32, trunc_div, FixedNumber};
use crate::vector::{Vec2, Vector2D};
use vstd::prelude::*;

verus! {

/// Width of the screen, in pixels.
pub const SCREEN_WIDTH: i32 = 240;

/// Height of the screen, in pixels.
pub const SCREEN_HEIGHT: i32 = 160;

/// Distance beyond the screen edge at which a sprite is hidden, in pixels.
pub const CULL_MARGIN: i32 = 8;

/// Largest number of halvings in the search for a contact point.
pub const BISECT_STEPS: u32 = 16;

/// Raw length of the search interval at which the search stops: 1/8.
pub const BISECT_PRECISION: i32 = 128;

/// Largest raw speed along one axis at which the search always reaches
/// `BISECT_PRECISION` within `BISECT_STEPS` halvings: 8192 pixels per frame.
pub const BISECT_REACH: i32 = 0x80_0000;

/// Largest raw speed along one axis that `update_position` accepts.
pub const AXIS_SPEED_LIMIT: i32 = 0x3fff_ffff;

/// Largest raw coordinate of an entity that takes part in the simulation.
/// Every place inside a level lies within this limit.
pub const WORLD_LIMIT: i32 = 0x1000_0000;

/// Drawing order of a sprite; `Highest` is drawn on top.
#[derive(Clone, Copy, Debug, PartialEq, Eq, Structural)]
pub enum Priority {
    Highest,
    High,
    Low,
    Lowest,
}

/// Size of a sprite, in pixels.
#[derive(Clone, Copy, Debug, PartialEq, Eq, Structural)]
pub enum SpriteSize {
    S8x8,
    S16x16,
}

/// What the render layer is told about the sprite of an entity. The
/// simulation writes these values and never reads them back.
#[derive(Clone, Copy, Debug, PartialEq, Eq, Structural)]
pub struct Sprite {
    /// Index of the first tile of the image.
    pub tile_id: u16,
    /// Drawing order.
    pub priority: Priority,
    /// Size of the image.
    pub size: SpriteSize,
    /// Whether the sprite is drawn.
    pub visible: bool,
    /// Whether the image is mirrored.
    pub hflip: bool,
    /// Horizontal screen position of the top left corner.
    pub x: i32,
    /// Vertical screen position of the top left corner.
    pub y: i32,
}

/// Width and height of the box with which an entity collides, in pixels. The
/// box is centred on the position of the entity.
#[derive(Clone, Copy, Debug, PartialEq, Eq, Structural)]
pub struct CollisionMask {
    pub x: u16,
    pub y: u16,
}

/// One of the two axes of movement.
#[derive(Clone, Copy, Debug, PartialEq, Eq, Structural)]
pub enum Axis {
    X,
    Y,
}

/// The first cell that a box of the given extent covers along one axis, when
/// its centre has the raw coordinate `raw`.
pub open spec fn first_cell(raw: int, extent: int) -> int {
    trunc_div((raw - (extent / 2) * 1024) / 1024, 8)
}

/// The last cell that a box of the given extent covers along one axis, when
/// its centre has the raw coordinate `raw`.
pub open spec fn last_cell(raw: int, extent: int) -> int {
    trunc_div((raw + (extent / 2) * 1024 - 1024) / 1024, 8)
}

/// The position `pos` moved by the raw distance `d` along `axis`.
pub open spec fn shifted(pos: Vec2, axis: Axis, d: int) -> Vec2 {
    match axis {
        Axis::X => Vec2 { x: pos.x + d, y: pos.y },
        Axis::Y => Vec2 { x: pos.x, y: pos.y + d },
    }
}

/// `d` lies between zero and `v`, both included.
pub open spec fn within_sweep(d: int, v: int) -> bool {
    (0 <= d <= v) || (v <= d <= 0)
}

/// Distance between two raw values.
pub open spec fn gap(a: int, b: int) -> int {
    if a <= b {
        b - a
    } else {
        a - b
    }
}

/// Longest search interval that `steps` halvings bring down to
/// `BISECT_PRECISION`.
pub open spec fn bisect_reach(steps: nat) -> int
    decreases steps,
{
    if steps == 0 {
        BISECT_PRECISION as int
    } else {
        2 * bisect_reach((steps - 1) as nat)
    }
}

impl CollisionMask {
    /// The cell `(cx, cy)` is covered by the mask at `pos`.
    pub open spec fn covers(self, pos: Vec2, cx: int, cy: int) -> bool {
        &&& first_cell(pos.x, self.x as int) <= cx <= last_cell(pos.x, self.x as int)
        &&& first_cell(pos.y, self.y as int) <= cy <= last_cell(pos.y, self.y as int)
    }

    /// Some cell that the mask covers at `pos` has the property `tile`.
    pub open spec fn touches(self, level: &Level, pos: Vec2, tile: TileProperty) -> bool {
        exists|cx: int, cy: int| #[trigger]
            self.covers(pos, cx, cy) && level.has_property(cx, cy, tile)
    }

    /// Every cell that the mask covers at `pos` has the property `tile`.
    pub open spec fn lies_in(self, level: &Level, pos: Vec2, tile: TileProperty) -> bool {
        forall|cx: int, cy: int| #[trigger]
            self.covers(pos, cx, cy) ==> level.has_property(cx, cy, tile)
    }

    /// The edges of the mask at `pos` are fixed-point numbers.
    pub open spec fn placeable(self, pos: Vec2) -> bool {
        &&& in_i32(pos.x - (self.x as int / 2) * 1024)
        &&& in_i32(pos.x + (self.x as int / 2) * 1024)
        &&& in_i32(pos.x + (self.x as int / 2) * 1024 - 1024)
        &&& in_i32(pos.y - (self.y as int / 2) * 1024)
        &&& in_i32(pos.y + (self.y as int / 2) * 1024)
        &&& in_i32(pos.y + (self.y as int / 2) * 1024 - 1024)
    }

    /// The mask can be moved from `pos` by `vel`, or by a part of it, without
    /// overflow.
    pub open spec fn movable(self, pos: Vec2, vel: Vec2) -> bool {
        &&& self.placeable(pos)
        &&& self.placeable(pos.plus(vel))
        &&& -AXIS_SPEED_LIMIT <= vel.x <= AXIS_SPEED_LIMIT
        &&& -AXIS_SPEED_LIMIT <= vel.y <= AXIS_SPEED_LIMIT
    }

    /// The search for the contact point: the interval from `low` to `high` is
    /// halved until it is no longer than `BISECT_PRECISION` or `steps`
    /// halvings are done. The half that is kept is the one whose far end
    /// touches a solid tile. The result is the near end.
    pub open spec fn bisect(
        self,
        level: &Level,
        pos: Vec2,
        axis: Axis,
        low: int,
        high: int,
        steps: nat,
    ) -> int
        decreases steps,
    {
        if steps == 0 || gap(low, high) <= BISECT_PRECISION {
            low
        } else {
            let mid = trunc_div(low + high, 2);
            if self.touches(level, shifted(pos, axis, mid), TileProperty::Solid) {
                self.bisect(level, pos, axis, low, mid, (steps - 1) as nat)
            } else {
                self.bisect(level, pos, axis, mid, high, (steps - 1) as nat)
            }
        }
    }

    /// The far end of the interval at which `bisect` stops.
    pub open spec fn bisect_far(
        self,
        level: &Level,
        pos: Vec2,
        axis: Axis,
        low: int,
        high: int,
        steps: nat,
    ) -> int
        decreases steps,
    {
        if steps == 0 || gap(low, high) <= BISECT_PRECISION {
            high
        } else {
            let mid = trunc_div(low + high, 2);
            if self.touches(level, shifted(pos, axis, mid), TileProperty::Solid) {
                self.bisect_far(level, pos, axis, low, mid, (steps - 1) as nat)
            } else {
                self.bisect_far(level, pos, axis, mid, high, (steps - 1) as nat)
            }
        }
    }

    /// The raw distance that the mask moves along `axis` when it is at `pos`
    /// and asked to move by `v`: all of `v` where the destination is free of
    /// solid tiles, and the result of the search otherwise.
    pub open spec fn resolve_axis(self, level: &Level, pos: Vec2, axis: Axis, v: int) -> int {
        if !self.touches(level, shifted(pos, axis, v), TileProperty::Solid) {
            v
        } else {
            self.bisect(level, pos, axis, 0, v, BISECT_STEPS as nat)
        }
    }

    /// The position after one frame of movement from `pos` with velocity
    /// `vel`: first along the x axis, then along the y axis.
    #[verifier::opaque]
    pub open spec fn step(self, level: &Level, pos: Vec2, vel: Vec2) -> Vec2 {
        let after_x = shifted(pos, Axis::X, self.resolve_axis(level, pos, Axis::X, vel.x));
        shifted(after_x, Axis::Y, self.resolve_axis(level, after_x, Axis::Y, vel.y))
    }
}

/// Some enemy of `enemies` occupies the cell of the point `point`.
pub open spec fn any_occupies(enemies: Seq<Enemy>, point: Vec2) -> bool {
    exists|i: int| 0 <= i < enemies.len() && (#[trigger] enemies[i]).occupies(point)
}

impl CollisionMask {
    /// The raw distance that the mask moves along `axis` when enemies are in
    /// the way as well: it turns back where an enemy occupies the
    /// destination, stays where only a solid tile is there, and moves by all
    /// of `v` otherwise.
    pub open spec fn resolve_axis_with_enemy(
        self,
        level: &Level,
        enemies: Seq<Enemy>,
        pos: Vec2,
        axis: Axis,
        v: int,
    ) -> int {
        let target = shifted(pos, axis, v);
        if any_occupies(enemies, target) {
            -v
        } else if self.touches(level, target, TileProperty::Solid) {
            0
        } else {
            v
        }
    }

    /// The position after one frame of movement around enemies: first along
    /// the x axis, then along the y axis.
    #[verifier::opaque]
    pub open spec fn step_with_enemy(
        self,
        level: &Level,
        enemies: Seq<Enemy>,
        pos: Vec2,
        vel: Vec2,
    ) -> Vec2 {
        let after_x = shifted(
            pos,
            Axis::X,
            self.resolve_axis_with_enemy(level, enemies, pos, Axis::X, vel.x),
        );
        shifted(
            after_x,
            Axis::Y,
            self.resolve_axis_with_enemy(level, enemies, after_x, Axis::Y, vel.y),
        )
    }

    /// The mask can be moved from `pos` by `vel` and by its opposite without
    /// overflow.
    pub open spec fn reversible(self, pos: Vec2, vel: Vec2) -> bool {
        self.movable(pos, vel) && self.placeable(pos.minus(vel))
    }
}

/// An actor of the simulation.
#[derive(Clone, Copy, Debug, PartialEq, Eq, Structural)]
pub struct Entity {
    /// What is shown of the entity.
    pub sprite: Sprite,
    /// Where the centre of the entity is, in pixels of the level.
    pub position: Vector2D,
    /// How far the entity wants to move in one frame.
    pub velocity: Vector2D,
    /// The box with which the entity collides.
    pub collision_mask: CollisionMask,
}

impl Entity {
    /// The entity that `new` makes: at the origin, at rest, with a hidden
    /// sprite.
    pub open spec fn created(collision_mask: CollisionMask) -> Entity {
        Entity {
            sprite: Sprite {
                tile_id: 0,
                priority: Priority::High,
                size: SpriteSize::S8x8,
                visible: false,
                hflip: false,
                x: 0,
                y: 0,
            },
            position: Vector2D::of(Vec2 { x: 0, y: 0 }),
            velocity: Vector2D::of(Vec2 { x: 0, y: 0 }),
            collision_mask,
        }
    }

    /// The position lies within `WORLD_LIMIT`.
    pub open spec fn in_world(self) -> bool {
        &&& -WORLD_LIMIT <= self.position@.x <= WORLD_LIMIT
        &&& -WORLD_LIMIT <= self.position@.y <= WORLD_LIMIT
    }

    /// The position lies within `WORLD_LIMIT` or less than 128 pixels beyond
    /// it.
    pub open spec fn near_world(self) -> bool {
        &&& -WORLD_LIMIT - 0x2_0000 <= self.position@.x <= WORLD_LIMIT + 0x2_0000
        &&& -WORLD_LIMIT - 0x2_0000 <= self.position@.y <= WORLD_LIMIT + 0x2_0000
    }

    /// The mask covers at least one cell, and the position lies within
    /// `WORLD_LIMIT`.
    pub open spec fn wf(self) -> bool {
        self.collision_mask.x >= 2 && self.collision_mask.y >= 2 && self.in_world()
    }

    /// The velocity is at most `limit` along each axis.
    pub open spec fn slower_than(self, limit: int) -> bool {
        &&& -limit <= self.velocity@.x <= limit
        &&& -limit <= self.velocity@.y <= limit
    }

    /// The entity with another image.
    pub open spec fn with_tile(self, tile_id: u16) -> Entity {
        Entity { sprite: Sprite { tile_id, ..self.sprite }, ..self }
    }

    /// The entity with another sprite size.
    pub open spec fn with_size(self, size: SpriteSize) -> Entity {
        Entity { sprite: Sprite { size, ..self.sprite }, ..self }
    }

    /// The entity after one frame of movement through `level`.
    pub open spec fn moved(self, level: &Level) -> Entity {
        Entity {
            position: Vector2D::of(self.collision_mask.step(level, self.position@, self.velocity@)),
            ..self
        }
    }

    /// The entity after one frame of movement through `level` and around
    /// `enemies`.
    pub open spec fn moved_with_enemy(self, level: &Level, enemies: Seq<Enemy>) -> Entity {
        Entity {
            position: Vector2D::of(
                self.collision_mask.step_with_enemy(
                    level,
                    enemies,
                    self.position@,
                    self.velocity@,
                ),
            ),
            ..self
        }
    }

    /// The entity after its screen position was written to its sprite, for a
    /// camera at `offset`.
    pub open spec fn committed(self, offset: Vec2) -> Entity {
        Entity { sprite: self.sprite.placed(self.position@.minus(offset).floor()), ..self }
    }

    /// The cell of the point `point` is covered by the mask of the entity.
    pub open spec fn occupies(self, point: Vec2) -> bool {
        self.collision_mask.covers(
            self.position@,
            trunc_div(point.x / 1024, 8),
            trunc_div(point.y / 1024, 8),
        )
    }

    /// An entity within `WORLD_LIMIT` can be moved at any speed up to
    /// `AXIS_SPEED_LIMIT`.
    pub proof fn lemma_in_world_is_movable(self)
        requires
            self.in_world(),
            self.slower_than(AXIS_SPEED_LIMIT as int),
        ensures
            self.collision_mask.movable(self.position@, self.velocity@),
            self.collision_mask.placeable(self.position@),
            self.collision_mask.placeable(self.position@.minus(self.velocity@)),
    {
    }

    /// Movement through a level never takes an entity out of the world: the
    /// entity stays where it is or comes to a place that is free of solid
    /// tiles, and every such place lies inside the level.
    pub proof fn lemma_moved_stays_in_world(self, level: &Level)
        requires
            level.wf(),
            self.wf(),
            self.slower_than(AXIS_SPEED_LIMIT as int),
        ensures
            self.moved(level).wf(),
            self.moved(level).position@ == self.collision_mask.step(
                level,
                self.position@,
                self.velocity@,
            ),
    {
        let mask = self.collision_mask;
        let pos = self.position@;
        let vel = self.velocity@;
        lemma_step_is_free_or_still(mask, level, pos, vel);
        let end = mask.step(level, pos, vel);
        if end != pos {
            lemma_free_place_is_inside(mask, level, end);
        }
    }
}

/// A move along one axis ends where it began or at a place that is free of
/// solid tiles.
pub proof fn lemma_axis_is_free_or_still(
    mask: CollisionMask,
    level: &Level,
    pos: Vec2,
    axis: Axis,
    v: int,
)
    ensures
        ({
            let d = mask.resolve_axis(level, pos, axis, v);
            &&& within_sweep(d, v)
            &&& d == 0 || !mask.touches(level, shifted(pos, axis, d), TileProperty::Solid)
        }),
{
    if mask.touches(level, shifted(pos, axis, v), TileProperty::Solid) {
        lemma_bisect_bracket(mask, level, pos, axis, 0, v, 16);
    }
}

/// A frame of movement ends where it began or at a place that is free of
/// solid tiles.
pub proof fn lemma_step_is_free_or_still(mask: CollisionMask, level: &Level, pos: Vec2, vel: Vec2)
    ensures
        ({
            let end = mask.step(level, pos, vel);
            &&& end == pos || !mask.touches(level, end, TileProperty::Solid)
            &&& within_sweep(end.x - pos.x, vel.x)
            &&& within_sweep(end.y - pos.y, vel.y)
        }),
{
    reveal(CollisionMask::step);
    lemma_axis_is_free_or_still(mask, level, pos, Axis::X, vel.x);
    let dx = mask.resolve_axis(level, pos, Axis::X, vel.x);
    let after_x = shifted(pos, Axis::X, dx);
    lemma_axis_is_free_or_still(mask, level, after_x, Axis::Y, vel.y);
}

/// A mask of at least two by two pixels covers a cell wherever it is, so a
/// mask that lies in tiles of one kind touches a tile of that kind.
pub proof fn lemma_lies_in_touches(
    mask: CollisionMask,
    level: &Level,
    pos: Vec2,
    tile: TileProperty,
)
    requires
        mask.x >= 2,
        mask.y >= 2,
        mask.lies_in(level, pos, tile),
    ensures
        mask.touches(level, pos, tile),
{
    assert(mask.covers(pos, first_cell(pos.x, mask.x as int), first_cell(pos.y, mask.y as int)));
}

/// A place at which a mask of at least two by two pixels touches no solid
/// tile lies inside the level, because every cell outside the level is
/// solid.
pub proof fn lemma_free_place_is_inside(mask: CollisionMask, level: &Level, pos: Vec2)
    requires
        level.wf(),
        mask.x >= 2,
        mask.y >= 2,
        !mask.touches(level, pos, TileProperty::Solid),
    ensures
        0 <= first_cell(pos.x, mask.x as int) <= last_cell(pos.x, mask.x as int) < level.width,
        0 <= first_cell(pos.y, mask.y as int) <= last_cell(pos.y, mask.y as int) < level.height,
        -0x2000 < pos.x < 0x1000_0000,
        -0x2000 < pos.y < 0x1000_0000,
{
    let left = first_cell(pos.x, mask.x as int);
    let right = last_cell(pos.x, mask.x as int);
    let top = first_cell(pos.y, mask.y as int);
    let bottom = last_cell(pos.y, mask.y as int);
    assert(mask.covers(pos, left, top));
    assert(mask.covers(pos, right, bottom));
}

impl Entity {
    /// An entity at the origin, at rest, with a hidden sprite.
    pub fn new(collision_mask: CollisionMask) -> (r: Entity)
        ensures
            r == Entity::created(collision_mask),
    {
        Entity {
            sprite: Sprite {
                tile_id: 0,
                priority: Priority::High,
                size: SpriteSize::S8x8,
                visible: false,
                hflip: false,
                x: 0,
                y: 0,
            },
            collision_mask,
            position: Vector2D::zero(),
            velocity: Vector2D::zero(),
        }
    }

    /// Whether some cell that the mask covers at `position` has the property
    /// `tile`.
    #[verifier::loop_isolation(false)]
    pub fn something_at_point(&self, level: &Level, position: Vector2D, tile: TileProperty) -> (r:
        bool)
        requires
            level.wf(),
            self.collision_mask.placeable(position@),
        ensures
            r == self.collision_mask.touches(level, position@, tile),
    {
        let half_x: i32 = (self.collision_mask.x / 2) as i32;
        let half_y: i32 = (self.collision_mask.y / 2) as i32;
        let left: i32 = position.x.sub(FixedNumber::new(half_x)).floor() / 8;
        let right: i32 = position.x.add(FixedNumber::new(half_x)).sub(FixedNumber::new(1)).floor()
            / 8;
        let top: i32 = position.y.sub(FixedNumber::new(half_y)).floor() / 8;
        let bottom: i32 = position.y.add(FixedNumber::new(half_y)).sub(FixedNumber::new(1)).floor()
            / 8;
        let ghost mask = self.collision_mask;
        let ghost pos = position@;

        let mut x: i32 = left;
        while x <= right
            invariant
                left <= x,
                forall|cx: int, cy: int|
                    left <= cx < x && top <= cy <= bottom ==> !#[trigger] level.has_property(
                        cx,
                        cy,
                        tile,
                    ),
            decreases right + 1 - x,
        {
            let mut y: i32 = top;
            while y <= bottom
                invariant
                    left <= x <= right,
                    top <= y,
                    forall|cy: int|
                        top <= cy < y ==> !#[trigger] level.has_property(x as int, cy, tile),
                decreases bottom + 1 - y,
            {
                if level.at_point(x, y, tile) {
                    assert(mask.covers(pos, x as int, y as int));
                    return true;
                }
                y += 1;
            }
            x += 1;
        }
        assert forall|cx: int, cy: int| #[trigger] mask.covers(pos, cx, cy) implies !level.has_property(
            cx,
            cy,
            tile,
        ) by {}
        false
    }

    /// Whether the mask at `position` overlaps a solid tile.
    pub fn collision_at_point(&self, level: &Level, position: Vector2D) -> (r: bool)
        requires
            level.wf(),
            self.collision_mask.placeable(position@),
        ensures
            r == self.collision_mask.touches(level, position@, TileProperty::Solid),
    {
        self.something_at_point(level, position, TileProperty::Solid)
    }

    /// Whether the mask at `position` overlaps a lethal tile.
    pub fn killision_at_point(&self, level: &Level, position: Vector2D) -> (r: bool)
        requires
            level.wf(),
            self.collision_mask.placeable(position@),
        ensures
            r == self.collision_mask.touches(level, position@, TileProperty::Lethal),
    {
        self.something_at_point(level, position, TileProperty::Lethal)
    }

    /// Whether the mask at `position` overlaps a goal tile.
    pub fn completion_at_point(&self, level: &Level, position: Vector2D) -> (r: bool)
        requires
            level.wf(),
            self.collision_mask.placeable(position@),
        ensures
            r == self.collision_mask.touches(level, position@, TileProperty::Goal),
    {
        self.something_at_point(level, position, TileProperty::Goal)
    }
    /// The distance that the entity moves along `axis` when asked to move by
    /// `v`: all of `v` where the destination is free of solid tiles, and the
    /// result of the search otherwise.
    pub fn resolve(&self, level: &Level, axis: Axis, v: FixedNumber) -> (r: FixedNumber)
        requires
            level.wf(),
            self.collision_mask.placeable(self.position@),
            self.collision_mask.placeable(shifted(self.position@, axis, v@)),
            -AXIS_SPEED_LIMIT <= v@ <= AXIS_SPEED_LIMIT,
        ensures
            r@ == self.collision_mask.resolve_axis(level, self.position@, axis, v@),
            within_sweep(r@, v@),
    {
        let step = along(axis, v);
        if !self.collision_at_point(level, self.position.add(step)) {
            v
        } else {
            let moved = self.binary_search_collision(level, axis, v);
            match axis {
                Axis::X => moved.x,
                Axis::Y => moved.y,
            }
        }
    }

    /// Moves the entity by its velocity, one axis at a time, and stops it in
    /// front of solid tiles. Returns the distance actually moved.
    pub fn update_position(&mut self, level: &Level) -> (r: Vector2D)
        requires
            level.wf(),
            old(self).collision_mask.movable(old(self).position@, old(self).velocity@),
        ensures
            *final(self) == old(self).moved(level),
            final(self).position@ == old(self).collision_mask.step(
                level,
                old(self).position@,
                old(self).velocity@,
            ),
            r@ == final(self).position@.minus(old(self).position@),
            within_sweep(r@.x, old(self).velocity@.x),
            within_sweep(r@.y, old(self).velocity@.y),
            final(self).collision_mask.placeable(final(self).position@),
    {
        reveal(CollisionMask::step);
        let old_position = self.position;
        let moved_x = self.resolve(level, Axis::X, self.velocity.x);
        self.position = self.position.add(along(Axis::X, moved_x));

        let moved_y = self.resolve(level, Axis::Y, self.velocity.y);
        self.position = self.position.add(along(Axis::Y, moved_y));

        proof {
            Vector2D::lemma_view_of(self.position);
        }
        self.position.sub(old_position)
    }

    /// Whether the position lies within `WORLD_LIMIT`.
    pub fn is_in_world(&self) -> (r: bool)
        ensures
            r == self.in_world(),
    {
        -WORLD_LIMIT <= self.position.x.raw && self.position.x.raw <= WORLD_LIMIT && -WORLD_LIMIT
            <= self.position.y.raw && self.position.y.raw <= WORLD_LIMIT
    }

    /// Whether the velocity is at most `limit` along each axis.
    pub fn is_slower_than(&self, limit: i32) -> (r: bool)
        requires
            limit >= 0,
        ensures
            r == self.slower_than(limit as int),
    {
        -limit <= self.velocity.x.raw && self.velocity.x.raw <= limit && -limit
            <= self.velocity.y.raw && self.velocity.y.raw <= limit
    }

    /// Whether the cell of the point `point` is covered by the mask of the
    /// entity.
    pub fn contains_point(&self, point: Vector2D) -> (r: bool)
        requires
            self.collision_mask.placeable(self.position@),
        ensures
            r == self.occupies(point@),
    {
        let half_x: i32 = (self.collision_mask.x / 2) as i32;
        let half_y: i32 = (self.collision_mask.y / 2) as i32;
        let left: i32 = self.position.x.sub(FixedNumber::new(half_x)).floor() / 8;
        let right: i32 = self.position.x.add(FixedNumber::new(half_x)).sub(
            FixedNumber::new(1),
        ).floor() / 8;
        let top: i32 = self.position.y.sub(FixedNumber::new(half_y)).floor() / 8;
        let bottom: i32 = self.position.y.add(FixedNumber::new(half_y)).sub(
            FixedNumber::new(1),
        ).floor() / 8;
        let cx: i32 = point.x.floor() / 8;
        let cy: i32 = point.y.floor() / 8;
        left <= cx && cx <= right && top <= cy && cy <= bottom
    }

    /// Whether some enemy occupies the cell of the point `position`.
    pub fn enemy_collision_at_point(&self, enemies: &[Enemy], position: Vector2D) -> (r: bool)
        requires
            forall|i: int| 0 <= i < enemies@.len() ==> (#[trigger] enemies@[i]).placed(),
        ensures
            r == any_occupies(enemies@, position@),
    {
        let mut i: usize = 0;
        while i < enemies.len()
            invariant
                0 <= i <= enemies@.len(),
                forall|j: int| 0 <= j < enemies@.len() ==> (#[trigger] enemies@[j]).placed(),
                forall|j: int| 0 <= j < i ==> !(#[trigger] enemies@[j]).occupies(position@),
            decreases enemies@.len() - i,
        {
            if enemies[i].collides_with_hat(position) {
                return true;
            }
            i += 1;
        }
        false
    }

    /// The distance that the entity moves along `axis` when asked to move by
    /// `v` with enemies in the way: it turns back where an enemy occupies the
    /// destination, stays where only a solid tile is there, and moves by all
    /// of `v` otherwise.
    pub fn resolve_with_enemy(
        &self,
        level: &Level,
        enemies: &[Enemy],
        axis: Axis,
        v: FixedNumber,
    ) -> (r: FixedNumber)
        requires
            level.wf(),
            self.collision_mask.placeable(shifted(self.position@, axis, v@)),
            v@ != i32::MIN,
            forall|i: int| 0 <= i < enemies@.len() ==> (#[trigger] enemies@[i]).placed(),
        ensures
            r@ == self.collision_mask.resolve_axis_with_enemy(
                level,
                enemies@,
                self.position@,
                axis,
                v@,
            ),
            r@ == v@ || r@ == 0 || r@ == -v@,
    {
        let target = self.position.add(along(axis, v));
        if !(self.collision_at_point(level, target) || self.enemy_collision_at_point(
            enemies,
            target,
        )) {
            v
        } else if self.enemy_collision_at_point(enemies, target) {
            v.neg()
        } else {
            FixedNumber::zero()
        }
    }

    /// Moves the entity by its velocity, one axis at a time. Along each axis
    /// it turns back by the same distance where an enemy occupies the
    /// destination, and stays where only a solid tile is there. Returns the
    /// distance actually moved.
    pub fn update_position_with_enemy(&mut self, level: &Level, enemies: &[Enemy]) -> (r: Vector2D)
        requires
            level.wf(),
            old(self).collision_mask.reversible(old(self).position@, old(self).velocity@),
            forall|i: int| 0 <= i < enemies@.len() ==> (#[trigger] enemies@[i]).placed(),
        ensures
            *final(self) == old(self).moved_with_enemy(level, enemies@),
            final(self).position@ == old(self).collision_mask.step_with_enemy(
                level,
                enemies@,
                old(self).position@,
                old(self).velocity@,
            ),
            r@ == final(self).position@.minus(old(self).position@),
            r@.x == old(self).velocity@.x || r@.x == 0 || r@.x == -old(self).velocity@.x,
            r@.y == old(self).velocity@.y || r@.y == 0 || r@.y == -old(self).velocity@.y,
    {
        reveal(CollisionMask::step_with_enemy);
        let old_position = self.position;
        let moved_x = self.resolve_with_enemy(level, enemies, Axis::X, self.velocity.x);
        self.position = self.position.add(along(Axis::X, moved_x));

        let moved_y = self.resolve_with_enemy(level, enemies, Axis::Y, self.velocity.y);
        self.position = self.position.add(along(Axis::Y, moved_y));

        proof {
            Vector2D::lemma_view_of(self.position);
        }
        self.position.sub(old_position)
    }

    /// Searches along `axis` for the longest move between nothing and
    /// `initial` that ends in front of the solid tiles, as `bisect` says.
    pub fn binary_search_collision(&self, level: &Level, axis: Axis, initial: FixedNumber) -> (r:
        Vector2D)
        requires
            level.wf(),
            self.collision_mask.placeable(self.position@),
            self.collision_mask.placeable(shifted(self.position@, axis, initial@)),
            -AXIS_SPEED_LIMIT <= initial@ <= AXIS_SPEED_LIMIT,
        ensures
            r@ == shifted(
                Vec2 { x: 0, y: 0 },
                axis,
                self.collision_mask.bisect(level, self.position@, axis, 0, initial@, 16),
            ),
            within_sweep(
                self.collision_mask.bisect(level, self.position@, axis, 0, initial@, 16),
                initial@,
            ),
    {
        let ghost mask = self.collision_mask;
        let ghost pos = self.position@;
        let mut low: i32 = 0;
        let mut high: i32 = initial.raw;
        let mut steps: u32 = 0;
        while steps < BISECT_STEPS && span(low, high) > BISECT_PRECISION
            invariant
                level.wf(),
                steps <= 16,
                mask == self.collision_mask,
                pos == self.position@,
                mask.placeable(pos),
                mask.placeable(shifted(pos, axis, initial@)),
                -AXIS_SPEED_LIMIT <= initial@ <= AXIS_SPEED_LIMIT,
                (0 <= low <= high <= initial@) || (initial@ <= high <= low <= 0),
                mask.bisect(level, pos, axis, low as int, high as int, (16 - steps) as nat)
                    == mask.bisect(level, pos, axis, 0, initial@, 16),
            decreases 16 - steps,
        {
            let mid: i32 = (low + high) / 2;
            let probe = self.position.add(along(axis, FixedNumber::from_raw(mid)));
            if self.collision_at_point(level, probe) {
                high = mid;
            } else {
                low = mid;
            }
            steps += 1;
        }
        along(axis, FixedNumber::from_raw(low))
    }

    /// Writes the screen position of the entity to its sprite, for a camera
    /// at `offset`, and hides the sprite where it is off the screen.
    pub fn commit_position(&mut self, offset: Vector2D)
        requires
            old(self).position@.minus(offset@).fits(),
        ensures
            *final(self) == old(self).committed(offset@),
    {
        let position = self.position.sub(offset).floor();
        self.sprite.x = position.0 - 8;
        self.sprite.y = position.1 - 8;
        if position.0 < -CULL_MARGIN || position.0 > SCREEN_WIDTH + CULL_MARGIN || position.1
            < -CULL_MARGIN || position.1 > SCREEN_HEIGHT + CULL_MARGIN {
            self.sprite.visible = false;
        } else {
            self.sprite.visible = true;
        }
    }
}

/// Whether a sprite whose centre is at the screen position `(x, y)` is shown:
/// it is hidden once the centre is more than `CULL_MARGIN` pixels off the
/// screen.
pub open spec fn on_screen(x: int, y: int) -> bool {
    -CULL_MARGIN <= x <= SCREEN_WIDTH + CULL_MARGIN && -CULL_MARGIN <= y <= SCREEN_HEIGHT
        + CULL_MARGIN
}

impl Sprite {
    /// The sprite after its entity was committed at the screen position
    /// `centre`: the top left corner lies eight pixels up and left of the
    /// centre.
    pub open spec fn placed(self, centre: (int, int)) -> Sprite {
        Sprite {
            x: (centre.0 - 8) as i32,
            y: (centre.1 - 8) as i32,
            visible: on_screen(centre.0, centre.1),
            ..self
        }
    }
}

/// Raw length of the interval between `low` and `high`.
pub fn span(low: i32, high: i32) -> (r: i32)
    requires
        in_i32(high - low),
        high - low != i32::MIN,
    ensures
        r == gap(low as int, high as int),
{
    let diff = high - low;
    if diff < 0 {
        -diff
    } else {
        diff
    }
}

/// The vector of length `d` along `axis`.
pub fn along(axis: Axis, d: FixedNumber) -> (r: Vector2D)
    ensures
        r@ == shifted(Vec2 { x: 0, y: 0 }, axis, d@),
{
    match axis {
        Axis::X => Vector2D::new(d, FixedNumber::zero()),
        Axis::Y => Vector2D::new(FixedNumber::zero(), d),
    }
}

/// The search keeps its ends in order. The near end is the start of the
/// search or a place that is free of solid tiles, and the far end touches a
/// solid tile. Where the interval is no longer than `bisect_reach(steps)`,
/// the ends come as close as `BISECT_PRECISION`.
pub proof fn lemma_bisect_bracket(
    mask: CollisionMask,
    level: &Level,
    pos: Vec2,
    axis: Axis,
    low: int,
    high: int,
    steps: nat,
)
    requires
        (0 <= low <= high) || (high <= low <= 0),
        mask.touches(level, shifted(pos, axis, high), TileProperty::Solid),
    ensures
        ({
            let d = mask.bisect(level, pos, axis, low, high, steps);
            let h = mask.bisect_far(level, pos, axis, low, high, steps);
            &&& (low <= d <= h <= high) || (high <= h <= d <= low)
            &&& d == low || !mask.touches(level, shifted(pos, axis, d), TileProperty::Solid)
            &&& mask.touches(level, shifted(pos, axis, h), TileProperty::Solid)
            &&& low != high ==> d != h
            &&& gap(low, high) <= bisect_reach(steps) ==> gap(d, h) <= BISECT_PRECISION
        }),
    decreases steps,
{
    if steps > 0 && gap(low, high) > BISECT_PRECISION {
        let mid = trunc_div(low + high, 2);
        let rest = (steps - 1) as nat;
        if mask.touches(level, shifted(pos, axis, mid), TileProperty::Solid) {
            lemma_bisect_bracket(mask, level, pos, axis, low, mid, rest);
        } else {
            lemma_bisect_bracket(mask, level, pos, axis, mid, high, rest);
        }
    }
}

/// The search interval of `update_position` is short enough for sixteen
/// halvings whenever the speed is at most `BISECT_REACH`.
pub proof fn lemma_bisect_reach()
    ensures
        bisect_reach(16) == BISECT_REACH,
{
    reveal_with_fuel(bisect_reach, 17);
}

/// Where the place beside `pos` along the x axis and the place reached after
/// it along the y axis are both free of solid tiles, the entity moves by
/// exactly its velocity.
pub proof fn lemma_free_path_is_taken(mask: CollisionMask, level: &Level, pos: Vec2, vel: Vec2)
    requires
        !mask.touches(level, shifted(pos, Axis::X, vel.x), TileProperty::Solid),
        !mask.touches(level, pos.plus(vel), TileProperty::Solid),
    ensures
        mask.step(level, pos, vel) == pos.plus(vel),
{
    reveal(CollisionMask::step);
}

/// A move that runs into a solid tile from a free place ends at a free
/// place, short of a place that touches a solid tile. Up to a speed of
/// `BISECT_REACH` the two places are at most `BISECT_PRECISION` apart.
pub proof fn lemma_search_stops_before_contact(
    mask: CollisionMask,
    level: &Level,
    pos: Vec2,
    axis: Axis,
    v: int,
)
    requires
        !mask.touches(level, pos, TileProperty::Solid),
        mask.touches(level, shifted(pos, axis, v), TileProperty::Solid),
    ensures
        ({
            let d = mask.resolve_axis(level, pos, axis, v);
            let h = mask.bisect_far(level, pos, axis, 0, v, 16);
            &&& !mask.touches(level, shifted(pos, axis, d), TileProperty::Solid)
            &&& mask.touches(level, shifted(pos, axis, h), TileProperty::Solid)
            &&& within_sweep(d, v)
            &&& within_sweep(h, v)
            &&& gap(0, d) < gap(0, h)
            &&& -BISECT_REACH <= v <= BISECT_REACH ==> gap(d, h) <= BISECT_PRECISION
        }),
{
    lemma_bisect_bracket(mask, level, pos, axis, 0, v, 16);
    lemma_bisect_reach();
}

/// Where the places along the move touch a solid tile exactly from the
/// distance `contact` on, the search ends less than `contact` and at most
/// `BISECT_PRECISION` short of it.
pub proof fn lemma_search_is_near_contact(
    mask: CollisionMask,
    level: &Level,
    pos: Vec2,
    axis: Axis,
    v: int,
    contact: int,
)
    requires
        -BISECT_REACH <= v <= BISECT_REACH,
        within_sweep(contact, v),
        contact != 0,
        forall|s: int|
            within_sweep(s, v) ==> (#[trigger] mask.touches(
                level,
                shifted(pos, axis, s),
                TileProperty::Solid,
            ) <==> gap(0, s) >= gap(0, contact)),
    ensures
        gap(0, contact) - BISECT_PRECISION <= gap(0, mask.resolve_axis(level, pos, axis, v)) < gap(
            0,
            contact,
        ),
{
    assert(shifted(pos, axis, 0) == pos);
    lemma_search_stops_before_contact(mask, level, pos, axis, v);
}

/// The axes are resolved one after the other. A move that is blocked along
/// the x axis still covers all of its distance along the y axis where the
/// place reached is free, and a move that is free along the x axis covers all
/// of its distance along that axis whatever happens along the y axis.
pub proof fn lemma_blocked_axis_leaves_other_axis(
    mask: CollisionMask,
    level: &Level,
    pos: Vec2,
    vel: Vec2,
)
    ensures
        ({
            let dx = mask.resolve_axis(level, pos, Axis::X, vel.x);
            let after_x = shifted(pos, Axis::X, dx);
            !mask.touches(level, shifted(after_x, Axis::Y, vel.y), TileProperty::Solid)
                ==> mask.step(level, pos, vel) == (Vec2 { x: pos.x + dx, y: pos.y + vel.y })
        }),
        !mask.touches(level, shifted(pos, Axis::X, vel.x), TileProperty::Solid) ==> mask.step(
            level,
            pos,
            vel,
        ).x == pos.x + vel.x,
        mask.step(level, pos, vel).x == pos.x + mask.resolve_axis(level, pos, Axis::X, vel.x),
{
    reveal(CollisionMask::step);
}

} // verus!
