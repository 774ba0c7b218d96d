//! Projectiles: they travel straight up or straight down at a fixed speed.

use vstd::prelude::*;
use crate::game_objects::{rgb, opaque, Color, Direction, ObjectKind, Position, SpaceObject};

verus! {

/// A projectile in flight. Its heading is the one its firer had.
#[derive(Copy, Clone, Debug)]
pub struct Shot {
    pub position: Position,
    pub direction: Direction,
}

impl Shot {
    /// How far a projectile travels per tick.
    pub const SPEED: i64 = 10;

    pub const SIZE: i64 = 5;

    /// Projectiles are yellow.
    pub open spec fn paint() -> Color {
        rgb(255, 255, 0)
    }

    /// The next step stays within the machine integers.
    pub open spec fn step_fits(self) -> bool {
        i64::MIN + Shot::SPEED <= self.position.1 <= i64::MAX - Shot::SPEED
    }

    /// The projectile one tick later: `SPEED` further along its heading, at the
    /// same horizontal position. Meaningful for vertical headings only.
    pub open spec fn advanced(self) -> Shot {
        let y = if self.direction == Direction::UP {
            self.position.1 - Shot::SPEED
        } else {
            self.position.1 + Shot::SPEED
        };
        Shot { position: (self.position.0, y as i64), direction: self.direction }
    }

    /// The projectile as a drawable entity.
    pub open spec fn object(self) -> SpaceObject {
        SpaceObject {
            kind: ObjectKind::Projectile,
            position: self.position,
            direction: self.direction,
            size: Shot::SIZE,
            color: Shot::paint(),
        }
    }

    pub fn new(position: Position, direction: Direction) -> (shot: Shot)
        ensures
            shot == (Shot { position, direction }),
    {
        Shot { position, direction }
    }

    /// Moves the projectile one tick along its heading.
    pub fn action(&mut self)
        requires
            old(self).direction.is_vertical(),
            old(self).step_fits(),
        ensures
            *final(self) == old(self).advanced(),
    {
        let (x, y) = self.position;
        let new_y = match self.direction {
            Direction::UP => y - Shot::SPEED,
            _ => y + Shot::SPEED,
        };
        self.position = (x, new_y);
    }

    pub fn color(&self) -> (color: Color)
        ensures
            color == Shot::paint(),
    {
        opaque(255, 255, 0)
    }

    pub fn direction(&self) -> (direction: Direction)
        ensures
            direction == self.direction,
    {
        self.direction
    }

    pub fn size(&self) -> (size: i64)
        ensures
            size == Shot::SIZE,
    {
        Shot::SIZE
    }

    pub fn position(&self) -> (position: Position)
        ensures
            position == self.position,
    {
        self.position
    }

    /// The projectile as a drawable entity.
    pub fn as_space_object(&self) -> (object: SpaceObject)
        ensures
            object == self.object(),
    {
        SpaceObject::new(
            ObjectKind::Projectile,
            self.position,
            self.direction,
            Shot::SIZE,
            self.color(),
        )
    }
}

} // verus!
