//! The starfield: background entities that fall and wrap around.

use vstd::prelude::*;
use rand::thread_rng;
use crate::chance::pick_between;
use crate::game_objects::{
    opaque, rgb, valid_screen, Color, Direction, ObjectKind, Position, ScreenSize, SpaceObject,
};

verus! {

/// A star of the background.
#[derive(Copy, Clone, Debug)]
pub struct Star {
    pub size: i64,
    pub position: Position,
    pub screen_size: ScreenSize,
}

impl Star {
    /// How far a star falls per tick.
    pub const SPEED: i64 = 5;

    pub const MIN_SIZE: i64 = 1;

    pub const MAX_SIZE: i64 = 4;

    pub const DIRECTION: Direction = Direction::DOWN;

    /// Stars are white.
    pub open spec fn paint() -> Color {
        rgb(255, 255, 255)
    }

    /// The star has one of the sizes stars come in and lies inside its
    /// viewport, the bottom edge included.
    pub open spec fn wf(self) -> bool {
        &&& valid_screen(self.screen_size)
        &&& Star::MIN_SIZE <= self.size <= Star::MAX_SIZE
        &&& 0 <= self.position.0 <= self.screen_size.0
        &&& 0 <= self.position.1 <= self.screen_size.1
    }

    /// The star one tick later: `SPEED` further down, or back at the top edge
    /// if that step would take it beyond the viewport's height. It never moves
    /// sideways.
    pub open spec fn fallen(self) -> Star {
        let y = if self.position.1 + Star::SPEED <= self.screen_size.1 {
            self.position.1 + Star::SPEED
        } else {
            0
        };
        Star { position: (self.position.0, y as i64), ..self }
    }

    /// The star as a drawable entity.
    pub open spec fn object(self) -> SpaceObject {
        SpaceObject {
            kind: ObjectKind::Star,
            position: self.position,
            direction: Star::DIRECTION,
            size: self.size,
            color: Star::paint(),
        }
    }

    /// A falling star stays a star of the same size in the same column.
    pub proof fn lemma_fallen_wf(self)
        requires
            self.wf(),
        ensures
            self.fallen().wf(),
            self.fallen().size == self.size,
            self.fallen().position.0 == self.position.0,
            self.fallen().screen_size == self.screen_size,
    {
    }

    /// The star of the given size at the given place.
    pub fn at(position: Position, size: i64, screen_size: ScreenSize) -> (star: Star)
        ensures
            star == (Star { size, position, screen_size }),
    {
        Star { size, position, screen_size }
    }

    /// A star of random size at a random place of the viewport.
    pub fn new(screen_size: ScreenSize) -> (star: Star)
        requires
            valid_screen(screen_size),
            1 <= screen_size.0,
            1 <= screen_size.1,
        ensures
            star.wf(),
            star.screen_size == screen_size,
            star.position.0 < screen_size.0,
            star.position.1 < screen_size.1,
    {
        let mut rng = thread_rng();
        let (width, height) = screen_size;
        let x = pick_between(&mut rng, 0, width - 1);
        let y = pick_between(&mut rng, 0, height - 1);
        let size = pick_between(&mut rng, Star::MIN_SIZE, Star::MAX_SIZE);
        Star::at((x, y), size, screen_size)
    }

    /// Lets the star fall for one tick.
    pub fn fall(&mut self)
        requires
            old(self).wf(),
        ensures
            *final(self) == old(self).fallen(),
            final(self).wf(),
    {
        let (_, height) = self.screen_size;
        let (x, y) = self.position;
        let new_y = if y + Star::SPEED <= height {
            y + Star::SPEED
        } else {
            0
        };
        self.position = (x, new_y);
    }

    pub fn color(&self) -> (color: Color)
        ensures
            color == Star::paint(),
    {
        opaque(255, 255, 255)
    }

    pub fn direction(&self) -> (direction: Direction)
        ensures
            direction == Star::DIRECTION,
    {
        Star::DIRECTION
    }

    pub fn size(&self) -> (size: i64)
        ensures
            size == self.size,
    {
        self.size
    }

    pub fn position(&self) -> (position: Position)
        ensures
            position == self.position,
    {
        self.position
    }

    /// The star as a drawable entity.
    pub fn as_space_object(&self) -> (object: SpaceObject)
        ensures
            object == self.object(),
    {
        SpaceObject::new(ObjectKind::Star, self.position, Star::DIRECTION, self.size, self.color())
    }

    /// The corners of the square the star is drawn as.
    pub fn coord(&self) -> (corners: Vec<Position>)
        requires
            self.wf(),
        ensures
            corners@ == self.object().outline(),
    {
        self.as_space_object().coord()
    }
}

} // verus!
