//! The player's ship: moved and fired by input, with a cooldown between
//! attacks.

use vstd::prelude::*;
use std::time::Instant;
use crate::enemy::EnemyModel;
use crate::game_objects::{
    max, min, opaque, rgb, spec_max, spec_min, valid_screen, Color, Direction, ObjectKind,
    ScreenSize, SpaceObject,
};
use crate::player::Player;
use crate::spaceship::{ShipModel, Spaceship};

verus! {

/// The player's combatant.
pub struct Hero {
    spaceship: Spaceship,
    last_attack: Option<Instant>,
}

/// What the hero is, as a mathematical value.
pub struct HeroModel {
    pub ship: ShipModel,
    /// The clock reading of the last attack that was carried out, if any.
    pub last_attack: Option<Instant>,
}

impl HeroModel {
    /// Hero ships are red.
    pub open spec fn paint() -> Color {
        rgb(255, 0, 0)
    }

    /// The hero's ship is consistent and within the horizontal bounds of its
    /// viewport.
    pub open spec fn wf(self) -> bool {
        &&& self.ship.wf()
        &&& 0 <= self.ship.position.0 <= self.ship.screen_size.0
    }

    /// The hero at the start of a round: facing up at the middle of the
    /// viewport, `BOTTOM_OFFSET` above its bottom edge, with no attack made.
    pub open spec fn fresh(screen_size: ScreenSize) -> HeroModel {
        HeroModel {
            ship: ShipModel::launched(
                ((screen_size.0 / 2) as i64, (screen_size.1 - Hero::BOTTOM_OFFSET) as i64),
                Hero::DIRECTION,
                screen_size,
                HeroModel::paint(),
                Hero::SIZE,
            ),
            last_attack: None,
        }
    }

    /// The hero after one step sideways: `SPEED` towards the viewport's width
    /// for `LEFT`, `SPEED` towards zero otherwise, stopping at the bound. The
    /// vertical position stays.
    pub open spec fn moved(self, direction: Direction) -> HeroModel {
        let (x, y) = self.ship.position;
        let new_x = if direction == Direction::LEFT {
            spec_min(x + Hero::SPEED, self.ship.screen_size.0 as int)
        } else {
            spec_max(x - Hero::SPEED, 0)
        };
        HeroModel { ship: self.ship.moved_to((new_x as i64, y)), ..self }
    }

    /// Whether an attack asked for `elapsed_ms` milliseconds after the last one
    /// is carried out: always if there was none, else only once more than
    /// `ATTACK_THRESHOLD` milliseconds have passed.
    pub open spec fn may_attack(self, elapsed_ms: u128) -> bool {
        self.last_attack is None || elapsed_ms > Hero::ATTACK_THRESHOLD
    }

    /// The hero after an attack was asked for at clock reading `now`,
    /// `elapsed_ms` milliseconds after the last attack: if the attack is
    /// carried out the ship fires and `now` is recorded, else nothing changes.
    pub open spec fn attacked(self, elapsed_ms: u128, now: Instant) -> HeroModel {
        if self.may_attack(elapsed_ms) {
            HeroModel { ship: self.ship.fired(), last_attack: Some(now) }
        } else {
            self
        }
    }

    /// The hero one tick later: its projectiles have advanced.
    pub open spec fn acted(self) -> HeroModel {
        HeroModel { ship: self.ship.shots_advanced(), ..self }
    }

    /// The hero after `enemy` had its chance to hit it.
    pub open spec fn struck_by(self, enemy: EnemyModel) -> HeroModel {
        HeroModel { ship: self.ship.struck_by(enemy.ship), ..self }
    }
}

impl View for Hero {
    type V = HeroModel;

    closed spec fn view(&self) -> HeroModel {
        HeroModel { ship: self.spaceship@, last_attack: self.last_attack }
    }
}

impl Hero {
    /// How far the hero moves per step.
    pub const SPEED: i64 = 30;

    pub const SIZE: i64 = 25;

    pub const DIRECTION: Direction = Direction::UP;

    /// The milliseconds that must have passed before the next attack.
    pub const ATTACK_THRESHOLD: u64 = 200;

    /// How far above the viewport's bottom edge the hero flies.
    pub const BOTTOM_OFFSET: i64 = 30;

    /// The hero at the start of a round.
    pub fn new(screen_size: ScreenSize) -> (hero: Hero)
        requires
            valid_screen(screen_size),
        ensures
            hero@ == HeroModel::fresh(screen_size),
            hero@.wf(),
    {
        let (width, height) = screen_size;
        Hero {
            last_attack: None,
            spaceship: Spaceship::new(
                (width / 2, height - Hero::BOTTOM_OFFSET),
                Hero::DIRECTION,
                screen_size,
                opaque(255, 0, 0),
                Hero::SIZE,
            ),
        }
    }

    /// A hero made of the given ship and last attack.
    pub fn from_parts(spaceship: Spaceship, last_attack: Option<Instant>) -> (hero: Hero)
        ensures
            hero@ == (HeroModel { ship: spaceship@, last_attack }),
    {
        Hero { spaceship, last_attack }
    }

    /// Moves the hero one step sideways.
    pub fn move_to(&mut self, direction: Direction)
        requires
            old(self)@.wf(),
            direction == Direction::LEFT || direction == Direction::RIGHT,
        ensures
            final(self)@ == old(self)@.moved(direction),
            final(self)@.wf(),
    {
        let (width, _) = self.spaceship.screen_size();
        let (cur_x, cur_y) = self.spaceship.position();
        let new_x = match direction {
            Direction::LEFT => min(cur_x + Hero::SPEED, width),
            _ => max(cur_x - Hero::SPEED, 0),
        };
        self.spaceship.move_to((new_x, cur_y));
    }

    /// Decides whether an attack asked for `elapsed_ms` milliseconds after the
    /// last one is carried out.
    pub fn should_attack(&self, elapsed_ms: u128) -> (go: bool)
        ensures
            go == self@.may_attack(elapsed_ms),
    {
        match self.last_attack {
            Some(_) => elapsed_ms > Hero::ATTACK_THRESHOLD as u128,
            None => true,
        }
    }

    /// Handles a request to attack made at clock reading `now`, `elapsed_ms`
    /// milliseconds after the last attack that was carried out.
    pub fn attack_at(&mut self, elapsed_ms: u128, now: Instant)
        requires
            old(self)@.wf(),
        ensures
            final(self)@ == old(self)@.attacked(elapsed_ms, now),
            final(self)@.wf(),
    {
        if self.should_attack(elapsed_ms) {
            self.last_attack = Some(now);
            self.spaceship.fire();
        }
    }

    /// Handles a request to attack made now, as the clock tells it.
    pub fn attack(&mut self)
        requires
            old(self)@.wf(),
        ensures
            exists|elapsed_ms: u128, now: Instant|
                final(self)@ == old(self)@.attacked(elapsed_ms, now),
            final(self)@.wf(),
    {
        let elapsed_ms = match self.last_attack {
            Some(last_attack) => last_attack.elapsed().as_millis(),
            None => 0,
        };
        let now = Instant::now();
        self.attack_at(elapsed_ms, now);
    }

    /// Records `last_attack` as the clock reading of the last attack.
    pub fn set_last_attack(&mut self, last_attack: Option<Instant>)
        ensures
            final(self)@ == (HeroModel { last_attack, ..old(self)@ }),
    {
        self.last_attack = last_attack;
    }

    pub fn last_attack(&self) -> (last_attack: Option<Instant>)
        ensures
            last_attack == self@.last_attack,
    {
        self.last_attack
    }

    /// What there is to draw of the hero: its projectiles, then its ship.
    pub fn as_game_objects(&self) -> (objects: Vec<SpaceObject>)
        ensures
            objects@ == self@.ship.objects(ObjectKind::HeroShip),
    {
        self.spaceship.as_game_objects(ObjectKind::HeroShip)
    }
}

impl Player for Hero {
    open spec fn ship(&self) -> ShipModel {
        self@.ship
    }

    /// Apart from its ship a hero has the time of its last attack.
    open spec fn refitted(&self, after: &Self) -> bool {
        after@.last_attack == self@.last_attack
    }

    open spec fn can_act(&self) -> bool {
        self@.wf()
    }

    fn spaceship(&self) -> (ship: &Spaceship) {
        &self.spaceship
    }

    fn spaceship_mut(&mut self) -> (ship: &mut Spaceship) {
        &mut self.spaceship
    }

    /// The hero's part of a tick: its projectiles advance. Moving and firing
    /// are left to the player.
    fn action(&mut self)
        ensures
            final(self)@ == old(self)@.acted(),
            final(self)@.wf(),
    {
        self.spaceship.update_shot_position();
    }
}

} // verus!
