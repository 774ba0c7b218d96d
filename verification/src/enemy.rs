//! Enemy ships: they drift sideways at random, descend steadily and fire at
//! random.

use vstd::prelude::*;
use rand::thread_rng;
use crate::chance::{chance, pick_between, RATE_SCALE};
use crate::game_objects::{
    clamped, max, min, opaque, rgb, valid_screen, visible, Color, Direction, ObjectKind,
    ScreenSize, SpaceObject, SPACE_LIMIT,
};
use crate::hero::HeroModel;
use crate::player::Player;
use crate::spaceship::{ShipModel, Spaceship};

verus! {

/// An enemy combatant.
pub struct Enemy {
    spaceship: Spaceship,
    attack_rate: u32,
}

/// What an enemy is, as a mathematical value.
pub struct EnemyModel {
    pub ship: ShipModel,
    /// The chance, in thousandths, that the enemy fires in a tick.
    pub attack_rate: u32,
}

/// The random decisions of one enemy in one tick.
#[derive(Copy, Clone, Debug)]
pub struct EnemyMove {
    /// How far the enemy is pushed sideways.
    pub drift: i64,
    /// Whether the enemy fires.
    pub fire: bool,
}

impl EnemyMove {
    /// The push is no stronger than an enemy can drift in a tick.
    pub open spec fn wf(self) -> bool {
        -Enemy::X_SPEED <= self.drift <= Enemy::X_SPEED
    }

    /// The decision to fire is one that a trial at `attack_rate` can give:
    /// a rate of zero never fires, a full rate always does.
    pub open spec fn allowed_at(self, attack_rate: u32) -> bool {
        &&& attack_rate == 0 ==> !self.fire
        &&& attack_rate == RATE_SCALE ==> self.fire
    }
}

impl EnemyModel {
    /// Enemy ships are blue.
    pub open spec fn paint() -> Color {
        rgb(0, 0, 255)
    }

    /// The enemy's ship is consistent and its attack rate is a rate.
    pub open spec fn wf(self) -> bool {
        &&& self.ship.wf()
        &&& self.attack_rate <= RATE_SCALE
    }

    /// The enemy can descend one more step inside the tracked space.
    pub open spec fn can_descend(self) -> bool {
        self.ship.position.1 < SPACE_LIMIT
    }

    /// Where an enemy may appear: far enough from both side edges to show in
    /// full.
    pub open spec fn spawn_range(screen_size: ScreenSize, x: i64) -> bool {
        Enemy::SIZE <= x <= screen_size.0 - Enemy::SIZE
    }

    /// A new enemy: facing down at horizontal position `x`, `Y_START` above
    /// the top edge, without projectiles, firing at the initial rate.
    pub open spec fn spawned_at(x: i64, screen_size: ScreenSize) -> EnemyModel {
        EnemyModel {
            ship: ShipModel::launched(
                (x, Enemy::Y_START),
                Enemy::DIRECTION,
                screen_size,
                EnemyModel::paint(),
                Enemy::SIZE,
            ),
            attack_rate: Enemy::INITIAL_ATTACK_RATE,
        }
    }

    /// The enemy after moving: pushed sideways by `drift` but kept between the
    /// side edges of the viewport, and `Y_SPEED` further down.
    pub open spec fn moved(self, drift: i64) -> EnemyModel {
        let (x, y) = self.ship.position;
        let new_x = clamped(x + drift, 0, self.ship.screen_size.0 as int);
        EnemyModel { ship: self.ship.moved_to((new_x as i64, (y + Enemy::Y_SPEED) as i64)), ..self }
    }

    /// The enemy after its attack step: it has fired or not.
    pub open spec fn attacked(self, fire: bool) -> EnemyModel {
        if fire {
            EnemyModel { ship: self.ship.fired(), ..self }
        } else {
            self
        }
    }

    /// The enemy one tick later: it has moved, then fired or not, then its
    /// projectiles have advanced.
    pub open spec fn acted(self, decision: EnemyMove) -> EnemyModel {
        let ready = self.moved(decision.drift).attacked(decision.fire);
        EnemyModel { ship: ready.ship.shots_advanced(), ..ready }
    }

    /// The enemy after `hero` had its chance to hit it.
    pub open spec fn struck_by(self, hero: HeroModel) -> EnemyModel {
        EnemyModel { ship: self.ship.struck_by(hero.ship), ..self }
    }

    /// Whether the enemy stays on the roster: it is visible in the viewport
    /// and not destroyed.
    pub open spec fn stays(self, screen_size: ScreenSize) -> bool {
        visible(self.ship.position, screen_size) && !self.ship.destroyed
    }

    /// A tick keeps an enemy consistent. It ends between the side edges, one
    /// step further down, with as many projectiles as are still visible.
    pub proof fn lemma_acted_wf(self, decision: EnemyMove)
        requires
            self.wf(),
            self.can_descend(),
            decision.wf(),
        ensures
            self.acted(decision).wf(),
            self.acted(decision).attack_rate == self.attack_rate,
            self.acted(decision).ship.destroyed == self.ship.destroyed,
            self.acted(decision).ship.screen_size == self.ship.screen_size,
            self.acted(decision).ship.position.1 == self.ship.position.1 + Enemy::Y_SPEED,
            0 <= self.acted(decision).ship.position.0 <= self.ship.screen_size.0,
    {
        let moved = self.moved(decision.drift);
        assert(moved.ship.wf());
        let ready = moved.attacked(decision.fire);
        moved.ship.lemma_wf_kept(moved.ship.position);
        ready.ship.lemma_shots_advanced_wf();
    }
}

impl View for Enemy {
    type V = EnemyModel;

    closed spec fn view(&self) -> EnemyModel {
        EnemyModel { ship: self.spaceship@, attack_rate: self.attack_rate }
    }
}

impl Enemy {
    /// The chance, in thousandths, that a new enemy fires in a tick.
    pub const INITIAL_ATTACK_RATE: u32 = 10;

    /// The chance, in thousandths, that an enemy drifts sideways in a tick.
    pub const DRIFT_RATE: u32 = 50;

    /// The furthest an enemy drifts sideways in a tick.
    pub const X_SPEED: i64 = 45;

    /// How far an enemy descends per tick.
    pub const Y_SPEED: i64 = 1;

    /// The height at which enemies appear, just above the top edge.
    pub const Y_START: i64 = -15;

    pub const SIZE: i64 = 20;

    pub const DIRECTION: Direction = Direction::DOWN;

    /// A new enemy at horizontal position `x`.
    pub fn at(x: i64, screen_size: ScreenSize) -> (enemy: Enemy)
        requires
            valid_screen(screen_size),
            EnemyModel::spawn_range(screen_size, x),
        ensures
            enemy@ == EnemyModel::spawned_at(x, screen_size),
            enemy@.wf(),
    {
        Enemy {
            attack_rate: Enemy::INITIAL_ATTACK_RATE,
            spaceship: Spaceship::new(
                (x, Enemy::Y_START),
                Enemy::DIRECTION,
                screen_size,
                opaque(0, 0, 255),
                Enemy::SIZE,
            ),
        }
    }

    /// A new enemy at a random horizontal position.
    pub fn new(screen_size: ScreenSize) -> (enemy: Enemy)
        requires
            valid_screen(screen_size),
            2 * Enemy::SIZE <= screen_size.0,
        ensures
            exists|x: i64|
                EnemyModel::spawn_range(screen_size, x) && enemy@ == EnemyModel::spawned_at(
                    x,
                    screen_size,
                ),
            enemy@.wf(),
    {
        let mut random = thread_rng();
        let (width, _) = screen_size;
        let x = pick_between(&mut random, Enemy::SIZE, width - Enemy::SIZE);
        Enemy::at(x, screen_size)
    }

    /// An enemy made of the given ship, firing at the given rate.
    pub fn from_parts(spaceship: Spaceship, attack_rate: u32) -> (enemy: Enemy)
        ensures
            enemy@ == (EnemyModel { ship: spaceship@, attack_rate }),
    {
        Enemy { spaceship, attack_rate }
    }

    /// Draws where the drift of one tick would take the enemy: mostly nowhere,
    /// now and then to a random place at most `X_SPEED` to either side of
    /// where it is. The side edges of the viewport are not looked at here.
    pub fn calculate_x_move(&self) -> (x: i64)
        requires
            self@.wf(),
        ensures
            self@.ship.position.0 - Enemy::X_SPEED <= x <= self@.ship.position.0 + Enemy::X_SPEED,
    {
        let mut random = thread_rng();
        let (cur_x, _) = self.spaceship.position();
        let movement = if chance(&mut random, Enemy::DRIFT_RATE, RATE_SCALE) {
            pick_between(&mut random, -Enemy::X_SPEED, Enemy::X_SPEED)
        } else {
            0
        };
        cur_x + movement
    }

    /// Draws the random decisions of one tick for this enemy: the push is
    /// what the drift of the tick comes to, and whether it fires is one trial
    /// at its attack rate.
    pub fn decide(&self) -> (decision: EnemyMove)
        requires
            self@.wf(),
        ensures
            decision.wf(),
            decision.allowed_at(self@.attack_rate),
    {
        let mut random = thread_rng();
        let (cur_x, _) = self.spaceship.position();
        let drift = self.calculate_x_move() - cur_x;
        let fire = chance(&mut random, self.attack_rate, RATE_SCALE);
        EnemyMove { drift, fire }
    }

    /// Moves the enemy: pushed sideways by `drift`, kept between the side
    /// edges, and one step down.
    pub fn movement(&mut self, drift: i64)
        requires
            old(self)@.wf(),
            old(self)@.can_descend(),
            -Enemy::X_SPEED <= drift <= Enemy::X_SPEED,
        ensures
            final(self)@ == old(self)@.moved(drift),
            final(self)@.wf(),
    {
        let (width, _) = self.spaceship.screen_size();
        let (cur_x, cur_y) = self.spaceship.position();
        let new_x = max(min(cur_x + drift, width), 0);
        let new_y = cur_y + Enemy::Y_SPEED;
        self.spaceship.move_to((new_x, new_y));
    }

    /// The enemy's attack step: fires if `fire` says so.
    pub fn attack(&mut self, fire: bool)
        requires
            old(self)@.wf(),
        ensures
            final(self)@ == old(self)@.attacked(fire),
            final(self)@.wf(),
    {
        if fire {
            self.spaceship.fire();
        }
    }

    /// One tick of the enemy under the given decisions: it moves, fires or
    /// not, and its projectiles advance.
    pub fn act(&mut self, decision: EnemyMove)
        requires
            old(self)@.wf(),
            old(self)@.can_descend(),
            decision.wf(),
        ensures
            final(self)@ == old(self)@.acted(decision),
            final(self)@.wf(),
    {
        self.movement(decision.drift);
        self.attack(decision.fire);
        self.spaceship.update_shot_position();
    }

    /// Sets the chance, in thousandths, that the enemy fires in a tick.
    pub fn set_attack_rate(&mut self, attack_rate: u32)
        requires
            attack_rate <= RATE_SCALE,
        ensures
            final(self)@ == (EnemyModel { attack_rate, ..old(self)@ }),
    {
        self.attack_rate = attack_rate;
    }

    pub fn attack_rate(&self) -> (attack_rate: u32)
        ensures
            attack_rate == self@.attack_rate,
    {
        self.attack_rate
    }

    /// What there is to draw of the enemy: its projectiles, then its ship.
    pub fn as_game_objects(&self) -> (objects: Vec<SpaceObject>)
        ensures
            objects@ == self@.ship.objects(ObjectKind::EnemyShip),
    {
        self.spaceship.as_game_objects(ObjectKind::EnemyShip)
    }
}

impl Player for Enemy {
    open spec fn ship(&self) -> ShipModel {
        self@.ship
    }

    /// Apart from its ship an enemy has its attack rate.
    open spec fn refitted(&self, after: &Self) -> bool {
        after@.attack_rate == self@.attack_rate
    }

    open spec fn can_act(&self) -> bool {
        self@.wf() && self@.can_descend()
    }

    fn spaceship(&self) -> (ship: &Spaceship) {
        &self.spaceship
    }

    fn spaceship_mut(&mut self) -> (ship: &mut Spaceship) {
        &mut self.spaceship
    }

    /// One tick of the enemy, with its decisions drawn at random: it moves,
    /// fires or not, and its projectiles advance.
    fn action(&mut self)
        ensures
            exists|decision: EnemyMove|
                decision.wf() && decision.allowed_at(old(self)@.attack_rate) && final(self)@ == old(
                    self,
                )@.acted(decision),
            final(self)@.wf(),
    {
        let decision = self.decide();
        self.act(decision);
    }
}

} // verus!
