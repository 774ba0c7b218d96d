//! Ships: an entity that owns the projectiles it has fired.

use vstd::prelude::*;
use crate::game_objects::{
    are_colliding, collides, in_space, is_visible_at, valid_screen, visible, Color, Direction,
    ObjectKind, Position, ScreenSize, SpaceObject, SPACE_LIMIT,
};
use crate::seq_facts::{lemma_filter_next, lemma_filter_none, lemma_take_all};
use crate::shot::Shot;

verus! {

/// A ship and the projectiles it has in flight.
pub struct Spaceship {
    destroyed: bool,
    position: Position,
    direction: Direction,
    screen_size: ScreenSize,
    color: Color,
    size: i64,
    shots: Vec<Shot>,
}

/// What a ship is, as a mathematical value.
pub struct ShipModel {
    pub destroyed: bool,
    pub position: Position,
    pub direction: Direction,
    pub screen_size: ScreenSize,
    pub color: Color,
    pub size: i64,
    /// The projectiles in flight, oldest first.
    pub shots: Seq<Shot>,
}

/// Advances a projectile by one tick.
pub open spec fn step_shot() -> spec_fn(Shot) -> Shot {
    |shot: Shot| shot.advanced()
}

/// Tells whether a projectile is visible in the viewport.
pub open spec fn on_screen(screen_size: ScreenSize) -> spec_fn(Shot) -> bool {
    |shot: Shot| visible(shot.position, screen_size)
}

/// Turns a projectile into a drawable entity.
pub open spec fn shot_object() -> spec_fn(Shot) -> SpaceObject {
    |shot: Shot| shot.object()
}

impl ShipModel {
    /// The ship's data is consistent: it faces up or down inside the tracked
    /// space of a valid viewport, and so does each of its projectiles.
    pub open spec fn wf(self) -> bool {
        &&& valid_screen(self.screen_size)
        &&& in_space(self.position)
        &&& 0 <= self.size <= SPACE_LIMIT
        &&& self.direction.is_vertical()
        &&& forall|i: int|
            0 <= i < self.shots.len() ==> (#[trigger] self.shots[i]).direction.is_vertical()
                && in_space(self.shots[i].position)
    }

    /// A fresh ship: intact and without projectiles.
    pub open spec fn launched(
        position: Position,
        direction: Direction,
        screen_size: ScreenSize,
        color: Color,
        size: i64,
    ) -> ShipModel {
        ShipModel {
            destroyed: false,
            position,
            direction,
            screen_size,
            color,
            size,
            shots: Seq::empty(),
        }
    }

    /// The ship at another position.
    pub open spec fn moved_to(self, position: Position) -> ShipModel {
        ShipModel { position, ..self }
    }

    /// The ship with one more projectile in flight.
    pub open spec fn loaded(self, shot: Shot) -> ShipModel {
        ShipModel { shots: self.shots.push(shot), ..self }
    }

    /// The ship after firing: a new projectile at its own position, with its
    /// own heading, behind those already in flight.
    pub open spec fn fired(self) -> ShipModel {
        self.loaded(Shot { position: self.position, direction: self.direction })
    }

    /// The ship marked as destroyed.
    pub open spec fn wrecked(self) -> ShipModel {
        ShipModel { destroyed: true, ..self }
    }

    /// The ship one tick later: every projectile has advanced, and of the
    /// advanced projectiles those that are still visible remain, in order.
    pub open spec fn shots_advanced(self) -> ShipModel {
        ShipModel {
            shots: self.shots.map_values(step_shot()).filter(on_screen(self.screen_size)),
            ..self
        }
    }

    /// Some projectile of this ship is within collision distance of
    /// `position`.
    pub open spec fn has_shot_near(self, position: Position) -> bool {
        exists|i: int| 0 <= i < self.shots.len() && collides(position, #[trigger] self.shots[i].position)
    }

    /// This ship hits `other`: `other` is not destroyed yet and one of this
    /// ship's projectiles collides with it.
    pub open spec fn hits(self, other: ShipModel) -> bool {
        !other.destroyed && self.has_shot_near(other.position)
    }

    /// This ship after `attacker` had its chance: destroyed if hit.
    pub open spec fn struck_by(self, attacker: ShipModel) -> ShipModel {
        if attacker.hits(self) {
            self.wrecked()
        } else {
            self
        }
    }

    /// The ship's body as a drawable entity of the given kind.
    pub open spec fn body(self, kind: ObjectKind) -> SpaceObject {
        SpaceObject {
            kind,
            position: self.position,
            direction: self.direction,
            size: self.size,
            color: self.color,
        }
    }

    /// What there is to draw of the ship: its projectiles, oldest first, then
    /// its body.
    pub open spec fn objects(self, kind: ObjectKind) -> Seq<SpaceObject> {
        self.shots.map_values(shot_object()).push(self.body(kind))
    }

    /// Firing, moving inside the tracked space, and wrecking keep a ship
    /// consistent.
    pub proof fn lemma_wf_kept(self, position: Position)
        requires
            self.wf(),
        ensures
            self.fired().wf(),
            self.wrecked().wf(),
            in_space(position) ==> self.moved_to(position).wf(),
    {
    }

    /// Advancing the projectiles keeps a ship consistent, and afterwards
    /// every projectile is visible.
    pub proof fn lemma_shots_advanced_wf(self)
        requires
            self.wf(),
        ensures
            self.shots_advanced().wf(),
            forall|i: int|
                0 <= i < self.shots_advanced().shots.len() ==> visible(
                    (#[trigger] self.shots_advanced().shots[i]).position,
                    self.screen_size,
                ),
    {
        let moved = self.shots.map_values(step_shot());
        let pred = on_screen(self.screen_size);
        let kept = moved.filter(pred);
        assert forall|i: int| 0 <= i < kept.len() implies (#[trigger] kept[i]).direction.is_vertical()
            && in_space(kept[i].position) && visible(kept[i].position, self.screen_size) by {
            moved.lemma_filter_pred(pred, i);
            moved.lemma_filter_contains_rev(pred, kept[i]);
            let j = choose|j: int| 0 <= j < moved.len() && moved[j] == kept[i];
            assert(moved[j] == self.shots[j].advanced());
        }
    }
}

impl View for Spaceship {
    type V = ShipModel;

    closed spec fn view(&self) -> ShipModel {
        ShipModel {
            destroyed: self.destroyed,
            position: self.position,
            direction: self.direction,
            screen_size: self.screen_size,
            color: self.color,
            size: self.size,
            shots: self.shots@,
        }
    }
}

impl Spaceship {
    /// A fresh ship: intact and without projectiles.
    pub fn new(
        position: Position,
        direction: Direction,
        screen_size: ScreenSize,
        color: Color,
        size: i64,
    ) -> (ship: Spaceship)
        requires
            ShipModel::launched(position, direction, screen_size, color, size).wf(),
        ensures
            ship@ == ShipModel::launched(position, direction, screen_size, color, size),
    {
        Spaceship {
            destroyed: false,
            position,
            direction,
            screen_size,
            color,
            size,
            shots: Vec::new(),
        }
    }

    pub fn screen_size(&self) -> (screen_size: ScreenSize)
        ensures
            screen_size == self@.screen_size,
    {
        self.screen_size
    }

    /// Puts the ship at `position`.
    pub fn move_to(&mut self, position: Position)
        requires
            old(self)@.wf(),
            in_space(position),
        ensures
            final(self)@ == old(self)@.moved_to(position),
            final(self)@.wf(),
    {
        self.position = position;
    }

    /// Advances every projectile by one tick, then drops those that are no
    /// longer visible.
    pub fn update_shot_position(&mut self)
        requires
            old(self)@.wf(),
        ensures
            final(self)@ == old(self)@.shots_advanced(),
            final(self)@.wf(),
    {
        let ghost before = self@;
        let ghost moved = before.shots.map_values(step_shot());
        let ghost pred = on_screen(before.screen_size);
        let screen_size = self.screen_size;
        let mut kept: Vec<Shot> = Vec::new();
        let mut i: usize = 0;
        proof {
            lemma_filter_none(moved, pred);
        }
        while i < self.shots.len()
            invariant
                i <= self.shots@.len(),
                self@ == before,
                before.wf(),
                screen_size == before.screen_size,
                moved == before.shots.map_values(step_shot()),
                pred == on_screen(before.screen_size),
                kept@ == moved.take(i as int).filter(pred),
            decreases self.shots.len() - i,
        {
            let mut shot = self.shots[i];
            assert(shot == before.shots[i as int]);
            shot.action();
            proof {
                lemma_filter_next(moved, pred, i as int);
            }
            if is_visible_at(shot.position, screen_size) {
                kept.push(shot);
            }
            i += 1;
        }
        proof {
            lemma_take_all(moved);
            before.lemma_shots_advanced_wf();
        }
        self.shots = kept;
    }

    /// Adds a projectile to those in flight.
    pub fn add_shot(&mut self, shot: Shot)
        requires
            old(self)@.wf(),
            shot.direction.is_vertical(),
            in_space(shot.position),
        ensures
            final(self)@ == old(self)@.loaded(shot),
            final(self)@.wf(),
    {
        self.shots.push(shot);
    }

    /// Fires a projectile from the ship's position along its heading.
    pub fn fire(&mut self)
        requires
            old(self)@.wf(),
        ensures
            final(self)@ == old(self)@.fired(),
            final(self)@.wf(),
    {
        let position = self.position;
        let direction = self.direction;
        self.shots.push(Shot::new(position, direction));
    }

    /// What there is to draw of the ship: its projectiles, oldest first, then
    /// its body, drawn as `kind`.
    pub fn as_game_objects(&self, kind: ObjectKind) -> (objects: Vec<SpaceObject>)
        ensures
            objects@ == self@.objects(kind),
    {
        let mut objects: Vec<SpaceObject> = Vec::new();
        let mut i: usize = 0;
        while i < self.shots.len()
            invariant
                i <= self.shots@.len(),
                objects@ == self.shots@.take(i as int).map_values(shot_object()),
            decreases self.shots.len() - i,
        {
            objects.push(self.shots[i].as_space_object());
            assert(self.shots@.take(i + 1).map_values(shot_object()) =~= self.shots@.take(
                i as int,
            ).map_values(shot_object()).push(self.shots@[i as int].object()));
            i += 1;
        }
        proof {
            lemma_take_all(self.shots@);
        }
        objects.push(self.as_space_object(kind));
        objects
    }

    /// The ship's body as a drawable entity of the given kind.
    pub fn as_space_object(&self, kind: ObjectKind) -> (object: SpaceObject)
        ensures
            object == self@.body(kind),
    {
        SpaceObject::new(kind, self.position, self.direction, self.size, self.color)
    }

    /// Marks the ship as destroyed. A destroyed ship stays destroyed.
    pub fn destroy(&mut self)
        ensures
            final(self)@ == old(self)@.wrecked(),
    {
        self.destroyed = true;
    }

    /// Whether one of this ship's projectiles hits `other`. A destroyed ship
    /// cannot be hit.
    pub fn hits(&self, other: &Spaceship) -> (hit: bool)
        ensures
            hit == self@.hits(other@),
    {
        if other.destroyed {
            return false;
        }
        let mut i: usize = 0;
        while i < self.shots.len()
            invariant
                i <= self.shots@.len(),
                !other@.destroyed,
                forall|j: int| 0 <= j < i ==> !collides(other@.position, #[trigger] self.shots@[j].position),
            decreases self.shots.len() - i,
        {
            if are_colliding(other.position, self.shots[i].position) {
                assert(collides(other@.position, self@.shots[i as int].position));
                return true;
            }
            i += 1;
        }
        false
    }

    pub fn is_destroyed(&self) -> (destroyed: bool)
        ensures
            destroyed == self@.destroyed,
    {
        self.destroyed
    }

    pub fn color(&self) -> (color: Color)
        ensures
            color == self@.color,
    {
        self.color
    }

    pub fn direction(&self) -> (direction: Direction)
        ensures
            direction == self@.direction,
    {
        self.direction
    }

    pub fn size(&self) -> (size: i64)
        ensures
            size == self@.size,
    {
        self.size
    }

    pub fn position(&self) -> (position: Position)
        ensures
            position == self@.position,
    {
        self.position
    }

    /// The projectiles in flight, oldest first.
    pub fn shots(&self) -> (shots: &Vec<Shot>)
        ensures
            shots@ == self@.shots,
    {
        &self.shots
    }

    /// Whether the ship is inside the viewport or its margin band.
    pub fn is_visible(&self, screen_size: ScreenSize) -> (seen: bool)
        ensures
            seen == visible(self@.position, screen_size),
    {
        is_visible_at(self.position, screen_size)
    }

    /// Whether the ship is close enough to the entity to collide with it.
    pub fn check_collision(&self, other: &SpaceObject) -> (hit: bool)
        ensures
            hit == collides(self@.position, other.position),
    {
        are_colliding(self.position, other.position)
    }
}

} // verus!
