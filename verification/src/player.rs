//! What the hero and the enemies have in common: each flies one ship.

use vstd::prelude::*;
use crate::game_objects::{visible, ScreenSize};
use crate::spaceship::{ShipModel, Spaceship};

verus! {

/// A combatant: it owns one ship.
pub trait Player {
    /// The combatant's ship, as a mathematical value.
    spec fn ship(&self) -> ShipModel;

    /// Whether `after` is this combatant with nothing changed but its ship.
    spec fn refitted(&self, after: &Self) -> bool;

    /// The combatant's ship.
    fn spaceship(&self) -> (ship: &Spaceship)
        ensures
            ship@ == self.ship(),
    ;

    /// The combatant's ship, to be changed in place. Whatever is done to the
    /// ship, the rest of the combatant stays as it is.
    fn spaceship_mut(&mut self) -> (ship: &mut Spaceship)
        ensures
            ship@ == old(self).ship(),
            final(self).ship() == final(ship)@,
            old(self).refitted(final(self)),
    ;

    /// Whether the combatant can take its part of a tick.
    spec fn can_act(&self) -> bool;

    /// The combatant's part of a tick.
    fn action(&mut self)
        requires
            old(self).can_act(),
    ;

    /// Whether the combatant's ship is destroyed.
    fn is_destroyed(&self) -> (destroyed: bool)
        ensures
            destroyed == self.ship().destroyed,
    {
        self.spaceship().is_destroyed()
    }

    /// Whether the combatant's ship is inside the viewport or its margin band.
    fn is_visible(&self, screen_size: ScreenSize) -> (seen: bool)
        ensures
            seen == visible(self.ship().position, screen_size),
    {
        self.spaceship().is_visible(screen_size)
    }
}

/// Resolves the fire of `attacker` on `target`: if one of the attacker's
/// projectiles hits the target's ship, that ship is destroyed. Nothing else
/// about the target changes.
pub fn hits<A: Player, B: Player>(attacker: &A, target: &mut B) -> (hit: bool)
    ensures
        hit == attacker.ship().hits(old(target).ship()),
        hit ==> final(target).ship() == old(target).ship().wrecked() && old(target).refitted(
            final(target),
        ),
        !hit ==> *final(target) == *old(target),
{
    if attacker.spaceship().hits(target.spaceship()) {
        let spaceship = target.spaceship_mut();
        spaceship.destroy();
        true
    } else {
        false
    }
}

} // verus!
