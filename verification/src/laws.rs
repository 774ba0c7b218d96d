//! What holds of the simulation whatever the inputs: the laws that the rest of
//! the library is built to keep.

use vstd::prelude::*;
use std::time::Instant;
use crate::enemy::{EnemyModel, EnemyMove};
use crate::game::{roster_objects, star_object, with_points, Game, GameModel};
use crate::game_objects::{
    collides, distance, valid_screen, visible, Direction, ObjectKind, Position, ScreenSize,
    MIN_DISTANCE, SCREEN_MARGIN,
};
use crate::hero::{Hero, HeroModel};
use crate::scene::Scene;
use crate::shot::Shot;
use crate::spaceship::ShipModel;
use crate::stars::Star;

verus! {

/// Visibility ends at the outer edge of the margin band: on each side of a
/// viewport a position on the viewport's edge is visible, and a position
/// exactly the margin beyond that edge is not. `x` and `y` are any
/// coordinates within the viewport.
pub proof fn law_visibility_boundary(screen_size: ScreenSize, x: i64, y: i64)
    requires
        valid_screen(screen_size),
        0 <= x <= screen_size.0,
        0 <= y <= screen_size.1,
    ensures
        visible((screen_size.0, y), screen_size),
        !visible(((screen_size.0 + SCREEN_MARGIN) as i64, y), screen_size),
        visible((0, y), screen_size),
        !visible(((-SCREEN_MARGIN) as i64, y), screen_size),
        visible((x, screen_size.1), screen_size),
        !visible((x, (screen_size.1 + SCREEN_MARGIN) as i64), screen_size),
        visible((x, 0), screen_size),
        !visible((x, (-SCREEN_MARGIN) as i64), screen_size),
        visible((x, y), screen_size),
{
}

/// Collision is a matter of distance on both axes: a position collides with
/// itself; two positions exactly the minimum distance apart on one axis do
/// not collide; two positions one unit less than the minimum distance apart
/// on one axis and level on the other do; and it does not matter which of
/// the two is asked.
pub proof fn law_collision_proximity(a: Position, b: Position)
    ensures
        collides(a, a),
        distance(a.0 as int, b.0 as int) == MIN_DISTANCE ==> !collides(a, b),
        distance(a.1 as int, b.1 as int) == MIN_DISTANCE ==> !collides(a, b),
        distance(a.0 as int, b.0 as int) == MIN_DISTANCE - 1 && a.1 == b.1 ==> collides(a, b),
        distance(a.1 as int, b.1 as int) == MIN_DISTANCE - 1 && a.0 == b.0 ==> collides(a, b),
        collides(a, b) == collides(b, a),
{
}

/// A destroyed ship cannot be hit, wherever the attacker's projectiles are,
/// and being fired at changes nothing about it.
pub proof fn law_destroyed_ship_immunity(attacker: ShipModel, target: ShipModel)
    requires
        target.destroyed,
    ensures
        !attacker.hits(target),
        target.struck_by(attacker) == target,
{
}

/// A ship that is destroyed stays destroyed whatever happens to it.
pub proof fn law_destruction_is_final(ship: ShipModel, attacker: ShipModel, position: Position)
    requires
        ship.destroyed,
    ensures
        ship.fired().destroyed,
        ship.moved_to(position).destroyed,
        ship.shots_advanced().destroyed,
        ship.struck_by(attacker).destroyed,
        ship.wrecked().destroyed,
{
}

/// The cooldown gate. A hero that has not attacked yet fires at once,
/// whatever the clock says. After that attack, a request made no more than
/// the threshold later adds no projectile and leaves the recorded time of the
/// last attack as it was; a request made more than the threshold later adds
/// exactly one projectile and records its own time.
pub proof fn law_cooldown_gate(
    hero: HeroModel,
    first_ms: u128,
    first: Instant,
    early_ms: u128,
    early: Instant,
    late_ms: u128,
    late: Instant,
)
    requires
        hero.last_attack is None,
        early_ms <= Hero::ATTACK_THRESHOLD,
        late_ms > Hero::ATTACK_THRESHOLD,
    ensures
        hero.attacked(first_ms, first).ship == hero.ship.fired(),
        hero.attacked(first_ms, first).ship.shots.len() == hero.ship.shots.len() + 1,
        hero.attacked(first_ms, first).last_attack == Some(first),
        hero.attacked(first_ms, first).attacked(early_ms, early) == hero.attacked(first_ms, first),
        hero.attacked(first_ms, first).attacked(late_ms, late).ship.shots.len()
            == hero.ship.shots.len() + 2,
        hero.attacked(first_ms, first).attacked(late_ms, late).last_attack == Some(late),
{
}

/// An attack that is turned down changes nothing about the hero.
pub proof fn law_rejected_attack_changes_nothing(hero: HeroModel, elapsed_ms: u128, now: Instant)
    requires
        !hero.may_attack(elapsed_ms),
    ensures
        hero.attacked(elapsed_ms, now) == hero,
{
}

/// A step sideways never takes the hero out of the horizontal bounds of its
/// viewport, and never changes its height.
pub proof fn law_hero_stays_in_bounds(hero: HeroModel, direction: Direction)
    requires
        hero.wf(),
    ensures
        0 <= hero.moved(direction).ship.position.0 <= hero.ship.screen_size.0,
        hero.moved(direction).ship.position.1 == hero.ship.position.1,
{
}

/// A star never moves sideways, never leaves its viewport and never changes
/// its size.
pub proof fn law_star_falls_in_place(star: Star)
    requires
        star.wf(),
    ensures
        star.fallen().wf(),
        star.fallen().position.0 == star.position.0,
        star.fallen().size == star.size,
{
}

/// Some enemy at index `from` or behind it hits the hero.
pub open spec fn hero_is_hit_from(game: GameModel, from: int) -> bool {
    exists|i: int|
        from <= i < game.enemies.len() && (#[trigger] game.enemies[i]).ship.hits(game.hero.ship)
}

/// The scoring pass from any enemy on. The scene ends at `GameOver` exactly
/// when one of the enemies still to be looked at hits the hero, and is as
/// before otherwise; the roster keeps its length; and the score never sinks.
pub proof fn lemma_scored_from(game: GameModel, from: int)
    requires
        0 <= from,
        game.scene != Scene::GameOver,
    ensures
        game.scored_from(from).enemies.len() == game.enemies.len(),
        game.scored_from(from).score >= game.score,
        game.scored_from(from).screen_size == game.screen_size,
        game.scored_from(from).stars == game.stars,
        game.scored_from(from).count == game.count,
        game.scored_from(from).scene == if hero_is_hit_from(game, from) {
            Scene::GameOver
        } else {
            game.scene
        },
    decreases game.enemies.len() - from,
{
    if from < game.enemies.len() {
        let enemy = game.enemies[from];
        if enemy.ship.hits(game.hero.ship) {
            assert(hero_is_hit_from(game, from));
        } else {
            let next = if game.hero.ship.hits(enemy.ship) {
                GameModel {
                    score: with_points(game.score),
                    enemies: game.enemies.update(from, enemy.struck_by(game.hero)),
                    ..game
                }
            } else {
                game
            };
            lemma_scored_from(next, from + 1);
            assert(hero_is_hit_from(next, from + 1) == hero_is_hit_from(game, from)) by {
                if hero_is_hit_from(next, from + 1) {
                    let i = choose|i: int|
                        from + 1 <= i < next.enemies.len() && (#[trigger] next.enemies[i]).ship.hits(
                            next.hero.ship,
                        );
                    assert(game.enemies[i].ship.hits(game.hero.ship));
                }
                if hero_is_hit_from(game, from) {
                    let i = choose|i: int|
                        from <= i < game.enemies.len() && (#[trigger] game.enemies[i]).ship.hits(
                            game.hero.ship,
                        );
                    assert(next.enemies[i].ship.hits(next.hero.ship));
                }
            }
        }
    }
}

/// The round ends in the scoring pass exactly when some enemy hits the hero;
/// a round that is over stays over.
pub proof fn law_round_ends_when_hero_is_hit(game: GameModel)
    ensures
        game.scored().scene == if game.scene == Scene::GameOver || hero_is_hit_from(game, 0) {
            Scene::GameOver
        } else {
            game.scene
        },
        game.scored().score >= game.score,
        game.scored().enemies.len() == game.enemies.len(),
        game.scored().stars == game.stars,
        game.scored().count == game.count,
        game.scored().screen_size == game.screen_size,
{
    if game.scene != Scene::GameOver {
        lemma_scored_from(game, 0);
    }
}

/// Scenes follow one another in one direction only. A new game waits at the
/// start scene; a key press starts it and has no effect in any other scene; a
/// tick never takes the scene back, leaves the start scene alone, and leaves a
/// round that is over exactly as it was but for the counter and the stars.
pub proof fn law_scene_is_one_way(
    game: GameModel,
    spawn_at: Option<i64>,
    moves: Seq<EnemyMove>,
    screen_size: ScreenSize,
    stars: Seq<Star>,
)
    ensures
        GameModel::fresh(screen_size, stars).scene == Scene::StartGame,
        game.scene == Scene::StartGame ==> game.key_pressed().scene == Scene::InGame,
        game.scene != Scene::StartGame ==> game.key_pressed() == game,
        game.key_pressed().scene.stage() >= game.scene.stage(),
        game.stepped(spawn_at, moves).scene.stage() >= game.scene.stage(),
        game.scene == Scene::StartGame ==> game.stepped(spawn_at, moves).scene == Scene::StartGame,
        game.scene == Scene::InGame ==> game.stepped(spawn_at, moves).scene != Scene::StartGame,
        game.scene != Scene::InGame ==> game.stepped(spawn_at, moves) == game.ticked().stars_fallen(),
        game.scene == Scene::GameOver ==> {
            &&& game.stepped(spawn_at, moves).scene == Scene::GameOver
            &&& game.stepped(spawn_at, moves).score == game.score
            &&& game.stepped(spawn_at, moves).hero == game.hero
            &&& game.stepped(spawn_at, moves).enemies == game.enemies
        },
{
    if game.scene == Scene::InGame {
        let ready = game.ticked().stars_fallen().enemies_generated(spawn_at).enemies_acted(
            moves,
        ).hero_acted();
        law_round_ends_when_hero_is_hit(ready);
    }
}

/// The roster is tidied up before a new enemy appears: after a tick of a
/// round that is on, the roster holds the enemies that were in sight and
/// intact, in their order, and behind them the new enemy if one appeared. So
/// a tick in which an enemy appears makes the roster exactly one longer than
/// what the tidying left.
pub proof fn law_despawn_before_spawn(game: GameModel, spawn_at: Option<i64>, moves: Seq<EnemyMove>)
    requires
        game.scene == Scene::InGame,
    ensures
        game.stepped(spawn_at, moves).enemies.len() == game.despawned().enemies.len() + if spawn_at is Some {
            1int
        } else {
            0int
        },
        game.despawned().enemies.len() <= game.enemies.len(),
        game.stepped(spawn_at, moves).stars.len() == game.stars.len(),
        game.stepped(spawn_at, moves).score >= game.score,
{
    let ready = game.ticked().stars_fallen().enemies_generated(spawn_at).enemies_acted(
        moves,
    ).hero_acted();
    law_round_ends_when_hero_is_hit(ready);
    game.enemies.lemma_filter_len(crate::game::staying(game.screen_size));
}

/// Scoring against one enemy. If the enemy hits the hero the round is over:
/// the hero's ship is destroyed, the score stays, and whether the hero hits
/// the enemy too is not asked. Otherwise, if the hero hits the enemy, the
/// enemy's ship is destroyed and the score grows by the points for one enemy.
/// Otherwise nothing changes.
pub proof fn law_scoring(game: GameModel)
    requires
        game.scene != Scene::GameOver,
        game.enemies.len() == 1,
    ensures
        game.enemies[0].ship.hits(game.hero.ship) ==> game.scored() == (GameModel {
            scene: Scene::GameOver,
            hero: HeroModel { ship: game.hero.ship.wrecked(), ..game.hero },
            ..game
        }),
        !game.enemies[0].ship.hits(game.hero.ship) && game.hero.ship.hits(game.enemies[0].ship)
            ==> {
            &&& game.scored().scene == game.scene
            &&& game.scored().score == with_points(game.score)
            &&& game.scored().enemies.len() == 1
            &&& game.scored().enemies[0].ship == game.enemies[0].ship.wrecked()
            &&& game.scored().hero == game.hero
        },
        !game.enemies[0].ship.hits(game.hero.ship) && !game.hero.ship.hits(game.enemies[0].ship)
            ==> game.scored() == game,
        game.score + Game::POINTS <= u32::MAX ==> with_points(game.score) == game.score
            + Game::POINTS,
{
    reveal_with_fuel(GameModel::scored_from, 3);
}

/// A projectile keeps its heading and its column: a tick takes it `SPEED` up
/// if it heads up and `SPEED` down otherwise.
pub proof fn law_shot_keeps_course(shot: Shot)
    requires
        shot.step_fits(),
    ensures
        shot.advanced().direction == shot.direction,
        shot.advanced().position.0 == shot.position.0,
        shot.direction == Direction::UP ==> shot.advanced().position.1
            == shot.position.1 - Shot::SPEED,
        shot.direction != Direction::UP ==> shot.advanced().position.1
            == shot.position.1 + Shot::SPEED,
{
}

/// The scoring pass keeps a game consistent.
pub proof fn lemma_scored_from_wf(game: GameModel, from: int)
    requires
        0 <= from,
        game.wf(),
    ensures
        game.scored_from(from).wf(),
    decreases game.enemies.len() - from,
{
    if from < game.enemies.len() {
        let enemy = game.enemies[from];
        game.hero.ship.lemma_wf_kept(game.hero.ship.position);
        enemy.ship.lemma_wf_kept(enemy.ship.position);
        if !enemy.ship.hits(game.hero.ship) {
            let next = if game.hero.ship.hits(enemy.ship) {
                GameModel {
                    score: with_points(game.score),
                    enemies: game.enemies.update(from, enemy.struck_by(game.hero)),
                    ..game
                }
            } else {
                game
            };
            assert forall|i: int| 0 <= i < next.enemies.len() implies {
                &&& (#[trigger] next.enemies[i]).wf()
                &&& next.enemies[i].ship.screen_size == next.screen_size
                &&& next.enemies[i].ship.position.1 <= next.screen_size.1 + SCREEN_MARGIN
            } by {
                assert(game.enemies[i].wf());
            }
            lemma_scored_from_wf(next, from + 1);
        }
    }
}

/// A tick keeps a game consistent, whatever decisions that fit the game are
/// drawn: the hero stays within the horizontal bounds, every enemy stays
/// between the side edges and above the lower end of the bottom margin, and
/// every star stays in the viewport.
pub proof fn law_tick_keeps_game_consistent(
    game: GameModel,
    spawn_at: Option<i64>,
    moves: Seq<EnemyMove>,
)
    requires
        game.wf(),
        game.admits(spawn_at, moves),
    ensures
        game.stepped(spawn_at, moves).wf(),
{
    let fallen = game.ticked().stars_fallen();
    assert(fallen.wf()) by {
        assert forall|i: int| 0 <= i < fallen.stars.len() implies (#[trigger] fallen.stars[i]).wf()
            && fallen.stars[i].screen_size == fallen.screen_size by {
            game.stars[i].lemma_fallen_wf();
        }
    }
    if game.scene == Scene::InGame {
        fallen.lemma_despawned_wf();
        let tidy = fallen.despawned();
        let roster = tidy.spawned(spawn_at);
        assert(roster.wf() && roster.roster_in_sight());
        roster.lemma_enemies_acted_wf(moves);
        let acted = roster.enemies_acted(moves);
        acted.hero.ship.lemma_shots_advanced_wf();
        let ready = acted.hero_acted();
        lemma_scored_from_wf(ready, 0);
    }
}

/// Everything a consistent ship shows can be outlined.
pub proof fn lemma_ship_objects_fit(ship: ShipModel, kind: ObjectKind)
    requires
        ship.wf(),
    ensures
        forall|i: int|
            0 <= i < ship.objects(kind).len() ==> (#[trigger] ship.objects(kind)[i]).outline_fits(),
{
    assert forall|i: int| 0 <= i < ship.objects(kind).len() implies (#[trigger] ship.objects(
        kind,
    )[i]).outline_fits() by {
        if i < ship.shots.len() {
            assert(ship.shots[i].direction.is_vertical());
        }
    }
}

/// Everything a roster of consistent enemies shows can be outlined.
pub proof fn lemma_roster_objects_fit(enemies: Seq<EnemyModel>)
    requires
        forall|i: int| 0 <= i < enemies.len() ==> (#[trigger] enemies[i]).wf(),
    ensures
        forall|i: int|
            0 <= i < roster_objects(enemies).len() ==> (#[trigger] roster_objects(
                enemies,
            )[i]).outline_fits(),
    decreases enemies.len(),
{
    if enemies.len() > 0 {
        let earlier = roster_objects(enemies.drop_last());
        let last = enemies.last().ship.objects(ObjectKind::EnemyShip);
        let ahead = enemies.drop_last();
        assert forall|i: int| 0 <= i < ahead.len() implies (#[trigger] ahead[i]).wf() by {
            assert(enemies[i].wf());
        }
        lemma_roster_objects_fit(enemies.drop_last());
        assert(enemies.last().wf());
        lemma_ship_objects_fit(enemies.last().ship, ObjectKind::EnemyShip);
        let all = roster_objects(enemies);
        assert forall|i: int| 0 <= i < all.len() implies (#[trigger] all[i]).outline_fits() by {
            if i < earlier.len() {
                assert(all[i] == earlier[i]);
            } else {
                assert(all[i] == last[i - earlier.len()]);
            }
        }
    }
}

/// Every entity that a consistent game hands out for drawing can be outlined:
/// no corner of its outline leaves the machine integers.
pub proof fn law_game_objects_can_be_outlined(game: GameModel)
    requires
        game.wf(),
    ensures
        forall|i: int|
            0 <= i < game.objects().len() ==> (#[trigger] game.objects()[i]).outline_fits(),
{
    let stars = game.stars.map_values(star_object());
    assert forall|i: int| 0 <= i < stars.len() implies (#[trigger] stars[i]).outline_fits() by {
        assert(game.stars[i].wf());
    }
    lemma_roster_objects_fit(game.enemies);
    lemma_ship_objects_fit(game.hero.ship, ObjectKind::HeroShip);
}

/// The tick counter goes up by one and starts again at zero after the largest
/// number.
pub proof fn law_counter_wraps(game: GameModel)
    ensures
        game.count < u64::MAX ==> game.ticked().count == game.count + 1,
        game.count == u64::MAX ==> game.ticked().count == 0,
{
}

} // verus!
