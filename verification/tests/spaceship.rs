use spacewars::game_objects::opaque;
use spacewars::{Direction, ObjectKind, Shot, Spaceship};

#[test]
fn hits_should_return_false_whe_the_other_spaceship_is_destroyed() {
    let (width, height) = (100, 100);
    let (x, y) = (50, 50);

    let spaceship = Spaceship::new(
        (x, y),
        Direction::UP,
        (width, height),
        opaque(255, 255, 255),
        20,
    );

    let mut other = Spaceship::new(
        (x + 100, y + 100),
        Direction::UP,
        (width, height),
        opaque(255, 255, 255),
        20,
    );

    other.destroy();

    let hits = spaceship.hits(&other);

    assert_eq!(hits, false);
}

#[test]
fn hits_should_return_true_whe_the_other_spaceship_is_at_the_same_position_as_a_shot() {
    let (width, height) = (100, 100);
    let (x, y) = (50, 50);
    let (other_x, other_y) = (50, 50);

    let mut spaceship = Spaceship::new(
        (x, y),
        Direction::UP,
        (width, height),
        opaque(255, 255, 255),
        20,
    );

    let other = Spaceship::new(
        (other_x, other_y),
        Direction::UP,
        (width, height),
        opaque(255, 255, 255),
        20,
    );

    spaceship.add_shot(Shot::new((other_x, other_y), Direction::DOWN));

    let hits = spaceship.hits(&other);

    assert_eq!(hits, true);
}

#[test]
fn hits_should_return_false_whe_the_other_destroyed_spaceship_is_at_the_same_position_as_a_shot() {
    let (width, height) = (100, 100);
    let (x, y) = (50, 50);
    let (other_x, other_y) = (50, 50);

    let mut spaceship = Spaceship::new(
        (x, y),
        Direction::UP,
        (width, height),
        opaque(255, 255, 255),
        20,
    );
    spaceship.add_shot(Shot::new((other_x, other_y), Direction::DOWN));

    let mut other = Spaceship::new(
        (other_x, other_y),
        Direction::UP,
        (width, height),
        opaque(255, 255, 255),
        20,
    );
    other.destroy();

    let hits = spaceship.hits(&other);

    assert_eq!(hits, false);
}

fn ship_at(x: i64, y: i64, direction: Direction) -> Spaceship {
    Spaceship::new((x, y), direction, (100, 100), opaque(255, 255, 255), 20)
}

#[test]
fn a_new_ship_is_intact_and_has_no_shots() {
    let ship = ship_at(50, 60, Direction::UP);

    assert!(!ship.is_destroyed());
    assert!(ship.shots().is_empty());
    assert_eq!(ship.position(), (50, 60));
    assert_eq!(ship.direction(), Direction::UP);
    assert_eq!(ship.screen_size(), (100, 100));
    assert_eq!(ship.size(), 20);
    assert_eq!(ship.color(), opaque(255, 255, 255));
}

#[test]
fn fire_adds_a_shot_at_the_ship_with_its_direction() {
    let mut ship = ship_at(50, 60, Direction::DOWN);

    ship.fire();
    ship.move_to((70, 60));
    ship.fire();

    let shots = ship.shots();
    assert_eq!(shots.len(), 2);
    assert_eq!(shots[0].position(), (50, 60));
    assert_eq!(shots[0].direction(), Direction::DOWN);
    assert_eq!(shots[1].position(), (70, 60));
}

#[test]
fn fire_is_not_rate_limited() {
    let mut ship = ship_at(50, 60, Direction::UP);

    ship.fire();
    ship.fire();
    ship.fire();

    assert_eq!(ship.shots().len(), 3);
}

#[test]
fn move_to_puts_the_ship_where_it_is_told() {
    let mut ship = ship_at(50, 60, Direction::UP);

    ship.move_to((-5, 200));

    assert_eq!(ship.position(), (-5, 200));
}

#[test]
fn destroy_is_idempotent() {
    let mut ship = ship_at(50, 60, Direction::UP);

    ship.destroy();
    ship.destroy();

    assert!(ship.is_destroyed());
}

#[test]
fn shots_advance_and_the_invisible_ones_are_dropped_in_order() {
    let mut ship = ship_at(50, 50, Direction::UP);
    ship.add_shot(Shot::new((10, -5), Direction::UP));
    ship.add_shot(Shot::new((20, -10), Direction::UP));
    ship.add_shot(Shot::new((30, 109), Direction::DOWN));
    ship.add_shot(Shot::new((40, 110), Direction::DOWN));
    ship.add_shot(Shot::new((50, 50), Direction::DOWN));

    ship.update_shot_position();

    let positions: Vec<(i64, i64)> = ship.shots().iter().map(|shot| shot.position()).collect();
    assert_eq!(positions, vec![(10, -15), (30, 119), (50, 60)]);
}

#[test]
fn a_shot_that_has_left_the_viewport_still_hits_before_it_is_dropped() {
    let mut attacker = ship_at(50, 50, Direction::DOWN);
    attacker.add_shot(Shot::new((50, 110), Direction::DOWN));
    let target = ship_at(50, 120, Direction::UP);

    attacker.update_shot_position();

    assert!(attacker.shots().is_empty());

    let mut attacker = ship_at(50, 50, Direction::DOWN);
    attacker.add_shot(Shot::new((50, 120), Direction::DOWN));
    assert!(attacker.hits(&target));
}

#[test]
fn hits_is_about_the_attackers_shots_not_its_body() {
    let attacker = ship_at(50, 50, Direction::UP);
    let target = ship_at(50, 50, Direction::DOWN);

    assert!(!attacker.hits(&target));
}

#[test]
fn hits_takes_any_shot_within_the_minimum_distance() {
    let mut attacker = ship_at(0, 0, Direction::UP);
    attacker.add_shot(Shot::new((90, 90), Direction::UP));
    attacker.add_shot(Shot::new((31, 69), Direction::UP));
    let near = ship_at(50, 50, Direction::DOWN);
    let far = ship_at(51, 50, Direction::DOWN);

    assert!(attacker.hits(&near));
    assert!(!attacker.hits(&far));
}

#[test]
fn a_ship_is_drawn_behind_its_shots() {
    let mut ship = ship_at(50, 60, Direction::UP);
    ship.fire();
    ship.add_shot(Shot::new((10, 20), Direction::DOWN));

    let objects = ship.as_game_objects(ObjectKind::HeroShip);

    assert_eq!(objects.len(), 3);
    assert_eq!(objects[0].kind(), ObjectKind::Projectile);
    assert_eq!(objects[0].position(), (50, 60));
    assert_eq!(objects[1].kind(), ObjectKind::Projectile);
    assert_eq!(objects[1].position(), (10, 20));
    assert_eq!(objects[1].direction(), Direction::DOWN);
    assert_eq!(objects[2].kind(), ObjectKind::HeroShip);
    assert_eq!(objects[2].position(), (50, 60));
    assert_eq!(objects[2].size(), 20);
    assert_eq!(objects[2].coord(), vec![(30, 60), (50, 40), (70, 60)]);
}

#[test]
fn a_ship_is_visible_within_the_margin_of_any_viewport() {
    let ship = ship_at(119, -19, Direction::UP);

    assert!(ship.is_visible((100, 100)));
    assert!(!ship.is_visible((99, 100)));
}
