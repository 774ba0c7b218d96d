use spacewars::game_objects::opaque;
use spacewars::{Direction, ObjectKind, Shot};

#[test]
fn update_should_not_change_x() {
    let x = 10;
    let position = (x, 50);
    let direction = Direction::DOWN;
    let mut shot = Shot::new(position, direction);

    shot.action();

    let (new_x, _) = shot.position;
    assert_eq!(new_x, x);
}

#[test]
fn update_should_increase_y_by_speed_if_direction_is_down() {
    let y = 140;
    let position = (50, y);
    let direction = Direction::DOWN;
    let mut shot = Shot::new(position, direction);

    shot.action();

    let (_, new_y) = shot.position;
    assert_eq!(new_y, y + Shot::SPEED);
}

#[test]
fn update_should_decrease_y_by_speed_if_direction_is_up() {
    let y = 140;
    let position = (50, y);
    let direction = Direction::UP;
    let mut shot = Shot::new(position, direction);

    shot.action();

    let (_, new_y) = shot.position;
    assert_eq!(new_y, y - Shot::SPEED);
}

#[test]
fn a_shot_travels_ten_units_per_tick() {
    let mut up = Shot::new((50, 140), Direction::UP);
    let mut down = Shot::new((50, 140), Direction::DOWN);

    up.action();
    up.action();
    down.action();

    assert_eq!(up.position(), (50, 120));
    assert_eq!(down.position(), (50, 150));
}

#[test]
fn a_shot_keeps_its_direction() {
    let mut shot = Shot::new((50, 140), Direction::UP);

    shot.action();

    assert_eq!(shot.direction(), Direction::UP);
}

#[test]
fn a_shot_is_a_small_yellow_projectile() {
    let shot = Shot::new((50, 140), Direction::DOWN);

    assert_eq!(shot.size(), 5);
    assert_eq!(shot.color(), opaque(255, 255, 0));
    let object = shot.as_space_object();
    assert_eq!(object.kind(), ObjectKind::Projectile);
    assert_eq!(object.position(), (50, 140));
    assert_eq!(object.direction(), Direction::DOWN);
    assert_eq!(object.size(), 5);
    assert_eq!(object.coord(), vec![(45, 140), (50, 145), (55, 140)]);
}
