use spacewars::game_objects::{
    are_colliding, is_visible_at, max, min, opaque, MIN_DISTANCE, SCREEN_MARGIN,
};
use spacewars::{Color, Direction, GameText, ObjectKind, Position, SpaceObject};

fn dummy_object(position: Position) -> SpaceObject {
    SpaceObject::new(
        ObjectKind::Projectile,
        position,
        Direction::DOWN,
        50,
        opaque(255, 255, 255),
    )
}

#[test]
fn is_visible_should_return_true_when_object_is_in_the_middle_of_screen() {
    let (width, height) = (100, 100);
    let space_object = dummy_object((width / 2, height / 2));

    let visible = space_object.is_visible((width, height));

    assert!(visible);
}

#[test]
fn is_visible_should_return_false_when_object_x_is_greater_than_the_width_plus_margin() {
    let (width, height) = (100, 100);
    let space_object = dummy_object((width + SCREEN_MARGIN + 1, height / 2));

    let visible = space_object.is_visible((width, height));

    assert_eq!(visible, false);
}

#[test]
fn is_visible_should_return_false_when_object_x_is_lower_than_the_minus_margin() {
    let (width, height) = (100, 100);
    let space_object = dummy_object((-1 * SCREEN_MARGIN - 1, height / 2));

    let visible = space_object.is_visible((width, height));

    assert_eq!(visible, false);
}

#[test]
fn is_visible_should_return_false_when_object_y_is_greater_than_the_height_plus_margin() {
    let (width, height) = (100, 100);
    let space_object = dummy_object((width / 2, height + SCREEN_MARGIN + 1));

    let visible = space_object.is_visible((width, height));

    assert_eq!(visible, false);
}

#[test]
fn is_visible_should_return_false_when_object_y_is_lower_than_the_minus_margin() {
    let (width, height) = (100, 100);
    let space_object = dummy_object((width / 2, -1 * SCREEN_MARGIN - 1));

    let visible = space_object.is_visible((width, height));

    assert_eq!(visible, false);
}

#[test]
fn is_visible_should_return_true_when_object_is_on_the_first_corner() {
    let (width, height) = (100, 100);
    let space_object = dummy_object((0, 0));

    let visible = space_object.is_visible((width, height));

    assert!(visible);
}

#[test]
fn check_collision_should_return_true_when_the_objects_are_at_same_place() {
    let (x, y) = (100, 100);
    let space_object = dummy_object((x, y));
    let other = dummy_object((x, y));

    let collision = space_object.check_collision(&other);

    assert!(collision);
}

#[test]
fn check_collision_should_return_false_when_the_objects_x_is_farther_than_min_distance() {
    let (x, y) = (100, 100);
    let space_object = dummy_object((x, y));
    let other = dummy_object((x + MIN_DISTANCE + 1, y));

    let collision = space_object.check_collision(&other);

    assert_eq!(collision, false);
}

#[test]
fn check_collision_should_return_false_when_the_objects_y_is_farther_than_min_distance() {
    let (x, y) = (100, 100);
    let space_object = dummy_object((x, y));
    let other = dummy_object((x, y + MIN_DISTANCE + 5));

    let collision = space_object.check_collision(&other);

    assert_eq!(collision, false);
}

#[test]
fn check_collision_should_return_false_when_the_objects_x_and_y_is_farther_than_min_distance() {
    let (x, y) = (100, 100);
    let space_object = dummy_object((x, y));
    let other = dummy_object((x + MIN_DISTANCE + 12, y + MIN_DISTANCE + 5));

    let collision = space_object.check_collision(&other);

    assert_eq!(collision, false);
}

#[test]
fn check_collision_should_return_false_when_the_objects_x_is_closer_than_min_distance() {
    let (x, y) = (100, 100);
    let space_object = dummy_object((x, y));
    let other = dummy_object((x + MIN_DISTANCE - 5, y));

    let collision = space_object.check_collision(&other);

    assert!(collision);
}

#[test]
fn check_collision_should_return_false_when_the_objects_y_is_closer_than_min_distance() {
    let (x, y) = (100, 100);
    let space_object = dummy_object((x, y));
    let other = dummy_object((x, y + MIN_DISTANCE - 1));

    let collision = space_object.check_collision(&other);

    assert!(collision);
}

#[test]
fn visibility_ends_at_the_outer_edge_of_the_margin_on_all_four_sides() {
    let screen = (100, 100);

    assert!(is_visible_at((100, 50), screen));
    assert!(is_visible_at((119, 50), screen));
    assert!(!is_visible_at((120, 50), screen));
    assert!(is_visible_at((0, 50), screen));
    assert!(is_visible_at((-19, 50), screen));
    assert!(!is_visible_at((-20, 50), screen));
    assert!(!is_visible_at((-21, 50), screen));
    assert!(is_visible_at((50, 100), screen));
    assert!(is_visible_at((50, 119), screen));
    assert!(!is_visible_at((50, 120), screen));
    assert!(is_visible_at((50, 0), screen));
    assert!(is_visible_at((50, -19), screen));
    assert!(!is_visible_at((50, -20), screen));
}

#[test]
fn the_four_corners_of_the_viewport_are_visible() {
    let screen = (100, 100);

    assert!(is_visible_at((0, 0), screen));
    assert!(is_visible_at((100, 0), screen));
    assert!(is_visible_at((0, 100), screen));
    assert!(is_visible_at((100, 100), screen));
}

#[test]
fn visibility_is_decided_for_the_largest_coordinates() {
    assert!(!is_visible_at((i64::MAX, i64::MAX), (100, 100)));
    assert!(!is_visible_at((i64::MIN, 0), (100, 100)));
    assert!(is_visible_at((i64::MAX - 1, 0), (i64::MAX, i64::MAX)));
}

#[test]
fn collision_needs_less_than_the_minimum_distance_on_both_axes() {
    assert!(are_colliding((100, 100), (100, 100)));
    assert!(!are_colliding((100, 100), (120, 100)));
    assert!(!are_colliding((100, 100), (100, 120)));
    assert!(!are_colliding((100, 100), (80, 100)));
    assert!(!are_colliding((100, 100), (100, 80)));
    assert!(are_colliding((100, 100), (119, 100)));
    assert!(are_colliding((100, 100), (81, 100)));
    assert!(are_colliding((100, 100), (100, 119)));
    assert!(are_colliding((100, 100), (119, 81)));
    assert!(!are_colliding((100, 100), (119, 120)));
}

#[test]
fn collision_is_decided_for_the_largest_coordinates() {
    assert!(!are_colliding((i64::MIN, 0), (i64::MAX, 0)));
    assert!(are_colliding((i64::MAX, i64::MIN), (i64::MAX - 19, i64::MIN + 19)));
}

#[test]
fn a_triangle_points_up_when_the_object_faces_up() {
    let object = SpaceObject::new(
        ObjectKind::HeroShip,
        (400, 570),
        Direction::UP,
        25,
        opaque(255, 0, 0),
    );

    assert_eq!(object.coord(), vec![(375, 570), (400, 545), (425, 570)]);
}

#[test]
fn a_triangle_points_down_when_the_object_faces_any_other_way() {
    let down = dummy_object((100, 100));
    let left = SpaceObject::new(
        ObjectKind::EnemyShip,
        (10, 20),
        Direction::LEFT,
        5,
        opaque(0, 0, 255),
    );

    assert_eq!(down.coord(), vec![(50, 100), (100, 150), (150, 100)]);
    assert_eq!(left.coord(), vec![(5, 20), (10, 25), (15, 20)]);
}

#[test]
fn a_star_is_outlined_as_a_square() {
    let star = SpaceObject::new(
        ObjectKind::Star,
        (10, 20),
        Direction::DOWN,
        3,
        opaque(255, 255, 255),
    );

    assert_eq!(star.coord(), vec![(10, 20), (13, 20), (13, 23), (10, 23)]);
}

#[test]
fn space_object_hands_back_what_it_was_made_of() {
    let object = dummy_object((7, 9));

    assert_eq!(object.kind(), ObjectKind::Projectile);
    assert_eq!(object.position(), (7, 9));
    assert_eq!(object.direction(), Direction::DOWN);
    assert_eq!(object.size(), 50);
    assert_eq!(
        object.color(),
        Color {
            red: 255,
            green: 255,
            blue: 255,
            alpha: 255
        }
    );
}

#[test]
fn min_and_max_pick_the_smaller_and_the_larger() {
    assert_eq!(min(3, 5), 3);
    assert_eq!(min(5, 3), 3);
    assert_eq!(min(-4, -4), -4);
    assert_eq!(max(3, 5), 5);
    assert_eq!(max(5, 3), 5);
    assert_eq!(max(-4, -9), -4);
}

#[test]
fn game_text_hands_back_what_it_was_made_of() {
    let text = GameText::new(String::from("Score: 0"), opaque(255, 255, 0), 32, (30, 30));

    assert_eq!(text.content(), "Score: 0");
    assert_eq!(text.color(), opaque(255, 255, 0));
    assert_eq!(text.font_size(), 32);
    assert_eq!(text.position(), (30, 30));
}
