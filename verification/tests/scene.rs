use spacewars::{GameScore, Scene};

#[test]
fn a_scene_starts_at_the_start_of_the_game() {
    let scene = Scene::new();

    assert_eq!(scene, Scene::StartGame);
    assert!(!scene.is_in_game());
    assert!(!scene.is_game_over());
}

#[test]
fn a_key_press_starts_the_game_and_does_nothing_else() {
    let mut scene = Scene::new();

    scene.key_pressed();
    assert_eq!(scene, Scene::InGame);
    assert!(scene.is_in_game());

    scene.key_pressed();
    assert_eq!(scene, Scene::InGame);

    let mut over = Scene::GameOver;
    over.key_pressed();
    assert_eq!(over, Scene::GameOver);
    assert!(over.is_game_over());
    assert!(!over.is_in_game());
}

#[test]
fn a_game_score_knows_its_points_and_whether_the_round_is_over() {
    let running = GameScore::Score(30);
    let over = GameScore::GameOver(40);

    assert!(!running.is_game_over());
    assert_eq!(running.points(), 30);
    assert!(over.is_game_over());
    assert_eq!(over.points(), 40);
}
