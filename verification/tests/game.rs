use std::time::Instant;

use spacewars::game_objects::opaque;
use spacewars::{
    hits, Direction, Enemy, EnemyMove, Game, GameScore, Hero, ObjectKind, Player, Scene, Shot,
    Spaceship, Star, Turn,
};

const SCREEN: (i64, i64) = (800, 600);

fn still() -> EnemyMove {
    EnemyMove {
        drift: 0,
        fire: false,
    }
}

fn quiet_turn(enemies: usize) -> Turn {
    Turn {
        spawn_at: None,
        moves: vec![still(); enemies],
    }
}

fn enemy_at(x: i64, y: i64) -> Enemy {
    Enemy::from_parts(
        Spaceship::new((x, y), Direction::DOWN, SCREEN, opaque(0, 0, 255), 20),
        0,
    )
}

fn enemy_with_shot(x: i64, y: i64, shot: (i64, i64)) -> Enemy {
    let mut ship = Spaceship::new((x, y), Direction::DOWN, SCREEN, opaque(0, 0, 255), 20);
    ship.add_shot(Shot::new(shot, Direction::DOWN));
    Enemy::from_parts(ship, 0)
}

fn hero_with_shot(shot: (i64, i64)) -> Hero {
    let mut ship = Spaceship::new((400, 570), Direction::UP, SCREEN, opaque(255, 0, 0), 25);
    ship.add_shot(Shot::new(shot, Direction::UP));
    Hero::from_parts(ship, None)
}

fn game_of(hero: Hero, enemies: Vec<Enemy>, scene: Scene) -> Game {
    Game::from_parts(
        SCREEN,
        hero,
        enemies,
        vec![Star::at((10, 20), 2, SCREEN)],
        0,
        scene,
        0,
    )
}

#[test]
fn a_new_game_waits_at_the_start_scene() {
    let game = Game::new(800, 600);

    assert_eq!(game.scene(), Scene::StartGame);
    assert_eq!(game.score(), GameScore::Score(0));
    assert_eq!(game.current_score(), 0);
    assert_eq!(game.count(), 0);
    assert_eq!(game.screen_size(), (800, 600));
    assert_eq!(game.stars().len(), 100);
    assert!(game.enemies().is_empty());
    assert_eq!(game.hero().spaceship().position(), (400, 570));
    assert_eq!(game.hero().last_attack(), None);
}

#[test]
fn the_stars_of_a_new_game_lie_in_the_viewport() {
    let game = Game::new(50, 40);

    for star in game.stars() {
        let (x, y) = star.position();
        assert!(0 <= x && x < 50);
        assert!(0 <= y && y < 40);
        assert!(1 <= star.size() && star.size() <= 4);
    }
}

#[test]
fn any_key_starts_the_game() {
    let mut game = Game::new(800, 600);

    game.key_pressed();

    assert_eq!(game.scene(), Scene::InGame);

    game.key_pressed();

    assert_eq!(game.scene(), Scene::InGame);
}

#[test]
fn a_tick_before_the_start_moves_the_counter_and_the_stars_only() {
    let mut game = game_of(Hero::new(SCREEN), vec![enemy_at(300, 100)], Scene::StartGame);

    game.next_turn();

    assert_eq!(game.count(), 1);
    assert_eq!(game.stars()[0].position(), (10, 25));
    assert_eq!(game.scene(), Scene::StartGame);
    assert_eq!(game.enemies().len(), 1);
    assert_eq!(game.enemies()[0].spaceship().position(), (300, 100));
    assert_eq!(game.hero().spaceship().position(), (400, 570));
}

#[test]
fn no_enemy_appears_before_the_start() {
    let mut game = Game::new(800, 600);

    for _ in 0..2000 {
        game.next_turn();
    }

    assert!(game.enemies().is_empty());
    assert_eq!(game.count(), 2000);
    assert_eq!(game.scene(), Scene::StartGame);
}

#[test]
fn a_forced_spawn_makes_the_roster_exactly_one_longer() {
    let mut game = Game::new(800, 600);
    game.key_pressed();

    game.next_turn_with(&Turn {
        spawn_at: Some(120),
        moves: vec![still()],
    });

    assert_eq!(game.enemies().len(), 1);
    assert_eq!(game.enemies()[0].spaceship().position(), (120, -14));

    game.next_turn_with(&Turn {
        spawn_at: Some(700),
        moves: vec![still(), still()],
    });

    assert_eq!(game.enemies().len(), 2);
    assert_eq!(game.enemies()[0].spaceship().position(), (120, -13));
    assert_eq!(game.enemies()[1].spaceship().position(), (700, -14));
}

#[test]
fn enemies_leave_before_the_new_one_appears() {
    let mut wrecked = enemy_at(100, 100);
    hits(&hero_with_shot((100, 100)), &mut wrecked);
    let below = enemy_at(200, 620);
    let alive = enemy_at(300, 100);
    let mut game = game_of(
        Hero::new(SCREEN),
        vec![wrecked, below, alive],
        Scene::InGame,
    );

    game.next_turn_with(&Turn {
        spawn_at: Some(500),
        moves: vec![still(), still()],
    });

    assert_eq!(game.enemies().len(), 2);
    assert_eq!(game.enemies()[0].spaceship().position(), (300, 101));
    assert_eq!(game.enemies()[1].spaceship().position(), (500, -14));
}

#[test]
fn an_enemy_at_the_last_visible_height_stays_one_more_tick() {
    let mut game = game_of(Hero::new(SCREEN), vec![enemy_at(200, 619)], Scene::InGame);

    game.next_turn_with(&quiet_turn(1));

    assert_eq!(game.enemies().len(), 1);
    assert_eq!(game.enemies()[0].spaceship().position(), (200, 620));

    game.next_turn_with(&quiet_turn(0));

    assert!(game.enemies().is_empty());
}

#[test]
fn two_enemies_told_to_fire_record_two_shots() {
    let mut game = game_of(
        Hero::new(SCREEN),
        vec![enemy_at(100, 100), enemy_at(300, 100)],
        Scene::InGame,
    );

    game.next_turn_with(&Turn {
        spawn_at: None,
        moves: vec![
            EnemyMove {
                drift: 0,
                fire: true,
            },
            EnemyMove {
                drift: -45,
                fire: true,
            },
        ],
    });

    let shots: usize = game
        .enemies()
        .iter()
        .map(|enemy| enemy.spaceship().shots().len())
        .sum();
    assert_eq!(shots, 2);
    assert_eq!(game.enemies()[0].spaceship().shots()[0].position(), (100, 111));
    assert_eq!(game.enemies()[1].spaceship().position(), (255, 101));
    assert_eq!(game.enemies()[1].spaceship().shots()[0].position(), (255, 111));
}

#[test]
fn a_hit_on_an_enemy_scores_ten_points_and_destroys_it() {
    let mut game = game_of(
        hero_with_shot((300, 100)),
        vec![enemy_at(300, 100)],
        Scene::InGame,
    );

    game.update_score();

    assert_eq!(game.current_score(), 10);
    assert_eq!(game.score(), GameScore::Score(10));
    assert!(game.enemies()[0].is_destroyed());
    assert_eq!(game.scene(), Scene::InGame);
    assert!(!game.hero().is_destroyed());
}

#[test]
fn a_hit_on_the_hero_ends_the_round() {
    let mut game = game_of(
        Hero::new(SCREEN),
        vec![enemy_with_shot(300, 100, (400, 570))],
        Scene::InGame,
    );

    game.update_score();

    assert_eq!(game.scene(), Scene::GameOver);
    assert_eq!(game.score(), GameScore::GameOver(0));
    assert!(game.hero().is_destroyed());
    assert!(!game.enemies()[0].is_destroyed());
}

#[test]
fn a_tick_scores_on_the_positions_after_the_advance() {
    let mut game = game_of(
        hero_with_shot((300, 120)),
        vec![enemy_at(300, 80), enemy_at(600, 100)],
        Scene::InGame,
    );

    game.next_turn_with(&quiet_turn(2));

    assert_eq!(game.current_score(), 0);
    assert_eq!(game.hero().spaceship().shots()[0].position(), (300, 110));

    game.next_turn_with(&quiet_turn(2));

    assert_eq!(game.current_score(), 10);
    assert!(game.enemies()[0].is_destroyed());
    assert!(!game.enemies()[1].is_destroyed());

    game.next_turn_with(&quiet_turn(1));

    assert_eq!(game.enemies().len(), 1);
    assert_eq!(game.enemies()[0].spaceship().position(), (600, 103));
    assert_eq!(game.current_score(), 10);
}

#[test]
fn when_both_hit_each_other_the_hero_loses_and_nothing_is_scored() {
    let mut game = game_of(
        hero_with_shot((300, 100)),
        vec![enemy_with_shot(300, 100, (400, 570))],
        Scene::InGame,
    );

    game.update_score();

    assert_eq!(game.scene(), Scene::GameOver);
    assert_eq!(game.current_score(), 0);
    assert!(game.hero().is_destroyed());
    assert!(!game.enemies()[0].is_destroyed());
}

#[test]
fn the_first_hit_on_the_hero_stops_the_scoring_pass() {
    let mut game = game_of(
        hero_with_shot((300, 100)),
        vec![
            enemy_with_shot(600, 100, (400, 570)),
            enemy_at(300, 100),
        ],
        Scene::InGame,
    );

    game.update_score();

    assert_eq!(game.scene(), Scene::GameOver);
    assert_eq!(game.current_score(), 0);
    assert!(!game.enemies()[1].is_destroyed());
}

#[test]
fn enemies_ahead_of_the_one_that_hits_the_hero_are_scored() {
    let mut game = game_of(
        hero_with_shot((300, 100)),
        vec![
            enemy_at(300, 100),
            enemy_with_shot(600, 100, (400, 570)),
        ],
        Scene::InGame,
    );

    game.update_score();

    assert_eq!(game.scene(), Scene::GameOver);
    assert_eq!(game.score(), GameScore::GameOver(10));
    assert!(game.enemies()[0].is_destroyed());
    assert!(game.hero().is_destroyed());
}

#[test]
fn every_enemy_hit_in_one_tick_scores() {
    let mut game = game_of(
        hero_with_shot((300, 100)),
        vec![enemy_at(290, 100), enemy_at(600, 100), enemy_at(310, 110)],
        Scene::InGame,
    );

    game.update_score();

    assert_eq!(game.current_score(), 20);
    assert!(game.enemies()[0].is_destroyed());
    assert!(!game.enemies()[1].is_destroyed());
    assert!(game.enemies()[2].is_destroyed());
}

#[test]
fn a_destroyed_enemy_is_not_scored_again() {
    let mut game = game_of(
        hero_with_shot((300, 100)),
        vec![enemy_at(300, 100)],
        Scene::InGame,
    );

    game.update_score();
    game.update_score();

    assert_eq!(game.current_score(), 10);
}

#[test]
fn a_round_that_is_over_is_not_scored() {
    let mut game = game_of(
        hero_with_shot((300, 100)),
        vec![enemy_at(300, 100)],
        Scene::GameOver,
    );

    game.update_score();

    assert_eq!(game.current_score(), 0);
    assert!(!game.enemies()[0].is_destroyed());
}

#[test]
fn a_round_that_is_over_stays_over() {
    let mut game = game_of(
        Hero::new(SCREEN),
        vec![enemy_with_shot(300, 100, (400, 565))],
        Scene::InGame,
    );

    game.next_turn_with(&quiet_turn(1));

    assert_eq!(game.scene(), Scene::GameOver);
    assert!(game.hero().is_destroyed());

    game.key_pressed();
    assert_eq!(game.scene(), Scene::GameOver);

    for _ in 0..50 {
        game.next_turn();
    }

    assert_eq!(game.scene(), Scene::GameOver);
    assert_eq!(game.count(), 51);
    assert_eq!(game.enemies().len(), 1);
    assert_eq!(game.enemies()[0].spaceship().position(), (300, 101));
    assert_eq!(game.score(), GameScore::GameOver(0));
}

#[test]
fn the_counter_starts_again_at_zero_after_the_largest_number() {
    let mut game = Game::from_parts(
        SCREEN,
        Hero::new(SCREEN),
        Vec::new(),
        Vec::new(),
        0,
        Scene::StartGame,
        u64::MAX - 1,
    );

    game.next_turn();
    assert_eq!(game.count(), u64::MAX);
    game.next_turn();
    assert_eq!(game.count(), 0);
    game.inc_counter();
    assert_eq!(game.count(), 1);
}

#[test]
fn the_score_stops_at_the_largest_number() {
    let mut game = Game::from_parts(
        SCREEN,
        hero_with_shot((300, 100)),
        vec![enemy_at(300, 100), enemy_at(310, 100)],
        Vec::new(),
        u32::MAX - 15,
        Scene::InGame,
        0,
    );

    game.update_score();

    assert_eq!(game.current_score(), u32::MAX);
}

#[test]
fn the_stars_fall_in_every_scene() {
    let mut game = Game::from_parts(
        SCREEN,
        Hero::new(SCREEN),
        Vec::new(),
        vec![
            Star::at((10, 20), 2, SCREEN),
            Star::at((30, 596), 1, SCREEN),
        ],
        0,
        Scene::GameOver,
        0,
    );

    game.next_turn();

    assert_eq!(game.stars()[0].position(), (10, 25));
    assert_eq!(game.stars()[1].position(), (30, 0));

    game.background_stars_movement();

    assert_eq!(game.stars()[0].position(), (10, 30));
    assert_eq!(game.stars()[1].position(), (30, 5));
}

#[test]
fn the_player_moves_and_fires_through_the_game() {
    let mut game = Game::new(800, 600);
    game.key_pressed();

    game.move_player(Direction::LEFT);
    game.fire_player_attack();
    game.fire_player_attack();
    game.move_player(Direction::RIGHT);
    game.move_player(Direction::RIGHT);

    assert_eq!(game.hero().spaceship().position(), (370, 570));
    assert_eq!(game.hero().spaceship().shots().len(), 1);
    assert_eq!(game.hero().spaceship().shots()[0].position(), (430, 570));

    game.player_action();

    assert_eq!(game.hero().spaceship().shots()[0].position(), (430, 560));
}

#[test]
fn the_start_scene_shows_a_prompt_that_blinks() {
    let mut game = Game::new(800, 600);

    let mut shown = Vec::new();
    for _ in 0..40 {
        let texts = game.texts();
        shown.push(texts.len());
        if let Some(text) = texts.first() {
            assert_eq!(text.content(), "Press Any Button to Start...");
            assert_eq!(text.position(), (200, 300));
            assert_eq!(text.font_size(), 32);
            assert_eq!(text.color(), opaque(255, 255, 0));
        }
        game.next_turn();
    }

    let mut expected = vec![1; 15];
    expected.extend(vec![0; 5]);
    expected.extend(vec![1; 15]);
    expected.extend(vec![0; 5]);
    assert_eq!(shown, expected);
}

#[test]
fn the_score_is_shown_while_the_round_is_on() {
    let mut game = game_of(
        hero_with_shot((300, 100)),
        vec![enemy_at(300, 100)],
        Scene::InGame,
    );

    let before = game.texts();
    game.update_score();
    let after = game.texts();

    assert_eq!(before.len(), 1);
    assert_eq!(before[0].content(), "Score: 0");
    assert_eq!(before[0].position(), (30, 30));
    assert_eq!(before[0].font_size(), 32);
    assert_eq!(before[0].color(), opaque(255, 255, 0));
    assert_eq!(after.len(), 1);
    assert_eq!(after[0].content(), "Score: 10");
}

#[test]
fn the_final_scene_shows_the_headline_and_the_final_score() {
    let game = Game::from_parts(
        SCREEN,
        Hero::new(SCREEN),
        Vec::new(),
        Vec::new(),
        130,
        Scene::GameOver,
        0,
    );

    let texts = game.texts();

    assert_eq!(texts.len(), 2);
    assert_eq!(texts[0].content(), "Game Over!");
    assert_eq!(texts[0].position(), (300, 300));
    assert_eq!(texts[0].font_size(), 32);
    assert_eq!(texts[0].color(), opaque(255, 255, 0));
    assert_eq!(texts[1].content(), "Score: 130");
    assert_eq!(texts[1].position(), (320, 332));
    assert_eq!(texts[1].font_size(), 32);
    assert_eq!(texts[1].color(), opaque(255, 255, 0));
}

#[test]
fn only_the_stars_are_drawn_outside_the_round() {
    let start = game_of(Hero::new(SCREEN), vec![enemy_at(300, 100)], Scene::StartGame);
    let over = game_of(Hero::new(SCREEN), vec![enemy_at(300, 100)], Scene::GameOver);

    assert_eq!(start.space_objects().len(), 1);
    assert_eq!(start.space_objects()[0].kind(), ObjectKind::Star);
    assert_eq!(over.space_objects().len(), 1);
}

#[test]
fn the_round_is_drawn_stars_first_then_enemies_then_the_hero() {
    let game = game_of(
        hero_with_shot((300, 100)),
        vec![enemy_with_shot(100, 50, (100, 60)), enemy_at(300, 100)],
        Scene::InGame,
    );

    let objects = game.space_objects();

    let kinds: Vec<ObjectKind> = objects.iter().map(|object| object.kind()).collect();
    assert_eq!(
        kinds,
        vec![
            ObjectKind::Star,
            ObjectKind::Projectile,
            ObjectKind::EnemyShip,
            ObjectKind::EnemyShip,
            ObjectKind::Projectile,
            ObjectKind::HeroShip,
        ]
    );
    assert_eq!(objects[0].coord(), vec![(10, 20), (12, 20), (12, 22), (10, 22)]);
    assert_eq!(objects[1].position(), (100, 60));
    assert_eq!(objects[2].position(), (100, 50));
    assert_eq!(objects[3].position(), (300, 100));
    assert_eq!(objects[4].position(), (300, 100));
    assert_eq!(objects[5].position(), (400, 570));
    assert_eq!(objects[5].color(), opaque(255, 0, 0));
}

#[test]
fn a_destroyed_hero_is_not_drawn() {
    let mut hero = hero_with_shot((300, 100));
    hits(&enemy_with_shot(300, 100, (400, 570)), &mut hero);
    let game = game_of(hero, vec![enemy_at(300, 100)], Scene::InGame);

    let objects = game.space_objects();

    let kinds: Vec<ObjectKind> = objects.iter().map(|object| object.kind()).collect();
    assert_eq!(kinds, vec![ObjectKind::Star, ObjectKind::EnemyShip]);
}

#[test]
fn the_decisions_drawn_for_a_tick_fit_the_roster() {
    let mut wrecked = enemy_at(100, 100);
    hits(&hero_with_shot((100, 100)), &mut wrecked);
    let mut always = enemy_at(300, 100);
    always.set_attack_rate(1000);
    let game = game_of(
        Hero::new(SCREEN),
        vec![wrecked, enemy_at(200, 620), always, enemy_at(500, 100)],
        Scene::InGame,
    );

    for _ in 0..300 {
        let turn = game.draw_turn();

        let spawned = if turn.spawn_at.is_some() { 1 } else { 0 };
        assert_eq!(turn.moves.len(), 2 + spawned);
        assert!(turn.moves[0].fire);
        assert!(!turn.moves[1].fire);
        if let Some(x) = turn.spawn_at {
            assert!(20 <= x && x <= 780);
        }
        for decision in turn.moves.iter() {
            assert!(-45 <= decision.drift && decision.drift <= 45);
        }
    }
}

#[test]
fn nothing_is_drawn_for_a_tick_outside_the_round() {
    let game = game_of(Hero::new(SCREEN), vec![enemy_at(300, 100)], Scene::StartGame);

    let turn = game.draw_turn();

    assert_eq!(turn.spawn_at, None);
    assert!(turn.moves.is_empty());
}

#[test]
fn a_long_random_round_keeps_every_entity_in_its_place() {
    let mut game = Game::new(800, 600);
    game.key_pressed();
    let mut enemies_seen = false;
    let mut last_score = 0;

    for tick in 0..20000u64 {
        if tick % 7 == 0 {
            game.move_player(if tick % 2 == 0 {
                Direction::LEFT
            } else {
                Direction::RIGHT
            });
        }
        game.hero().last_attack().map(|at| assert!(at <= Instant::now()));
        game.next_turn();

        assert_eq!(game.count(), tick + 1);
        assert_eq!(game.stars().len(), 100);
        assert!(game.current_score() >= last_score);
        assert_eq!((game.current_score() - last_score) % 10, 0);
        last_score = game.current_score();
        assert!(game.scene() == Scene::InGame || game.scene() == Scene::GameOver);
        let (hero_x, hero_y) = game.hero().spaceship().position();
        assert!(0 <= hero_x && hero_x <= 800);
        assert_eq!(hero_y, 570);
        for star in game.stars() {
            let (x, y) = star.position();
            assert!(0 <= x && x < 800 && 0 <= y && y <= 600);
        }
        for enemy in game.enemies() {
            enemies_seen = true;
            let (x, y) = enemy.spaceship().position();
            assert!(0 <= x && x <= 800);
            assert!(-15 < y && y <= 620);
            for shot in enemy.spaceship().shots() {
                let (_, shot_y) = shot.position();
                assert!(-20 < shot_y && shot_y < 620);
                assert_eq!(shot.direction(), Direction::DOWN);
            }
        }
        assert_eq!(game.space_objects().is_empty(), false);
    }

    assert!(enemies_seen);
}
