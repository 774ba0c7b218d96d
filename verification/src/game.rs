//! The game: it owns the hero, the enemies, the starfield, the score and the
//! scene, and advances them one tick at a time.

use vstd::prelude::*;
use vstd::string::StringExecFns;
use rand::thread_rng;
use crate::chance::{chance, pick_between, RATE_SCALE};
use crate::enemy::{Enemy, EnemyModel, EnemyMove};
use crate::game_objects::{
    opaque, rgb, valid_screen, Color, Direction, FontSize, GameText, ObjectKind, Position,
    ScreenSize, SpaceObject, TextModel, SCREEN_MARGIN,
};
use crate::hero::{Hero, HeroModel};
use crate::player::{hits, Player};
use crate::scene::{GameScore, Scene};
use crate::seq_facts::{lemma_filter_next, lemma_filter_none, lemma_take_all};
use crate::stars::Star;
use crate::text::{score_line, score_text};

verus! {

/// A game in progress.
pub struct Game {
    screen_size: ScreenSize,
    hero: Hero,
    enemies: Vec<Enemy>,
    background_stars: Vec<Star>,
    score: u32,
    scene: Scene,
    count: u64,
}

/// What a game is, as a mathematical value.
pub struct GameModel {
    pub screen_size: ScreenSize,
    pub hero: HeroModel,
    /// The enemy roster, in the order in which the enemies appeared.
    pub enemies: Seq<EnemyModel>,
    pub stars: Seq<Star>,
    pub score: u32,
    pub scene: Scene,
    /// The number of ticks so far; it starts again at zero after the largest
    /// number.
    pub count: u64,
}

/// The random decisions of one tick.
pub struct Turn {
    /// Where a new enemy appears, if one does.
    pub spawn_at: Option<i64>,
    /// The decisions of the enemies, in roster order; the new enemy's are last.
    pub moves: Vec<EnemyMove>,
}

/// The mathematical value of an enemy.
pub open spec fn enemy_view() -> spec_fn(Enemy) -> EnemyModel {
    |enemy: Enemy| enemy@
}

/// Tells whether an enemy stays on the roster.
pub open spec fn staying(screen_size: ScreenSize) -> spec_fn(EnemyModel) -> bool {
    |enemy: EnemyModel| enemy.stays(screen_size)
}

/// Lets a star fall for one tick.
pub open spec fn star_fall() -> spec_fn(Star) -> Star {
    |star: Star| star.fallen()
}

/// Turns a star into a drawable entity.
pub open spec fn star_object() -> spec_fn(Star) -> SpaceObject {
    |star: Star| star.object()
}

/// The mathematical value of a line of the display.
pub open spec fn text_view() -> spec_fn(GameText) -> TextModel {
    |text: GameText| text@
}

/// A score with the points for one destroyed enemy added. The score stops at
/// the largest number it can hold.
pub open spec fn with_points(score: u32) -> u32 {
    if score + Game::POINTS <= u32::MAX {
        (score + Game::POINTS) as u32
    } else {
        u32::MAX
    }
}

/// What there is to draw of a roster: each enemy's projectiles and ship, in
/// roster order.
pub open spec fn roster_objects(enemies: Seq<EnemyModel>) -> Seq<SpaceObject>
    decreases enemies.len(),
{
    if enemies.len() == 0 {
        Seq::empty()
    } else {
        roster_objects(enemies.drop_last()) + enemies.last().ship.objects(ObjectKind::EnemyShip)
    }
}

impl GameModel {
    /// The color of the display's texts: yellow.
    pub open spec fn text_paint() -> Color {
        rgb(255, 255, 0)
    }

    /// The game's data is consistent: the viewport is valid and wide enough
    /// for an enemy to appear, every entity is consistent and lives in that
    /// viewport, and no enemy is further down than the bottom margin.
    pub open spec fn wf(self) -> bool {
        &&& valid_screen(self.screen_size)
        &&& 2 * Enemy::SIZE <= self.screen_size.0
        &&& self.hero.wf()
        &&& self.hero.ship.screen_size == self.screen_size
        &&& forall|i: int|
            0 <= i < self.enemies.len() ==> {
                &&& (#[trigger] self.enemies[i]).wf()
                &&& self.enemies[i].ship.screen_size == self.screen_size
                &&& self.enemies[i].ship.position.1 <= self.screen_size.1 + SCREEN_MARGIN
            }
        &&& forall|i: int|
            0 <= i < self.stars.len() ==> (#[trigger] self.stars[i]).wf() && self.stars[i].screen_size
                == self.screen_size
    }

    /// Every enemy is above the lower end of the bottom margin, so that it can
    /// descend one more step.
    pub open spec fn roster_in_sight(self) -> bool {
        forall|i: int|
            0 <= i < self.enemies.len() ==> (#[trigger] self.enemies[i]).ship.position.1
                < self.screen_size.1 + SCREEN_MARGIN
    }

    /// A game before its first tick: the start scene, no points, no enemies,
    /// the hero at its starting place, and the given stars.
    pub open spec fn fresh(screen_size: ScreenSize, stars: Seq<Star>) -> GameModel {
        GameModel {
            screen_size,
            hero: HeroModel::fresh(screen_size),
            enemies: Seq::empty(),
            stars,
            score: 0,
            scene: Scene::StartGame,
            count: 0,
        }
    }

    /// The score as the display shows it.
    pub open spec fn game_score(self) -> GameScore {
        GameScore::of(self.score, self.scene)
    }

    /// The game with its tick counter advanced; after the largest number the
    /// counter starts again at zero.
    pub open spec fn ticked(self) -> GameModel {
        GameModel {
            count: if self.count == u64::MAX {
                0
            } else {
                (self.count + 1) as u64
            },
            ..self
        }
    }

    /// The game with every star fallen by one tick.
    pub open spec fn stars_fallen(self) -> GameModel {
        GameModel { stars: self.stars.map_values(star_fall()), ..self }
    }

    /// The game without the enemies that are destroyed or out of sight; the
    /// others keep their order.
    pub open spec fn despawned(self) -> GameModel {
        GameModel { enemies: self.enemies.filter(staying(self.screen_size)), ..self }
    }

    /// The game with a new enemy at the end of the roster, if one appears.
    pub open spec fn spawned(self, spawn_at: Option<i64>) -> GameModel {
        match spawn_at {
            Some(x) => GameModel {
                enemies: self.enemies.push(EnemyModel::spawned_at(x, self.screen_size)),
                ..self
            },
            None => self,
        }
    }

    /// The game after the roster was tidied up: first the enemies that are
    /// destroyed or out of sight leave, then a new one may appear.
    pub open spec fn enemies_generated(self, spawn_at: Option<i64>) -> GameModel {
        self.despawned().spawned(spawn_at)
    }

    /// The game after every enemy has acted on its own decisions.
    pub open spec fn enemies_acted(self, moves: Seq<EnemyMove>) -> GameModel {
        GameModel {
            enemies: Seq::new(self.enemies.len(), |i: int| self.enemies[i].acted(moves[i])),
            ..self
        }
    }

    /// The game after the hero's part of a tick.
    pub open spec fn hero_acted(self) -> GameModel {
        GameModel { hero: self.hero.acted(), ..self }
    }

    /// The scoring pass from the enemy at index `from` on, in roster order.
    /// An enemy that hits the hero ends the round at once: the hero's ship is
    /// destroyed and the enemies behind it are not looked at. Otherwise, an
    /// enemy that the hero hits is destroyed and brings points.
    pub open spec fn scored_from(self, from: int) -> GameModel
        decreases self.enemies.len() - from,
    {
        if from < 0 || from >= self.enemies.len() {
            self
        } else {
            let enemy = self.enemies[from];
            if enemy.ship.hits(self.hero.ship) {
                GameModel { scene: Scene::GameOver, hero: self.hero.struck_by(enemy), ..self }
            } else if self.hero.ship.hits(enemy.ship) {
                (GameModel {
                    score: with_points(self.score),
                    enemies: self.enemies.update(from, enemy.struck_by(self.hero)),
                    ..self
                }).scored_from(from + 1)
            } else {
                self.scored_from(from + 1)
            }
        }
    }

    /// The game after the scoring pass. A round that is over is not scored.
    pub open spec fn scored(self) -> GameModel {
        if self.scene == Scene::GameOver {
            self
        } else {
            self.scored_from(0)
        }
    }

    /// The decisions fit the game: while the round is on, a new enemy appears
    /// where enemies may appear, there is one decision for each enemy that
    /// will act, and no push is stronger than an enemy can drift.
    pub open spec fn admits(self, spawn_at: Option<i64>, moves: Seq<EnemyMove>) -> bool {
        self.scene == Scene::InGame ==> {
            &&& spawn_at matches Some(x) ==> EnemyModel::spawn_range(self.screen_size, x)
            &&& moves.len() == self.enemies_generated(spawn_at).enemies.len()
            &&& forall|i: int| 0 <= i < moves.len() ==> (#[trigger] moves[i]).wf()
        }
    }

    /// Each decision to fire is one that a trial at the enemy's attack rate
    /// can give.
    pub open spec fn rates_respected(self, spawn_at: Option<i64>, moves: Seq<EnemyMove>) -> bool {
        self.scene == Scene::InGame ==> forall|i: int|
            0 <= i < moves.len() ==> (#[trigger] moves[i]).allowed_at(
                self.enemies_generated(spawn_at).enemies[i].attack_rate,
            )
    }

    /// The game one tick later. The counter advances and the stars fall in
    /// every scene. While the round is on, the roster is tidied up and a new
    /// enemy may appear, the enemies act, the hero acts, and the scoring pass
    /// follows, in this order.
    pub open spec fn stepped(self, spawn_at: Option<i64>, moves: Seq<EnemyMove>) -> GameModel {
        let next = self.ticked().stars_fallen();
        if self.scene == Scene::InGame {
            next.enemies_generated(spawn_at).enemies_acted(moves).hero_acted().scored()
        } else {
            next
        }
    }

    /// The prompt of the start scene.
    pub open spec fn start_prompt() -> Seq<char> {
        "Press Any Button to Start..."@
    }

    /// The headline of the final scene.
    pub open spec fn game_over_banner() -> Seq<char> {
        "Game Over!"@
    }

    /// A line of the display in the display's color and size.
    pub open spec fn text_line(content: Seq<char>, position: Position) -> TextModel {
        TextModel {
            content,
            color: GameModel::text_paint(),
            font_size: Game::TEXT_SIZE,
            position,
        }
    }

    /// While the round is on the display shows the score.
    pub open spec fn in_game_texts(self) -> Seq<TextModel> {
        seq![GameModel::text_line(score_line(self.score), Game::SCORE_TEXT_POSITION)]
    }

    /// Before the round the display shows a prompt that blinks: of every
    /// `BLINK_PERIOD` ticks it shows during the first `BLINK_SHOWN`. It stands
    /// at half the viewport's height, `START_GAME_TEXT_PADDING` left of the
    /// middle.
    pub open spec fn start_game_texts(self) -> Seq<TextModel> {
        if self.count % Game::BLINK_PERIOD < Game::BLINK_SHOWN {
            seq![
                GameModel::text_line(
                    GameModel::start_prompt(),
                    (
                        (self.screen_size.0 / 2 - Game::START_GAME_TEXT_PADDING) as i64,
                        (self.screen_size.1 / 2) as i64,
                    ),
                ),
            ]
        } else {
            Seq::empty()
        }
    }

    /// After the round the display shows the headline at half the viewport's
    /// height, and the final score below it, each a fixed padding left of the
    /// middle.
    pub open spec fn game_over_texts(self) -> Seq<TextModel> {
        seq![
            GameModel::text_line(
                GameModel::game_over_banner(),
                (
                    (self.screen_size.0 / 2 - Game::GAME_OVER_POSITION_LEFT_PADDING) as i64,
                    (self.screen_size.1 / 2) as i64,
                ),
            ),
            GameModel::text_line(
                score_line(self.score),
                (
                    (self.screen_size.0 / 2 - Game::FINAL_SCORE_LEFT_PADDING) as i64,
                    (self.screen_size.1 / 2 + Game::FINAL_SCORE_TOP_PADDING) as i64,
                ),
            ),
        ]
    }

    /// The lines of the display, by scene.
    pub open spec fn texts(self) -> Seq<TextModel> {
        match self.scene {
            Scene::InGame => self.in_game_texts(),
            Scene::StartGame => self.start_game_texts(),
            Scene::GameOver => self.game_over_texts(),
        }
    }

    /// What there is to draw: the stars; and while the round is on, behind
    /// them, each enemy's projectiles and ship in roster order, and last the
    /// hero's projectiles and ship unless the hero's ship is destroyed.
    pub open spec fn objects(self) -> Seq<SpaceObject> {
        let stars = self.stars.map_values(star_object());
        if self.scene == Scene::InGame {
            let ships = stars + roster_objects(self.enemies);
            if self.hero.ship.destroyed {
                ships
            } else {
                ships + self.hero.ship.objects(ObjectKind::HeroShip)
            }
        } else {
            stars
        }
    }

    /// The game after a key press.
    pub open spec fn key_pressed(self) -> GameModel {
        GameModel { scene: self.scene.after_key(), ..self }
    }

    /// The game after the hero took one step sideways.
    pub open spec fn player_moved(self, direction: Direction) -> GameModel {
        GameModel { hero: self.hero.moved(direction), ..self }
    }

    /// The game after the player asked for an attack.
    pub open spec fn player_attacked(self, elapsed_ms: u128, now: std::time::Instant) -> GameModel {
        GameModel { hero: self.hero.attacked(elapsed_ms, now), ..self }
    }
}

impl View for Game {
    type V = GameModel;

    closed spec fn view(&self) -> GameModel {
        GameModel {
            screen_size: self.screen_size,
            hero: self.hero@,
            enemies: self.enemies@.map_values(enemy_view()),
            stars: self.background_stars@,
            score: self.score,
            scene: self.scene,
            count: self.count,
        }
    }
}

impl Game {
    /// The number of stars in the background.
    pub const STAR_COUNT: usize = 100;

    pub const TEXT_SIZE: FontSize = 32;

    /// Where the score stands while the round is on.
    pub const SCORE_TEXT_POSITION: Position = (30, 30);

    pub const GAME_OVER_POSITION_LEFT_PADDING: i64 = 100;

    pub const FINAL_SCORE_LEFT_PADDING: i64 = 80;

    pub const FINAL_SCORE_TOP_PADDING: i64 = 32;

    pub const START_GAME_TEXT_PADDING: i64 = 200;

    /// Of every `BLINK_PERIOD` ticks the start prompt shows during the first
    /// `BLINK_SHOWN`.
    pub const BLINK_PERIOD: u64 = 20;

    pub const BLINK_SHOWN: u64 = 15;

    /// The chance, in thousandths, that an enemy appears in a tick.
    pub const ENEMY_FREQUENCY: u32 = 15;

    /// The points for destroying an enemy.
    pub const POINTS: u32 = 10;

    /// A new game in a viewport of the given size, with stars at random
    /// places.
    pub fn new(width: i64, height: i64) -> (game: Game)
        requires
            valid_screen((width, height)),
            2 * Enemy::SIZE <= width,
            1 <= height,
        ensures
            game@ == GameModel::fresh((width, height), game@.stars),
            game@.wf(),
            game@.stars.len() == Game::STAR_COUNT,
            forall|i: int|
                0 <= i < game@.stars.len() ==> (#[trigger] game@.stars[i]).position.0 < width
                    && game@.stars[i].position.1 < height,
    {
        let screen_size = (width, height);
        let mut stars: Vec<Star> = Vec::new();
        while stars.len() < Game::STAR_COUNT
            invariant
                stars@.len() <= Game::STAR_COUNT,
                screen_size == (width, height),
                valid_screen(screen_size),
                1 <= width,
                1 <= height,
                forall|i: int|
                    0 <= i < stars@.len() ==> {
                        &&& (#[trigger] stars@[i]).wf()
                        &&& stars@[i].screen_size == screen_size
                        &&& stars@[i].position.0 < width
                        &&& stars@[i].position.1 < height
                    },
            decreases Game::STAR_COUNT - stars.len(),
        {
            stars.push(Star::new(screen_size));
        }
        let game = Game {
            screen_size,
            hero: Hero::new(screen_size),
            enemies: Vec::new(),
            background_stars: stars,
            score: 0,
            scene: Scene::new(),
            count: 0,
        };
        assert(game@.enemies =~= Seq::empty());
        game
    }

    /// A game made of the given parts.
    pub fn from_parts(
        screen_size: ScreenSize,
        hero: Hero,
        enemies: Vec<Enemy>,
        stars: Vec<Star>,
        score: u32,
        scene: Scene,
        count: u64,
    ) -> (game: Game)
        ensures
            game@ == (GameModel {
                screen_size,
                hero: hero@,
                enemies: enemies@.map_values(enemy_view()),
                stars: stars@,
                score,
                scene,
                count,
            }),
    {
        Game { screen_size, hero, enemies, background_stars: stars, score, scene, count }
    }

    pub fn screen_size(&self) -> (screen_size: ScreenSize)
        ensures
            screen_size == self@.screen_size,
    {
        self.screen_size
    }

    pub fn hero(&self) -> (hero: &Hero)
        ensures
            hero@ == self@.hero,
    {
        &self.hero
    }

    /// The enemy roster, in the order in which the enemies appeared.
    pub fn enemies(&self) -> (enemies: &Vec<Enemy>)
        ensures
            enemies@.map_values(enemy_view()) == self@.enemies,
    {
        &self.enemies
    }

    pub fn stars(&self) -> (stars: &Vec<Star>)
        ensures
            stars@ == self@.stars,
    {
        &self.background_stars
    }

    pub fn scene(&self) -> (scene: Scene)
        ensures
            scene == self@.scene,
    {
        self.scene
    }

    /// The number of ticks so far.
    pub fn count(&self) -> (count: u64)
        ensures
            count == self@.count,
    {
        self.count
    }

    /// The points so far.
    pub fn current_score(&self) -> (points: u32)
        ensures
            points == self@.score,
    {
        self.score
    }

    /// The score as the display shows it: final once the round is over.
    pub fn score(&self) -> (score: GameScore)
        ensures
            score == self@.game_score(),
    {
        if self.scene.is_game_over() {
            GameScore::GameOver(self.score)
        } else {
            GameScore::Score(self.score)
        }
    }

    /// Reacts to a key press: a game that waits to start starts.
    pub fn key_pressed(&mut self)
        ensures
            final(self)@ == old(self)@.key_pressed(),
            old(self)@.wf() ==> final(self)@.wf(),
    {
        self.scene.key_pressed();
    }

    /// Moves the hero one step sideways.
    pub fn move_player(&mut self, direction: Direction)
        requires
            old(self)@.wf(),
            direction == Direction::LEFT || direction == Direction::RIGHT,
        ensures
            final(self)@ == old(self)@.player_moved(direction),
            final(self)@.wf(),
    {
        self.hero.move_to(direction);
    }

    /// Handles the player's request to attack, made now.
    pub fn fire_player_attack(&mut self)
        requires
            old(self)@.wf(),
        ensures
            exists|elapsed_ms: u128, now: std::time::Instant|
                final(self)@ == old(self)@.player_attacked(elapsed_ms, now),
            final(self)@.wf(),
    {
        self.hero.attack();
        proof {
            let (elapsed_ms, now) = choose|elapsed_ms: u128, now: std::time::Instant|
                final(self)@.hero == old(self)@.hero.attacked(elapsed_ms, now);
            assert(final(self)@ == old(self)@.player_attacked(elapsed_ms, now));
        }
    }

    /// Advances the tick counter.
    pub fn inc_counter(&mut self)
        ensures
            final(self)@ == old(self)@.ticked(),
            old(self)@.wf() ==> final(self)@.wf(),
    {
        let new_count = self.count.checked_add(1);
        match new_count {
            Some(result) => self.count = result,
            None => self.count = 0,
        }
    }

    /// Lets every star fall for one tick.
    pub fn background_stars_movement(&mut self)
        requires
            old(self)@.wf(),
        ensures
            final(self)@ == old(self)@.stars_fallen(),
            final(self)@.wf(),
    {
        let ghost before = self@;
        let mut i: usize = 0;
        while i < self.background_stars.len()
            invariant
                i <= self.background_stars@.len(),
                self.background_stars@.len() == before.stars.len(),
                before.wf(),
                self@ == (GameModel { stars: self.background_stars@, ..before }),
                forall|j: int| 0 <= j < i ==> self.background_stars@[j] == before.stars[j].fallen(),
                forall|j: int|
                    i <= j < before.stars.len() ==> self.background_stars@[j] == before.stars[j],
            decreases self.background_stars.len() - i,
        {
            assert(self.background_stars@[i as int] == before.stars[i as int]);
            assert(before.stars[i as int].wf());
            let star = &mut self.background_stars[i];
            star.fall();
            i += 1;
        }
        assert(self.background_stars@ =~= before.stars.map_values(star_fall()));
        assert forall|j: int| 0 <= j < self@.stars.len() implies (#[trigger] self@.stars[j]).wf()
            && self@.stars[j].screen_size == self@.screen_size by {
            before.stars[j].lemma_fallen_wf();
        }
    }

    /// The hero's part of a tick: its projectiles advance.
    pub fn player_action(&mut self)
        requires
            old(self)@.wf(),
        ensures
            final(self)@ == old(self)@.hero_acted(),
            final(self)@.wf(),
    {
        self.hero.action();
    }

    /// Removes the enemies that are destroyed or out of sight.
    pub fn despawn_enemies(&mut self)
        requires
            old(self)@.wf(),
        ensures
            final(self)@ == old(self)@.despawned(),
            final(self)@.wf(),
            final(self)@.roster_in_sight(),
    {
        let ghost before = self@;
        let ghost pred = staying(before.screen_size);
        let screen_size = self.screen_size;
        let mut all: Vec<Enemy> = Vec::new();
        core::mem::swap(&mut self.enemies, &mut all);
        let mut kept: Vec<Enemy> = Vec::new();
        proof {
            lemma_filter_none(before.enemies, pred);
            assert(kept@.map_values(enemy_view()) =~= before.enemies.take(0).filter(pred));
        }
        for enemy in it: all
            invariant
                it.seq() == all@,
                before.enemies == all@.map_values(enemy_view()),
                pred == staying(screen_size),
                kept@.map_values(enemy_view()) == before.enemies.take(it.index() as int).filter(
                    pred,
                ),
        {
            proof {
                lemma_filter_next(before.enemies, pred, it.index() as int);
            }
            let ghost earlier = kept@;
            if enemy.is_visible(screen_size) && !enemy.is_destroyed() {
                kept.push(enemy);
                assert(kept@.map_values(enemy_view()) =~= earlier.map_values(enemy_view()).push(
                    enemy@,
                ));
            }
        }
        proof {
            lemma_take_all(before.enemies);
        }
        self.enemies = kept;
        proof {
            before.lemma_despawned_wf();
        }
    }

    /// Puts a new enemy at the end of the roster, if one appears.
    pub fn spawn_enemy(&mut self, spawn_at: Option<i64>)
        requires
            old(self)@.wf(),
            spawn_at matches Some(x) ==> EnemyModel::spawn_range(old(self)@.screen_size, x),
        ensures
            final(self)@ == old(self)@.spawned(spawn_at),
            final(self)@.wf(),
            old(self)@.roster_in_sight() ==> final(self)@.roster_in_sight(),
    {
        let ghost before = self@;
        match spawn_at {
            Some(x) => {
                let enemy = Enemy::at(x, self.screen_size);
                self.enemies.push(enemy);
                assert(self@.enemies =~= before.enemies.push(
                    EnemyModel::spawned_at(x, before.screen_size),
                ));
            },
            None => {},
        }
    }

    /// Tidies up the roster: first the enemies that are destroyed or out of
    /// sight leave, then a new one may appear.
    pub fn generate_enemies(&mut self, spawn_at: Option<i64>)
        requires
            old(self)@.wf(),
            spawn_at matches Some(x) ==> EnemyModel::spawn_range(old(self)@.screen_size, x),
        ensures
            final(self)@ == old(self)@.enemies_generated(spawn_at),
            final(self)@.wf(),
            final(self)@.roster_in_sight(),
    {
        self.despawn_enemies();
        self.spawn_enemy(spawn_at);
    }

    /// Lets every enemy act on its own decisions, in roster order.
    pub fn enemies_action(&mut self, moves: &Vec<EnemyMove>)
        requires
            old(self)@.wf(),
            old(self)@.roster_in_sight(),
            moves@.len() == old(self)@.enemies.len(),
            forall|i: int| 0 <= i < moves@.len() ==> (#[trigger] moves@[i]).wf(),
        ensures
            final(self)@ == old(self)@.enemies_acted(moves@),
            final(self)@.wf(),
    {
        let ghost before = self@;
        let mut i: usize = 0;
        while i < self.enemies.len()
            invariant
                i <= self.enemies@.len(),
                self.enemies@.len() == before.enemies.len(),
                moves@.len() == before.enemies.len(),
                before.wf(),
                before.roster_in_sight(),
                forall|j: int| 0 <= j < moves@.len() ==> (#[trigger] moves@[j]).wf(),
                self@ == (GameModel { enemies: self@.enemies, ..before }),
                forall|j: int|
                    0 <= j < i ==> (#[trigger] self.enemies@[j])@ == before.enemies[j].acted(
                        moves@[j],
                    ),
                forall|j: int|
                    i <= j < before.enemies.len() ==> (#[trigger] self.enemies@[j])@
                        == before.enemies[j],
            decreases self.enemies.len() - i,
        {
            let decision = moves[i];
            assert(self.enemies@[i as int]@ == before.enemies[i as int]);
            assert(before.enemies[i as int].wf());
            let enemy = &mut self.enemies[i];
            enemy.act(decision);
            i += 1;
        }
        assert(self@.enemies =~= before.enemies_acted(moves@).enemies);
        proof {
            before.lemma_enemies_acted_wf(moves@);
        }
    }

    /// The scoring pass: in roster order, an enemy that hits the hero ends the
    /// round at once; otherwise an enemy that the hero hits is destroyed and
    /// brings points. A round that is over is not scored.
    pub fn update_score(&mut self)
        requires
            old(self)@.wf(),
        ensures
            final(self)@ == old(self)@.scored(),
            final(self)@.wf(),
    {
        if self.scene.is_game_over() {
            return ;
        }
        let ghost before = self@;
        let mut i: usize = 0;
        while i < self.enemies.len()
            invariant
                i <= self.enemies@.len(),
                self@.wf(),
                before == old(self)@,
                before.scored() == self@.scored_from(i as int),
            decreases self.enemies.len() - i,
        {
            let ghost current = self@;
            let ghost roster = self.enemies@;
            assert(current.enemies[i as int] == roster[i as int]@);
            let enemy = &mut self.enemies[i];
            if hits(enemy, &mut self.hero) {
                self.scene = Scene::GameOver;
                proof {
                    assert(self.enemies@ =~= roster);
                    assert(self@.enemies =~= current.enemies);
                    current.hero.ship.lemma_wf_kept(current.hero.ship.position);
                    assert(self@ == (GameModel {
                        scene: Scene::GameOver,
                        hero: current.hero.struck_by(current.enemies[i as int]),
                        ..current
                    }));
                    assert(current.scored_from(i as int) == self@);
                }
                return ;
            }
            if hits(&self.hero, enemy) {
                self.score = self.score.saturating_add(Game::POINTS);
            }
            proof {
                let acted = self.enemies@[i as int]@;
                assert(self@.enemies =~= current.enemies.update(i as int, acted));
                current.enemies[i as int].ship.lemma_wf_kept(
                    current.enemies[i as int].ship.position,
                );
                assert(current.hero.struck_by(current.enemies[i as int]) == current.hero);
                if !current.hero.ship.hits(current.enemies[i as int].ship) {
                    assert(self@.enemies =~= current.enemies);
                }
            }
            i += 1;
        }
    }

    /// Draws the random decisions of the next tick: whether and where an
    /// enemy appears, and what each enemy that will act decides.
    pub fn draw_turn(&self) -> (turn: Turn)
        requires
            self@.wf(),
        ensures
            self@.admits(turn.spawn_at, turn.moves@),
            self@.rates_respected(turn.spawn_at, turn.moves@),
    {
        let mut moves: Vec<EnemyMove> = Vec::new();
        if !self.scene.is_in_game() {
            return Turn { spawn_at: None, moves };
        }
        let mut random = thread_rng();
        let (width, _) = self.screen_size;
        let spawn_at = if chance(&mut random, Game::ENEMY_FREQUENCY, RATE_SCALE) {
            Some(pick_between(&mut random, Enemy::SIZE, width - Enemy::SIZE))
        } else {
            None
        };
        let ghost models = self@.enemies;
        let ghost pred = staying(self@.screen_size);
        proof {
            lemma_filter_none(models, pred);
        }
        let mut i: usize = 0;
        while i < self.enemies.len()
            invariant
                i <= self.enemies@.len(),
                self@.wf(),
                models == self@.enemies,
                pred == staying(self@.screen_size),
                moves@.len() == models.take(i as int).filter(pred).len(),
                forall|k: int|
                    0 <= k < moves@.len() ==> (#[trigger] moves@[k]).wf() && moves@[k].allowed_at(
                        models.take(i as int).filter(pred)[k].attack_rate,
                    ),
            decreases self.enemies.len() - i,
        {
            proof {
                lemma_filter_next(models, pred, i as int);
            }
            assert(models[i as int] == self.enemies@[i as int]@);
            assert(models[i as int].wf());
            let enemy = &self.enemies[i];
            if enemy.is_visible(self.screen_size) && !enemy.is_destroyed() {
                moves.push(enemy.decide());
            }
            i += 1;
        }
        proof {
            lemma_take_all(models);
        }
        match spawn_at {
            Some(x) => {
                let newcomer = Enemy::at(x, self.screen_size);
                moves.push(newcomer.decide());
            },
            None => {},
        }
        Turn { spawn_at, moves }
    }

    /// Advances the game by one tick under the given random decisions.
    pub fn next_turn_with(&mut self, turn: &Turn)
        requires
            old(self)@.wf(),
            old(self)@.admits(turn.spawn_at, turn.moves@),
        ensures
            final(self)@ == old(self)@.stepped(turn.spawn_at, turn.moves@),
            final(self)@.wf(),
    {
        self.inc_counter();
        self.background_stars_movement();
        if self.scene.is_in_game() {
            self.generate_enemies(turn.spawn_at);
            self.enemies_action(&turn.moves);
            self.player_action();
            self.update_score();
        }
    }

    /// Advances the game by one tick, with its random decisions drawn here.
    pub fn next_turn(&mut self)
        requires
            old(self)@.wf(),
        ensures
            exists|spawn_at: Option<i64>, moves: Seq<EnemyMove>|
                {
                    &&& old(self)@.admits(spawn_at, moves)
                    &&& old(self)@.rates_respected(spawn_at, moves)
                    &&& final(self)@ == old(self)@.stepped(spawn_at, moves)
                },
            final(self)@.wf(),
    {
        let turn = self.draw_turn();
        self.next_turn_with(&turn);
    }
    /// What there is to draw, back to front.
    pub fn space_objects(&self) -> (objects: Vec<SpaceObject>)
        ensures
            objects@ == self@.objects(),
    {
        let mut objects: Vec<SpaceObject> = Vec::new();
        let mut i: usize = 0;
        while i < self.background_stars.len()
            invariant
                i <= self.background_stars@.len(),
                objects@ == self.background_stars@.take(i as int).map_values(star_object()),
            decreases self.background_stars.len() - i,
        {
            objects.push(self.background_stars[i].as_space_object());
            assert(self.background_stars@.take(i + 1).map_values(star_object())
                =~= self.background_stars@.take(i as int).map_values(star_object()).push(
                self.background_stars@[i as int].object(),
            ));
            i += 1;
        }
        proof {
            lemma_take_all(self.background_stars@);
        }
        if self.scene.is_in_game() {
            let ghost stars = objects@;
            let mut k: usize = 0;
            assert(self@.enemies.take(0) =~= Seq::empty());
            while k < self.enemies.len()
                invariant
                    k <= self.enemies@.len(),
                    objects@ == stars + roster_objects(self@.enemies.take(k as int)),
                decreases self.enemies.len() - k,
            {
                let mut ship_objects = self.enemies[k].as_game_objects();
                objects.append(&mut ship_objects);
                proof {
                    let next = self@.enemies.take(k + 1);
                    assert(next.drop_last() =~= self@.enemies.take(k as int));
                    assert(next.last() == self.enemies@[k as int]@);
                    assert(objects@ =~= stars + roster_objects(next));
                }
                k += 1;
            }
            proof {
                lemma_take_all(self@.enemies);
            }
            if !self.hero.is_destroyed() {
                let mut hero_objects = self.hero.as_game_objects();
                objects.append(&mut hero_objects);
            }
        }
        objects
    }

    /// The lines of the display.
    pub fn texts(&self) -> (texts: Vec<GameText>)
        requires
            self@.wf(),
        ensures
            texts@.map_values(text_view()) == self@.texts(),
    {
        match self.scene {
            Scene::InGame => self.in_game_text(),
            Scene::StartGame => self.start_game_text(),
            Scene::GameOver => self.game_over_text(),
        }
    }

    /// The lines of the final scene: the headline and the final score.
    pub fn game_over_text(&self) -> (texts: Vec<GameText>)
        requires
            self@.wf(),
        ensures
            texts@.map_values(text_view()) == self@.game_over_texts(),
    {
        let (screen_x, screen_y) = self.screen_size;
        let game_over_pos_x = screen_x / 2 - Game::GAME_OVER_POSITION_LEFT_PADDING;
        let game_over_pos_y = screen_y / 2;
        let final_score_pos_x = screen_x / 2 - Game::FINAL_SCORE_LEFT_PADDING;
        let final_score_pos_y = screen_y / 2 + Game::FINAL_SCORE_TOP_PADDING;
        let mut texts: Vec<GameText> = Vec::new();
        texts.push(
            GameText::new(
                String::from_str("Game Over!"),
                Game::text_color(),
                Game::TEXT_SIZE,
                (game_over_pos_x, game_over_pos_y),
            ),
        );
        texts.push(
            GameText::new(
                score_text(self.score),
                Game::text_color(),
                Game::TEXT_SIZE,
                (final_score_pos_x, final_score_pos_y),
            ),
        );
        assert(texts@.map_values(text_view()) =~= self@.game_over_texts());
        texts
    }

    /// The line shown while the round is on: the score.
    pub fn in_game_text(&self) -> (texts: Vec<GameText>)
        ensures
            texts@.map_values(text_view()) == self@.in_game_texts(),
    {
        let mut texts: Vec<GameText> = Vec::new();
        texts.push(
            GameText::new(
                score_text(self.score),
                Game::text_color(),
                Game::TEXT_SIZE,
                Game::SCORE_TEXT_POSITION,
            ),
        );
        assert(texts@.map_values(text_view()) =~= self@.in_game_texts());
        texts
    }

    /// The line of the start scene: the blinking prompt, when it shows.
    pub fn start_game_text(&self) -> (texts: Vec<GameText>)
        requires
            self@.wf(),
        ensures
            texts@.map_values(text_view()) == self@.start_game_texts(),
    {
        let show = self.count % Game::BLINK_PERIOD < Game::BLINK_SHOWN;
        let mut texts: Vec<GameText> = Vec::new();
        if show {
            let (screen_x, screen_y) = self.screen_size;
            texts.push(
                GameText::new(
                    String::from_str("Press Any Button to Start..."),
                    Game::text_color(),
                    Game::TEXT_SIZE,
                    (screen_x / 2 - Game::START_GAME_TEXT_PADDING, screen_y / 2),
                ),
            );
        }
        assert(texts@.map_values(text_view()) =~= self@.start_game_texts());
        texts
    }

    /// The color of the display's texts.
    pub fn text_color() -> (color: Color)
        ensures
            color == GameModel::text_paint(),
    {
        opaque(255, 255, 0)
    }
}

impl GameModel {
    /// Tidying up the roster keeps a game consistent and leaves every enemy in
    /// sight.
    pub proof fn lemma_despawned_wf(self)
        requires
            self.wf(),
        ensures
            self.despawned().wf(),
            self.despawned().roster_in_sight(),
            forall|i: int|
                0 <= i < self.despawned().enemies.len() ==> (#[trigger] self.despawned().enemies[i]).stays(
                    self.screen_size,
                ),
    {
        let pred = staying(self.screen_size);
        let kept = self.enemies.filter(pred);
        assert forall|i: int| 0 <= i < kept.len() implies {
            &&& (#[trigger] kept[i]).wf()
            &&& kept[i].ship.screen_size == self.screen_size
            &&& kept[i].stays(self.screen_size)
        } by {
            self.enemies.lemma_filter_pred(pred, i);
            self.enemies.lemma_filter_contains_rev(pred, kept[i]);
        }
    }

    /// A tick of the enemies keeps a game consistent.
    pub proof fn lemma_enemies_acted_wf(self, moves: Seq<EnemyMove>)
        requires
            self.wf(),
            self.roster_in_sight(),
            moves.len() == self.enemies.len(),
            forall|i: int| 0 <= i < moves.len() ==> (#[trigger] moves[i]).wf(),
        ensures
            self.enemies_acted(moves).wf(),
    {
        let after = self.enemies_acted(moves);
        assert forall|i: int| 0 <= i < after.enemies.len() implies {
            &&& (#[trigger] after.enemies[i]).wf()
            &&& after.enemies[i].ship.screen_size == after.screen_size
            &&& after.enemies[i].ship.position.1 <= after.screen_size.1 + SCREEN_MARGIN
        } by {
            assert(self.enemies[i].wf());
            assert(moves[i].wf());
            self.enemies[i].lemma_acted_wf(moves[i]);
        }
    }
}

} // verus!
