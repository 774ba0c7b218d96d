//! The coarse state of a round, and the score as the display shows it.

use vstd::prelude::*;

verus! {

/// The scene a game is in. A game starts at `StartGame`, goes on to `InGame`
/// and ends at `GameOver`; it never goes back.
#[derive(Copy, Clone, Debug, PartialEq, Eq, Structural)]
pub enum Scene {
    StartGame,
    InGame,
    GameOver,
}

impl Scene {
    /// How far the scene is along the one way a game goes.
    pub open spec fn stage(self) -> nat {
        match self {
            Scene::StartGame => 0,
            Scene::InGame => 1,
            Scene::GameOver => 2,
        }
    }

    /// The scene after a key press: a game that waits to start starts, any
    /// other scene stays.
    pub open spec fn after_key(self) -> Scene {
        if self == Scene::StartGame {
            Scene::InGame
        } else {
            self
        }
    }

    /// The scene a game starts in.
    pub fn new() -> (scene: Scene)
        ensures
            scene == Scene::StartGame,
    {
        Scene::StartGame
    }

    pub fn is_in_game(&self) -> (in_game: bool)
        ensures
            in_game == (*self == Scene::InGame),
    {
        match *self {
            Scene::InGame => true,
            _ => false,
        }
    }

    pub fn is_game_over(&self) -> (over: bool)
        ensures
            over == (*self == Scene::GameOver),
    {
        match *self {
            Scene::GameOver => true,
            _ => false,
        }
    }

    /// Reacts to a key press.
    pub fn key_pressed(&mut self)
        ensures
            *final(self) == old(self).after_key(),
    {
        match *self {
            Scene::StartGame => {
                *self = Scene::InGame;
            },
            _ => {},
        }
    }
}

/// The score of a round together with whether the round is over.
#[derive(Copy, Clone, Debug, PartialEq, Eq, Structural)]
pub enum GameScore {
    /// The points so far of a round that is not over.
    Score(u32),
    /// The final points of a round that is over.
    GameOver(u32),
}

impl GameScore {
    /// The score of a round with the given points in the given scene.
    pub open spec fn of(points: u32, scene: Scene) -> GameScore {
        if scene == Scene::GameOver {
            GameScore::GameOver(points)
        } else {
            GameScore::Score(points)
        }
    }

    /// The points, whether final or not.
    pub open spec fn spec_points(self) -> u32 {
        match self {
            GameScore::Score(points) => points,
            GameScore::GameOver(points) => points,
        }
    }

    pub fn is_game_over(&self) -> (over: bool)
        ensures
            over == (*self is GameOver),
    {
        match *self {
            GameScore::GameOver(_) => true,
            _ => false,
        }
    }

    /// The points, whether final or not.
    pub fn points(&self) -> (points: u32)
        ensures
            points == self.spec_points(),
    {
        match *self {
            GameScore::Score(points) => points,
            GameScore::GameOver(points) => points,
        }
    }
}

} // verus!
