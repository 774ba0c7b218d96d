//! Positions, headings, colors, and the bounds, visibility and proximity tests
//! that every entity shares.

use vstd::prelude::*;

verus! {

/// A point of the play field, `(x, y)`, in game units; `y` grows downwards.
pub type Position = (i64, i64);

/// The viewport, `(width, height)`, in game units.
pub type ScreenSize = (i64, i64);

/// The corner points of a drawable polygon, in drawing order.
pub type Coord = Vec<Position>;

pub type FontSize = u32;

/// How far beyond a viewport edge an entity still counts as visible.
pub const SCREEN_MARGIN: i64 = 20;

/// Two entities closer than this on both axes collide.
pub const MIN_DISTANCE: i64 = 20;

/// Coordinates and sizes that the simulation keeps track of stay within this
/// distance of the origin (half the range of the machine integers), so that
/// every step and every outline can be computed.
pub const SPACE_LIMIT: i64 = 0x3fff_ffff_ffff_ffff;

/// The largest viewport dimension. The margin band around such a viewport
/// still lies within `SPACE_LIMIT`.
pub const SCREEN_LIMIT: i64 = SPACE_LIMIT - SCREEN_MARGIN;

/// A color as red, green, blue and opacity, each from 0 to 255.
#[derive(Clone, Copy, Debug, PartialEq, Eq, Structural)]
pub struct Color {
    pub red: u8,
    pub green: u8,
    pub blue: u8,
    pub alpha: u8,
}

/// The fully opaque color with the given channels.
pub open spec fn rgb(red: u8, green: u8, blue: u8) -> Color {
    Color { red, green, blue, alpha: 255 }
}

/// Builds the fully opaque color with the given channels.
pub fn opaque(red: u8, green: u8, blue: u8) -> (color: Color)
    ensures
        color == rgb(red, green, blue),
{
    Color { red, green, blue, alpha: 255 }
}

/// The four axis-aligned headings.
#[allow(non_camel_case_types)]
#[derive(Clone, Copy, Debug, PartialEq, Eq, Structural)]
pub enum Direction {
    LEFT,
    UP,
    RIGHT,
    DOWN,
}

impl Direction {
    /// Projectiles travel only up or down.
    pub open spec fn is_vertical(self) -> bool {
        self == Direction::UP || self == Direction::DOWN
    }
}

/// The smaller of two numbers.
pub open spec fn spec_min(x: int, y: int) -> int {
    if x < y {
        x
    } else {
        y
    }
}

/// The larger of two numbers.
pub open spec fn spec_max(x: int, y: int) -> int {
    if x > y {
        x
    } else {
        y
    }
}

/// `value` moved into the interval from `low` to `high`.
pub open spec fn clamped(value: int, low: int, high: int) -> int {
    spec_max(spec_min(value, high), low)
}

pub fn min(x: i64, y: i64) -> (m: i64)
    ensures
        m == spec_min(x as int, y as int),
{
    if x < y {
        x
    } else {
        y
    }
}

pub fn max(x: i64, y: i64) -> (m: i64)
    ensures
        m == spec_max(x as int, y as int),
{
    if x > y {
        x
    } else {
        y
    }
}

/// Both coordinates lie within `SPACE_LIMIT` of the origin.
pub open spec fn in_space(position: Position) -> bool {
    &&& -SPACE_LIMIT <= position.0 <= SPACE_LIMIT
    &&& -SPACE_LIMIT <= position.1 <= SPACE_LIMIT
}

/// A viewport the simulation can run in: neither dimension is negative or
/// exceeds `SCREEN_LIMIT`.
pub open spec fn valid_screen(screen_size: ScreenSize) -> bool {
    &&& 0 <= screen_size.0 <= SCREEN_LIMIT
    &&& 0 <= screen_size.1 <= SCREEN_LIMIT
}

/// A position is visible when it lies inside the viewport widened by
/// `SCREEN_MARGIN` on every side; the outer edge of that band is excluded.
pub open spec fn visible(position: Position, screen_size: ScreenSize) -> bool {
    &&& -SCREEN_MARGIN < position.0 < screen_size.0 + SCREEN_MARGIN
    &&& -SCREEN_MARGIN < position.1 < screen_size.1 + SCREEN_MARGIN
}

/// The distance between two coordinates.
pub open spec fn distance(a: int, b: int) -> int {
    if a >= b {
        a - b
    } else {
        b - a
    }
}

/// Two positions collide when they are less than `MIN_DISTANCE` apart on both
/// axes: a proximity box, not an overlap of outlines.
pub open spec fn collides(a: Position, b: Position) -> bool {
    &&& distance(a.0 as int, b.0 as int) < MIN_DISTANCE
    &&& distance(a.1 as int, b.1 as int) < MIN_DISTANCE
}

/// Decides `visible` for any position and viewport.
pub fn is_visible_at(position: Position, screen_size: ScreenSize) -> (seen: bool)
    ensures
        seen == visible(position, screen_size),
{
    let x: i128 = position.0 as i128;
    let y: i128 = position.1 as i128;
    let margin: i128 = SCREEN_MARGIN as i128;
    x < screen_size.0 as i128 + margin && x > -margin && y < screen_size.1 as i128 + margin && y
        > -margin
}

/// Decides `collides` for any two positions.
pub fn are_colliding(a: Position, b: Position) -> (hit: bool)
    ensures
        hit == collides(a, b),
{
    let dx: i128 = a.0 as i128 - b.0 as i128;
    let dy: i128 = a.1 as i128 - b.1 as i128;
    let reach: i128 = MIN_DISTANCE as i128;
    -reach < dx && dx < reach && -reach < dy && dy < reach
}

/// What an entity is; the kind decides the shape of its outline.
#[derive(Clone, Copy, Debug, PartialEq, Eq, Structural)]
pub enum ObjectKind {
    Star,
    EnemyShip,
    HeroShip,
    Projectile,
}

/// A snapshot of one entity of the play field: where it is, where it faces,
/// how large it is and how it is painted.
#[derive(Clone, Copy, Debug)]
pub struct SpaceObject {
    pub kind: ObjectKind,
    pub position: Position,
    pub direction: Direction,
    pub size: i64,
    pub color: Color,
}

impl SpaceObject {
    /// The outline can be computed: no corner leaves the machine integers.
    pub open spec fn outline_fits(self) -> bool {
        &&& i64::MIN <= self.position.0 - self.size
        &&& self.position.0 - self.size <= i64::MAX
        &&& i64::MIN <= self.position.0 + self.size
        &&& self.position.0 + self.size <= i64::MAX
        &&& i64::MIN <= self.position.1 - self.size
        &&& self.position.1 - self.size <= i64::MAX
        &&& i64::MIN <= self.position.1 + self.size
        &&& self.position.1 + self.size <= i64::MAX
    }

    /// A triangle with its base through the position and its apex `size` away,
    /// above the base when facing up and below it otherwise.
    pub open spec fn triangle(self) -> Seq<Position> {
        let (x, y) = self.position;
        let apex = if self.direction == Direction::UP {
            y - self.size
        } else {
            y + self.size
        };
        seq![((x - self.size) as i64, y), (x, apex as i64), ((x + self.size) as i64, y)]
    }

    /// A square of side `size` with its first corner at the position.
    pub open spec fn square(self) -> Seq<Position> {
        let (x, y) = self.position;
        seq![
            (x, y),
            ((x + self.size) as i64, y),
            ((x + self.size) as i64, (y + self.size) as i64),
            (x, (y + self.size) as i64),
        ]
    }

    /// Stars are drawn as squares, everything else as triangles.
    pub open spec fn outline(self) -> Seq<Position> {
        if self.kind == ObjectKind::Star {
            self.square()
        } else {
            self.triangle()
        }
    }

    pub fn new(
        kind: ObjectKind,
        position: Position,
        direction: Direction,
        size: i64,
        color: Color,
    ) -> (object: SpaceObject)
        ensures
            object == (SpaceObject { kind, position, direction, size, color }),
    {
        SpaceObject { kind, position, direction, size, color }
    }

    pub fn kind(&self) -> (kind: ObjectKind)
        ensures
            kind == self.kind,
    {
        self.kind
    }

    pub fn color(&self) -> (color: Color)
        ensures
            color == self.color,
    {
        self.color
    }

    pub fn direction(&self) -> (direction: Direction)
        ensures
            direction == self.direction,
    {
        self.direction
    }

    pub fn position(&self) -> (position: Position)
        ensures
            position == self.position,
    {
        self.position
    }

    pub fn size(&self) -> (size: i64)
        ensures
            size == self.size,
    {
        self.size
    }

    /// The corner points of the entity's outline.
    pub fn coord(&self) -> (corners: Coord)
        requires
            self.outline_fits(),
        ensures
            corners@ == self.outline(),
    {
        let (x, y) = self.position;
        let size = self.size;
        let mut corners: Vec<Position> = Vec::new();
        match self.kind {
            ObjectKind::Star => {
                corners.push((x, y));
                corners.push((x + size, y));
                corners.push((x + size, y + size));
                corners.push((x, y + size));
            },
            _ => {
                let apex = match self.direction {
                    Direction::UP => y - size,
                    _ => y + size,
                };
                corners.push((x - size, y));
                corners.push((x, apex));
                corners.push((x + size, y));
            },
        }
        assert(corners@ =~= self.outline());
        corners
    }

    /// Whether the entity is inside the viewport or its margin band.
    pub fn is_visible(&self, screen_size: ScreenSize) -> (seen: bool)
        ensures
            seen == visible(self.position, screen_size),
    {
        is_visible_at(self.position, screen_size)
    }

    /// Whether the entity is close enough to `other` to collide with it.
    pub fn check_collision(&self, other: &SpaceObject) -> (hit: bool)
        ensures
            hit == collides(self.position, other.position),
    {
        are_colliding(self.position, other.position)
    }
}

/// One line of the heads-up display.
pub struct GameText {
    pub content: String,
    pub color: Color,
    pub font_size: FontSize,
    pub position: Position,
}

/// What a line of the display is, as a mathematical value.
pub struct TextModel {
    pub content: Seq<char>,
    pub color: Color,
    pub font_size: FontSize,
    pub position: Position,
}

impl View for GameText {
    type V = TextModel;

    open spec fn view(&self) -> TextModel {
        TextModel {
            content: self.content@,
            color: self.color,
            font_size: self.font_size,
            position: self.position,
        }
    }
}

impl GameText {
    pub fn new(content: String, color: Color, font_size: FontSize, position: Position) -> (text:
        GameText)
        ensures
            text@ == (TextModel { content: content@, color, font_size, position }),
    {
        GameText { content, color, font_size, position }
    }

    pub fn content(&self) -> (content: String)
        ensures
            content@ == self.content@,
    {
        self.content.clone()
    }

    pub fn color(&self) -> (color: Color)
        ensures
            color == self.color,
    {
        self.color
    }

    pub fn font_size(&self) -> (font_size: FontSize)
        ensures
            font_size == self.font_size,
    {
        self.font_size
    }

    pub fn position(&self) -> (position: Position)
        ensures
            position == self.position,
    {
        self.position
    }
}

} // verus!
