//! Core data model: positions, walls, squares, tiles, heisters, players and
//! the inbound message types of the rules engine.

use vstd::prelude::*;

verus! {

/// Seconds on the shared countdown clock when it starts or is extended.
pub const TIMER_DURATION_SECS: u64 = 5 * 60;

/// Coordinates this far from the origin are accepted by the engine; the bound
/// leaves room for the fixed offsets of tile placement without `i32` overflow.
pub const COORD_LIMIT: i32 = 0x4000_0000;

#[derive(Copy, Clone, Debug, PartialEq, Eq, Structural)]
pub enum WallType {
    Clear,
    Impassable,
    PurpleDoor,
    OrangeDoor,
    GreenDoor,
    YellowDoor,
}

#[derive(Copy, Clone, Debug, PartialEq, Eq, Structural)]
pub enum SquareType {
    Normal,
    Filled,
    TimerFlip,
    TimerFlipUsed,
    Escalator,
    PurpleTeleportPad,
    YellowTeleportPad,
    GreenTeleportPad,
    OrangeTeleportPad,
    PurpleItem,
    YellowItem,
    GreenItem,
    OrangeItem,
    PurpleEscape,
    YellowEscape,
    GreenEscape,
    OrangeEscape,
}

#[derive(Copy, Clone, Debug, PartialEq, Eq, Structural)]
pub enum HeisterColor {
    Yellow,
    Purple,
    Green,
    Orange,
}

#[derive(Copy, Clone, Debug, PartialEq, Eq, Structural)]
pub enum Ability {
    MoveNorth,
    MoveEast,
    MoveSouth,
    MoveWest,
    Teleport,
    RevealTiles,
    UseEscalator,
}

#[derive(Copy, Clone, Debug, PartialEq, Eq, Structural)]
pub enum GameStatus {
    Staging,
    PreFirstMove,
    Ongoing,
    Victory,
    Defeat,
}

#[derive(Copy, Clone, Debug, PartialEq, Eq, Structural)]
pub enum MoveDirection {
    North,
    East,
    South,
    West,
}

/// The color a door wall admits, if the wall is a door.
pub fn get_wall_color(wall: WallType) -> (r: Option<HeisterColor>)
    ensures
        r == spec_wall_color(wall),
{
    match wall {
        WallType::PurpleDoor => Some(HeisterColor::Purple),
        WallType::OrangeDoor => Some(HeisterColor::Orange),
        WallType::GreenDoor => Some(HeisterColor::Green),
        WallType::YellowDoor => Some(HeisterColor::Yellow),
        _ => None,
    }
}

pub open spec fn spec_wall_color(wall: WallType) -> Option<HeisterColor> {
    match wall {
        WallType::PurpleDoor => Some(HeisterColor::Purple),
        WallType::OrangeDoor => Some(HeisterColor::Orange),
        WallType::GreenDoor => Some(HeisterColor::Green),
        WallType::YellowDoor => Some(HeisterColor::Yellow),
        _ => None,
    }
}

pub open spec fn is_door(wall: WallType) -> bool {
    spec_wall_color(wall) is Some
}

#[derive(Copy, Clone, Debug, Default, PartialEq, Eq, Structural)]
pub struct MapPosition {
    pub x: i32,
    pub y: i32,
}

/// Both coordinates are far enough from the `i32` extremes for the engine's
/// fixed-offset arithmetic; every placed tile satisfies this.
pub open spec fn pos_interior(p: MapPosition) -> bool {
    -COORD_LIMIT <= p.x <= COORD_LIMIT && -COORD_LIMIT <= p.y <= COORD_LIMIT
}

/// The bound every heister position keeps: on the grid it is within three
/// squares of an interior tile corner, and the engine rejects move
/// destinations beyond this.
pub open spec fn pos_moderate(p: MapPosition) -> bool {
    &&& -COORD_LIMIT - 8 <= p.x <= COORD_LIMIT + 8
    &&& -COORD_LIMIT - 8 <= p.y <= COORD_LIMIT + 8
}

/// A looser bound: positions the engine derives from moderate ones by its
/// fixed offsets stay within it, and offset arithmetic on such a position
/// cannot overflow.
pub open spec fn pos_workable(p: MapPosition) -> bool {
    &&& -COORD_LIMIT - 64 <= p.x <= COORD_LIMIT + 64
    &&& -COORD_LIMIT - 64 <= p.y <= COORD_LIMIT + 64
}

/// The sentinel position heisters are moved to once they escape.
pub fn escaped_position() -> (r: MapPosition)
    ensures
        r == spec_escaped_position(),
{
    MapPosition { x: 500, y: 500 }
}

pub open spec fn spec_escaped_position() -> MapPosition {
    MapPosition { x: 500, y: 500 }
}

pub open spec fn spec_adjacent(a: MapPosition, b: MapPosition) -> bool {
    ||| (a.x == b.x && (a.y - b.y == 1 || b.y - a.y == 1))
    ||| (a.y == b.y && (a.x - b.x == 1 || b.x - a.x == 1))
}

/// The direction from `a` to cardinal neighbor `b`: None if `a == b` or the
/// positions do not share a row or column.
pub open spec fn spec_move_direction(a: MapPosition, b: MapPosition) -> Option<MoveDirection> {
    if a.x == b.x {
        if a.y == b.y {
            None
        } else if a.y > b.y {
            Some(MoveDirection::North)
        } else {
            Some(MoveDirection::South)
        }
    } else {
        if a.y != b.y {
            None
        } else if a.x > b.x {
            Some(MoveDirection::West)
        } else {
            Some(MoveDirection::East)
        }
    }
}

/// One step from `p` in direction `dir`.
pub open spec fn spec_move_in_direction(p: MapPosition, dir: MoveDirection) -> MapPosition {
    match dir {
        MoveDirection::North => MapPosition { x: p.x, y: (p.y - 1) as i32 },
        MoveDirection::East => MapPosition { x: (p.x + 1) as i32, y: p.y },
        MoveDirection::South => MapPosition { x: p.x, y: (p.y + 1) as i32 },
        MoveDirection::West => MapPosition { x: (p.x - 1) as i32, y: p.y },
    }
}

impl MapPosition {
    pub fn is_adjacent(&self, pos: &MapPosition) -> (r: bool)
        ensures
            r == spec_adjacent(*self, *pos),
    {
        let dx: i64 = self.x as i64 - pos.x as i64;
        let dy: i64 = self.y as i64 - pos.y as i64;
        if self.x == pos.x {
            dy == 1 || dy == -1
        } else if self.y == pos.y {
            dx == 1 || dx == -1
        } else {
            false
        }
    }

    /// Returns None when the positions are equal or not on one row or column.
    pub fn get_move_direction(&self, pos: &MapPosition) -> (r: Option<MoveDirection>)
        ensures
            r == spec_move_direction(*self, *pos),
    {
        if self.x == pos.x {
            if self.y == pos.y {
                None
            } else if self.y > pos.y {
                Some(MoveDirection::North)
            } else {
                Some(MoveDirection::South)
            }
        } else {
            if self.y != pos.y {
                None
            } else if self.x > pos.x {
                Some(MoveDirection::West)
            } else {
                Some(MoveDirection::East)
            }
        }
    }

    /// The direction of a one-square move between two adjacent positions.
    pub fn adjacent_move_direction(&self, pos: &MapPosition) -> (r: MoveDirection)
        requires
            spec_adjacent(*self, *pos),
        ensures
            Some(r) == spec_move_direction(*self, *pos),
    {
        if self.x == pos.x {
            if self.y > pos.y {
                MoveDirection::North
            } else {
                MoveDirection::South
            }
        } else {
            if self.x > pos.x {
                MoveDirection::West
            } else {
                MoveDirection::East
            }
        }
    }

    /// The position one square away in the given direction.
    pub fn move_in_direction(&self, direction: &MoveDirection) -> (r: MapPosition)
        requires
            i32::MIN < self.x < i32::MAX,
            i32::MIN < self.y < i32::MAX,
        ensures
            r == spec_move_in_direction(*self, *direction),
    {
        match direction {
            MoveDirection::North => MapPosition { x: self.x, y: self.y - 1 },
            MoveDirection::East => MapPosition { x: self.x + 1, y: self.y },
            MoveDirection::South => MapPosition { x: self.x, y: self.y + 1 },
            MoveDirection::West => MapPosition { x: self.x - 1, y: self.y },
        }
    }

    /// Where a tile entrance square one step beyond this tile's door in
    /// direction `dir` sits in absolute coordinates, for a tile placed here.
    pub(crate) fn entrance_position(&self, dir: &MoveDirection) -> (r: MapPosition)
        requires
            pos_workable(*self),
        ensures
            r == spec_entrance_position(*self, *dir),
    {
        match dir {
            MoveDirection::North => MapPosition { x: self.x + 2, y: self.y - 1 },
            MoveDirection::East => MapPosition { x: self.x + 4, y: self.y + 2 },
            MoveDirection::South => MapPosition { x: self.x + 1, y: self.y + 4 },
            MoveDirection::West => MapPosition { x: self.x - 1, y: self.y + 1 },
        }
    }

    /// From a tile exit square, the top-left position of the tile that a
    /// heister standing there is on.
    pub fn current_tile_position(&self, dir: &MoveDirection) -> (r: MapPosition)
        requires
            pos_workable(*self),
        ensures
            r == spec_current_tile_position(*self, *dir),
    {
        match dir {
            MoveDirection::North => MapPosition { x: self.x - 2, y: self.y },
            MoveDirection::West => MapPosition { x: self.x, y: self.y - 1 },
            MoveDirection::South => MapPosition { x: self.x - 1, y: self.y - 3 },
            MoveDirection::East => MapPosition { x: self.x - 3, y: self.y - 2 },
        }
    }

    /// From a tile entrance position and the entry direction, the top-left
    /// position at which the newly drawn tile is placed.
    pub fn new_tile_position(&self, dir: &MoveDirection) -> (r: MapPosition)
        requires
            pos_workable(*self),
        ensures
            r == spec_new_tile_position(*self, *dir),
    {
        match dir {
            MoveDirection::North => MapPosition { x: self.x - 1, y: self.y - 3 },
            MoveDirection::East => MapPosition { x: self.x, y: self.y - 1 },
            MoveDirection::South => MapPosition { x: self.x - 2, y: self.y },
            MoveDirection::West => MapPosition { x: self.x - 3, y: self.y - 2 },
        }
    }
}

pub open spec fn spec_entrance_position(p: MapPosition, dir: MoveDirection) -> MapPosition
    recommends
        pos_workable(p),
{
    match dir {
        MoveDirection::North => MapPosition { x: (p.x + 2) as i32, y: (p.y - 1) as i32 },
        MoveDirection::East => MapPosition { x: (p.x + 4) as i32, y: (p.y + 2) as i32 },
        MoveDirection::South => MapPosition { x: (p.x + 1) as i32, y: (p.y + 4) as i32 },
        MoveDirection::West => MapPosition { x: (p.x - 1) as i32, y: (p.y + 1) as i32 },
    }
}

pub open spec fn spec_current_tile_position(p: MapPosition, dir: MoveDirection) -> MapPosition
    recommends
        pos_workable(p),
{
    match dir {
        MoveDirection::North => MapPosition { x: (p.x - 2) as i32, y: p.y },
        MoveDirection::West => MapPosition { x: p.x, y: (p.y - 1) as i32 },
        MoveDirection::South => MapPosition { x: (p.x - 1) as i32, y: (p.y - 3) as i32 },
        MoveDirection::East => MapPosition { x: (p.x - 3) as i32, y: (p.y - 2) as i32 },
    }
}

pub open spec fn spec_new_tile_position(p: MapPosition, dir: MoveDirection) -> MapPosition
    recommends
        pos_workable(p),
{
    match dir {
        MoveDirection::North => MapPosition { x: (p.x - 1) as i32, y: (p.y - 3) as i32 },
        MoveDirection::East => MapPosition { x: p.x, y: (p.y - 1) as i32 },
        MoveDirection::South => MapPosition { x: (p.x - 2) as i32, y: p.y },
        MoveDirection::West => MapPosition { x: (p.x - 3) as i32, y: (p.y - 2) as i32 },
    }
}

impl MoveDirection {
    pub fn opposite(&self) -> (r: MoveDirection)
        ensures
            r == spec_opposite(*self),
    {
        match self {
            MoveDirection::North => MoveDirection::South,
            MoveDirection::East => MoveDirection::West,
            MoveDirection::South => MoveDirection::North,
            MoveDirection::West => MoveDirection::East,
        }
    }
}

pub open spec fn spec_opposite(dir: MoveDirection) -> MoveDirection {
    match dir {
        MoveDirection::North => MoveDirection::South,
        MoveDirection::East => MoveDirection::West,
        MoveDirection::South => MoveDirection::North,
        MoveDirection::West => MoveDirection::East,
    }
}

#[derive(Copy, Clone, Debug, PartialEq, Eq, Structural)]
pub struct Square {
    pub north_wall: WallType,
    pub east_wall: WallType,
    pub south_wall: WallType,
    pub west_wall: WallType,
    pub square_type: SquareType,
}

impl Default for Square {
    /// A square with four clear walls and the normal type.
    fn default() -> (r: Self)
        ensures
            r == spec_default_square(),
    {
        Square {
            north_wall: WallType::Clear,
            east_wall: WallType::Clear,
            south_wall: WallType::Clear,
            west_wall: WallType::Clear,
            square_type: SquareType::Normal,
        }
    }
}

pub open spec fn spec_default_square() -> Square {
    Square {
        north_wall: WallType::Clear,
        east_wall: WallType::Clear,
        south_wall: WallType::Clear,
        west_wall: WallType::Clear,
        square_type: SquareType::Normal,
    }
}

pub open spec fn wall_in_dir(sq: Square, dir: MoveDirection) -> WallType {
    match dir {
        MoveDirection::North => sq.north_wall,
        MoveDirection::East => sq.east_wall,
        MoveDirection::South => sq.south_wall,
        MoveDirection::West => sq.west_wall,
    }
}

pub open spec fn spec_square_color(sq: Square) -> Option<HeisterColor> {
    match sq.square_type {
        SquareType::PurpleTeleportPad => Some(HeisterColor::Purple),
        SquareType::OrangeTeleportPad => Some(HeisterColor::Orange),
        SquareType::GreenTeleportPad => Some(HeisterColor::Green),
        SquareType::YellowTeleportPad => Some(HeisterColor::Yellow),
        SquareType::PurpleItem => Some(HeisterColor::Purple),
        SquareType::OrangeItem => Some(HeisterColor::Orange),
        SquareType::GreenItem => Some(HeisterColor::Green),
        SquareType::YellowItem => Some(HeisterColor::Yellow),
        SquareType::PurpleEscape => Some(HeisterColor::Purple),
        SquareType::OrangeEscape => Some(HeisterColor::Orange),
        SquareType::GreenEscape => Some(HeisterColor::Green),
        SquareType::YellowEscape => Some(HeisterColor::Yellow),
        _ => None,
    }
}

pub open spec fn spec_is_item(sq: Square) -> bool {
    match sq.square_type {
        SquareType::PurpleItem | SquareType::YellowItem | SquareType::OrangeItem
            | SquareType::GreenItem => true,
        _ => false,
    }
}

pub open spec fn spec_is_teleport(sq: Square) -> bool {
    match sq.square_type {
        SquareType::PurpleTeleportPad | SquareType::YellowTeleportPad
            | SquareType::OrangeTeleportPad | SquareType::GreenTeleportPad => true,
        _ => false,
    }
}

pub open spec fn spec_is_escape(sq: Square) -> bool {
    match sq.square_type {
        SquareType::PurpleEscape | SquareType::YellowEscape | SquareType::OrangeEscape
            | SquareType::GreenEscape => true,
        _ => false,
    }
}

pub open spec fn spec_teleport_matches_color(sq: Square, color: HeisterColor) -> bool {
    spec_is_teleport(sq) && spec_square_color(sq) == Some(color)
}

pub open spec fn spec_rotate_clockwise(sq: Square) -> Square {
    Square {
        north_wall: sq.west_wall,
        east_wall: sq.north_wall,
        south_wall: sq.east_wall,
        west_wall: sq.south_wall,
        square_type: sq.square_type,
    }
}

pub open spec fn square_has_door(sq: Square) -> bool {
    ||| is_door(sq.north_wall)
    ||| is_door(sq.east_wall)
    ||| is_door(sq.south_wall)
    ||| is_door(sq.west_wall)
}

/// The direction of the square's door, searching north, east, south, west.
pub open spec fn spec_door_direction(sq: Square) -> Option<MoveDirection> {
    if is_door(sq.north_wall) {
        Some(MoveDirection::North)
    } else if is_door(sq.east_wall) {
        Some(MoveDirection::East)
    } else if is_door(sq.south_wall) {
        Some(MoveDirection::South)
    } else if is_door(sq.west_wall) {
        Some(MoveDirection::West)
    } else {
        None
    }
}

pub open spec fn spec_door_wall(sq: Square) -> Option<WallType> {
    match spec_door_direction(sq) {
        Some(dir) => Some(wall_in_dir(sq, dir)),
        None => None,
    }
}

/// `sq` with the wall towards `dir` replaced by `w`.
pub open spec fn with_wall(sq: Square, dir: MoveDirection, w: WallType) -> Square {
    match dir {
        MoveDirection::North => Square { north_wall: w, ..sq },
        MoveDirection::East => Square { east_wall: w, ..sq },
        MoveDirection::South => Square { south_wall: w, ..sq },
        MoveDirection::West => Square { west_wall: w, ..sq },
    }
}

pub open spec fn spec_open_door(sq: Square, dir: MoveDirection) -> Square {
    if is_door(wall_in_dir(sq, dir)) {
        with_wall(sq, dir, WallType::Clear)
    } else {
        sq
    }
}

pub open spec fn spec_close_door(sq: Square, dir: MoveDirection) -> Square {
    with_wall(sq, dir, WallType::Impassable)
}

impl Square {
    /// The color the square's special type refers to, if any.
    pub fn color(&self) -> (r: Option<HeisterColor>)
        ensures
            r == spec_square_color(*self),
    {
        match self.square_type {
            SquareType::PurpleTeleportPad => Some(HeisterColor::Purple),
            SquareType::OrangeTeleportPad => Some(HeisterColor::Orange),
            SquareType::GreenTeleportPad => Some(HeisterColor::Green),
            SquareType::YellowTeleportPad => Some(HeisterColor::Yellow),
            SquareType::PurpleItem => Some(HeisterColor::Purple),
            SquareType::OrangeItem => Some(HeisterColor::Orange),
            SquareType::GreenItem => Some(HeisterColor::Green),
            SquareType::YellowItem => Some(HeisterColor::Yellow),
            SquareType::PurpleEscape => Some(HeisterColor::Purple),
            SquareType::OrangeEscape => Some(HeisterColor::Orange),
            SquareType::GreenEscape => Some(HeisterColor::Green),
            SquareType::YellowEscape => Some(HeisterColor::Yellow),
            _ => None,
        }
    }

    pub fn is_item(&self) -> (r: bool)
        ensures
            r == spec_is_item(*self),
    {
        match self.square_type {
            SquareType::PurpleItem | SquareType::YellowItem | SquareType::OrangeItem
                | SquareType::GreenItem => true,
            _ => false,
        }
    }

    pub fn is_teleport(&self) -> (r: bool)
        ensures
            r == spec_is_teleport(*self),
    {
        match self.square_type {
            SquareType::PurpleTeleportPad | SquareType::YellowTeleportPad
                | SquareType::OrangeTeleportPad | SquareType::GreenTeleportPad => true,
            _ => false,
        }
    }

    pub fn is_escape(&self) -> (r: bool)
        ensures
            r == spec_is_escape(*self),
    {
        match self.square_type {
            SquareType::PurpleEscape | SquareType::YellowEscape | SquareType::OrangeEscape
                | SquareType::GreenEscape => true,
            _ => false,
        }
    }

    /// Whether this square is the teleport pad of the given color.
    pub fn teleport_matches_heister(&self, color: HeisterColor) -> (r: bool)
        ensures
            r == spec_teleport_matches_color(*self, color),
    {
        let square_type = self.square_type;
        match color {
            HeisterColor::Purple => square_type == SquareType::PurpleTeleportPad,
            HeisterColor::Yellow => square_type == SquareType::YellowTeleportPad,
            HeisterColor::Orange => square_type == SquareType::OrangeTeleportPad,
            HeisterColor::Green => square_type == SquareType::GreenTeleportPad,
        }
    }

    /// Whether this square is a teleport pad matching the given color; false
    /// for every square that is not a teleport pad.
    pub fn teleport_matches_color(&self, color: HeisterColor) -> (r: bool)
        ensures
            r == spec_teleport_matches_color(*self, color),
    {
        match self.square_type {
            SquareType::PurpleTeleportPad => color == HeisterColor::Purple,
            SquareType::OrangeTeleportPad => color == HeisterColor::Orange,
            SquareType::GreenTeleportPad => color == HeisterColor::Green,
            SquareType::YellowTeleportPad => color == HeisterColor::Yellow,
            _ => false,
        }
    }

    /// The square a quarter clockwise turn produces: each wall moves one
    /// direction clockwise.
    pub fn rotate_clockwise(&self) -> (r: Square)
        ensures
            r == spec_rotate_clockwise(*self),
    {
        Square {
            north_wall: self.west_wall,
            east_wall: self.north_wall,
            south_wall: self.east_wall,
            west_wall: self.south_wall,
            square_type: self.square_type,
        }
    }

    /// The four walls, keyed by direction, in north, east, south, west order.
    pub fn get_walls(&self) -> (r: Vec<(MoveDirection, WallType)>)
        ensures
            r@.len() == 4,
            r@[0] == (MoveDirection::North, self.north_wall),
            r@[1] == (MoveDirection::East, self.east_wall),
            r@[2] == (MoveDirection::South, self.south_wall),
            r@[3] == (MoveDirection::West, self.west_wall),
    {
        let mut walls: Vec<(MoveDirection, WallType)> = Vec::new();
        walls.push((MoveDirection::North, self.north_wall));
        walls.push((MoveDirection::East, self.east_wall));
        walls.push((MoveDirection::South, self.south_wall));
        walls.push((MoveDirection::West, self.west_wall));
        walls
    }

    pub fn has_door(&self) -> (r: bool)
        ensures
            r == square_has_door(*self),
    {
        is_door_wall(self.north_wall) || is_door_wall(self.east_wall)
            || is_door_wall(self.south_wall) || is_door_wall(self.west_wall)
    }

    /// The square's exit door wall, if it has one, searching north, east,
    /// south, west.
    pub fn get_door_wall(&self) -> (r: Option<WallType>)
        ensures
            r == spec_door_wall(*self),
    {
        match self.get_door_direction() {
            Some(dir) => match dir {
                MoveDirection::North => Some(self.north_wall),
                MoveDirection::East => Some(self.east_wall),
                MoveDirection::South => Some(self.south_wall),
                MoveDirection::West => Some(self.west_wall),
            },
            None => None,
        }
    }

    /// The direction of the square's exit door, if it has one.
    pub fn get_door_direction(self) -> (r: Option<MoveDirection>)
        ensures
            r == spec_door_direction(self),
    {
        if is_door_wall(self.north_wall) {
            Some(MoveDirection::North)
        } else if is_door_wall(self.east_wall) {
            Some(MoveDirection::East)
        } else if is_door_wall(self.south_wall) {
            Some(MoveDirection::South)
        } else if is_door_wall(self.west_wall) {
            Some(MoveDirection::West)
        } else {
            None
        }
    }

    /// Replaces the wall towards `dir` by a clear wall, if it is a door.
    pub fn open_door(&mut self, dir: MoveDirection)
        ensures
            *final(self) == spec_open_door(*old(self), dir),
    {
        match dir {
            MoveDirection::North => {
                if is_door_wall(self.north_wall) {
                    self.north_wall = WallType::Clear;
                }
            }
            MoveDirection::East => {
                if is_door_wall(self.east_wall) {
                    self.east_wall = WallType::Clear;
                }
            }
            MoveDirection::South => {
                if is_door_wall(self.south_wall) {
                    self.south_wall = WallType::Clear;
                }
            }
            MoveDirection::West => {
                if is_door_wall(self.west_wall) {
                    self.west_wall = WallType::Clear;
                }
            }
        }
    }

    /// Replaces the wall towards `dir` by an impassable wall; a door closed
    /// this way cannot be reopened by `open_door`.
    pub fn close_door(&mut self, dir: MoveDirection)
        ensures
            *final(self) == spec_close_door(*old(self), dir),
    {
        match dir {
            MoveDirection::North => {
                self.north_wall = WallType::Impassable;
            }
            MoveDirection::East => {
                self.east_wall = WallType::Impassable;
            }
            MoveDirection::South => {
                self.south_wall = WallType::Impassable;
            }
            MoveDirection::West => {
                self.west_wall = WallType::Impassable;
            }
        }
    }
}

/// Whether the wall is a door of any color.
pub fn is_door_wall(wall: WallType) -> (r: bool)
    ensures
        r == is_door(wall),
{
    match wall {
        WallType::PurpleDoor | WallType::OrangeDoor | WallType::GreenDoor
            | WallType::YellowDoor => true,
        _ => false,
    }
}

/// A fixed 4 x 4 block of squares: row-major order, the square at row `r`
/// and column `c` stands at index `4 * r + c`.
#[derive(Debug)]
pub struct Tile {
    pub squares: Vec<Square>,
    pub position: MapPosition,
    pub name: String,
    pub num_rotations: u32,
}

/// Value equality of tiles, with the name compared as a character sequence.
pub open spec fn tile_eqv(a: Tile, b: Tile) -> bool {
    &&& a.squares@ == b.squares@
    &&& a.position == b.position
    &&& a.name@ == b.name@
    &&& a.num_rotations == b.num_rotations
}

pub open spec fn tile_wf(t: Tile) -> bool {
    t.squares@.len() == 16 && pos_interior(t.position)
}

/// The absolute position of the square at linear index `i` of tile `t`.
pub open spec fn spec_square_idx_pos(t: Tile, i: int) -> MapPosition
    recommends
        0 <= i < 16,
        pos_interior(t.position),
{
    MapPosition { x: (t.position.x + i % 4) as i32, y: (t.position.y + i / 4) as i32 }
}

pub open spec fn tile_contains(t: Tile, p: MapPosition) -> bool {
    &&& t.position.x <= p.x < t.position.x + 4
    &&& t.position.y <= p.y < t.position.y + 4
}

pub open spec fn tile_index_of(t: Tile, p: MapPosition) -> int
    recommends
        tile_contains(t, p),
{
    (p.y - t.position.y) * 4 + (p.x - t.position.x)
}

pub open spec fn tile_square_at(t: Tile, p: MapPosition) -> Square
    recommends
        tile_contains(t, p),
        t.squares@.len() == 16,
{
    t.squares@[tile_index_of(t, p)]
}

/// The linear index of the border square holding the tile's authored door
/// towards each direction.
pub open spec fn door_square_index(dir: MoveDirection) -> int {
    match dir {
        MoveDirection::North => 2,
        MoveDirection::East => 11,
        MoveDirection::South => 13,
        MoveDirection::West => 4,
    }
}

fn door_square_idx(dir: MoveDirection) -> (r: usize)
    ensures
        r as int == door_square_index(dir),
{
    match dir {
        MoveDirection::North => 2,
        MoveDirection::East => 11,
        MoveDirection::South => 13,
        MoveDirection::West => 4,
    }
}

/// A 4 x 4 matrix of squares, as a vector of four rows of four.
pub open spec fn is_matrix4(m: Vec<Vec<Square>>) -> bool {
    m@.len() == 4 && forall|r: int| 0 <= r < 4 ==> (#[trigger] m@[r])@.len() == 4
}

pub open spec fn mat(m: Vec<Vec<Square>>, r: int, c: int) -> Square
    recommends
        is_matrix4(m),
        0 <= r < 4,
        0 <= c < 4,
{
    m@[r]@[c]
}

/// The teleport pads of tile `t` among its first `n` squares, each as its
/// color with the square's absolute position.
pub open spec fn spec_teleporters_prefix(t: Tile, n: int) -> Seq<(HeisterColor, MapPosition)>
    recommends
        0 <= n <= 16,
        t.squares@.len() == 16,
    decreases n,
{
    if n <= 0 {
        Seq::empty()
    } else if spec_is_teleport(t.squares@[n - 1]) && spec_square_color(t.squares@[n - 1]) is Some {
        spec_teleporters_prefix(t, n - 1).push(
            (spec_square_color(t.squares@[n - 1]).unwrap(), spec_square_idx_pos(t, n - 1)),
        )
    } else {
        spec_teleporters_prefix(t, n - 1)
    }
}

/// The index of the first timer-flip square of the tile, or 16 if none.
pub open spec fn first_timer_flip(sqs: Seq<Square>, n: int) -> int
    decreases 16 - n,
{
    if n < 0 || n >= 16 {
        16
    } else if sqs[n].square_type == SquareType::TimerFlip {
        n
    } else {
        first_timer_flip(sqs, n + 1)
    }
}

/// The position of the first escalator square of tile `t` at or after index
/// `n` whose position differs from `from`, if any.
pub open spec fn spec_escalator_dest(t: Tile, from: MapPosition, n: int) -> Option<MapPosition>
    recommends
        t.squares@.len() == 16,
    decreases 16 - n,
{
    if n < 0 || n >= 16 {
        None
    } else if t.squares@[n].square_type == SquareType::Escalator
        && spec_square_idx_pos(t, n) != from {
        Some(spec_square_idx_pos(t, n))
    } else {
        spec_escalator_dest(t, from, n + 1)
    }
}

impl Tile {
    /// The absolute position of the square at linear index `i`.
    fn square_idx_to_map_pos(&self, i: usize) -> (r: MapPosition)
        requires
            i < 16,
            pos_interior(self.position),
        ensures
            r == spec_square_idx_pos(*self, i as int),
    {
        let sq_x = (i % 4) as i32;
        let sq_y = (i / 4) as i32;
        MapPosition { x: self.position.x + sq_x, y: self.position.y + sq_y }
    }

    /// The tile's squares as a 4 x 4 matrix of rows.
    pub fn to_matrix(&self) -> (m: Vec<Vec<Square>>)
        requires
            self.squares@.len() == 16,
        ensures
            is_matrix4(m),
            forall|r: int, c: int|
                0 <= r < 4 && 0 <= c < 4 ==> #[trigger] mat(m, r, c) == self.squares@[4 * r + c],
    {
        let mut m: Vec<Vec<Square>> = Vec::new();
        for row in 0..4usize
            invariant
                self.squares@.len() == 16,
                m@.len() == row,
                forall|r: int| 0 <= r < row ==> (#[trigger] m@[r])@.len() == 4,
                forall|r: int, c: int| #![trigger m@[r]@[c]]
                    0 <= r < row && 0 <= c < 4 ==> m@[r]@[c] == self.squares@[4 * r + c],
        {
            let mut row_v: Vec<Square> = Vec::new();
            for col in 0..4usize
                invariant
                    self.squares@.len() == 16,
                    row < 4,
                    row_v@.len() == col,
                    forall|c: int| 0 <= c < col ==> row_v@[c] == self.squares@[4 * row + c],
            {
                row_v.push(self.squares[4 * row + col]);
            }
            m.push(row_v);
        }
        m
    }

    /// A tile assembled from a 4 x 4 matrix of rows.
    pub fn from_matrix(
        m: Vec<Vec<Square>>,
        name: String,
        position: MapPosition,
        num_rotations: u32,
    ) -> (t: Tile)
        requires
            is_matrix4(m),
        ensures
            t.squares@.len() == 16,
            forall|i: int| 0 <= i < 16 ==> t.squares@[i] == mat(m, i / 4, i % 4),
            t.position == position,
            t.name@ == name@,
            t.num_rotations == num_rotations,
    {
        let mut squares: Vec<Square> = Vec::new();
        for row in 0..4usize
            invariant
                is_matrix4(m),
                squares@.len() == 4 * row,
                forall|i: int| 0 <= i < 4 * row ==> squares@[i] == mat(m, i / 4, i % 4),
        {
            for col in 0..4usize
                invariant
                    is_matrix4(m),
                    row < 4,
                    squares@.len() == 4 * row + col,
                    forall|i: int| 0 <= i < 4 * row + col ==> squares@[i] == mat(m, i / 4, i % 4),
            {
                squares.push(m[row][col]);
            }
        }
        Tile { position, squares, name, num_rotations }
    }

    /// One quarter clockwise turn of a 4 x 4 matrix: the square that was at
    /// row `3 - c`, column `r` moves to row `r`, column `c`, itself rotated.
    pub fn rotate_matrix_clockwise(m: &Vec<Vec<Square>>) -> (r: Vec<Vec<Square>>)
        requires
            is_matrix4(*m),
        ensures
            is_matrix4(r),
            forall|i: int, j: int|
                0 <= i < 4 && 0 <= j < 4 ==> #[trigger] mat(r, i, j) == spec_rotate_clockwise(
                    mat(*m, 3 - j, i),
                ),
    {
        let mut rotated: Vec<Vec<Square>> = Vec::new();
        for i in 0..4usize
            invariant
                is_matrix4(*m),
                rotated@.len() == i,
                forall|r: int| 0 <= r < i ==> (#[trigger] rotated@[r])@.len() == 4,
                forall|r: int, c: int| #![trigger rotated@[r]@[c]]
                    0 <= r < i && 0 <= c < 4 ==> rotated@[r]@[c] == spec_rotate_clockwise(
                        mat(*m, 3 - c, r),
                    ),
        {
            let mut row_v: Vec<Square> = Vec::new();
            for j in 0..4usize
                invariant
                    is_matrix4(*m),
                    i < 4,
                    row_v@.len() == j,
                    forall|c: int| 0 <= c < j ==> row_v@[c] == spec_rotate_clockwise(
                        mat(*m, 3 - c, i as int),
                    ),
            {
                row_v.push(m[3 - j][i].rotate_clockwise());
            }
            rotated.push(row_v);
        }
        rotated
    }

    /// The four authored door squares, keyed by direction, in north, east,
    /// south, west order.
    pub fn get_entrance_squares(&self) -> (r: Vec<(MoveDirection, Square)>)
        requires
            self.squares@.len() == 16,
        ensures
            r@.len() == 4,
            forall|k: int| 0 <= k < 4 ==> (#[trigger] r@[k]).1 == self.squares@[door_square_index(
                r@[k].0,
            )],
            r@[0].0 == MoveDirection::North,
            r@[1].0 == MoveDirection::East,
            r@[2].0 == MoveDirection::South,
            r@[3].0 == MoveDirection::West,
    {
        let mut v: Vec<(MoveDirection, Square)> = Vec::new();
        v.push((MoveDirection::North, self.squares[2]));
        v.push((MoveDirection::East, self.squares[11]));
        v.push((MoveDirection::South, self.squares[13]));
        v.push((MoveDirection::West, self.squares[4]));
        v
    }

    pub fn has_door_in_dir(&self, dir: MoveDirection) -> (r: bool)
        requires
            self.squares@.len() == 16,
        ensures
            r == square_has_door(self.squares@[door_square_index(dir)]),
    {
        let square_index = door_square_idx(dir);
        self.squares[square_index].has_door()
    }

    /// Opens the authored door towards `dir`, if that border square still has
    /// a door there.
    pub fn open_door_in_dir(&mut self, dir: MoveDirection)
        requires
            old(self).squares@.len() == 16,
        ensures
            final(self).squares@ == old(self).squares@.update(
                door_square_index(dir),
                spec_open_door(old(self).squares@[door_square_index(dir)], dir),
            ),
            final(self).position == old(self).position,
            final(self).name@ == old(self).name@,
            final(self).num_rotations == old(self).num_rotations,
    {
        let square_index = door_square_idx(dir);
        let mut square = self.squares[square_index];
        square.open_door(dir);
        self.squares.set(square_index, square);
    }

    /// Closes the authored door slot towards `dir` with an impassable wall.
    pub fn close_door_in_dir(&mut self, dir: MoveDirection)
        requires
            old(self).squares@.len() == 16,
        ensures
            final(self).squares@ == old(self).squares@.update(
                door_square_index(dir),
                spec_close_door(old(self).squares@[door_square_index(dir)], dir),
            ),
            final(self).position == old(self).position,
            final(self).name@ == old(self).name@,
            final(self).num_rotations == old(self).num_rotations,
    {
        let square_index = door_square_idx(dir);
        let mut square = self.squares[square_index];
        square.close_door(dir);
        self.squares.set(square_index, square);
    }

    /// The candidate entrance positions one square beyond each of the tile's
    /// four door slots; none of them lies within this tile.
    pub fn adjacent_entrances(&self) -> (r: Vec<(MoveDirection, MapPosition)>)
        requires
            pos_workable(self.position),
        ensures
            r@.len() == 4,
            forall|k: int| 0 <= k < 4 ==> (#[trigger] r@[k]).1 == spec_entrance_position(
                self.position,
                r@[k].0,
            ),
            r@[0].0 == MoveDirection::North,
            r@[1].0 == MoveDirection::East,
            r@[2].0 == MoveDirection::South,
            r@[3].0 == MoveDirection::West,
    {
        let mut v: Vec<(MoveDirection, MapPosition)> = Vec::new();
        v.push((MoveDirection::North, self.position.entrance_position(&MoveDirection::North)));
        v.push((MoveDirection::East, self.position.entrance_position(&MoveDirection::East)));
        v.push((MoveDirection::South, self.position.entrance_position(&MoveDirection::South)));
        v.push((MoveDirection::West, self.position.entrance_position(&MoveDirection::West)));
        v
    }

    /// The other end of the tile's escalator: the first escalator square at a
    /// position different from `pos`.
    pub fn get_escalator_dest(&self, pos: &MapPosition) -> (r: Option<MapPosition>)
        requires
            self.squares@.len() == 16,
            pos_interior(self.position),
        ensures
            r == spec_escalator_dest(*self, *pos, 0),
    {
        let mut i: usize = 0;
        while i < 16
            invariant
                self.squares@.len() == 16,
                pos_interior(self.position),
                i <= 16,
                spec_escalator_dest(*self, *pos, 0) == spec_escalator_dest(*self, *pos, i as int),
            decreases 16 - i,
        {
            if self.squares[i].square_type == SquareType::Escalator {
                let sq_pos = self.square_idx_to_map_pos(i);
                if sq_pos.x != pos.x || sq_pos.y != pos.y {
                    return Some(sq_pos);
                }
            }
            i = i + 1;
        }
        None
    }

    /// Every teleport pad of the tile, as its color with its absolute
    /// position, in square order.
    pub fn get_teleporters(&self) -> (r: Vec<(HeisterColor, MapPosition)>)
        requires
            self.squares@.len() == 16,
            pos_interior(self.position),
        ensures
            r@ == spec_teleporters_prefix(*self, 16),
    {
        let mut v: Vec<(HeisterColor, MapPosition)> = Vec::new();
        let mut i: usize = 0;
        while i < 16
            invariant
                self.squares@.len() == 16,
                pos_interior(self.position),
                i <= 16,
                v@ == spec_teleporters_prefix(*self, i as int),
            decreases 16 - i,
        {
            let square = self.squares[i];
            if square.is_teleport() {
                match square.color() {
                    Some(color) => {
                        v.push((color, self.square_idx_to_map_pos(i)));
                    }
                    None => {}
                }
            }
            i = i + 1;
        }
        v
    }

    /// Marks the tile's timer-flip square as used; at most the first such
    /// square changes, and only its type.
    pub fn flip_timer(&mut self)
        requires
            old(self).squares@.len() == 16,
        ensures
            final(self).position == old(self).position,
            final(self).name@ == old(self).name@,
            final(self).num_rotations == old(self).num_rotations,
            final(self).squares@.len() == old(self).squares@.len(),
            ({
                let idx = first_timer_flip(old(self).squares@, 0);
                if idx < 16 {
                    final(self).squares@ == old(self).squares@.update(
                        idx,
                        Square {
                            square_type: SquareType::TimerFlipUsed,
                            ..old(self).squares@[idx]
                        },
                    )
                } else {
                    final(self).squares@ == old(self).squares@
                }
            }),
    {
        let mut i: usize = 0;
        while i < 16
            invariant
                self.squares@.len() == 16,
                *self == *old(self),
                i <= 16,
                first_timer_flip(old(self).squares@, 0) == first_timer_flip(
                    old(self).squares@,
                    i as int,
                ),
            decreases 16 - i,
        {
            if self.squares[i].square_type == SquareType::TimerFlip {
                let mut flipped_square = self.squares[i];
                flipped_square.square_type = SquareType::TimerFlipUsed;
                self.squares.set(i, flipped_square);
                return ;
            }
            i = i + 1;
        }
    }
}

/// One of the two sides of the authored starting tile.
pub enum StartingTile {
    A(Tile),
    B(Tile),
}

#[derive(Copy, Clone, Debug, PartialEq, Eq, Structural)]
pub struct Heister {
    pub heister_color: HeisterColor,
    pub map_position: MapPosition,
    pub has_taken_item: bool,
    pub has_escaped: bool,
}

/// The canonical start position of each color on side A of the starting
/// tile; side B is not authored yet and places everyone at the origin.
pub open spec fn spec_initial_position(color: HeisterColor, side_a: bool) -> MapPosition {
    if side_a {
        match color {
            HeisterColor::Yellow => MapPosition { x: 1, y: 2 },
            HeisterColor::Purple => MapPosition { x: 1, y: 1 },
            HeisterColor::Green => MapPosition { x: 2, y: 2 },
            HeisterColor::Orange => MapPosition { x: 2, y: 1 },
        }
    } else {
        MapPosition { x: 0, y: 0 }
    }
}

impl Heister {
    /// A fresh heister of the given color at its canonical offset on the
    /// starting tile, holding no item and not escaped.
    pub fn get_initial(heister_color: HeisterColor, starting_tile: &StartingTile) -> (r: Self)
        ensures
            r.heister_color == heister_color,
            r.map_position == spec_initial_position(
                heister_color,
                starting_tile is A,
            ),
            !r.has_taken_item,
            !r.has_escaped,
    {
        let map_position = match starting_tile {
            StartingTile::A(_) => match heister_color {
                HeisterColor::Yellow => MapPosition { x: 1, y: 2 },
                HeisterColor::Purple => MapPosition { x: 1, y: 1 },
                HeisterColor::Green => MapPosition { x: 2, y: 2 },
                HeisterColor::Orange => MapPosition { x: 2, y: 1 },
            },
            StartingTile::B(_) => MapPosition { x: 0, y: 0 },
        };
        Heister { heister_color, map_position, has_taken_item: false, has_escaped: false }
    }
}

impl Default for Heister {
    /// A yellow heister at the origin with both flags cleared.
    fn default() -> (r: Self)
        ensures
            r.heister_color == HeisterColor::Yellow,
            r.map_position == (MapPosition { x: 0, y: 0 }),
            !r.has_taken_item,
            !r.has_escaped,
    {
        Heister {
            heister_color: HeisterColor::Yellow,
            map_position: MapPosition { x: 0, y: 0 },
            has_taken_item: false,
            has_escaped: false,
        }
    }
}

#[derive(Debug)]
pub struct Player {
    pub name: String,
    pub abilities: Vec<Ability>,
}

pub open spec fn player_eqv(a: Player, b: Player) -> bool {
    a.name@ == b.name@ && a.abilities@ == b.abilities@
}

impl Clone for Player {
    /// A clone has the same name characters and the same abilities.
    fn clone(&self) -> (r: Self)
        ensures
            player_eqv(r, *self),
    {
        let abilities: Vec<Ability> = self.abilities.clone();
        proof {
            assert(abilities@ =~= self.abilities@) by {
                assert forall|i: int| 0 <= i < self.abilities@.len() implies abilities@[i]
                    == self.abilities@[i] by {
                    assert(cloned(self.abilities@[i], abilities@[i]));
                }
            }
        }
        Player { name: self.name.clone(), abilities }
    }
}

/// The name a player joined under, unique within one game.
#[derive(Debug)]
pub struct PlayerName(pub String);

impl Clone for PlayerName {
    fn clone(&self) -> (r: Self)
        ensures
            r.0@ == self.0@,
    {
        PlayerName(self.0.clone())
    }
}

/// A request to move one heister to a destination position.
#[derive(Copy, Clone, Debug, PartialEq, Eq, Structural)]
pub struct Move {
    pub heister_color: HeisterColor,
    pub position: MapPosition,
}

/// A request to reveal the next tile at a named entrance position.
#[derive(Copy, Clone, Debug, PartialEq, Eq, Structural)]
pub struct PlaceTile {
    pub tile_entrance: MapPosition,
}

/// A request to assign abilities and leave the staging phase.
#[derive(Copy, Clone, Debug, PartialEq, Eq, Structural)]
pub struct StartGame {}

/// A rejection as it is reported back to a player.
#[derive(Debug)]
pub struct InvalidRequest {
    pub reason: String,
}

impl Clone for InvalidRequest {
    fn clone(&self) -> (r: Self)
        ensures
            r.reason@ == self.reason@,
    {
        InvalidRequest { reason: self.reason.clone() }
    }
}

/// The closed set of inbound message bodies.
#[derive(Debug)]
pub enum Body {
    StartGame(StartGame),
    Move(Move),
    PlaceTile(PlaceTile),
    GameState(crate::game_state::GameState),
    InvalidRequest(InvalidRequest),
    Chat(String),
}

/// One tagged inbound message.
#[derive(Debug)]
pub struct MainMessage {
    pub body: Option<Body>,
}

impl Clone for Tile {
    /// A clone is value-equal to the tile; the name is equal as a character
    /// sequence.
    fn clone(&self) -> (r: Self)
        ensures
            tile_eqv(r, *self),
    {
        let squares: Vec<Square> = self.squares.clone();
        proof {
            assert(squares@ =~= self.squares@) by {
                assert forall|i: int| 0 <= i < self.squares@.len() implies squares@[i]
                    == self.squares@[i] by {
                    assert(cloned(self.squares@[i], squares@[i]));
                }
            }
        }
        Tile {
            squares,
            position: self.position,
            name: self.name.clone(),
            num_rotations: self.num_rotations,
        }
    }
}


impl PartialEq for Tile {
    /// Two tiles are equal when their squares, position, name characters
    /// and rotation count agree.
    fn eq(&self, other: &Self) -> (r: bool)
    {
        if self.squares.len() != other.squares.len() {
            return false;
        }
        let mut i: usize = 0;
        while i < self.squares.len()
            invariant
                self.squares@.len() == other.squares@.len(),
                i <= self.squares@.len(),
                forall|j: int| 0 <= j < i ==> self.squares@[j] == other.squares@[j],
            decreases self.squares@.len() - i,
        {
            if !(self.squares[i] == other.squares[i]) {
                return false;
            }
            i = i + 1;
        }
        proof {
            assert(self.squares@ =~= other.squares@);
        }
        if !(self.position == other.position) {
            return false;
        }
        if !crate::text::string_eq(&self.name, &other.name) {
            return false;
        }
        self.num_rotations == other.num_rotations
    }
}

impl vstd::std_specs::cmp::PartialEqSpecImpl for Tile {
    open spec fn obeys_eq_spec() -> bool {
        true
    }

    open spec fn eq_spec(&self, other: &Self) -> bool {
        tile_eqv(*self, *other)
    }
}

/// How one wall prints in the tile sketch: blank for clear, a bar or
/// underscore for impassable, the door's color letter otherwise.
pub open spec fn pp_wall_text(w: WallType, vertical: bool) -> Seq<char> {
    match w {
        WallType::Clear => " "@,
        WallType::Impassable => if vertical {
            "|"@
        } else {
            "_"@
        },
        WallType::PurpleDoor => "P"@,
        WallType::OrangeDoor => "O"@,
        WallType::YellowDoor => "Y"@,
        WallType::GreenDoor => "G"@,
    }
}

/// How one square type prints in the tile sketch.
pub open spec fn pp_space_text(t: SquareType) -> Seq<char> {
    match t {
        SquareType::TimerFlip => "x"@,
        SquareType::TimerFlipUsed => "*"@,
        SquareType::Escalator => "Z"@,
        SquareType::Filled => "&"@,
        SquareType::YellowTeleportPad => "@"@,
        SquareType::YellowItem => "i"@,
        SquareType::YellowEscape => "e"@,
        SquareType::GreenTeleportPad => "@"@,
        SquareType::GreenItem => "i"@,
        SquareType::GreenEscape => "e"@,
        SquareType::PurpleTeleportPad => "@"@,
        SquareType::PurpleItem => "i"@,
        SquareType::PurpleEscape => "e"@,
        SquareType::OrangeTeleportPad => "@"@,
        SquareType::OrangeItem => "i"@,
        SquareType::OrangeEscape => "e"@,
        _ => " "@,
    }
}

pub open spec fn square_pp_top(sq: Square) -> Seq<char> {
    "."@ + pp_wall_text(sq.north_wall, false) + "."@
}

pub open spec fn square_pp_middle(sq: Square) -> Seq<char> {
    pp_wall_text(sq.west_wall, true) + pp_space_text(sq.square_type) + pp_wall_text(
        sq.east_wall,
        true,
    )
}

pub open spec fn square_pp_bottom(sq: Square) -> Seq<char> {
    "."@ + pp_wall_text(sq.south_wall, false) + "."@
}

pub open spec fn square_pp(sq: Square) -> Seq<char> {
    square_pp_top(sq) + "\n"@ + square_pp_middle(sq) + "\n"@ + square_pp_bottom(sq) + "\n"@
}

fn push_pp_wall(s: &mut String, w: WallType, vertical: bool)
    ensures
        final(s)@ == old(s)@ + pp_wall_text(w, vertical),
{
    match w {
        WallType::Clear => s.append(" "),
        WallType::Impassable => {
            if vertical {
                s.append("|");
            } else {
                s.append("_");
            }
        }
        WallType::PurpleDoor => s.append("P"),
        WallType::OrangeDoor => s.append("O"),
        WallType::YellowDoor => s.append("Y"),
        WallType::GreenDoor => s.append("G"),
    }
}

fn push_pp_space(s: &mut String, t: SquareType)
    ensures
        final(s)@ == old(s)@ + pp_space_text(t),
{
    match t {
        SquareType::TimerFlip => s.append("x"),
        SquareType::TimerFlipUsed => s.append("*"),
        SquareType::Escalator => s.append("Z"),
        SquareType::Filled => s.append("&"),
        SquareType::YellowTeleportPad => s.append("@"),
        SquareType::YellowItem => s.append("i"),
        SquareType::YellowEscape => s.append("e"),
        SquareType::GreenTeleportPad => s.append("@"),
        SquareType::GreenItem => s.append("i"),
        SquareType::GreenEscape => s.append("e"),
        SquareType::PurpleTeleportPad => s.append("@"),
        SquareType::PurpleItem => s.append("i"),
        SquareType::PurpleEscape => s.append("e"),
        SquareType::OrangeTeleportPad => s.append("@"),
        SquareType::OrangeItem => s.append("i"),
        SquareType::OrangeEscape => s.append("e"),
        _ => s.append(" "),
    }
}

impl Square {
    /// The square's top sketch row: dots around the north wall.
    pub fn pp_top_row(&self) -> (r: String)
        ensures
            r@ == square_pp_top(*self),
    {
        let mut s = String::new();
        s.append(".");
        push_pp_wall(&mut s, self.north_wall, false);
        s.append(".");
        proof {
            assert(s@ =~= square_pp_top(*self));
        }
        s
    }

    /// The square's middle sketch row: the side walls around the type mark.
    pub fn pp_middle_row(&self) -> (r: String)
        ensures
            r@ == square_pp_middle(*self),
    {
        let mut s = String::new();
        push_pp_wall(&mut s, self.west_wall, true);
        push_pp_space(&mut s, self.square_type);
        push_pp_wall(&mut s, self.east_wall, true);
        proof {
            assert(s@ =~= square_pp_middle(*self));
        }
        s
    }

    /// The square's bottom sketch row: dots around the south wall.
    pub fn pp_bottom_row(&self) -> (r: String)
        ensures
            r@ == square_pp_bottom(*self),
    {
        let mut s = String::new();
        s.append(".");
        push_pp_wall(&mut s, self.south_wall, false);
        s.append(".");
        proof {
            assert(s@ =~= square_pp_bottom(*self));
        }
        s
    }

    /// The square's three-line sketch.
    pub fn pp(&self) -> (r: String)
        ensures
            r@ == square_pp(*self),
    {
        let mut s = String::new();
        let top = self.pp_top_row();
        s.append(top.as_str());
        s.append("\n");
        let middle = self.pp_middle_row();
        s.append(middle.as_str());
        s.append("\n");
        let bottom = self.pp_bottom_row();
        s.append(bottom.as_str());
        s.append("\n");
        proof {
            assert(s@ =~= square_pp(*self));
        }
        s
    }
}

/// The first `c` pieces of one sketch line of a tile row: the same row
/// kind of its first `c` squares.
pub open spec fn tile_pp_line_prefix(sqs: Seq<Square>, r: int, kind: int, c: int) -> Seq<char>
    recommends
        sqs.len() == 16,
        0 <= r < 4,
        0 <= c <= 4,
    decreases c,
{
    if c <= 0 {
        Seq::empty()
    } else {
        tile_pp_line_prefix(sqs, r, kind, c - 1) + (if kind == 0 {
            square_pp_top(sqs[4 * r + c - 1])
        } else if kind == 1 {
            square_pp_middle(sqs[4 * r + c - 1])
        } else {
            square_pp_bottom(sqs[4 * r + c - 1])
        })
    }
}

/// One full sketch line of a tile row.
pub open spec fn tile_pp_line(sqs: Seq<Square>, r: int, kind: int) -> Seq<char> {
    tile_pp_line_prefix(sqs, r, kind, 4)
}

/// One tile row's three sketch lines, each newline-terminated.
pub open spec fn tile_pp_block(sqs: Seq<Square>, r: int) -> Seq<char> {
    tile_pp_line(sqs, r, 0) + "\n"@ + tile_pp_line(sqs, r, 1) + "\n"@ + tile_pp_line(sqs, r, 2)
        + "\n"@
}

/// The sketch of the first `r` tile rows.
pub open spec fn tile_pp_prefix(sqs: Seq<Square>, r: int) -> Seq<char>
    decreases r,
{
    if r <= 0 {
        Seq::empty()
    } else {
        tile_pp_prefix(sqs, r - 1) + tile_pp_block(sqs, r - 1)
    }
}

impl Tile {
    /// The tile's twelve-line sketch: three lines for each row of four
    /// squares.
    pub fn pp(&self) -> (r: String)
        requires
            self.squares@.len() == 16,
        ensures
            r@ == tile_pp_prefix(self.squares@, 4),
    {
        let mut s = String::new();
        let mut row: usize = 0;
        while row < 4
            invariant
                self.squares@.len() == 16,
                row <= 4,
                s@ == tile_pp_prefix(self.squares@, row as int),
            decreases 4 - row,
        {
            let ghost before = s@;
            let mut c: usize = 0;
            while c < 4
                invariant
                    self.squares@.len() == 16,
                    row < 4,
                    c <= 4,
                    s@ == before + tile_pp_line_prefix(self.squares@, row as int, 0, c as int),
                decreases 4 - c,
            {
                let top = self.squares[4 * row + c].pp_top_row();
                s.append(top.as_str());
                proof {
                    assert(s@ =~= before + tile_pp_line_prefix(
                        self.squares@,
                        row as int,
                        0,
                        c + 1,
                    ));
                }
                c = c + 1;
            }
            s.append("\n");
            let ghost mid_start = s@;
            let mut c: usize = 0;
            while c < 4
                invariant
                    self.squares@.len() == 16,
                    row < 4,
                    c <= 4,
                    s@ == mid_start + tile_pp_line_prefix(self.squares@, row as int, 1, c as int),
                decreases 4 - c,
            {
                let middle = self.squares[4 * row + c].pp_middle_row();
                s.append(middle.as_str());
                proof {
                    assert(s@ =~= mid_start + tile_pp_line_prefix(
                        self.squares@,
                        row as int,
                        1,
                        c + 1,
                    ));
                }
                c = c + 1;
            }
            s.append("\n");
            let ghost bot_start = s@;
            let mut c: usize = 0;
            while c < 4
                invariant
                    self.squares@.len() == 16,
                    row < 4,
                    c <= 4,
                    s@ == bot_start + tile_pp_line_prefix(self.squares@, row as int, 2, c as int),
                decreases 4 - c,
            {
                let bottom = self.squares[4 * row + c].pp_bottom_row();
                s.append(bottom.as_str());
                proof {
                    assert(s@ =~= bot_start + tile_pp_line_prefix(
                        self.squares@,
                        row as int,
                        2,
                        c + 1,
                    ));
                }
                c = c + 1;
            }
            s.append("\n");
            proof {
                assert(s@ =~= tile_pp_prefix(self.squares@, row as int + 1));
            }
            row = row + 1;
        }
        s
    }
}

} // verus!
