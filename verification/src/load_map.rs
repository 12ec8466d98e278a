//! The authored tile deck: the fixed starting tile and the eight tiles a
//! game draws from, each a 4 x 4 block of squares in row-major order.

use vstd::prelude::*;

use crate::types::{tile_wf, MapPosition, Square, SquareType, Tile, WallType};

verus! {

/// The authored squares of tile 1a, in row-major order.
pub open spec fn tile_1a_squares() -> Seq<Square> {
    seq![
        Square {
            north_wall: WallType::Impassable,
            east_wall: WallType::Clear,
            south_wall: WallType::Impassable,
            west_wall: WallType::Impassable,
            square_type: SquareType::TimerFlip,
        },
        Square {
            north_wall: WallType::Impassable,
            east_wall: WallType::Clear,
            south_wall: WallType::Clear,
            west_wall: WallType::Clear,
            square_type: SquareType::Normal,
        },
        Square {
            north_wall: WallType::OrangeDoor,
            east_wall: WallType::Clear,
            south_wall: WallType::Clear,
            west_wall: WallType::Clear,
            square_type: SquareType::Normal,
        },
        Square {
            north_wall: WallType::Impassable,
            east_wall: WallType::Impassable,
            south_wall: WallType::Impassable,
            west_wall: WallType::Clear,
            square_type: SquareType::PurpleTeleportPad,
        },
        Square {
            north_wall: WallType::Impassable,
            east_wall: WallType::Clear,
            south_wall: WallType::Impassable,
            west_wall: WallType::PurpleDoor,
            square_type: SquareType::Normal,
        },
        Square {
            north_wall: WallType::Clear,
            east_wall: WallType::Clear,
            south_wall: WallType::Clear,
            west_wall: WallType::Clear,
            square_type: SquareType::Normal,
        },
        Square {
            north_wall: WallType::Clear,
            east_wall: WallType::Clear,
            south_wall: WallType::Clear,
            west_wall: WallType::Clear,
            square_type: SquareType::Normal,
        },
        Square {
            north_wall: WallType::Impassable,
            east_wall: WallType::Impassable,
            south_wall: WallType::Impassable,
            west_wall: WallType::Clear,
            square_type: SquareType::YellowTeleportPad,
        },
        Square {
            north_wall: WallType::Impassable,
            east_wall: WallType::Clear,
            south_wall: WallType::Impassable,
            west_wall: WallType::Impassable,
            square_type: SquareType::OrangeTeleportPad,
        },
        Square {
            north_wall: WallType::Clear,
            east_wall: WallType::Clear,
            south_wall: WallType::Clear,
            west_wall: WallType::Clear,
            square_type: SquareType::Normal,
        },
        Square {
            north_wall: WallType::Clear,
            east_wall: WallType::Impassable,
            south_wall: WallType::Clear,
            west_wall: WallType::Clear,
            square_type: SquareType::Normal,
        },
        Square {
            north_wall: WallType::Impassable,
            east_wall: WallType::GreenDoor,
            south_wall: WallType::Impassable,
            west_wall: WallType::Impassable,
            square_type: SquareType::Escalator,
        },
        Square {
            north_wall: WallType::Impassable,
            east_wall: WallType::Clear,
            south_wall: WallType::Impassable,
            west_wall: WallType::Impassable,
            square_type: SquareType::GreenTeleportPad,
        },
        Square {
            north_wall: WallType::Clear,
            east_wall: WallType::Clear,
            south_wall: WallType::YellowDoor,
            west_wall: WallType::Clear,
            square_type: SquareType::Normal,
        },
        Square {
            north_wall: WallType::Clear,
            east_wall: WallType::Impassable,
            south_wall: WallType::Impassable,
            west_wall: WallType::Clear,
            square_type: SquareType::Escalator,
        },
        Square {
            north_wall: WallType::Impassable,
            east_wall: WallType::Impassable,
            south_wall: WallType::Impassable,
            west_wall: WallType::Impassable,
            square_type: SquareType::Filled,
        },
    ]
}

/// Tile 1a as authored: 16 squares at the origin, unrotated.
pub fn tile_1a() -> (t: Tile)
    ensures
        t.squares@ == tile_1a_squares(),
        t.position == (MapPosition { x: 0, y: 0 }),
        t.name@ == "1a"@,
        t.num_rotations == 0,
        tile_wf(t),
{
    let mut my_squares: Vec<Square> = Vec::new();
    my_squares.push(Square {
        north_wall: WallType::Impassable,
        east_wall: WallType::Clear,
        south_wall: WallType::Impassable,
        west_wall: WallType::Impassable,
        square_type: SquareType::TimerFlip,
    });
    my_squares.push(Square {
        north_wall: WallType::Impassable,
        east_wall: WallType::Clear,
        south_wall: WallType::Clear,
        west_wall: WallType::Clear,
        square_type: SquareType::Normal,
    });
    my_squares.push(Square {
        north_wall: WallType::OrangeDoor,
        east_wall: WallType::Clear,
        south_wall: WallType::Clear,
        west_wall: WallType::Clear,
        square_type: SquareType::Normal,
    });
    my_squares.push(Square {
        north_wall: WallType::Impassable,
        east_wall: WallType::Impassable,
        south_wall: WallType::Impassable,
        west_wall: WallType::Clear,
        square_type: SquareType::PurpleTeleportPad,
    });
    my_squares.push(Square {
        north_wall: WallType::Impassable,
        east_wall: WallType::Clear,
        south_wall: WallType::Impassable,
        west_wall: WallType::PurpleDoor,
        square_type: SquareType::Normal,
    });
    my_squares.push(Square {
        north_wall: WallType::Clear,
        east_wall: WallType::Clear,
        south_wall: WallType::Clear,
        west_wall: WallType::Clear,
        square_type: SquareType::Normal,
    });
    my_squares.push(Square {
        north_wall: WallType::Clear,
        east_wall: WallType::Clear,
        south_wall: WallType::Clear,
        west_wall: WallType::Clear,
        square_type: SquareType::Normal,
    });
    my_squares.push(Square {
        north_wall: WallType::Impassable,
        east_wall: WallType::Impassable,
        south_wall: WallType::Impassable,
        west_wall: WallType::Clear,
        square_type: SquareType::YellowTeleportPad,
    });
    my_squares.push(Square {
        north_wall: WallType::Impassable,
        east_wall: WallType::Clear,
        south_wall: WallType::Impassable,
        west_wall: WallType::Impassable,
        square_type: SquareType::OrangeTeleportPad,
    });
    my_squares.push(Square {
        north_wall: WallType::Clear,
        east_wall: WallType::Clear,
        south_wall: WallType::Clear,
        west_wall: WallType::Clear,
        square_type: SquareType::Normal,
    });
    my_squares.push(Square {
        north_wall: WallType::Clear,
        east_wall: WallType::Impassable,
        south_wall: WallType::Clear,
        west_wall: WallType::Clear,
        square_type: SquareType::Normal,
    });
    my_squares.push(Square {
        north_wall: WallType::Impassable,
        east_wall: WallType::GreenDoor,
        south_wall: WallType::Impassable,
        west_wall: WallType::Impassable,
        square_type: SquareType::Escalator,
    });
    my_squares.push(Square {
        north_wall: WallType::Impassable,
        east_wall: WallType::Clear,
        south_wall: WallType::Impassable,
        west_wall: WallType::Impassable,
        square_type: SquareType::GreenTeleportPad,
    });
    my_squares.push(Square {
        north_wall: WallType::Clear,
        east_wall: WallType::Clear,
        south_wall: WallType::YellowDoor,
        west_wall: WallType::Clear,
        square_type: SquareType::Normal,
    });
    my_squares.push(Square {
        north_wall: WallType::Clear,
        east_wall: WallType::Impassable,
        south_wall: WallType::Impassable,
        west_wall: WallType::Clear,
        square_type: SquareType::Escalator,
    });
    my_squares.push(Square {
        north_wall: WallType::Impassable,
        east_wall: WallType::Impassable,
        south_wall: WallType::Impassable,
        west_wall: WallType::Impassable,
        square_type: SquareType::Filled,
    });
    proof {
        assert(my_squares@ =~= tile_1a_squares());
    }
    let my_pos = MapPosition { x: 0, y: 0 };
    Tile { squares: my_squares, position: my_pos, name: "1a".to_owned(), num_rotations: 0 }
}

/// The authored squares of tile 2, in row-major order.
pub open spec fn tile_2_squares() -> Seq<Square> {
    seq![
        Square {
            north_wall: WallType::Impassable,
            east_wall: WallType::Impassable,
            south_wall: WallType::Impassable,
            west_wall: WallType::Impassable,
            square_type: SquareType::Filled,
        },
        Square {
            north_wall: WallType::Impassable,
            east_wall: WallType::Impassable,
            south_wall: WallType::Impassable,
            west_wall: WallType::Impassable,
            square_type: SquareType::Filled,
        },
        Square {
            north_wall: WallType::Impassable,
            east_wall: WallType::Clear,
            south_wall: WallType::Impassable,
            west_wall: WallType::Impassable,
            square_type: SquareType::Escalator,
        },
        Square {
            north_wall: WallType::Impassable,
            east_wall: WallType::Impassable,
            south_wall: WallType::Impassable,
            west_wall: WallType::Clear,
            square_type: SquareType::PurpleEscape,
        },
        Square {
            north_wall: WallType::Impassable,
            east_wall: WallType::Clear,
            south_wall: WallType::Clear,
            west_wall: WallType::OrangeDoor,
            square_type: SquareType::Normal,
        },
        Square {
            north_wall: WallType::Impassable,
            east_wall: WallType::Impassable,
            south_wall: WallType::Clear,
            west_wall: WallType::Clear,
            square_type: SquareType::Escalator,
        },
        Square {
            north_wall: WallType::Impassable,
            east_wall: WallType::Impassable,
            south_wall: WallType::Impassable,
            west_wall: WallType::Impassable,
            square_type: SquareType::Filled,
        },
        Square {
            north_wall: WallType::Impassable,
            east_wall: WallType::Impassable,
            south_wall: WallType::Impassable,
            west_wall: WallType::Impassable,
            square_type: SquareType::Filled,
        },
        Square {
            north_wall: WallType::Clear,
            east_wall: WallType::Clear,
            south_wall: WallType::Clear,
            west_wall: WallType::Impassable,
            square_type: SquareType::Normal,
        },
        Square {
            north_wall: WallType::Clear,
            east_wall: WallType::Impassable,
            south_wall: WallType::Clear,
            west_wall: WallType::Clear,
            square_type: SquareType::Normal,
        },
        Square {
            north_wall: WallType::Impassable,
            east_wall: WallType::Impassable,
            south_wall: WallType::Impassable,
            west_wall: WallType::Impassable,
            square_type: SquareType::Filled,
        },
        Square {
            north_wall: WallType::Impassable,
            east_wall: WallType::Impassable,
            south_wall: WallType::Impassable,
            west_wall: WallType::Impassable,
            square_type: SquareType::Filled,
        },
        Square {
            north_wall: WallType::Clear,
            east_wall: WallType::Impassable,
            south_wall: WallType::Impassable,
            west_wall: WallType::Impassable,
            square_type: SquareType::GreenTeleportPad,
        },
        Square {
            north_wall: WallType::Clear,
            east_wall: WallType::Clear,
            south_wall: WallType::Clear,
            west_wall: WallType::Impassable,
            square_type: SquareType::Normal,
        },
        Square {
            north_wall: WallType::Impassable,
            east_wall: WallType::Impassable,
            south_wall: WallType::Impassable,
            west_wall: WallType::Clear,
            square_type: SquareType::PurpleTeleportPad,
        },
        Square {
            north_wall: WallType::Impassable,
            east_wall: WallType::Impassable,
            south_wall: WallType::Impassable,
            west_wall: WallType::Impassable,
            square_type: SquareType::Filled,
        },
    ]
}

/// Tile 2 as authored: 16 squares at the origin, unrotated.
pub fn tile_2() -> (t: Tile)
    ensures
        t.squares@ == tile_2_squares(),
        t.position == (MapPosition { x: 0, y: 0 }),
        t.name@ == "2"@,
        t.num_rotations == 0,
        tile_wf(t),
{
    let mut my_squares: Vec<Square> = Vec::new();
    my_squares.push(Square {
        north_wall: WallType::Impassable,
        east_wall: WallType::Impassable,
        south_wall: WallType::Impassable,
        west_wall: WallType::Impassable,
        square_type: SquareType::Filled,
    });
    my_squares.push(Square {
        north_wall: WallType::Impassable,
        east_wall: WallType::Impassable,
        south_wall: WallType::Impassable,
        west_wall: WallType::Impassable,
        square_type: SquareType::Filled,
    });
    my_squares.push(Square {
        north_wall: WallType::Impassable,
        east_wall: WallType::Clear,
        south_wall: WallType::Impassable,
        west_wall: WallType::Impassable,
        square_type: SquareType::Escalator,
    });
    my_squares.push(Square {
        north_wall: WallType::Impassable,
        east_wall: WallType::Impassable,
        south_wall: WallType::Impassable,
        west_wall: WallType::Clear,
        square_type: SquareType::PurpleEscape,
    });
    my_squares.push(Square {
        north_wall: WallType::Impassable,
        east_wall: WallType::Clear,
        south_wall: WallType::Clear,
        west_wall: WallType::OrangeDoor,
        square_type: SquareType::Normal,
    });
    my_squares.push(Square {
        north_wall: WallType::Impassable,
        east_wall: WallType::Impassable,
        south_wall: WallType::Clear,
        west_wall: WallType::Clear,
        square_type: SquareType::Escalator,
    });
    my_squares.push(Square {
        north_wall: WallType::Impassable,
        east_wall: WallType::Impassable,
        south_wall: WallType::Impassable,
        west_wall: WallType::Impassable,
        square_type: SquareType::Filled,
    });
    my_squares.push(Square {
        north_wall: WallType::Impassable,
        east_wall: WallType::Impassable,
        south_wall: WallType::Impassable,
        west_wall: WallType::Impassable,
        square_type: SquareType::Filled,
    });
    my_squares.push(Square {
        north_wall: WallType::Clear,
        east_wall: WallType::Clear,
        south_wall: WallType::Clear,
        west_wall: WallType::Impassable,
        square_type: SquareType::Normal,
    });
    my_squares.push(Square {
        north_wall: WallType::Clear,
        east_wall: WallType::Impassable,
        south_wall: WallType::Clear,
        west_wall: WallType::Clear,
        square_type: SquareType::Normal,
    });
    my_squares.push(Square {
        north_wall: WallType::Impassable,
        east_wall: WallType::Impassable,
        south_wall: WallType::Impassable,
        west_wall: WallType::Impassable,
        square_type: SquareType::Filled,
    });
    my_squares.push(Square {
        north_wall: WallType::Impassable,
        east_wall: WallType::Impassable,
        south_wall: WallType::Impassable,
        west_wall: WallType::Impassable,
        square_type: SquareType::Filled,
    });
    my_squares.push(Square {
        north_wall: WallType::Clear,
        east_wall: WallType::Impassable,
        south_wall: WallType::Impassable,
        west_wall: WallType::Impassable,
        square_type: SquareType::GreenTeleportPad,
    });
    my_squares.push(Square {
        north_wall: WallType::Clear,
        east_wall: WallType::Clear,
        south_wall: WallType::Clear,
        west_wall: WallType::Impassable,
        square_type: SquareType::Normal,
    });
    my_squares.push(Square {
        north_wall: WallType::Impassable,
        east_wall: WallType::Impassable,
        south_wall: WallType::Impassable,
        west_wall: WallType::Clear,
        square_type: SquareType::PurpleTeleportPad,
    });
    my_squares.push(Square {
        north_wall: WallType::Impassable,
        east_wall: WallType::Impassable,
        south_wall: WallType::Impassable,
        west_wall: WallType::Impassable,
        square_type: SquareType::Filled,
    });
    proof {
        assert(my_squares@ =~= tile_2_squares());
    }
    let my_pos = MapPosition { x: 0, y: 0 };
    Tile { squares: my_squares, position: my_pos, name: "2".to_owned(), num_rotations: 0 }
}

/// The authored squares of tile 3, in row-major order.
pub open spec fn tile_3_squares() -> Seq<Square> {
    seq![
        Square {
            north_wall: WallType::Impassable,
            east_wall: WallType::Clear,
            south_wall: WallType::Clear,
            west_wall: WallType::Impassable,
            square_type: SquareType::Normal,
        },
        Square {
            north_wall: WallType::Impassable,
            east_wall: WallType::Impassable,
            south_wall: WallType::Clear,
            west_wall: WallType::Clear,
            square_type: SquareType::Normal,
        },
        Square {
            north_wall: WallType::Impassable,
            east_wall: WallType::Impassable,
            south_wall: WallType::Clear,
            west_wall: WallType::Impassable,
            square_type: SquareType::OrangeTeleportPad,
        },
        Square {
            north_wall: WallType::Impassable,
            east_wall: WallType::Impassable,
            south_wall: WallType::Impassable,
            west_wall: WallType::Impassable,
            square_type: SquareType::Filled,
        },
        Square {
            north_wall: WallType::Clear,
            east_wall: WallType::Impassable,
            south_wall: WallType::Impassable,
            west_wall: WallType::PurpleDoor,
            square_type: SquareType::Normal,
        },
        Square {
            north_wall: WallType::Clear,
            east_wall: WallType::Clear,
            south_wall: WallType::Clear,
            west_wall: WallType::Impassable,
            square_type: SquareType::Normal,
        },
        Square {
            north_wall: WallType::Clear,
            east_wall: WallType::Clear,
            south_wall: WallType::Impassable,
            west_wall: WallType::Clear,
            square_type: SquareType::Normal,
        },
        Square {
            north_wall: WallType::Impassable,
            east_wall: WallType::Impassable,
            south_wall: WallType::Impassable,
            west_wall: WallType::Clear,
            square_type: SquareType::GreenTeleportPad,
        },
        Square {
            north_wall: WallType::Impassable,
            east_wall: WallType::Clear,
            south_wall: WallType::Impassable,
            west_wall: WallType::Impassable,
            square_type: SquareType::TimerFlip,
        },
        Square {
            north_wall: WallType::Clear,
            east_wall: WallType::Clear,
            south_wall: WallType::Impassable,
            west_wall: WallType::Clear,
            square_type: SquareType::Normal,
        },
        Square {
            north_wall: WallType::Impassable,
            east_wall: WallType::Clear,
            south_wall: WallType::Clear,
            west_wall: WallType::Clear,
            square_type: SquareType::Normal,
        },
        Square {
            north_wall: WallType::Impassable,
            east_wall: WallType::YellowDoor,
            south_wall: WallType::Impassable,
            west_wall: WallType::Clear,
            square_type: SquareType::Normal,
        },
        Square {
            north_wall: WallType::Impassable,
            east_wall: WallType::Impassable,
            south_wall: WallType::Impassable,
            west_wall: WallType::Impassable,
            square_type: SquareType::Filled,
        },
        Square {
            north_wall: WallType::Impassable,
            east_wall: WallType::Clear,
            south_wall: WallType::Clear,
            west_wall: WallType::Impassable,
            square_type: SquareType::Normal,
        },
        Square {
            north_wall: WallType::Clear,
            east_wall: WallType::Impassable,
            south_wall: WallType::Impassable,
            west_wall: WallType::Clear,
            square_type: SquareType::Normal,
        },
        Square {
            north_wall: WallType::Impassable,
            east_wall: WallType::Impassable,
            south_wall: WallType::Impassable,
            west_wall: WallType::Impassable,
            square_type: SquareType::Filled,
        },
    ]
}

/// Tile 3 as authored: 16 squares at the origin, unrotated.
pub fn tile_3() -> (t: Tile)
    ensures
        t.squares@ == tile_3_squares(),
        t.position == (MapPosition { x: 0, y: 0 }),
        t.name@ == "3"@,
        t.num_rotations == 0,
        tile_wf(t),
{
    let mut my_squares: Vec<Square> = Vec::new();
    my_squares.push(Square {
        north_wall: WallType::Impassable,
        east_wall: WallType::Clear,
        south_wall: WallType::Clear,
        west_wall: WallType::Impassable,
        square_type: SquareType::Normal,
    });
    my_squares.push(Square {
        north_wall: WallType::Impassable,
        east_wall: WallType::Impassable,
        south_wall: WallType::Clear,
        west_wall: WallType::Clear,
        square_type: SquareType::Normal,
    });
    my_squares.push(Square {
        north_wall: WallType::Impassable,
        east_wall: WallType::Impassable,
        south_wall: WallType::Clear,
        west_wall: WallType::Impassable,
        square_type: SquareType::OrangeTeleportPad,
    });
    my_squares.push(Square {
        north_wall: WallType::Impassable,
        east_wall: WallType::Impassable,
        south_wall: WallType::Impassable,
        west_wall: WallType::Impassable,
        square_type: SquareType::Filled,
    });
    my_squares.push(Square {
        north_wall: WallType::Clear,
        east_wall: WallType::Impassable,
        south_wall: WallType::Impassable,
        west_wall: WallType::PurpleDoor,
        square_type: SquareType::Normal,
    });
    my_squares.push(Square {
        north_wall: WallType::Clear,
        east_wall: WallType::Clear,
        south_wall: WallType::Clear,
        west_wall: WallType::Impassable,
        square_type: SquareType::Normal,
    });
    my_squares.push(Square {
        north_wall: WallType::Clear,
        east_wall: WallType::Clear,
        south_wall: WallType::Impassable,
        west_wall: WallType::Clear,
        square_type: SquareType::Normal,
    });
    my_squares.push(Square {
        north_wall: WallType::Impassable,
        east_wall: WallType::Impassable,
        south_wall: WallType::Impassable,
        west_wall: WallType::Clear,
        square_type: SquareType::GreenTeleportPad,
    });
    my_squares.push(Square {
        north_wall: WallType::Impassable,
        east_wall: WallType::Clear,
        south_wall: WallType::Impassable,
        west_wall: WallType::Impassable,
        square_type: SquareType::TimerFlip,
    });
    my_squares.push(Square {
        north_wall: WallType::Clear,
        east_wall: WallType::Clear,
        south_wall: WallType::Impassable,
        west_wall: WallType::Clear,
        square_type: SquareType::Normal,
    });
    my_squares.push(Square {
        north_wall: WallType::Impassable,
        east_wall: WallType::Clear,
        south_wall: WallType::Clear,
        west_wall: WallType::Clear,
        square_type: SquareType::Normal,
    });
    my_squares.push(Square {
        north_wall: WallType::Impassable,
        east_wall: WallType::YellowDoor,
        south_wall: WallType::Impassable,
        west_wall: WallType::Clear,
        square_type: SquareType::Normal,
    });
    my_squares.push(Square {
        north_wall: WallType::Impassable,
        east_wall: WallType::Impassable,
        south_wall: WallType::Impassable,
        west_wall: WallType::Impassable,
        square_type: SquareType::Filled,
    });
    my_squares.push(Square {
        north_wall: WallType::Impassable,
        east_wall: WallType::Clear,
        south_wall: WallType::Clear,
        west_wall: WallType::Impassable,
        square_type: SquareType::Normal,
    });
    my_squares.push(Square {
        north_wall: WallType::Clear,
        east_wall: WallType::Impassable,
        south_wall: WallType::Impassable,
        west_wall: WallType::Clear,
        square_type: SquareType::Normal,
    });
    my_squares.push(Square {
        north_wall: WallType::Impassable,
        east_wall: WallType::Impassable,
        south_wall: WallType::Impassable,
        west_wall: WallType::Impassable,
        square_type: SquareType::Filled,
    });
    proof {
        assert(my_squares@ =~= tile_3_squares());
    }
    let my_pos = MapPosition { x: 0, y: 0 };
    Tile { squares: my_squares, position: my_pos, name: "3".to_owned(), num_rotations: 0 }
}

/// The authored squares of tile 4, in row-major order.
pub open spec fn tile_4_squares() -> Seq<Square> {
    seq![
        Square {
            north_wall: WallType::Impassable,
            east_wall: WallType::Impassable,
            south_wall: WallType::Impassable,
            west_wall: WallType::Impassable,
            square_type: SquareType::Filled,
        },
        Square {
            north_wall: WallType::Impassable,
            east_wall: WallType::Impassable,
            south_wall: WallType::Impassable,
            west_wall: WallType::Impassable,
            square_type: SquareType::Filled,
        },
        Square {
            north_wall: WallType::PurpleDoor,
            east_wall: WallType::Clear,
            south_wall: WallType::Clear,
            west_wall: WallType::Impassable,
            square_type: SquareType::Normal,
        },
        Square {
            north_wall: WallType::Impassable,
            east_wall: WallType::Impassable,
            south_wall: WallType::Impassable,
            west_wall: WallType::Clear,
            square_type: SquareType::YellowTeleportPad,
        },
        Square {
            north_wall: WallType::Impassable,
            east_wall: WallType::Impassable,
            south_wall: WallType::Impassable,
            west_wall: WallType::Impassable,
            square_type: SquareType::Filled,
        },
        Square {
            north_wall: WallType::Impassable,
            east_wall: WallType::Impassable,
            south_wall: WallType::Clear,
            west_wall: WallType::Impassable,
            square_type: SquareType::TimerFlip,
        },
        Square {
            north_wall: WallType::Clear,
            east_wall: WallType::Impassable,
            south_wall: WallType::Clear,
            west_wall: WallType::Impassable,
            square_type: SquareType::Normal,
        },
        Square {
            north_wall: WallType::Impassable,
            east_wall: WallType::Impassable,
            south_wall: WallType::Impassable,
            west_wall: WallType::Impassable,
            square_type: SquareType::Filled,
        },
        Square {
            north_wall: WallType::Impassable,
            east_wall: WallType::Clear,
            south_wall: WallType::Impassable,
            west_wall: WallType::Impassable,
            square_type: SquareType::OrangeTeleportPad,
        },
        Square {
            north_wall: WallType::Clear,
            east_wall: WallType::Clear,
            south_wall: WallType::Clear,
            west_wall: WallType::Clear,
            square_type: SquareType::Normal,
        },
        Square {
            north_wall: WallType::Clear,
            east_wall: WallType::Clear,
            south_wall: WallType::Impassable,
            west_wall: WallType::Clear,
            square_type: SquareType::Normal,
        },
        Square {
            north_wall: WallType::Impassable,
            east_wall: WallType::GreenDoor,
            south_wall: WallType::Impassable,
            west_wall: WallType::Clear,
            square_type: SquareType::Normal,
        },
        Square {
            north_wall: WallType::Impassable,
            east_wall: WallType::Impassable,
            south_wall: WallType::Impassable,
            west_wall: WallType::Impassable,
            square_type: SquareType::Filled,
        },
        Square {
            north_wall: WallType::Clear,
            east_wall: WallType::Impassable,
            south_wall: WallType::Clear,
            west_wall: WallType::Impassable,
            square_type: SquareType::Normal,
        },
        Square {
            north_wall: WallType::Impassable,
            east_wall: WallType::Impassable,
            south_wall: WallType::Impassable,
            west_wall: WallType::Impassable,
            square_type: SquareType::Filled,
        },
        Square {
            north_wall: WallType::Impassable,
            east_wall: WallType::Impassable,
            south_wall: WallType::Impassable,
            west_wall: WallType::Impassable,
            square_type: SquareType::Filled,
        },
    ]
}

/// Tile 4 as authored: 16 squares at the origin, unrotated.
pub fn tile_4() -> (t: Tile)
    ensures
        t.squares@ == tile_4_squares(),
        t.position == (MapPosition { x: 0, y: 0 }),
        t.name@ == "4"@,
        t.num_rotations == 0,
        tile_wf(t),
{
    let mut my_squares: Vec<Square> = Vec::new();
    my_squares.push(Square {
        north_wall: WallType::Impassable,
        east_wall: WallType::Impassable,
        south_wall: WallType::Impassable,
        west_wall: WallType::Impassable,
        square_type: SquareType::Filled,
    });
    my_squares.push(Square {
        north_wall: WallType::Impassable,
        east_wall: WallType::Impassable,
        south_wall: WallType::Impassable,
        west_wall: WallType::Impassable,
        square_type: SquareType::Filled,
    });
    my_squares.push(Square {
        north_wall: WallType::PurpleDoor,
        east_wall: WallType::Clear,
        south_wall: WallType::Clear,
        west_wall: WallType::Impassable,
        square_type: SquareType::Normal,
    });
    my_squares.push(Square {
        north_wall: WallType::Impassable,
        east_wall: WallType::Impassable,
        south_wall: WallType::Impassable,
        west_wall: WallType::Clear,
        square_type: SquareType::YellowTeleportPad,
    });
    my_squares.push(Square {
        north_wall: WallType::Impassable,
        east_wall: WallType::Impassable,
        south_wall: WallType::Impassable,
        west_wall: WallType::Impassable,
        square_type: SquareType::Filled,
    });
    my_squares.push(Square {
        north_wall: WallType::Impassable,
        east_wall: WallType::Impassable,
        south_wall: WallType::Clear,
        west_wall: WallType::Impassable,
        square_type: SquareType::TimerFlip,
    });
    my_squares.push(Square {
        north_wall: WallType::Clear,
        east_wall: WallType::Impassable,
        south_wall: WallType::Clear,
        west_wall: WallType::Impassable,
        square_type: SquareType::Normal,
    });
    my_squares.push(Square {
        north_wall: WallType::Impassable,
        east_wall: WallType::Impassable,
        south_wall: WallType::Impassable,
        west_wall: WallType::Impassable,
        square_type: SquareType::Filled,
    });
    my_squares.push(Square {
        north_wall: WallType::Impassable,
        east_wall: WallType::Clear,
        south_wall: WallType::Impassable,
        west_wall: WallType::Impassable,
        square_type: SquareType::OrangeTeleportPad,
    });
    my_squares.push(Square {
        north_wall: WallType::Clear,
        east_wall: WallType::Clear,
        south_wall: WallType::Clear,
        west_wall: WallType::Clear,
        square_type: SquareType::Normal,
    });
    my_squares.push(Square {
        north_wall: WallType::Clear,
        east_wall: WallType::Clear,
        south_wall: WallType::Impassable,
        west_wall: WallType::Clear,
        square_type: SquareType::Normal,
    });
    my_squares.push(Square {
        north_wall: WallType::Impassable,
        east_wall: WallType::GreenDoor,
        south_wall: WallType::Impassable,
        west_wall: WallType::Clear,
        square_type: SquareType::Normal,
    });
    my_squares.push(Square {
        north_wall: WallType::Impassable,
        east_wall: WallType::Impassable,
        south_wall: WallType::Impassable,
        west_wall: WallType::Impassable,
        square_type: SquareType::Filled,
    });
    my_squares.push(Square {
        north_wall: WallType::Clear,
        east_wall: WallType::Impassable,
        south_wall: WallType::Clear,
        west_wall: WallType::Impassable,
        square_type: SquareType::Normal,
    });
    my_squares.push(Square {
        north_wall: WallType::Impassable,
        east_wall: WallType::Impassable,
        south_wall: WallType::Impassable,
        west_wall: WallType::Impassable,
        square_type: SquareType::Filled,
    });
    my_squares.push(Square {
        north_wall: WallType::Impassable,
        east_wall: WallType::Impassable,
        south_wall: WallType::Impassable,
        west_wall: WallType::Impassable,
        square_type: SquareType::Filled,
    });
    proof {
        assert(my_squares@ =~= tile_4_squares());
    }
    let my_pos = MapPosition { x: 0, y: 0 };
    Tile { squares: my_squares, position: my_pos, name: "4".to_owned(), num_rotations: 0 }
}

/// The authored squares of tile 5, in row-major order.
pub open spec fn tile_5_squares() -> Seq<Square> {
    seq![
        Square {
            north_wall: WallType::Impassable,
            east_wall: WallType::Clear,
            south_wall: WallType::Clear,
            west_wall: WallType::Impassable,
            square_type: SquareType::Normal,
        },
        Square {
            north_wall: WallType::Impassable,
            east_wall: WallType::Impassable,
            south_wall: WallType::Clear,
            west_wall: WallType::Clear,
            square_type: SquareType::Normal,
        },
        Square {
            north_wall: WallType::OrangeDoor,
            east_wall: WallType::Clear,
            south_wall: WallType::Impassable,
            west_wall: WallType::Impassable,
            square_type: SquareType::Normal,
        },
        Square {
            north_wall: WallType::Impassable,
            east_wall: WallType::Impassable,
            south_wall: WallType::Clear,
            west_wall: WallType::Clear,
            square_type: SquareType::Normal,
        },
        Square {
            north_wall: WallType::Clear,
            east_wall: WallType::Impassable,
            south_wall: WallType::Impassable,
            west_wall: WallType::YellowDoor,
            square_type: SquareType::Normal,
        },
        Square {
            north_wall: WallType::Clear,
            east_wall: WallType::Impassable,
            south_wall: WallType::Clear,
            west_wall: WallType::Impassable,
            square_type: SquareType::Normal,
        },
        Square {
            north_wall: WallType::Impassable,
            east_wall: WallType::Impassable,
            south_wall: WallType::Clear,
            west_wall: WallType::Impassable,
            square_type: SquareType::TimerFlip,
        },
        Square {
            north_wall: WallType::Clear,
            east_wall: WallType::Impassable,
            south_wall: WallType::Clear,
            west_wall: WallType::Impassable,
            square_type: SquareType::Normal,
        },
        Square {
            north_wall: WallType::Impassable,
            east_wall: WallType::Clear,
            south_wall: WallType::Impassable,
            west_wall: WallType::Impassable,
            square_type: SquareType::PurpleTeleportPad,
        },
        Square {
            north_wall: WallType::Clear,
            east_wall: WallType::Clear,
            south_wall: WallType::Impassable,
            west_wall: WallType::Clear,
            square_type: SquareType::Normal,
        },
        Square {
            north_wall: WallType::Clear,
            east_wall: WallType::Clear,
            south_wall: WallType::Clear,
            west_wall: WallType::Clear,
            square_type: SquareType::Normal,
        },
        Square {
            north_wall: WallType::Clear,
            east_wall: WallType::GreenDoor,
            south_wall: WallType::Impassable,
            west_wall: WallType::Clear,
            square_type: SquareType::Normal,
        },
        Square {
            north_wall: WallType::Impassable,
            east_wall: WallType::Impassable,
            south_wall: WallType::Impassable,
            west_wall: WallType::Impassable,
            square_type: SquareType::Filled,
        },
        Square {
            north_wall: WallType::Impassable,
            east_wall: WallType::Clear,
            south_wall: WallType::Clear,
            west_wall: WallType::Impassable,
            square_type: SquareType::Normal,
        },
        Square {
            north_wall: WallType::Clear,
            east_wall: WallType::Impassable,
            south_wall: WallType::Impassable,
            west_wall: WallType::Clear,
            square_type: SquareType::Normal,
        },
        Square {
            north_wall: WallType::Impassable,
            east_wall: WallType::Impassable,
            south_wall: WallType::Impassable,
            west_wall: WallType::Impassable,
            square_type: SquareType::Filled,
        },
    ]
}

/// Tile 5 as authored: 16 squares at the origin, unrotated.
pub fn tile_5() -> (t: Tile)
    ensures
        t.squares@ == tile_5_squares(),
        t.position == (MapPosition { x: 0, y: 0 }),
        t.name@ == "5"@,
        t.num_rotations == 0,
        tile_wf(t),
{
    let mut my_squares: Vec<Square> = Vec::new();
    my_squares.push(Square {
        north_wall: WallType::Impassable,
        east_wall: WallType::Clear,
        south_wall: WallType::Clear,
        west_wall: WallType::Impassable,
        square_type: SquareType::Normal,
    });
    my_squares.push(Square {
        north_wall: WallType::Impassable,
        east_wall: WallType::Impassable,
        south_wall: WallType::Clear,
        west_wall: WallType::Clear,
        square_type: SquareType::Normal,
    });
    my_squares.push(Square {
        north_wall: WallType::OrangeDoor,
        east_wall: WallType::Clear,
        south_wall: WallType::Impassable,
        west_wall: WallType::Impassable,
        square_type: SquareType::Normal,
    });
    my_squares.push(Square {
        north_wall: WallType::Impassable,
        east_wall: WallType::Impassable,
        south_wall: WallType::Clear,
        west_wall: WallType::Clear,
        square_type: SquareType::Normal,
    });
    my_squares.push(Square {
        north_wall: WallType::Clear,
        east_wall: WallType::Impassable,
        south_wall: WallType::Impassable,
        west_wall: WallType::YellowDoor,
        square_type: SquareType::Normal,
    });
    my_squares.push(Square {
        north_wall: WallType::Clear,
        east_wall: WallType::Impassable,
        south_wall: WallType::Clear,
        west_wall: WallType::Impassable,
        square_type: SquareType::Normal,
    });
    my_squares.push(Square {
        north_wall: WallType::Impassable,
        east_wall: WallType::Impassable,
        south_wall: WallType::Clear,
        west_wall: WallType::Impassable,
        square_type: SquareType::TimerFlip,
    });
    my_squares.push(Square {
        north_wall: WallType::Clear,
        east_wall: WallType::Impassable,
        south_wall: WallType::Clear,
        west_wall: WallType::Impassable,
        square_type: SquareType::Normal,
    });
    my_squares.push(Square {
        north_wall: WallType::Impassable,
        east_wall: WallType::Clear,
        south_wall: WallType::Impassable,
        west_wall: WallType::Impassable,
        square_type: SquareType::PurpleTeleportPad,
    });
    my_squares.push(Square {
        north_wall: WallType::Clear,
        east_wall: WallType::Clear,
        south_wall: WallType::Impassable,
        west_wall: WallType::Clear,
        square_type: SquareType::Normal,
    });
    my_squares.push(Square {
        north_wall: WallType::Clear,
        east_wall: WallType::Clear,
        south_wall: WallType::Clear,
        west_wall: WallType::Clear,
        square_type: SquareType::Normal,
    });
    my_squares.push(Square {
        north_wall: WallType::Clear,
        east_wall: WallType::GreenDoor,
        south_wall: WallType::Impassable,
        west_wall: WallType::Clear,
        square_type: SquareType::Normal,
    });
    my_squares.push(Square {
        north_wall: WallType::Impassable,
        east_wall: WallType::Impassable,
        south_wall: WallType::Impassable,
        west_wall: WallType::Impassable,
        square_type: SquareType::Filled,
    });
    my_squares.push(Square {
        north_wall: WallType::Impassable,
        east_wall: WallType::Clear,
        south_wall: WallType::Clear,
        west_wall: WallType::Impassable,
        square_type: SquareType::Normal,
    });
    my_squares.push(Square {
        north_wall: WallType::Clear,
        east_wall: WallType::Impassable,
        south_wall: WallType::Impassable,
        west_wall: WallType::Clear,
        square_type: SquareType::Normal,
    });
    my_squares.push(Square {
        north_wall: WallType::Impassable,
        east_wall: WallType::Impassable,
        south_wall: WallType::Impassable,
        west_wall: WallType::Impassable,
        square_type: SquareType::Filled,
    });
    proof {
        assert(my_squares@ =~= tile_5_squares());
    }
    let my_pos = MapPosition { x: 0, y: 0 };
    Tile { squares: my_squares, position: my_pos, name: "5".to_owned(), num_rotations: 0 }
}

/// The authored squares of tile 6, in row-major order.
pub open spec fn tile_6_squares() -> Seq<Square> {
    seq![
        Square {
            north_wall: WallType::Impassable,
            east_wall: WallType::Impassable,
            south_wall: WallType::Impassable,
            west_wall: WallType::Impassable,
            square_type: SquareType::Filled,
        },
        Square {
            north_wall: WallType::Impassable,
            east_wall: WallType::Impassable,
            south_wall: WallType::Impassable,
            west_wall: WallType::Impassable,
            square_type: SquareType::Filled,
        },
        Square {
            north_wall: WallType::GreenDoor,
            east_wall: WallType::Impassable,
            south_wall: WallType::Clear,
            west_wall: WallType::Impassable,
            square_type: SquareType::Normal,
        },
        Square {
            north_wall: WallType::Impassable,
            east_wall: WallType::Impassable,
            south_wall: WallType::Impassable,
            west_wall: WallType::Impassable,
            square_type: SquareType::Filled,
        },
        Square {
            north_wall: WallType::Impassable,
            east_wall: WallType::Clear,
            south_wall: WallType::Impassable,
            west_wall: WallType::OrangeDoor,
            square_type: SquareType::Normal,
        },
        Square {
            north_wall: WallType::Impassable,
            east_wall: WallType::Clear,
            south_wall: WallType::Clear,
            west_wall: WallType::Clear,
            square_type: SquareType::Normal,
        },
        Square {
            north_wall: WallType::Clear,
            east_wall: WallType::Impassable,
            south_wall: WallType::Clear,
            west_wall: WallType::Clear,
            square_type: SquareType::Normal,
        },
        Square {
            north_wall: WallType::Impassable,
            east_wall: WallType::Impassable,
            south_wall: WallType::Impassable,
            west_wall: WallType::Impassable,
            square_type: SquareType::Filled,
        },
        Square {
            north_wall: WallType::Impassable,
            east_wall: WallType::Impassable,
            south_wall: WallType::Impassable,
            west_wall: WallType::Impassable,
            square_type: SquareType::Filled,
        },
        Square {
            north_wall: WallType::Clear,
            east_wall: WallType::Clear,
            south_wall: WallType::Clear,
            west_wall: WallType::Impassable,
            square_type: SquareType::Normal,
        },
        Square {
            north_wall: WallType::Clear,
            east_wall: WallType::Clear,
            south_wall: WallType::Impassable,
            west_wall: WallType::Clear,
            square_type: SquareType::Normal,
        },
        Square {
            north_wall: WallType::Impassable,
            east_wall: WallType::Impassable,
            south_wall: WallType::Impassable,
            west_wall: WallType::Clear,
            square_type: SquareType::YellowItem,
        },
        Square {
            north_wall: WallType::Impassable,
            east_wall: WallType::Clear,
            south_wall: WallType::Impassable,
            west_wall: WallType::Impassable,
            square_type: SquareType::PurpleTeleportPad,
        },
        Square {
            north_wall: WallType::Clear,
            east_wall: WallType::Impassable,
            south_wall: WallType::Clear,
            west_wall: WallType::Clear,
            square_type: SquareType::Normal,
        },
        Square {
            north_wall: WallType::Impassable,
            east_wall: WallType::Impassable,
            south_wall: WallType::Impassable,
            west_wall: WallType::Impassable,
            square_type: SquareType::Filled,
        },
        Square {
            north_wall: WallType::Impassable,
            east_wall: WallType::Impassable,
            south_wall: WallType::Impassable,
            west_wall: WallType::Impassable,
            square_type: SquareType::Filled,
        },
    ]
}

/// Tile 6 as authored: 16 squares at the origin, unrotated.
pub fn tile_6() -> (t: Tile)
    ensures
        t.squares@ == tile_6_squares(),
        t.position == (MapPosition { x: 0, y: 0 }),
        t.name@ == "6"@,
        t.num_rotations == 0,
        tile_wf(t),
{
    let mut my_squares: Vec<Square> = Vec::new();
    my_squares.push(Square {
        north_wall: WallType::Impassable,
        east_wall: WallType::Impassable,
        south_wall: WallType::Impassable,
        west_wall: WallType::Impassable,
        square_type: SquareType::Filled,
    });
    my_squares.push(Square {
        north_wall: WallType::Impassable,
        east_wall: WallType::Impassable,
        south_wall: WallType::Impassable,
        west_wall: WallType::Impassable,
        square_type: SquareType::Filled,
    });
    my_squares.push(Square {
        north_wall: WallType::GreenDoor,
        east_wall: WallType::Impassable,
        south_wall: WallType::Clear,
        west_wall: WallType::Impassable,
        square_type: SquareType::Normal,
    });
    my_squares.push(Square {
        north_wall: WallType::Impassable,
        east_wall: WallType::Impassable,
        south_wall: WallType::Impassable,
        west_wall: WallType::Impassable,
        square_type: SquareType::Filled,
    });
    my_squares.push(Square {
        north_wall: WallType::Impassable,
        east_wall: WallType::Clear,
        south_wall: WallType::Impassable,
        west_wall: WallType::OrangeDoor,
        square_type: SquareType::Normal,
    });
    my_squares.push(Square {
        north_wall: WallType::Impassable,
        east_wall: WallType::Clear,
        south_wall: WallType::Clear,
        west_wall: WallType::Clear,
        square_type: SquareType::Normal,
    });
    my_squares.push(Square {
        north_wall: WallType::Clear,
        east_wall: WallType::Impassable,
        south_wall: WallType::Clear,
        west_wall: WallType::Clear,
        square_type: SquareType::Normal,
    });
    my_squares.push(Square {
        north_wall: WallType::Impassable,
        east_wall: WallType::Impassable,
        south_wall: WallType::Impassable,
        west_wall: WallType::Impassable,
        square_type: SquareType::Filled,
    });
    my_squares.push(Square {
        north_wall: WallType::Impassable,
        east_wall: WallType::Impassable,
        south_wall: WallType::Impassable,
        west_wall: WallType::Impassable,
        square_type: SquareType::Filled,
    });
    my_squares.push(Square {
        north_wall: WallType::Clear,
        east_wall: WallType::Clear,
        south_wall: WallType::Clear,
        west_wall: WallType::Impassable,
        square_type: SquareType::Normal,
    });
    my_squares.push(Square {
        north_wall: WallType::Clear,
        east_wall: WallType::Clear,
        south_wall: WallType::Impassable,
        west_wall: WallType::Clear,
        square_type: SquareType::Normal,
    });
    my_squares.push(Square {
        north_wall: WallType::Impassable,
        east_wall: WallType::Impassable,
        south_wall: WallType::Impassable,
        west_wall: WallType::Clear,
        square_type: SquareType::YellowItem,
    });
    my_squares.push(Square {
        north_wall: WallType::Impassable,
        east_wall: WallType::Clear,
        south_wall: WallType::Impassable,
        west_wall: WallType::Impassable,
        square_type: SquareType::PurpleTeleportPad,
    });
    my_squares.push(Square {
        north_wall: WallType::Clear,
        east_wall: WallType::Impassable,
        south_wall: WallType::Clear,
        west_wall: WallType::Clear,
        square_type: SquareType::Normal,
    });
    my_squares.push(Square {
        north_wall: WallType::Impassable,
        east_wall: WallType::Impassable,
        south_wall: WallType::Impassable,
        west_wall: WallType::Impassable,
        square_type: SquareType::Filled,
    });
    my_squares.push(Square {
        north_wall: WallType::Impassable,
        east_wall: WallType::Impassable,
        south_wall: WallType::Impassable,
        west_wall: WallType::Impassable,
        square_type: SquareType::Filled,
    });
    proof {
        assert(my_squares@ =~= tile_6_squares());
    }
    let my_pos = MapPosition { x: 0, y: 0 };
    Tile { squares: my_squares, position: my_pos, name: "6".to_owned(), num_rotations: 0 }
}

/// The authored squares of tile 7, in row-major order.
pub open spec fn tile_7_squares() -> Seq<Square> {
    seq![
        Square {
            north_wall: WallType::Impassable,
            east_wall: WallType::Impassable,
            south_wall: WallType::Impassable,
            west_wall: WallType::Impassable,
            square_type: SquareType::Filled,
        },
        Square {
            north_wall: WallType::Impassable,
            east_wall: WallType::Impassable,
            south_wall: WallType::Impassable,
            west_wall: WallType::Impassable,
            square_type: SquareType::Filled,
        },
        Square {
            north_wall: WallType::Impassable,
            east_wall: WallType::Impassable,
            south_wall: WallType::Clear,
            west_wall: WallType::Impassable,
            square_type: SquareType::GreenTeleportPad,
        },
        Square {
            north_wall: WallType::Impassable,
            east_wall: WallType::Impassable,
            south_wall: WallType::Impassable,
            west_wall: WallType::Impassable,
            square_type: SquareType::Filled,
        },
        Square {
            north_wall: WallType::Impassable,
            east_wall: WallType::Clear,
            south_wall: WallType::Clear,
            west_wall: WallType::Impassable,
            square_type: SquareType::Normal,
        },
        Square {
            north_wall: WallType::Impassable,
            east_wall: WallType::Clear,
            south_wall: WallType::Impassable,
            west_wall: WallType::Clear,
            square_type: SquareType::Normal,
        },
        Square {
            north_wall: WallType::Clear,
            east_wall: WallType::Clear,
            south_wall: WallType::Clear,
            west_wall: WallType::Clear,
            square_type: SquareType::Normal,
        },
        Square {
            north_wall: WallType::Impassable,
            east_wall: WallType::Impassable,
            south_wall: WallType::Clear,
            west_wall: WallType::Clear,
            square_type: SquareType::Normal,
        },
        Square {
            north_wall: WallType::Clear,
            east_wall: WallType::Impassable,
            south_wall: WallType::Impassable,
            west_wall: WallType::Impassable,
            square_type: SquareType::OrangeItem,
        },
        Square {
            north_wall: WallType::Impassable,
            east_wall: WallType::Impassable,
            south_wall: WallType::Impassable,
            west_wall: WallType::Impassable,
            square_type: SquareType::Filled,
        },
        Square {
            north_wall: WallType::Clear,
            east_wall: WallType::Clear,
            south_wall: WallType::Clear,
            west_wall: WallType::Impassable,
            square_type: SquareType::Escalator,
        },
        Square {
            north_wall: WallType::Clear,
            east_wall: WallType::PurpleDoor,
            south_wall: WallType::Impassable,
            west_wall: WallType::Clear,
            square_type: SquareType::Normal,
        },
        Square {
            north_wall: WallType::Impassable,
            east_wall: WallType::Impassable,
            south_wall: WallType::Impassable,
            west_wall: WallType::Impassable,
            square_type: SquareType::Filled,
        },
        Square {
            north_wall: WallType::Impassable,
            east_wall: WallType::Impassable,
            south_wall: WallType::Clear,
            west_wall: WallType::Impassable,
            square_type: SquareType::Escalator,
        },
        Square {
            north_wall: WallType::Clear,
            east_wall: WallType::Impassable,
            south_wall: WallType::Impassable,
            west_wall: WallType::Impassable,
            square_type: SquareType::YellowTeleportPad,
        },
        Square {
            north_wall: WallType::Impassable,
            east_wall: WallType::Impassable,
            south_wall: WallType::Impassable,
            west_wall: WallType::Impassable,
            square_type: SquareType::Filled,
        },
    ]
}

/// Tile 7 as authored: 16 squares at the origin, unrotated.
pub fn tile_7() -> (t: Tile)
    ensures
        t.squares@ == tile_7_squares(),
        t.position == (MapPosition { x: 0, y: 0 }),
        t.name@ == "7"@,
        t.num_rotations == 0,
        tile_wf(t),
{
    let mut my_squares: Vec<Square> = Vec::new();
    my_squares.push(Square {
        north_wall: WallType::Impassable,
        east_wall: WallType::Impassable,
        south_wall: WallType::Impassable,
        west_wall: WallType::Impassable,
        square_type: SquareType::Filled,
    });
    my_squares.push(Square {
        north_wall: WallType::Impassable,
        east_wall: WallType::Impassable,
        south_wall: WallType::Impassable,
        west_wall: WallType::Impassable,
        square_type: SquareType::Filled,
    });
    my_squares.push(Square {
        north_wall: WallType::Impassable,
        east_wall: WallType::Impassable,
        south_wall: WallType::Clear,
        west_wall: WallType::Impassable,
        square_type: SquareType::GreenTeleportPad,
    });
    my_squares.push(Square {
        north_wall: WallType::Impassable,
        east_wall: WallType::Impassable,
        south_wall: WallType::Impassable,
        west_wall: WallType::Impassable,
        square_type: SquareType::Filled,
    });
    my_squares.push(Square {
        north_wall: WallType::Impassable,
        east_wall: WallType::Clear,
        south_wall: WallType::Clear,
        west_wall: WallType::Impassable,
        square_type: SquareType::Normal,
    });
    my_squares.push(Square {
        north_wall: WallType::Impassable,
        east_wall: WallType::Clear,
        south_wall: WallType::Impassable,
        west_wall: WallType::Clear,
        square_type: SquareType::Normal,
    });
    my_squares.push(Square {
        north_wall: WallType::Clear,
        east_wall: WallType::Clear,
        south_wall: WallType::Clear,
        west_wall: WallType::Clear,
        square_type: SquareType::Normal,
    });
    my_squares.push(Square {
        north_wall: WallType::Impassable,
        east_wall: WallType::Impassable,
        south_wall: WallType::Clear,
        west_wall: WallType::Clear,
        square_type: SquareType::Normal,
    });
    my_squares.push(Square {
        north_wall: WallType::Clear,
        east_wall: WallType::Impassable,
        south_wall: WallType::Impassable,
        west_wall: WallType::Impassable,
        square_type: SquareType::OrangeItem,
    });
    my_squares.push(Square {
        north_wall: WallType::Impassable,
        east_wall: WallType::Impassable,
        south_wall: WallType::Impassable,
        west_wall: WallType::Impassable,
        square_type: SquareType::Filled,
    });
    my_squares.push(Square {
        north_wall: WallType::Clear,
        east_wall: WallType::Clear,
        south_wall: WallType::Clear,
        west_wall: WallType::Impassable,
        square_type: SquareType::Escalator,
    });
    my_squares.push(Square {
        north_wall: WallType::Clear,
        east_wall: WallType::PurpleDoor,
        south_wall: WallType::Impassable,
        west_wall: WallType::Clear,
        square_type: SquareType::Normal,
    });
    my_squares.push(Square {
        north_wall: WallType::Impassable,
        east_wall: WallType::Impassable,
        south_wall: WallType::Impassable,
        west_wall: WallType::Impassable,
        square_type: SquareType::Filled,
    });
    my_squares.push(Square {
        north_wall: WallType::Impassable,
        east_wall: WallType::Impassable,
        south_wall: WallType::Clear,
        west_wall: WallType::Impassable,
        square_type: SquareType::Escalator,
    });
    my_squares.push(Square {
        north_wall: WallType::Clear,
        east_wall: WallType::Impassable,
        south_wall: WallType::Impassable,
        west_wall: WallType::Impassable,
        square_type: SquareType::YellowTeleportPad,
    });
    my_squares.push(Square {
        north_wall: WallType::Impassable,
        east_wall: WallType::Impassable,
        south_wall: WallType::Impassable,
        west_wall: WallType::Impassable,
        square_type: SquareType::Filled,
    });
    proof {
        assert(my_squares@ =~= tile_7_squares());
    }
    let my_pos = MapPosition { x: 0, y: 0 };
    Tile { squares: my_squares, position: my_pos, name: "7".to_owned(), num_rotations: 0 }
}

/// The authored squares of tile 8, in row-major order.
pub open spec fn tile_8_squares() -> Seq<Square> {
    seq![
        Square {
            north_wall: WallType::Impassable,
            east_wall: WallType::Clear,
            south_wall: WallType::Clear,
            west_wall: WallType::Impassable,
            square_type: SquareType::Normal,
        },
        Square {
            north_wall: WallType::Impassable,
            east_wall: WallType::Clear,
            south_wall: WallType::Impassable,
            west_wall: WallType::Clear,
            square_type: SquareType::Normal,
        },
        Square {
            north_wall: WallType::Impassable,
            east_wall: WallType::Clear,
            south_wall: WallType::Clear,
            west_wall: WallType::Clear,
            square_type: SquareType::Normal,
        },
        Square {
            north_wall: WallType::Impassable,
            east_wall: WallType::Impassable,
            south_wall: WallType::Clear,
            west_wall: WallType::Clear,
            square_type: SquareType::Normal,
        },
        Square {
            north_wall: WallType::Clear,
            east_wall: WallType::Impassable,
            south_wall: WallType::Impassable,
            west_wall: WallType::OrangeDoor,
            square_type: SquareType::Normal,
        },
        Square {
            north_wall: WallType::Impassable,
            east_wall: WallType::Impassable,
            south_wall: WallType::Impassable,
            west_wall: WallType::Impassable,
            square_type: SquareType::Filled,
        },
        Square {
            north_wall: WallType::Clear,
            east_wall: WallType::Impassable,
            south_wall: WallType::Impassable,
            west_wall: WallType::Impassable,
            square_type: SquareType::YellowTeleportPad,
        },
        Square {
            north_wall: WallType::Clear,
            east_wall: WallType::Impassable,
            south_wall: WallType::Clear,
            west_wall: WallType::Impassable,
            square_type: SquareType::Normal,
        },
        Square {
            north_wall: WallType::Impassable,
            east_wall: WallType::Impassable,
            south_wall: WallType::Impassable,
            west_wall: WallType::Impassable,
            square_type: SquareType::Filled,
        },
        Square {
            north_wall: WallType::Impassable,
            east_wall: WallType::Impassable,
            south_wall: WallType::Impassable,
            west_wall: WallType::Impassable,
            square_type: SquareType::Filled,
        },
        Square {
            north_wall: WallType::Impassable,
            east_wall: WallType::Impassable,
            south_wall: WallType::Impassable,
            west_wall: WallType::Impassable,
            square_type: SquareType::Filled,
        },
        Square {
            north_wall: WallType::Clear,
            east_wall: WallType::PurpleDoor,
            south_wall: WallType::Clear,
            west_wall: WallType::Impassable,
            square_type: SquareType::Normal,
        },
        Square {
            north_wall: WallType::Impassable,
            east_wall: WallType::Clear,
            south_wall: WallType::Impassable,
            west_wall: WallType::Impassable,
            square_type: SquareType::GreenItem,
        },
        Square {
            north_wall: WallType::Impassable,
            east_wall: WallType::Clear,
            south_wall: WallType::Clear,
            west_wall: WallType::Clear,
            square_type: SquareType::Normal,
        },
        Square {
            north_wall: WallType::Impassable,
            east_wall: WallType::Clear,
            south_wall: WallType::Impassable,
            west_wall: WallType::Clear,
            square_type: SquareType::Normal,
        },
        Square {
            north_wall: WallType::Clear,
            east_wall: WallType::Impassable,
            south_wall: WallType::Impassable,
            west_wall: WallType::Clear,
            square_type: SquareType::Normal,
        },
    ]
}

/// Tile 8 as authored: 16 squares at the origin, unrotated.
pub fn tile_8() -> (t: Tile)
    ensures
        t.squares@ == tile_8_squares(),
        t.position == (MapPosition { x: 0, y: 0 }),
        t.name@ == "8"@,
        t.num_rotations == 0,
        tile_wf(t),
{
    let mut my_squares: Vec<Square> = Vec::new();
    my_squares.push(Square {
        north_wall: WallType::Impassable,
        east_wall: WallType::Clear,
        south_wall: WallType::Clear,
        west_wall: WallType::Impassable,
        square_type: SquareType::Normal,
    });
    my_squares.push(Square {
        north_wall: WallType::Impassable,
        east_wall: WallType::Clear,
        south_wall: WallType::Impassable,
        west_wall: WallType::Clear,
        square_type: SquareType::Normal,
    });
    my_squares.push(Square {
        north_wall: WallType::Impassable,
        east_wall: WallType::Clear,
        south_wall: WallType::Clear,
        west_wall: WallType::Clear,
        square_type: SquareType::Normal,
    });
    my_squares.push(Square {
        north_wall: WallType::Impassable,
        east_wall: WallType::Impassable,
        south_wall: WallType::Clear,
        west_wall: WallType::Clear,
        square_type: SquareType::Normal,
    });
    my_squares.push(Square {
        north_wall: WallType::Clear,
        east_wall: WallType::Impassable,
        south_wall: WallType::Impassable,
        west_wall: WallType::OrangeDoor,
        square_type: SquareType::Normal,
    });
    my_squares.push(Square {
        north_wall: WallType::Impassable,
        east_wall: WallType::Impassable,
        south_wall: WallType::Impassable,
        west_wall: WallType::Impassable,
        square_type: SquareType::Filled,
    });
    my_squares.push(Square {
        north_wall: WallType::Clear,
        east_wall: WallType::Impassable,
        south_wall: WallType::Impassable,
        west_wall: WallType::Impassable,
        square_type: SquareType::YellowTeleportPad,
    });
    my_squares.push(Square {
        north_wall: WallType::Clear,
        east_wall: WallType::Impassable,
        south_wall: WallType::Clear,
        west_wall: WallType::Impassable,
        square_type: SquareType::Normal,
    });
    my_squares.push(Square {
        north_wall: WallType::Impassable,
        east_wall: WallType::Impassable,
        south_wall: WallType::Impassable,
        west_wall: WallType::Impassable,
        square_type: SquareType::Filled,
    });
    my_squares.push(Square {
        north_wall: WallType::Impassable,
        east_wall: WallType::Impassable,
        south_wall: WallType::Impassable,
        west_wall: WallType::Impassable,
        square_type: SquareType::Filled,
    });
    my_squares.push(Square {
        north_wall: WallType::Impassable,
        east_wall: WallType::Impassable,
        south_wall: WallType::Impassable,
        west_wall: WallType::Impassable,
        square_type: SquareType::Filled,
    });
    my_squares.push(Square {
        north_wall: WallType::Clear,
        east_wall: WallType::PurpleDoor,
        south_wall: WallType::Clear,
        west_wall: WallType::Impassable,
        square_type: SquareType::Normal,
    });
    my_squares.push(Square {
        north_wall: WallType::Impassable,
        east_wall: WallType::Clear,
        south_wall: WallType::Impassable,
        west_wall: WallType::Impassable,
        square_type: SquareType::GreenItem,
    });
    my_squares.push(Square {
        north_wall: WallType::Impassable,
        east_wall: WallType::Clear,
        south_wall: WallType::Clear,
        west_wall: WallType::Clear,
        square_type: SquareType::Normal,
    });
    my_squares.push(Square {
        north_wall: WallType::Impassable,
        east_wall: WallType::Clear,
        south_wall: WallType::Impassable,
        west_wall: WallType::Clear,
        square_type: SquareType::Normal,
    });
    my_squares.push(Square {
        north_wall: WallType::Clear,
        east_wall: WallType::Impassable,
        south_wall: WallType::Impassable,
        west_wall: WallType::Clear,
        square_type: SquareType::Normal,
    });
    proof {
        assert(my_squares@ =~= tile_8_squares());
    }
    let my_pos = MapPosition { x: 0, y: 0 };
    Tile { squares: my_squares, position: my_pos, name: "8".to_owned(), num_rotations: 0 }
}

/// The authored squares of tile 9, in row-major order.
pub open spec fn tile_9_squares() -> Seq<Square> {
    seq![
        Square {
            north_wall: WallType::Impassable,
            east_wall: WallType::Clear,
            south_wall: WallType::Clear,
            west_wall: WallType::Impassable,
            square_type: SquareType::Normal,
        },
        Square {
            north_wall: WallType::Impassable,
            east_wall: WallType::Clear,
            south_wall: WallType::Impassable,
            west_wall: WallType::Clear,
            square_type: SquareType::Normal,
        },
        Square {
            north_wall: WallType::Impassable,
            east_wall: WallType::Clear,
            south_wall: WallType::Impassable,
            west_wall: WallType::Clear,
            square_type: SquareType::Normal,
        },
        Square {
            north_wall: WallType::Impassable,
            east_wall: WallType::Impassable,
            south_wall: WallType::Clear,
            west_wall: WallType::Clear,
            square_type: SquareType::Normal,
        },
        Square {
            north_wall: WallType::Clear,
            east_wall: WallType::Impassable,
            south_wall: WallType::Clear,
            west_wall: WallType::Impassable,
            square_type: SquareType::Normal,
        },
        Square {
            north_wall: WallType::Impassable,
            east_wall: WallType::Impassable,
            south_wall: WallType::Impassable,
            west_wall: WallType::Impassable,
            square_type: SquareType::Filled,
        },
        Square {
            north_wall: WallType::Impassable,
            east_wall: WallType::Clear,
            south_wall: WallType::Impassable,
            west_wall: WallType::Impassable,
            square_type: SquareType::OrangeTeleportPad,
        },
        Square {
            north_wall: WallType::Clear,
            east_wall: WallType::Impassable,
            south_wall: WallType::Clear,
            west_wall: WallType::Clear,
            square_type: SquareType::Normal,
        },
        Square {
            north_wall: WallType::Clear,
            east_wall: WallType::Clear,
            south_wall: WallType::Impassable,
            west_wall: WallType::Impassable,
            square_type: SquareType::Normal,
        },
        Square {
            north_wall: WallType::Impassable,
            east_wall: WallType::Impassable,
            south_wall: WallType::Clear,
            west_wall: WallType::Clear,
            square_type: SquareType::Normal,
        },
        Square {
            north_wall: WallType::Impassable,
            east_wall: WallType::Impassable,
            south_wall: WallType::Impassable,
            west_wall: WallType::Impassable,
            square_type: SquareType::Filled,
        },
        Square {
            north_wall: WallType::Clear,
            east_wall: WallType::YellowDoor,
            south_wall: WallType::Clear,
            west_wall: WallType::Impassable,
            square_type: SquareType::Normal,
        },
        Square {
            north_wall: WallType::Impassable,
            east_wall: WallType::Impassable,
            south_wall: WallType::Impassable,
            west_wall: WallType::Impassable,
            square_type: SquareType::Filled,
        },
        Square {
            north_wall: WallType::Clear,
            east_wall: WallType::Impassable,
            south_wall: WallType::Clear,
            west_wall: WallType::Impassable,
            square_type: SquareType::Normal,
        },
        Square {
            north_wall: WallType::Impassable,
            east_wall: WallType::Impassable,
            south_wall: WallType::Impassable,
            west_wall: WallType::Impassable,
            square_type: SquareType::Filled,
        },
        Square {
            north_wall: WallType::Clear,
            east_wall: WallType::Impassable,
            south_wall: WallType::Impassable,
            west_wall: WallType::Impassable,
            square_type: SquareType::PurpleItem,
        },
    ]
}

/// Tile 9 as authored: 16 squares at the origin, unrotated.
pub fn tile_9() -> (t: Tile)
    ensures
        t.squares@ == tile_9_squares(),
        t.position == (MapPosition { x: 0, y: 0 }),
        t.name@ == "9"@,
        t.num_rotations == 0,
        tile_wf(t),
{
    let mut my_squares: Vec<Square> = Vec::new();
    my_squares.push(Square {
        north_wall: WallType::Impassable,
        east_wall: WallType::Clear,
        south_wall: WallType::Clear,
        west_wall: WallType::Impassable,
        square_type: SquareType::Normal,
    });
    my_squares.push(Square {
        north_wall: WallType::Impassable,
        east_wall: WallType::Clear,
        south_wall: WallType::Impassable,
        west_wall: WallType::Clear,
        square_type: SquareType::Normal,
    });
    my_squares.push(Square {
        north_wall: WallType::Impassable,
        east_wall: WallType::Clear,
        south_wall: WallType::Impassable,
        west_wall: WallType::Clear,
        square_type: SquareType::Normal,
    });
    my_squares.push(Square {
        north_wall: WallType::Impassable,
        east_wall: WallType::Impassable,
        south_wall: WallType::Clear,
        west_wall: WallType::Clear,
        square_type: SquareType::Normal,
    });
    my_squares.push(Square {
        north_wall: WallType::Clear,
        east_wall: WallType::Impassable,
        south_wall: WallType::Clear,
        west_wall: WallType::Impassable,
        square_type: SquareType::Normal,
    });
    my_squares.push(Square {
        north_wall: WallType::Impassable,
        east_wall: WallType::Impassable,
        south_wall: WallType::Impassable,
        west_wall: WallType::Impassable,
        square_type: SquareType::Filled,
    });
    my_squares.push(Square {
        north_wall: WallType::Impassable,
        east_wall: WallType::Clear,
        south_wall: WallType::Impassable,
        west_wall: WallType::Impassable,
        square_type: SquareType::OrangeTeleportPad,
    });
    my_squares.push(Square {
        north_wall: WallType::Clear,
        east_wall: WallType::Impassable,
        south_wall: WallType::Clear,
        west_wall: WallType::Clear,
        square_type: SquareType::Normal,
    });
    my_squares.push(Square {
        north_wall: WallType::Clear,
        east_wall: WallType::Clear,
        south_wall: WallType::Impassable,
        west_wall: WallType::Impassable,
        square_type: SquareType::Normal,
    });
    my_squares.push(Square {
        north_wall: WallType::Impassable,
        east_wall: WallType::Impassable,
        south_wall: WallType::Clear,
        west_wall: WallType::Clear,
        square_type: SquareType::Normal,
    });
    my_squares.push(Square {
        north_wall: WallType::Impassable,
        east_wall: WallType::Impassable,
        south_wall: WallType::Impassable,
        west_wall: WallType::Impassable,
        square_type: SquareType::Filled,
    });
    my_squares.push(Square {
        north_wall: WallType::Clear,
        east_wall: WallType::YellowDoor,
        south_wall: WallType::Clear,
        west_wall: WallType::Impassable,
        square_type: SquareType::Normal,
    });
    my_squares.push(Square {
        north_wall: WallType::Impassable,
        east_wall: WallType::Impassable,
        south_wall: WallType::Impassable,
        west_wall: WallType::Impassable,
        square_type: SquareType::Filled,
    });
    my_squares.push(Square {
        north_wall: WallType::Clear,
        east_wall: WallType::Impassable,
        south_wall: WallType::Clear,
        west_wall: WallType::Impassable,
        square_type: SquareType::Normal,
    });
    my_squares.push(Square {
        north_wall: WallType::Impassable,
        east_wall: WallType::Impassable,
        south_wall: WallType::Impassable,
        west_wall: WallType::Impassable,
        square_type: SquareType::Filled,
    });
    my_squares.push(Square {
        north_wall: WallType::Clear,
        east_wall: WallType::Impassable,
        south_wall: WallType::Impassable,
        west_wall: WallType::Impassable,
        square_type: SquareType::PurpleItem,
    });
    proof {
        assert(my_squares@ =~= tile_9_squares());
    }
    let my_pos = MapPosition { x: 0, y: 0 };
    Tile { squares: my_squares, position: my_pos, name: "9".to_owned(), num_rotations: 0 }
}

/// The default deck for a fresh game: every authored tile except the
/// starting tile, in authoring order.
pub fn load_tiles_from_json() -> (r: Vec<Tile>)
    ensures
        r@.len() == 8,
        r@[0].squares@ == tile_2_squares(),
        r@[0].name@ == "2"@,
        r@[0].position == (MapPosition { x: 0, y: 0 }),
        r@[0].num_rotations == 0,
        r@[1].squares@ == tile_3_squares(),
        r@[1].name@ == "3"@,
        r@[1].position == (MapPosition { x: 0, y: 0 }),
        r@[1].num_rotations == 0,
        r@[2].squares@ == tile_4_squares(),
        r@[2].name@ == "4"@,
        r@[2].position == (MapPosition { x: 0, y: 0 }),
        r@[2].num_rotations == 0,
        r@[3].squares@ == tile_5_squares(),
        r@[3].name@ == "5"@,
        r@[3].position == (MapPosition { x: 0, y: 0 }),
        r@[3].num_rotations == 0,
        r@[4].squares@ == tile_6_squares(),
        r@[4].name@ == "6"@,
        r@[4].position == (MapPosition { x: 0, y: 0 }),
        r@[4].num_rotations == 0,
        r@[5].squares@ == tile_7_squares(),
        r@[5].name@ == "7"@,
        r@[5].position == (MapPosition { x: 0, y: 0 }),
        r@[5].num_rotations == 0,
        r@[6].squares@ == tile_8_squares(),
        r@[6].name@ == "8"@,
        r@[6].position == (MapPosition { x: 0, y: 0 }),
        r@[6].num_rotations == 0,
        r@[7].squares@ == tile_9_squares(),
        r@[7].name@ == "9"@,
        r@[7].position == (MapPosition { x: 0, y: 0 }),
        r@[7].num_rotations == 0,
        forall|i: int| 0 <= i < 8 ==> tile_wf(#[trigger] r@[i]),
{
    let mut tile_deck: Vec<Tile> = Vec::new();
    tile_deck.push(tile_2());
    tile_deck.push(tile_3());
    tile_deck.push(tile_4());
    tile_deck.push(tile_5());
    tile_deck.push(tile_6());
    tile_deck.push(tile_7());
    tile_deck.push(tile_8());
    tile_deck.push(tile_9());
    tile_deck
}

/// The squares and name of each tile a deck holds, tile by tile.
pub open spec fn deck_view(s: Seq<Tile>) -> Seq<(Seq<Square>, Seq<char>)> {
    Seq::new(s.len(), |i: int| (s[i].squares@, s[i].name@))
}

/// The authored deck by contents: the squares and name of each drawable
/// tile, in authoring order.
pub open spec fn authored_deck_view() -> Seq<(Seq<Square>, Seq<char>)> {
    seq![
        (tile_2_squares(), "2"@),
        (tile_3_squares(), "3"@),
        (tile_4_squares(), "4"@),
        (tile_5_squares(), "5"@),
        (tile_6_squares(), "6"@),
        (tile_7_squares(), "7"@),
        (tile_8_squares(), "8"@),
        (tile_9_squares(), "9"@),
    ]
}

} // verus!
