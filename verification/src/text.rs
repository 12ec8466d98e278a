//! Verified construction of the engine's human-readable strings: decimal
//! rendering of coordinates and the parameterized rejection messages.

use vstd::prelude::*;

use crate::types::{GameStatus, HeisterColor, MapPosition, WallType};

verus! {

pub open spec fn digit_char(d: int) -> char {
    if d == 0 {
        '0'
    } else if d == 1 {
        '1'
    } else if d == 2 {
        '2'
    } else if d == 3 {
        '3'
    } else if d == 4 {
        '4'
    } else if d == 5 {
        '5'
    } else if d == 6 {
        '6'
    } else if d == 7 {
        '7'
    } else if d == 8 {
        '8'
    } else {
        '9'
    }
}

/// The decimal digits of a nonnegative integer, most significant first.
pub open spec fn dec_digits(n: int) -> Seq<char>
    recommends
        n >= 0,
    decreases n,
{
    if n < 10 {
        seq![digit_char(n)]
    } else {
        dec_digits(n / 10).push(digit_char(n % 10))
    }
}

/// The decimal rendering of a possibly negative integer, as `i32` prints.
pub open spec fn i32_dec(n: int) -> Seq<char> {
    if n < 0 {
        seq!['-'] + dec_digits(-n)
    } else {
        dec_digits(n)
    }
}

fn push_digit(s: &mut String, d: u32)
    requires
        d < 10,
    ensures
        final(s)@ == old(s)@ + seq![digit_char(d as int)],
{
    match d {
        0 => {
            s.append("0");
            proof {
                reveal_strlit("0");
                assert(old(s)@ + "0"@ =~= old(s)@ + seq![digit_char(0)]);
            }
        }
        1 => {
            s.append("1");
            proof {
                reveal_strlit("1");
                assert(old(s)@ + "1"@ =~= old(s)@ + seq![digit_char(1)]);
            }
        }
        2 => {
            s.append("2");
            proof {
                reveal_strlit("2");
                assert(old(s)@ + "2"@ =~= old(s)@ + seq![digit_char(2)]);
            }
        }
        3 => {
            s.append("3");
            proof {
                reveal_strlit("3");
                assert(old(s)@ + "3"@ =~= old(s)@ + seq![digit_char(3)]);
            }
        }
        4 => {
            s.append("4");
            proof {
                reveal_strlit("4");
                assert(old(s)@ + "4"@ =~= old(s)@ + seq![digit_char(4)]);
            }
        }
        5 => {
            s.append("5");
            proof {
                reveal_strlit("5");
                assert(old(s)@ + "5"@ =~= old(s)@ + seq![digit_char(5)]);
            }
        }
        6 => {
            s.append("6");
            proof {
                reveal_strlit("6");
                assert(old(s)@ + "6"@ =~= old(s)@ + seq![digit_char(6)]);
            }
        }
        7 => {
            s.append("7");
            proof {
                reveal_strlit("7");
                assert(old(s)@ + "7"@ =~= old(s)@ + seq![digit_char(7)]);
            }
        }
        8 => {
            s.append("8");
            proof {
                reveal_strlit("8");
                assert(old(s)@ + "8"@ =~= old(s)@ + seq![digit_char(8)]);
            }
        }
        _ => {
            s.append("9");
            proof {
                reveal_strlit("9");
                assert(old(s)@ + "9"@ =~= old(s)@ + seq![digit_char(9)]);
            }
        }
    }
}

/// Appends the decimal digits of `n` to `s`.
pub fn push_u32_dec(s: &mut String, n: u32)
    ensures
        final(s)@ == old(s)@ + dec_digits(n as int),
    decreases n,
{
    if n >= 10 {
        push_u32_dec(s, n / 10);
        push_digit(s, n % 10);
        proof {
            assert(s@ =~= old(s)@ + dec_digits(n as int));
        }
    } else {
        push_digit(s, n);
    }
}

/// Appends the decimal rendering of `n`, with a leading minus sign when it
/// is negative.
pub fn push_i32_dec(s: &mut String, n: i32)
    ensures
        final(s)@ == old(s)@ + i32_dec(n as int),
{
    if n >= 0 {
        push_u32_dec(s, n as u32);
    } else {
        s.append("-");
        let m: u32 = (-(n as i64)) as u32;
        push_u32_dec(s, m);
        proof {
            reveal_strlit("-");
            assert("-"@ =~= seq!['-']);
            assert(s@ =~= old(s)@ + i32_dec(n as int));
        }
    }
}

/// How a position prints: the struct name with both coordinates.
pub open spec fn pos_text(p: MapPosition) -> Seq<char> {
    "MapPosition { x: "@ + i32_dec(p.x as int) + ", y: "@ + i32_dec(p.y as int) + " }"@
}

/// Appends `pos_text(p)` to `s`.
pub fn push_pos(s: &mut String, p: &MapPosition)
    ensures
        final(s)@ == old(s)@ + pos_text(*p),
{
    s.append("MapPosition { x: ");
    push_i32_dec(s, p.x);
    s.append(", y: ");
    push_i32_dec(s, p.y);
    s.append(" }");
    proof {
        assert(s@ =~= old(s)@ + pos_text(*p));
    }
}

/// How a heister color prints.
pub open spec fn color_text(c: HeisterColor) -> Seq<char> {
    match c {
        HeisterColor::Yellow => "Yellow"@,
        HeisterColor::Purple => "Purple"@,
        HeisterColor::Green => "Green"@,
        HeisterColor::Orange => "Orange"@,
    }
}

pub fn push_color(s: &mut String, c: HeisterColor)
    ensures
        final(s)@ == old(s)@ + color_text(c),
{
    match c {
        HeisterColor::Yellow => s.append("Yellow"),
        HeisterColor::Purple => s.append("Purple"),
        HeisterColor::Green => s.append("Green"),
        HeisterColor::Orange => s.append("Orange"),
    }
}

/// How a wall type prints.
pub open spec fn wall_text(w: WallType) -> Seq<char> {
    match w {
        WallType::Clear => "Clear"@,
        WallType::Impassable => "Impassable"@,
        WallType::PurpleDoor => "PurpleDoor"@,
        WallType::OrangeDoor => "OrangeDoor"@,
        WallType::GreenDoor => "GreenDoor"@,
        WallType::YellowDoor => "YellowDoor"@,
    }
}

pub fn push_wall(s: &mut String, w: WallType)
    ensures
        final(s)@ == old(s)@ + wall_text(w),
{
    match w {
        WallType::Clear => s.append("Clear"),
        WallType::Impassable => s.append("Impassable"),
        WallType::PurpleDoor => s.append("PurpleDoor"),
        WallType::OrangeDoor => s.append("OrangeDoor"),
        WallType::GreenDoor => s.append("GreenDoor"),
        WallType::YellowDoor => s.append("YellowDoor"),
    }
}

/// How a game status prints.
pub open spec fn status_text(st: GameStatus) -> Seq<char> {
    match st {
        GameStatus::Staging => "Staging"@,
        GameStatus::PreFirstMove => "PreFirstMove"@,
        GameStatus::Ongoing => "Ongoing"@,
        GameStatus::Victory => "Victory"@,
        GameStatus::Defeat => "Defeat"@,
    }
}

pub fn push_status(s: &mut String, st: GameStatus)
    ensures
        final(s)@ == old(s)@ + status_text(st),
{
    match st {
        GameStatus::Staging => s.append("Staging"),
        GameStatus::PreFirstMove => s.append("PreFirstMove"),
        GameStatus::Ongoing => s.append("Ongoing"),
        GameStatus::Victory => s.append("Victory"),
        GameStatus::Defeat => s.append("Defeat"),
    }
}

pub open spec fn msg_occupied(c: HeisterColor, p: MapPosition) -> Seq<char> {
    "Heister "@ + color_text(c) + " is on "@ + pos_text(p)
}

/// The rejection naming the color that already occupies the destination.
pub fn occupied_message(c: HeisterColor, p: &MapPosition) -> (r: String)
    ensures
        r@ == msg_occupied(c, *p),
{
    let mut s = String::new();
    s.append("Heister ");
    push_color(&mut s, c);
    s.append(" is on ");
    push_pos(&mut s, p);
    proof {
        assert(s@ =~= msg_occupied(c, *p));
    }
    s
}

pub open spec fn msg_square_not_escalator(p: MapPosition) -> Seq<char> {
    "Square at "@ + pos_text(p) + " is not escalator"@
}

pub fn square_not_escalator_message(p: &MapPosition) -> (r: String)
    ensures
        r@ == msg_square_not_escalator(*p),
{
    let mut s = String::new();
    s.append("Square at ");
    push_pos(&mut s, p);
    s.append(" is not escalator");
    proof {
        assert(s@ =~= msg_square_not_escalator(*p));
    }
    s
}

pub open spec fn msg_position_not_in_grid(p: MapPosition) -> Seq<char> {
    "Position "@ + pos_text(p) + " not found in grid"@
}

pub fn position_not_in_grid_message(p: &MapPosition) -> (r: String)
    ensures
        r@ == msg_position_not_in_grid(*p),
{
    let mut s = String::new();
    s.append("Position ");
    push_pos(&mut s, p);
    s.append(" not found in grid");
    proof {
        assert(s@ =~= msg_position_not_in_grid(*p));
    }
    s
}

pub open spec fn msg_dest_not_on_grid(p: MapPosition) -> Seq<char> {
    "Destination is not on the grid: "@ + pos_text(p)
}

pub fn dest_not_on_grid_message(p: &MapPosition) -> (r: String)
    ensures
        r@ == msg_dest_not_on_grid(*p),
{
    let mut s = String::new();
    s.append("Destination is not on the grid: ");
    push_pos(&mut s, p);
    proof {
        assert(s@ =~= msg_dest_not_on_grid(*p));
    }
    s
}

pub open spec fn msg_position_not_on_map(p: MapPosition) -> Seq<char> {
    "Position "@ + pos_text(p) + " not on map"@
}

pub fn position_not_on_map_message(p: &MapPosition) -> (r: String)
    ensures
        r@ == msg_position_not_on_map(*p),
{
    let mut s = String::new();
    s.append("Position ");
    push_pos(&mut s, p);
    s.append(" not on map");
    proof {
        assert(s@ =~= msg_position_not_on_map(*p));
    }
    s
}

pub open spec fn msg_heister_square_missing(p: MapPosition) -> Seq<char> {
    "Heister square "@ + pos_text(p) + " doesn't exist"@
}

pub fn heister_square_missing_message(p: &MapPosition) -> (r: String)
    ensures
        r@ == msg_heister_square_missing(*p),
{
    let mut s = String::new();
    s.append("Heister square ");
    push_pos(&mut s, p);
    s.append(" doesn't exist");
    proof {
        assert(s@ =~= msg_heister_square_missing(*p));
    }
    s
}

pub open spec fn msg_wall_blocked(w: WallType) -> Seq<char> {
    "Wall "@ + wall_text(w) + " cannot be passed through"@
}

/// The rejection for a door wall the acting heister may not pass.
pub fn wall_blocked_message(w: WallType) -> (r: String)
    ensures
        r@ == msg_wall_blocked(w),
{
    let mut s = String::new();
    s.append("Wall ");
    push_wall(&mut s, w);
    s.append(" cannot be passed through");
    proof {
        assert(s@ =~= msg_wall_blocked(w));
    }
    s
}

pub open spec fn msg_cannot_move_through(p: MapPosition) -> Seq<char> {
    "Cannot move through position "@ + pos_text(p) + " because it does not exist."@
}

pub fn cannot_move_through_message(p: &MapPosition) -> (r: String)
    ensures
        r@ == msg_cannot_move_through(*p),
{
    let mut s = String::new();
    s.append("Cannot move through position ");
    push_pos(&mut s, p);
    s.append(" because it does not exist.");
    proof {
        assert(s@ =~= msg_cannot_move_through(*p));
    }
    s
}

pub open spec fn msg_game_not_accepting(handle: Seq<char>, st: GameStatus) -> Seq<char> {
    "Game \""@ + handle + "\" is in state "@ + status_text(st) + " and is not accepting moves"@
}

/// The rejection for a message arriving once the game is over; the handle is
/// rendered between plain double quotes.
pub fn game_not_accepting_message(handle: &String, st: GameStatus) -> (r: String)
    ensures
        r@ == msg_game_not_accepting(handle@, st),
{
    let mut s = String::new();
    s.append("Game \"");
    s.append(handle.as_str());
    s.append("\" is in state ");
    push_status(&mut s, st);
    s.append(" and is not accepting moves");
    proof {
        assert(s@ =~= msg_game_not_accepting(handle@, st));
    }
    s
}

pub open spec fn msg_no_tile_found(p: MapPosition) -> Seq<char> {
    "No tile found at pos "@ + pos_text(p)
}

/// The inner reason when no placed tile sits at the expected position.
pub fn no_tile_found_message(p: &MapPosition) -> (r: String)
    ensures
        r@ == msg_no_tile_found(*p),
{
    let mut s = String::new();
    s.append("No tile found at pos ");
    push_pos(&mut s, p);
    proof {
        assert(s@ =~= msg_no_tile_found(*p));
    }
    s
}

/// Whether two strings hold the same characters.
pub fn str_eq(a: &str, b: &str) -> (r: bool)
    ensures
        r == (a@ == b@),
{
    let la = a.unicode_len();
    let lb = b.unicode_len();
    if la != lb {
        return false;
    }
    let mut i: usize = 0;
    while i < la
        invariant
            la == a@.len(),
            la == b@.len(),
            i <= la,
            forall|j: int| 0 <= j < i ==> a@[j] == b@[j],
        decreases la - i,
    {
        if a.get_char(i) != b.get_char(i) {
            return false;
        }
        i = i + 1;
    }
    proof {
        assert(a@ =~= b@);
    }
    true
}

/// Whether two owned strings hold the same characters.
pub fn string_eq(a: &String, b: &String) -> (r: bool)
    ensures
        r == (a@ == b@),
{
    str_eq(a.as_str(), b.as_str())
}

} // verus!
