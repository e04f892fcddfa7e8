//! Head movements and the toroidal geometry of the grid.

use vstd::prelude::*;

verus! {

/// A movement of the head by one cell. The grid wraps around on both axes.
/// Every step moves the head: there is no move that stays in place.
#[derive(Clone, Copy, Debug, PartialEq, Eq, Structural)]
pub enum Direction {
    North,
    East,
    South,
    West,
}

/// The number of directions a table entry chooses among.
pub const DIRECTION_COUNT: u8 = 4;

/// The direction numbered `i`, in the order North, East, South, West.
pub open spec fn direction_of_index(i: nat) -> Direction {
    if i == 0 {
        Direction::North
    } else if i == 1 {
        Direction::East
    } else if i == 2 {
        Direction::South
    } else {
        Direction::West
    }
}

/// Column of a cell of a grid `width` cells wide.
pub open spec fn column(position: nat, width: nat) -> nat
    recommends
        width > 0,
{
    position % width
}

/// Row of a cell of a grid `width` cells wide.
pub open spec fn row(position: nat, width: nat) -> nat
    recommends
        width > 0,
{
    position / width
}

/// The column reached from `x` by `dir`, wrapping at the edges.
pub open spec fn moved_column(x: nat, dir: Direction, width: nat) -> nat {
    match dir {
        Direction::East => if x + 1 == width { 0 } else { x + 1 },
        Direction::West => if x == 0 { (width - 1) as nat } else { (x - 1) as nat },
        _ => x,
    }
}

/// The row reached from `y` by `dir`, wrapping at the edges.
pub open spec fn moved_row(y: nat, dir: Direction, height: nat) -> nat {
    match dir {
        Direction::South => if y + 1 == height { 0 } else { y + 1 },
        Direction::North => if y == 0 { (height - 1) as nat } else { (y - 1) as nat },
        _ => y,
    }
}

/// The cell reached from `position` by `dir` on a `width` by `height` torus.
pub open spec fn moved_position(position: nat, dir: Direction, width: nat, height: nat) -> nat {
    moved_row(row(position, width), dir, height) * width + moved_column(
        column(position, width),
        dir,
        width,
    )
}

impl Direction {
    /// The direction numbered `i`, in the order North, East, South, West.
    pub fn from_index(i: u8) -> (r: Direction)
        requires
            i < DIRECTION_COUNT,
        ensures
            r == direction_of_index(i as nat),
    {
        if i == 0 {
            Direction::North
        } else if i == 1 {
            Direction::East
        } else if i == 2 {
            Direction::South
        } else {
            Direction::West
        }
    }
}

/// A move keeps the head on the grid.
pub proof fn lemma_moved_in_bounds(position: nat, dir: Direction, width: nat, height: nat)
    requires
        width >= 1,
        height >= 1,
        position < width * height,
    ensures
        moved_position(position, dir, width, height) < width * height,
        column(moved_position(position, dir, width, height), width) == moved_column(
            column(position, width),
            dir,
            width,
        ),
        row(moved_position(position, dir, width, height), width) == moved_row(
            row(position, width),
            dir,
            height,
        ),
{
    let x = column(position, width);
    let y = row(position, width);
    assert(x < width) by (nonlinear_arith)
        requires
            x == position % width,
            width >= 1,
    ;
    assert(y < height) by (nonlinear_arith)
        requires
            y == position / width,
            position < width * height,
            width >= 1,
    ;
    let nx = moved_column(x, dir, width);
    let ny = moved_row(y, dir, height);
    assert(nx < width);
    assert(ny < height);
    assert(ny * width + nx < width * height) by (nonlinear_arith)
        requires
            nx < width,
            ny < height,
    ;
    assert((ny * width + nx) % width == nx && (ny * width + nx) / width == ny) by (nonlinear_arith)
        requires
            nx < width,
            width >= 1,
    ;
}

/// Each axis wraps on its own: North from the top row reaches the bottom row,
/// South from the bottom row reaches the top row, West from the first column
/// reaches the last column and East from the last column reaches the first.
pub proof fn lemma_edges_wrap(x: nat, y: nat, width: nat, height: nat)
    requires
        width >= 1,
        height >= 1,
        x < width,
        y < height,
    ensures
        y == 0 ==> moved_row(y, Direction::North, height) == height - 1,
        y == height - 1 ==> moved_row(y, Direction::South, height) == 0,
        x == 0 ==> moved_column(x, Direction::West, width) == width - 1,
        x == width - 1 ==> moved_column(x, Direction::East, width) == 0,
        moved_row(y, Direction::East, height) == y,
        moved_row(y, Direction::West, height) == y,
        moved_column(x, Direction::North, width) == x,
        moved_column(x, Direction::South, width) == x,
{
}

} // verus!
