//! The state of a single grid position and the rule that decides its next state.

use vstd::prelude::*;

verus! {

/// One grid position's binary state.
///
/// The variants are declared in the order of their byte values: `Dead` is 0
/// and `Alive` is 1.
#[derive(Clone, Copy, Debug, PartialEq, Eq, Structural)]
pub enum Cell {
    Dead,
    Alive,
}

impl Cell {
    /// The byte that stands for this state towards a renderer: 0 for `Dead`,
    /// 1 for `Alive`.
    pub open spec fn byte(self) -> int {
        match self {
            Cell::Dead => 0,
            Cell::Alive => 1,
        }
    }

    /// The character that shows this state in a text rendering: a white
    /// medium square for `Dead`, a black medium square for `Alive`.
    pub open spec fn glyph(self) -> char {
        match self {
            Cell::Dead => '\u{25FB}',
            Cell::Alive => '\u{25FC}',
        }
    }

    /// The state that follows this one in the next generation, for a cell
    /// with `live_neighbors` live cells around it: a live cell survives with
    /// two or three live neighbours, a dead cell comes to life with exactly
    /// three, and every other cell is dead.
    pub open spec fn next(self, live_neighbors: int) -> Cell {
        match self {
            Cell::Alive => if live_neighbors == 2 || live_neighbors == 3 {
                Cell::Alive
            } else {
                Cell::Dead
            },
            Cell::Dead => if live_neighbors == 3 {
                Cell::Alive
            } else {
                Cell::Dead
            },
        }
    }

    /// Returns the byte that stands for this state.
    pub fn to_byte(self) -> (b: u8)
        ensures
            b == self.byte(),
    {
        match self {
            Cell::Dead => 0,
            Cell::Alive => 1,
        }
    }

    /// Applies the transition rule to this state and a count of live
    /// neighbours. The rule is total: it has an answer for every count.
    pub fn next_state(self, live_neighbors: u8) -> (c: Cell)
        ensures
            c == self.next(live_neighbors as int),
    {
        match self {
            Cell::Alive => if live_neighbors == 2 || live_neighbors == 3 {
                Cell::Alive
            } else {
                Cell::Dead
            },
            Cell::Dead => if live_neighbors == 3 {
                Cell::Alive
            } else {
                Cell::Dead
            },
        }
    }
}

} // verus!
