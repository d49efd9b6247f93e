//! The LED border walk: a four-phase cyclic sequencer that lights one cell of
//! a five-by-five image at a time, walking the border clockwise. The display
//! hardware is driven elsewhere; here the state, its transitions, and the
//! image updates are verified.

use vstd::prelude::*;

verus! {

broadcast use vstd::array::group_array_axioms;

/// Where the walk stands: which border line it is on, and the one-based
/// coordinate along it.
#[derive(Debug, Clone, Copy, PartialEq, Eq, Structural)]
pub enum State {
    Row1GoingRight { col: u16 },
    Col5GoingDown { row: u16 },
    Row5GoingLeft { col: u16 },
    Col1GoingUp { row: u16 },
}

impl State {
    /// A state is well formed when its coordinate lies on the board.
    pub open spec fn well_formed(self) -> bool {
        match self {
            State::Row1GoingRight { col } => 1 <= col <= 5,
            State::Col5GoingDown { row } => 1 <= row <= 5,
            State::Row5GoingLeft { col } => 1 <= col <= 5,
            State::Col1GoingUp { row } => 1 <= row <= 5,
        }
    }

    /// The successor of a state: one step along the border, turning at each
    /// corner (the corner cell itself was lit by the phase before, so each
    /// new phase starts one cell in).
    pub open spec fn next_spec(self) -> State {
        match self {
            State::Row1GoingRight { col } => if col == 5 {
                State::Col5GoingDown { row: 2 }
            } else {
                State::Row1GoingRight { col: (col + 1) as u16 }
            },
            State::Col5GoingDown { row } => if row == 5 {
                State::Row5GoingLeft { col: 4 }
            } else {
                State::Col5GoingDown { row: (row + 1) as u16 }
            },
            State::Row5GoingLeft { col } => if col == 1 {
                State::Col1GoingUp { row: 4 }
            } else {
                State::Row5GoingLeft { col: (col - 1) as u16 }
            },
            State::Col1GoingUp { row } => if row == 1 {
                State::Row1GoingRight { col: 2 }
            } else {
                State::Col1GoingUp { row: (row - 1) as u16 }
            },
        }
    }

    /// The image cell a state lights, as zero-based row and column, or
    /// nothing when the coordinate is off the board.
    pub open spec fn target_cell(self) -> Option<(int, int)> {
        match self {
            State::Row1GoingRight { col } => if 1 <= col <= 5 {
                Some((0int, col - 1))
            } else {
                None
            },
            State::Col5GoingDown { row } => if 1 <= row <= 5 {
                Some((row - 1, 4int))
            } else {
                None
            },
            State::Row5GoingLeft { col } => if 1 <= col <= 5 {
                Some((4int, col - 1))
            } else {
                None
            },
            State::Col1GoingUp { row } => if 1 <= row <= 5 {
                Some((row - 1, 0int))
            } else {
                None
            },
        }
    }

    /// The first state of the walk: the top-left corner.
    pub fn start() -> (s: State)
        ensures
            s == (State::Row1GoingRight { col: 1u16 }),
            s.well_formed(),
    {
        State::Row1GoingRight { col: 1 }
    }

    /// Steps to the successor state; a well-formed state stays well formed,
    /// so the walk never leaves the border.
    pub fn next(&self) -> (s: State)
        requires
            self.well_formed(),
        ensures
            s == self.next_spec(),
            s.well_formed(),
    {
        match self {
            State::Row1GoingRight { col } => if *col == 5 {
                State::Col5GoingDown { row: 2 }
            } else {
                State::Row1GoingRight { col: col + 1 }
            },
            State::Col5GoingDown { row } => if *row == 5 {
                State::Row5GoingLeft { col: 4 }
            } else {
                State::Col5GoingDown { row: row + 1 }
            },
            State::Row5GoingLeft { col } => if *col == 1 {
                State::Col1GoingUp { row: 4 }
            } else {
                State::Row5GoingLeft { col: col - 1 }
            },
            State::Col1GoingUp { row } => if *row == 1 {
                State::Row1GoingRight { col: 2 }
            } else {
                State::Col1GoingUp { row: row - 1 }
            },
        }
    }

    /// Writes `val` into the cell this state lights; a state whose coordinate
    /// is off the board clears the whole image instead.
    pub fn assign(&self, image_buffer: &mut [[u8; 5]; 5], val: u8)
        ensures
            self.target_cell() matches Some(cell) ==> forall|i: int, j: int|
                0 <= i < 5 && 0 <= j < 5 ==> final(image_buffer)@[i]@[j] == (if (i, j) == cell {
                    val
                } else {
                    old(image_buffer)@[i]@[j]
                }),
            self.target_cell() is None ==> forall|i: int, j: int|
                0 <= i < 5 && 0 <= j < 5 ==> final(image_buffer)@[i]@[j] == 0,
    {
        match self {
            State::Row1GoingRight { col } => if 1 <= *col && *col <= 5 {
                image_buffer[0][(col - 1) as usize] = val;
                return ;
            },
            State::Col5GoingDown { row } => if 1 <= *row && *row <= 5 {
                image_buffer[(row - 1) as usize][4] = val;
                return ;
            },
            State::Row5GoingLeft { col } => if 1 <= *col && *col <= 5 {
                image_buffer[4][(col - 1) as usize] = val;
                return ;
            },
            State::Col1GoingUp { row } => if 1 <= *row && *row <= 5 {
                image_buffer[(row - 1) as usize][0] = val;
                return ;
            },
        }
        *image_buffer = [[0u8;5];5];
    }

    /// Lights this state's cell.
    pub fn set(&self, image_buffer: &mut [[u8; 5]; 5])
        ensures
            self.target_cell() matches Some(cell) ==> forall|i: int, j: int|
                0 <= i < 5 && 0 <= j < 5 ==> final(image_buffer)@[i]@[j] == (if (i, j) == cell {
                    1u8
                } else {
                    old(image_buffer)@[i]@[j]
                }),
            self.target_cell() is None ==> forall|i: int, j: int|
                0 <= i < 5 && 0 <= j < 5 ==> final(image_buffer)@[i]@[j] == 0,
    {
        self.assign(image_buffer, 1u8);
    }

    /// Darkens this state's cell.
    pub fn reset(&self, image_buffer: &mut [[u8; 5]; 5])
        ensures
            self.target_cell() matches Some(cell) ==> forall|i: int, j: int|
                0 <= i < 5 && 0 <= j < 5 ==> final(image_buffer)@[i]@[j] == (if (i, j) == cell {
                    0u8
                } else {
                    old(image_buffer)@[i]@[j]
                }),
            self.target_cell() is None ==> forall|i: int, j: int|
                0 <= i < 5 && 0 <= j < 5 ==> final(image_buffer)@[i]@[j] == 0,
    {
        self.assign(image_buffer, 0u8);
    }
}

} // verus!
