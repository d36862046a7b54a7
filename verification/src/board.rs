//! Board geometry: squares, pieces and the pure coordinate arithmetic that
//! yields the diagonal simple-move and jump targets of a square.

use vstd::prelude::*;

verus! {

/// The two sides of the game. Black starts nearer row 7 and moves toward
/// decreasing y; White starts nearer row 0 and moves toward increasing y.
#[derive(Debug, Copy, Clone, PartialEq, Eq, Structural)]
pub enum PieceColor {
    White,
    Black,
}

/// A piece on the board: its side, and whether it has been crowned.
#[derive(Debug, Clone, Copy, PartialEq, Eq, Structural)]
pub struct GamePiece {
    pub color: PieceColor,
    pub crowned: bool,
}

impl GamePiece {
    /// Creates an un-crowned piece of the given color.
    pub fn new(color: PieceColor) -> (piece: GamePiece)
        ensures
            piece == (GamePiece { color, crowned: false }),
    {
        GamePiece { color, crowned: false }
    }

    /// Returns the crowned form of a piece, keeping its color.
    pub fn crowned(piece: GamePiece) -> (crowned_piece: GamePiece)
        ensures
            crowned_piece == (GamePiece { color: piece.color, crowned: true }),
    {
        GamePiece { color: piece.color, crowned: true }
    }
}

/// An (x, y) square address. A coordinate is on the board exactly when both
/// components lie in [0, 7].
#[derive(Debug, Clone, PartialEq, Eq, Structural, Copy)]
pub struct Coordinate(pub usize, pub usize);

impl Coordinate {
    /// Both components lie in [0, 7].
    pub open spec fn on_board_spec(self) -> bool {
        self.0 <= 7 && self.1 <= 7
    }

    /// The up-to-four diagonal neighbors at distance 2, in fixed order:
    /// (x+2, y-2) if y >= 2, then (x+2, y+2), then (x-2, y-2) if x >= 2 and
    /// y >= 2, then (x-2, y+2) if x >= 2. Directions that would take a
    /// component below zero are omitted; components above 7 are kept and
    /// left for callers to filter.
    pub open spec fn jump_targets(self) -> Seq<Coordinate> {
        (if self.1 >= 2 {
            seq![Coordinate((self.0 + 2) as usize, (self.1 - 2) as usize)]
        } else {
            Seq::empty()
        }) + seq![Coordinate((self.0 + 2) as usize, (self.1 + 2) as usize)] + (if self.0 >= 2
            && self.1 >= 2 {
            seq![Coordinate((self.0 - 2) as usize, (self.1 - 2) as usize)]
        } else {
            Seq::empty()
        }) + (if self.0 >= 2 {
            seq![Coordinate((self.0 - 2) as usize, (self.1 + 2) as usize)]
        } else {
            Seq::empty()
        })
    }

    /// The up-to-four diagonal neighbors at distance 1, in fixed order:
    /// (x-1, y+1) if x >= 1, then (x+1, y+1), then (x+1, y-1) if y >= 1,
    /// then (x-1, y-1) if x >= 1 and y >= 1. Same omission rule as for
    /// jump targets.
    pub open spec fn move_targets(self) -> Seq<Coordinate> {
        (if self.0 >= 1 {
            seq![Coordinate((self.0 - 1) as usize, (self.1 + 1) as usize)]
        } else {
            Seq::empty()
        }) + seq![Coordinate((self.0 + 1) as usize, (self.1 + 1) as usize)] + (if self.1 >= 1 {
            seq![Coordinate((self.0 + 1) as usize, (self.1 - 1) as usize)]
        } else {
            Seq::empty()
        }) + (if self.0 >= 1 && self.1 >= 1 {
            seq![Coordinate((self.0 - 1) as usize, (self.1 - 1) as usize)]
        } else {
            Seq::empty()
        })
    }

    /// True exactly when the square lies on the 8x8 board.
    pub fn on_board(self) -> (r: bool)
        ensures
            r == self.on_board_spec(),
    {
        let Coordinate(x_coord, y_coord) = self;
        x_coord <= 7 && y_coord <= 7
    }

    /// All squares to which a jump from this square could land, in the
    /// fixed order given by [`Coordinate::jump_targets`].
    pub fn jump_targets_from(&self) -> (targets: Vec<Coordinate>)
        requires
            self.on_board_spec(),
        ensures
            targets@ == self.jump_targets(),
    {
        let mut jumps: Vec<Coordinate> = Vec::new();
        let Coordinate(x_coord, y_coord) = *self;
        if y_coord >= 2 {
            jumps.push(Coordinate(x_coord + 2, y_coord - 2));
        }
        jumps.push(Coordinate(x_coord + 2, y_coord + 2));
        if x_coord >= 2 && y_coord >= 2 {
            jumps.push(Coordinate(x_coord - 2, y_coord - 2));
        }
        if x_coord >= 2 {
            jumps.push(Coordinate(x_coord - 2, y_coord + 2));
        }
        proof {
            assert(jumps@ =~= self.jump_targets());
        }
        jumps
    }

    /// All squares to which a simple move from this square could land, in
    /// the fixed order given by [`Coordinate::move_targets`].
    pub fn move_targets_from(&self) -> (targets: Vec<Coordinate>)
        requires
            self.on_board_spec(),
        ensures
            targets@ == self.move_targets(),
    {
        let mut moves: Vec<Coordinate> = Vec::new();
        let Coordinate(x_coord, y_coord) = *self;
        if x_coord >= 1 {
            moves.push(Coordinate(x_coord - 1, y_coord + 1));
        }
        moves.push(Coordinate(x_coord + 1, y_coord + 1));
        if y_coord >= 1 {
            moves.push(Coordinate(x_coord + 1, y_coord - 1));
        }
        if x_coord >= 1 && y_coord >= 1 {
            moves.push(Coordinate(x_coord - 1, y_coord - 1));
        }
        proof {
            assert(moves@ =~= self.move_targets());
        }
        moves
    }
}

/// A single atomic relocation: either a one-diagonal-step simple move or a
/// two-diagonal-step jump.
#[derive(Debug, Clone, PartialEq, Eq, Structural, Copy)]
pub struct Move {
    pub from: Coordinate,
    pub to: Coordinate,
}

impl Move {
    /// Builds a move from a source and a destination square, each given as
    /// an (x, y) pair.
    pub fn new(from: (usize, usize), to: (usize, usize)) -> (m: Move)
        ensures
            m == (Move { from: Coordinate(from.0, from.1), to: Coordinate(to.0, to.1) }),
    {
        Move { from: Coordinate(from.0, from.1), to: Coordinate(to.0, to.1) }
    }
}

} // verus!
