//! The rules engine: the 8x8 board, the side to move and the move counter,
//! together with legal-move generation, validation and application.

use vstd::prelude::*;

use crate::board::{Coordinate, GamePiece, Move, PieceColor};

verus! {

/// A board model is a sequence of 64 cells, one per square, stored
/// column-major: square (x, y) lives at index `x * 8 + y`.
pub open spec fn grid_wf(g: Seq<Option<GamePiece>>) -> bool {
    g.len() == 64
}

/// The cell index of square (x, y).
pub open spec fn cell_index(x: int, y: int) -> int {
    x * 8 + y
}

/// The cell of square (x, y) in a board model.
pub open spec fn cell_at(g: Seq<Option<GamePiece>>, x: int, y: int) -> Option<GamePiece> {
    g[cell_index(x, y)]
}

/// The cell of the square addressed by a coordinate.
pub open spec fn piece_at(g: Seq<Option<GamePiece>>, c: Coordinate) -> Option<GamePiece> {
    cell_at(g, c.0 as int, c.1 as int)
}

/// The other side.
pub open spec fn opposite_color(color: PieceColor) -> PieceColor {
    if color == PieceColor::Black {
        PieceColor::White
    } else {
        PieceColor::Black
    }
}

/// The piece that the standard starting layout puts on square (x, y):
/// White on the dark squares of rows 0..=2, Black on the dark squares of
/// rows 5..=7, nothing elsewhere.
pub open spec fn initial_piece_spec(x: int, y: int) -> Option<GamePiece> {
    if (x + y) % 2 == 1 {
        if y <= 2 {
            Some(GamePiece { color: PieceColor::White, crowned: false })
        } else if 5 <= y && y <= 7 {
            Some(GamePiece { color: PieceColor::Black, crowned: false })
        } else {
            None
        }
    } else {
        None
    }
}

/// The piece that the standard starting layout puts on the square at cell
/// index `i`.
pub open spec fn initial_piece_at_index(i: int) -> Option<GamePiece> {
    initial_piece_spec(i / 8, i % 8)
}

/// The standard starting board: 24 pieces, nothing else.
pub open spec fn initial_board() -> Seq<Option<GamePiece>> {
    Seq::new(64, |i: int| initial_piece_at_index(i))
}

/// A board after the starting pieces have been placed on it: each of the
/// 24 starting squares is overwritten, every other cell keeps its content.
pub open spec fn with_initial_pieces(g: Seq<Option<GamePiece>>) -> Seq<Option<GamePiece>> {
    Seq::new(g.len(), |i: int| if initial_piece_at_index(i) is Some {
        initial_piece_at_index(i)
    } else {
        g[i]
    })
}

/// A piece standing on `coord` is due to be crowned exactly when it is a
/// Black piece on row 0 or a White piece on row 7.
pub open spec fn should_crown_spec(piece: GamePiece, coord: Coordinate) -> bool {
    (coord.1 == 0 && piece.color == PieceColor::Black) || (coord.1 == 7 && piece.color
        == PieceColor::White)
}

/// The square halfway between `from` and `to`, defined exactly for the four
/// canonical two-step diagonal deltas; any other delta has no midpoint.
/// Deltas whose source component would have to be at least 2 to avoid
/// underflow are likewise given no midpoint.
pub open spec fn midpoint_coord(from: Coordinate, to: Coordinate) -> Option<Coordinate> {
    if to.0 == from.0 + 2 && to.1 == from.1 + 2 {
        Some(Coordinate((from.0 + 1) as usize, (from.1 + 1) as usize))
    } else if from.0 >= 2 && from.1 >= 2 && to.0 == from.0 - 2 && to.1 == from.1 - 2 {
        Some(Coordinate((from.0 - 1) as usize, (from.1 - 1) as usize))
    } else if from.0 >= 2 && to.0 == from.0 - 2 && to.1 == from.1 + 2 {
        Some(Coordinate((from.0 - 1) as usize, (from.1 + 1) as usize))
    } else if from.1 >= 2 && to.0 == from.0 + 2 && to.1 == from.1 - 2 {
        Some(Coordinate((from.0 + 1) as usize, (from.1 - 1) as usize))
    } else {
        None
    }
}

/// A simple move is valid when both squares are on the board, the
/// destination is empty, and the direction agrees with the piece: toward
/// increasing y for White, toward decreasing y for Black, and either way
/// for a crowned piece.
pub open spec fn valid_move_spec(
    g: Seq<Option<GamePiece>>,
    moving_piece: GamePiece,
    from: Coordinate,
    to: Coordinate,
) -> bool {
    &&& to.on_board_spec()
    &&& from.on_board_spec()
    &&& piece_at(g, to) is None
    &&& {
        ||| to.1 > from.1 && moving_piece.color == PieceColor::White
        ||| to.1 < from.1 && moving_piece.color == PieceColor::Black
        ||| to.1 > from.1 && moving_piece.color == PieceColor::Black && moving_piece.crowned
        ||| to.1 < from.1 && moving_piece.color == PieceColor::White && moving_piece.crowned
    }
}

/// A jump is valid when both squares are on the board and the square
/// halfway between them holds a piece of the other color. Whether the
/// destination square is occupied is not checked.
pub open spec fn valid_jump_spec(
    g: Seq<Option<GamePiece>>,
    moving_piece: GamePiece,
    from: Coordinate,
    to: Coordinate,
) -> bool {
    &&& to.on_board_spec()
    &&& from.on_board_spec()
    &&& match midpoint_coord(from, to) {
        Some(mid) => match piece_at(g, mid) {
            Some(mid_piece) => mid_piece.color != moving_piece.color,
            None => false,
        },
        None => false,
    }
}

/// The valid jumps from `loc` among the given targets, in target order,
/// each wrapped as a move.
pub open spec fn jump_moves_spec(
    g: Seq<Option<GamePiece>>,
    piece: GamePiece,
    loc: Coordinate,
    targets: Seq<Coordinate>,
) -> Seq<Move>
    decreases targets.len(),
{
    if targets.len() == 0 {
        Seq::empty()
    } else {
        jump_moves_spec(g, piece, loc, targets.drop_last()) + (if valid_jump_spec(
            g,
            piece,
            loc,
            targets.last(),
        ) {
            seq![Move { from: loc, to: targets.last() }]
        } else {
            Seq::empty()
        })
    }
}

/// The valid simple moves from `loc` among the given targets, in target
/// order, each wrapped as a move.
pub open spec fn simple_moves_spec(
    g: Seq<Option<GamePiece>>,
    piece: GamePiece,
    loc: Coordinate,
    targets: Seq<Coordinate>,
) -> Seq<Move>
    decreases targets.len(),
{
    if targets.len() == 0 {
        Seq::empty()
    } else {
        simple_moves_spec(g, piece, loc, targets.drop_last()) + (if valid_move_spec(
            g,
            piece,
            loc,
            targets.last(),
        ) {
            seq![Move { from: loc, to: targets.last() }]
        } else {
            Seq::empty()
        })
    }
}

/// Every move available from the square `loc`: its valid jumps first, in
/// jump-target order, then its valid simple moves, in move-target order.
/// An empty square offers no move.
pub open spec fn valid_moves_from_spec(g: Seq<Option<GamePiece>>, loc: Coordinate) -> Seq<Move> {
    match piece_at(g, loc) {
        Some(piece) => jump_moves_spec(g, piece, loc, loc.jump_targets()) + simple_moves_spec(
            g,
            piece,
            loc,
            loc.move_targets(),
        ),
        None => Seq::empty(),
    }
}

/// The moves that the square (x, y) contributes to the legal-move list:
/// all its valid moves if it holds a piece of the side to move, nothing
/// otherwise.
pub open spec fn square_moves_spec(
    g: Seq<Option<GamePiece>>,
    turn: PieceColor,
    x: int,
    y: int,
) -> Seq<Move> {
    match cell_at(g, x, y) {
        Some(piece) => if piece.color == turn {
            valid_moves_from_spec(g, Coordinate(x as usize, y as usize))
        } else {
            Seq::empty()
        },
        None => Seq::empty(),
    }
}

/// The legal moves contributed by the squares (x, 0) .. (x, y - 1) of one
/// column, in row order.
pub open spec fn column_moves_upto(
    g: Seq<Option<GamePiece>>,
    turn: PieceColor,
    x: int,
    y: int,
) -> Seq<Move>
    decreases y,
{
    if y <= 0 {
        Seq::empty()
    } else {
        column_moves_upto(g, turn, x, y - 1) + square_moves_spec(g, turn, x, y - 1)
    }
}

/// The legal moves contributed by the columns 0 .. x - 1, in column order.
pub open spec fn board_moves_upto(
    g: Seq<Option<GamePiece>>,
    turn: PieceColor,
    x: int,
) -> Seq<Move>
    decreases x,
{
    if x <= 0 {
        Seq::empty()
    } else {
        board_moves_upto(g, turn, x - 1) + column_moves_upto(g, turn, x - 1, 8)
    }
}

/// The complete legal-move list for the side `turn`: the board is scanned
/// column by column, each column row by row, and every square holding a
/// piece of that side contributes its valid jumps first, then its valid
/// simple moves.
pub open spec fn legal_moves_spec(g: Seq<Option<GamePiece>>, turn: PieceColor) -> Seq<Move> {
    board_moves_upto(g, turn, 8)
}

/// The board after a move has been applied: the square halfway between
/// source and destination, if the move has one, is cleared; the moving
/// piece leaves the source and lands on the destination; and a piece due
/// for crowning arrives crowned.
pub open spec fn apply_move_spec(g: Seq<Option<GamePiece>>, m: Move) -> Seq<Option<GamePiece>> {
    let piece = piece_at(g, m.from)->0;
    let cleared = match midpoint_coord(m.from, m.to) {
        Some(mid) => g.update(cell_index(mid.0 as int, mid.1 as int), None),
        None => g,
    };
    let relocated = cleared.update(
        cell_index(m.to.0 as int, m.to.1 as int),
        Some(piece),
    ).update(cell_index(m.from.0 as int, m.from.1 as int), None);
    if should_crown_spec(piece, m.to) {
        relocated.update(
            cell_index(m.to.0 as int, m.to.1 as int),
            Some(GamePiece { color: piece.color, crowned: true }),
        )
    } else {
        relocated
    }
}

/// The game state: board, side to move, and the number of applied moves.
pub struct GameEngine {
    board: Vec<Option<GamePiece>>,
    current_turn: PieceColor,
    move_count: u32,
}

/// What applying a move reports back: the move itself, and whether the
/// moved piece was crowned on arrival.
pub struct MoveResult {
    pub move_made: Move,
    pub crowned: bool,
}

impl GameEngine {
    /// The board model: 64 cells, column-major.
    pub closed spec fn grid(self) -> Seq<Option<GamePiece>> {
        self.board@
    }

    /// The side to move.
    pub closed spec fn current_turn_spec(self) -> PieceColor {
        self.current_turn
    }

    /// The number of successfully applied moves.
    pub closed spec fn move_count_spec(self) -> u32 {
        self.move_count
    }

    /// Structural well-formedness: the board holds exactly 64 cells.
    pub open spec fn wf(self) -> bool {
        grid_wf(self.grid())
    }

    /// Creates an engine holding the standard starting layout, with Black
    /// to move and no move applied yet.
    pub fn new() -> (engine: GameEngine)
        ensures
            engine.wf(),
            engine.grid() == initial_board(),
            engine.current_turn_spec() == PieceColor::Black,
            engine.move_count_spec() == 0,
    {
        let mut board: Vec<Option<GamePiece>> = Vec::new();
        let mut i: usize = 0;
        while i < 64
            invariant
                i <= 64,
                board@.len() == i,
                forall|j: int| 0 <= j < i ==> board@[j] is None,
            decreases 64 - i,
        {
            board.push(None);
            i = i + 1;
        }
        let mut engine = GameEngine { board, current_turn: PieceColor::Black, move_count: 0 };
        engine.initialize_pieces();
        proof {
            assert(engine.grid() =~= initial_board());
        }
        engine
    }

    /// Places the 24 starting pieces on the board. Every starting square is
    /// overwritten with its starting piece; all other cells are left as
    /// they are.
    pub fn initialize_pieces(&mut self)
        requires
            old(self).wf(),
        ensures
            final(self).wf(),
            final(self).grid() == with_initial_pieces(old(self).grid()),
            final(self).current_turn_spec() == old(self).current_turn_spec(),
            final(self).move_count_spec() == old(self).move_count_spec(),
    {
        let mut i: usize = 0;
        while i < 64
            invariant
                i <= 64,
                old(self).board@.len() == 64,
                self.board@.len() == 64,
                self.current_turn == old(self).current_turn,
                self.move_count == old(self).move_count,
                forall|j: int| 0 <= j < i ==> self.board@[j] == #[trigger] with_initial_pieces(
                    old(self).grid(),
                )[j],
                forall|j: int| i <= j < 64 ==> self.board@[j] == old(self).board@[j],
            decreases 64 - i,
        {
            let x = i / 8;
            let y = i % 8;
            if let Some(piece) = initial_piece(x, y) {
                self.board.set(i, Some(piece));
            }
            i = i + 1;
        }
        proof {
            assert(self.grid() =~= with_initial_pieces(old(self).grid()));
        }
    }

    /// Applies a move. The move is checked against the full legal-move list
    /// of the side to move: an illegal move is rejected with no state
    /// change; a legal one clears the jumped-over square if the move is a
    /// jump, relocates the piece, crowns it on reaching its far row, and
    /// advances the turn.
    pub fn move_piece(&mut self, move_desired: &Move) -> (res: Result<MoveResult, ()>)
        requires
            old(self).wf(),
            legal_moves_spec(old(self).grid(), old(self).current_turn_spec()).contains(
                *move_desired,
            ) ==> old(self).move_count_spec() < u32::MAX,
        ensures
            final(self).wf(),
            !legal_moves_spec(old(self).grid(), old(self).current_turn_spec()).contains(
                *move_desired,
            ) ==> res is Err && *final(self) == *old(self),
            legal_moves_spec(old(self).grid(), old(self).current_turn_spec()).contains(
                *move_desired,
            ) ==> ({
                &&& res is Ok
                &&& res->Ok_0.move_made == *move_desired
                &&& res->Ok_0.crowned == should_crown_spec(
                    piece_at(old(self).grid(), move_desired.from)->0,
                    move_desired.to,
                )
                &&& final(self).grid() == apply_move_spec(old(self).grid(), *move_desired)
                &&& final(self).current_turn_spec() == opposite_color(
                    old(self).current_turn_spec(),
                )
                &&& final(self).move_count_spec() == old(self).move_count_spec() + 1
            }),
    {
        let legal_moves = self.legal_moves();

        if !contains_move(&legal_moves, move_desired) {
            return Err(());
        }
        proof {
            lemma_legal_move_shape(self.grid(), self.current_turn_spec(), *move_desired);
        }

        let Coordinate(from_x, from_y) = move_desired.from;
        let Coordinate(to_x, to_y) = move_desired.to;
        let piece = self.board[from_x * 8 + from_y].unwrap();
        let midpiece_coordinate = self.midpiece_coordinate(from_x, from_y, to_x, to_y);
        if let Some(Coordinate(mid_x, mid_y)) = midpiece_coordinate {
            self.board.set(mid_x * 8 + mid_y, None);
        }

        self.board.set(to_x * 8 + to_y, Some(piece));
        self.board.set(from_x * 8 + from_y, None);

        let crowned = if self.should_crown(piece, move_desired.to) {
            self.crown_piece(move_desired.to);
            true
        } else {
            false
        };
        proof {
            assert(self.grid() =~= apply_move_spec(old(self).grid(), *move_desired));
        }
        self.advance_turn();

        Ok(MoveResult { move_made: *move_desired, crowned })
    }

    /// The piece at `coord`, or an error for an off-board coordinate. An
    /// on-board query always succeeds, an empty square reading as `None`.
    pub fn get_piece(&self, coord: Coordinate) -> (r: Result<Option<GamePiece>, ()>)
        requires
            self.wf(),
        ensures
            coord.on_board_spec() ==> r == Ok::<Option<GamePiece>, ()>(piece_at(self.grid(), coord)),
            !coord.on_board_spec() ==> r is Err,
    {
        let Coordinate(coord_x, coord_y) = coord;
        if coord_x <= 7 && coord_y <= 7 {
            Ok(self.board[coord_x * 8 + coord_y])
        } else {
            Err(())
        }
    }

    /// The side to move.
    pub fn current_turn(&self) -> (turn: PieceColor)
        ensures
            turn == self.current_turn_spec(),
    {
        self.current_turn
    }

    /// Toggles the side to move and counts one applied move. The board is
    /// untouched.
    pub fn advance_turn(&mut self)
        requires
            old(self).move_count_spec() < u32::MAX,
        ensures
            final(self).grid() == old(self).grid(),
            final(self).current_turn_spec() == opposite_color(old(self).current_turn_spec()),
            final(self).move_count_spec() == old(self).move_count_spec() + 1,
    {
        if self.current_turn == PieceColor::Black {
            self.current_turn = PieceColor::White
        } else {
            self.current_turn = PieceColor::Black
        }
        self.move_count = self.move_count + 1;
    }

    /// Whether a piece arriving on `coord` is due to be crowned: Black on
    /// row 0, White on row 7.
    pub fn should_crown(&self, piece: GamePiece, coord: Coordinate) -> (r: bool)
        ensures
            r == should_crown_spec(piece, coord),
    {
        let Coordinate(_coord_x, coord_y) = coord;
        (coord_y == 0 && piece.color == PieceColor::Black) || (coord_y == 7 && piece.color
            == PieceColor::White)
    }

    /// Crowns the piece at `coord` in place. Returns false, changing
    /// nothing, if the square is empty.
    pub fn crown_piece(&mut self, coord: Coordinate) -> (r: bool)
        requires
            old(self).wf(),
            coord.on_board_spec(),
        ensures
            final(self).wf(),
            final(self).current_turn_spec() == old(self).current_turn_spec(),
            final(self).move_count_spec() == old(self).move_count_spec(),
            match piece_at(old(self).grid(), coord) {
                Some(piece) => r && final(self).grid() == old(self).grid().update(
                    cell_index(coord.0 as int, coord.1 as int),
                    Some(GamePiece { color: piece.color, crowned: true }),
                ),
                None => !r && final(self).grid() == old(self).grid(),
            },
    {
        let Coordinate(coord_x, coord_y) = coord;
        if let Some(piece) = self.board[coord_x * 8 + coord_y] {
            self.board.set(coord_x * 8 + coord_y, Some(GamePiece::crowned(piece)));
            true
        } else {
            false
        }
    }

    /// Whether the square at `coord` holds a crowned piece; an empty square
    /// reads as false.
    pub fn is_crowned(&self, coord: Coordinate) -> (r: bool)
        requires
            self.wf(),
            coord.on_board_spec(),
        ensures
            r == match piece_at(self.grid(), coord) {
                Some(piece) => piece.crowned,
                None => false,
            },
    {
        let Coordinate(coord_x, coord_y) = coord;
        match self.board[coord_x * 8 + coord_y] {
            Some(piece) => piece.crowned,
            None => false,
        }
    }

    /// The number of successfully applied moves.
    pub fn move_count(&self) -> (count: u32)
        ensures
            count == self.move_count_spec(),
    {
        self.move_count
    }

    /// The complete, deterministically ordered legal-move list for the side
    /// to move.
    pub fn legal_moves(&self) -> (moves: Vec<Move>)
        requires
            self.wf(),
        ensures
            moves@ == legal_moves_spec(self.grid(), self.current_turn_spec()),
    {
        let mut moves: Vec<Move> = Vec::new();
        let mut col: usize = 0;
        while col < 8
            invariant
                self.wf(),
                col <= 8,
                moves@ == board_moves_upto(self.grid(), self.current_turn_spec(), col as int),
            decreases 8 - col,
        {
            let mut row: usize = 0;
            while row < 8
                invariant
                    self.wf(),
                    col < 8,
                    row <= 8,
                    moves@ == board_moves_upto(self.grid(), self.current_turn_spec(), col as int)
                        + column_moves_upto(
                        self.grid(),
                        self.current_turn_spec(),
                        col as int,
                        row as int,
                    ),
                decreases 8 - row,
            {
                if let Some(piece) = self.board[col * 8 + row] {
                    if piece.color == self.current_turn {
                        let loc = Coordinate(col, row);
                        let mut vmoves = self.valid_moves_from(loc);
                        moves.append(&mut vmoves);
                    }
                }
                proof {
                    assert(moves@ =~= board_moves_upto(
                        self.grid(),
                        self.current_turn_spec(),
                        col as int,
                    ) + column_moves_upto(
                        self.grid(),
                        self.current_turn_spec(),
                        col as int,
                        row + 1 as int,
                    ));
                }
                row = row + 1;
            }
            col = col + 1;
        }
        moves
    }

    /// Every move available from the square `loc`: its valid jumps first,
    /// then its valid simple moves. An empty square offers no move.
    pub fn valid_moves_from(&self, loc: Coordinate) -> (moves: Vec<Move>)
        requires
            self.wf(),
            loc.on_board_spec(),
        ensures
            moves@ == valid_moves_from_spec(self.grid(), loc),
    {
        let Coordinate(x_coord, y_coord) = loc;
        if let Some(piece) = self.board[x_coord * 8 + y_coord] {
            let jump_targets = loc.jump_targets_from();
            let mut moves: Vec<Move> = Vec::new();
            let mut i: usize = 0;
            while i < jump_targets.len()
                invariant
                    self.wf(),
                    i <= jump_targets@.len(),
                    jump_targets@ == loc.jump_targets(),
                    moves@ == jump_moves_spec(
                        self.grid(),
                        piece,
                        loc,
                        jump_targets@.take(i as int),
                    ),
                decreases jump_targets@.len() - i,
            {
                let target = jump_targets[i];
                if self.valid_jump(&piece, &loc, &target) {
                    moves.push(Move { from: loc, to: target });
                }
                proof {
                    assert(jump_targets@.take(i + 1 as int).drop_last() =~= jump_targets@.take(
                        i as int,
                    ));
                    assert(moves@ =~= jump_moves_spec(
                        self.grid(),
                        piece,
                        loc,
                        jump_targets@.take(i + 1 as int),
                    ));
                }
                i = i + 1;
            }
            proof {
                assert(jump_targets@.take(jump_targets@.len() as int) =~= jump_targets@);
            }
            let move_targets = loc.move_targets_from();
            let mut j: usize = 0;
            while j < move_targets.len()
                invariant
                    self.wf(),
                    j <= move_targets@.len(),
                    move_targets@ == loc.move_targets(),
                    moves@ == jump_moves_spec(self.grid(), piece, loc, loc.jump_targets())
                        + simple_moves_spec(
                        self.grid(),
                        piece,
                        loc,
                        move_targets@.take(j as int),
                    ),
                decreases move_targets@.len() - j,
            {
                let target = move_targets[j];
                if self.valid_move(&piece, &loc, &target) {
                    moves.push(Move { from: loc, to: target });
                }
                proof {
                    assert(move_targets@.take(j + 1 as int).drop_last() =~= move_targets@.take(
                        j as int,
                    ));
                    assert(moves@ =~= jump_moves_spec(self.grid(), piece, loc, loc.jump_targets())
                        + simple_moves_spec(self.grid(), piece, loc, move_targets@.take(
                        j + 1 as int,
                    )));
                }
                j = j + 1;
            }
            proof {
                assert(move_targets@.take(move_targets@.len() as int) =~= move_targets@);
            }
            moves
        } else {
            Vec::new()
        }
    }

    /// The square halfway between (from_x, from_y) and (to_x, to_y), if the
    /// delta is one of the four canonical two-step diagonals.
    pub fn midpiece_coordinate(
        &self,
        from_x: usize,
        from_y: usize,
        to_x: usize,
        to_y: usize,
    ) -> (r: Option<Coordinate>)
        requires
            from_x <= 7,
            from_y <= 7,
            to_x <= 7,
            to_y <= 7,
        ensures
            r == midpoint_coord(Coordinate(from_x, from_y), Coordinate(to_x, to_y)),
    {
        if to_x == from_x + 2 && to_y == from_y + 2 {
            Some(Coordinate(from_x + 1, from_y + 1))
        } else if from_x >= 2 && from_y >= 2 && to_x == from_x - 2 && to_y == from_y - 2 {
            Some(Coordinate(from_x - 1, from_y - 1))
        } else if from_x >= 2 && to_x == from_x - 2 && to_y == from_y + 2 {
            Some(Coordinate(from_x - 1, from_y + 1))
        } else if from_y >= 2 && to_x == from_x + 2 && to_y == from_y - 2 {
            Some(Coordinate(from_x + 1, from_y - 1))
        } else {
            None
        }
    }

    /// The piece standing halfway between (from_x, from_y) and (to_x, to_y),
    /// if that delta has a midpoint and the midpoint square is occupied.
    pub fn midpiece(&self, from_x: usize, from_y: usize, to_x: usize, to_y: usize) -> (r: Option<
        GamePiece,
    >)
        requires
            self.wf(),
            from_x <= 7,
            from_y <= 7,
            to_x <= 7,
            to_y <= 7,
        ensures
            r == match midpoint_coord(Coordinate(from_x, from_y), Coordinate(to_x, to_y)) {
                Some(mid) => piece_at(self.grid(), mid),
                None => None,
            },
    {
        match self.midpiece_coordinate(from_x, from_y, to_x, to_y) {
            Some(Coordinate(coord_x, coord_y)) => self.board[coord_x * 8 + coord_y],
            None => None,
        }
    }

    /// Whether `moving_piece` may jump from `from` to `to` on the current
    /// board.
    pub fn valid_jump(&self, moving_piece: &GamePiece, from: &Coordinate, to: &Coordinate) -> (r:
        bool)
        requires
            self.wf(),
        ensures
            r == valid_jump_spec(self.grid(), *moving_piece, *from, *to),
    {
        if !to.on_board() || !from.on_board() {
            false
        } else {
            let Coordinate(from_x, from_y) = *from;
            let Coordinate(to_x, to_y) = *to;
            match self.midpiece(from_x, from_y, to_x, to_y) {
                Some(piece) => piece.color != moving_piece.color,
                None => false,
            }
        }
    }

    /// Whether `moving_piece` may make the simple move from `from` to `to`
    /// on the current board.
    pub fn valid_move(&self, moving_piece: &GamePiece, from: &Coordinate, to: &Coordinate) -> (r:
        bool)
        requires
            self.wf(),
        ensures
            r == valid_move_spec(self.grid(), *moving_piece, *from, *to),
    {
        if !to.on_board() || !from.on_board() {
            false
        } else {
            let Coordinate(to_x, to_y) = *to;
            if self.board[to_x * 8 + to_y].is_some() {
                false
            } else {
                let Coordinate(_from_x, from_y) = *from;
                let mut valid = false;
                if to_y > from_y && moving_piece.color == PieceColor::White {
                    valid = true;
                }
                if to_y < from_y && moving_piece.color == PieceColor::Black {
                    valid = true;
                }
                if to_y > from_y && moving_piece.color == PieceColor::Black
                    && moving_piece.crowned {
                    valid = true;
                }
                if to_y < from_y && moving_piece.color == PieceColor::White
                    && moving_piece.crowned {
                    valid = true;
                }
                valid
            }
        }
    }

    /// Overwrites the square at `coord` with the given cell content. Meant
    /// for setting up positions; no rule of the game is checked.
    pub fn set_piece(&mut self, coord: Coordinate, cell: Option<GamePiece>)
        requires
            old(self).wf(),
            coord.on_board_spec(),
        ensures
            final(self).wf(),
            final(self).grid() == old(self).grid().update(
                cell_index(coord.0 as int, coord.1 as int),
                cell,
            ),
            final(self).current_turn_spec() == old(self).current_turn_spec(),
            final(self).move_count_spec() == old(self).move_count_spec(),
    {
        let Coordinate(coord_x, coord_y) = coord;
        self.board.set(coord_x * 8 + coord_y, cell);
    }
}

proof fn lemma_jump_moves_membership(
    g: Seq<Option<GamePiece>>,
    piece: GamePiece,
    loc: Coordinate,
    targets: Seq<Coordinate>,
    m: Move,
)
    requires
        jump_moves_spec(g, piece, loc, targets).contains(m),
    ensures
        m.from == loc,
        targets.contains(m.to),
        valid_jump_spec(g, piece, loc, m.to),
    decreases targets.len(),
{
    if targets.len() == 0 {
        assert(false);
    } else {
        let prefix = jump_moves_spec(g, piece, loc, targets.drop_last());
        let full = jump_moves_spec(g, piece, loc, targets);
        let i = choose|i: int| 0 <= i < full.len() && full[i] == m;
        if i < prefix.len() {
            assert(prefix[i] == m);
            assert(prefix.contains(m));
            lemma_jump_moves_membership(g, piece, loc, targets.drop_last(), m);
            let k = choose|k: int|
                0 <= k < targets.drop_last().len() && targets.drop_last()[k] == m.to;
            assert(targets[k] == m.to);
        } else {
            assert(m == (Move { from: loc, to: targets.last() }));
            assert(targets[targets.len() - 1] == m.to);
        }
    }
}

proof fn lemma_simple_moves_membership(
    g: Seq<Option<GamePiece>>,
    piece: GamePiece,
    loc: Coordinate,
    targets: Seq<Coordinate>,
    m: Move,
)
    requires
        simple_moves_spec(g, piece, loc, targets).contains(m),
    ensures
        m.from == loc,
        targets.contains(m.to),
        valid_move_spec(g, piece, loc, m.to),
    decreases targets.len(),
{
    if targets.len() == 0 {
        assert(false);
    } else {
        let prefix = simple_moves_spec(g, piece, loc, targets.drop_last());
        let full = simple_moves_spec(g, piece, loc, targets);
        let i = choose|i: int| 0 <= i < full.len() && full[i] == m;
        if i < prefix.len() {
            assert(prefix[i] == m);
            assert(prefix.contains(m));
            lemma_simple_moves_membership(g, piece, loc, targets.drop_last(), m);
            let k = choose|k: int|
                0 <= k < targets.drop_last().len() && targets.drop_last()[k] == m.to;
            assert(targets[k] == m.to);
        } else {
            assert(m == (Move { from: loc, to: targets.last() }));
            assert(targets[targets.len() - 1] == m.to);
        }
    }
}

/// A move offered from a square starts there, and is either a valid jump
/// to one of the square's jump targets or a valid simple move to one of
/// its move targets, made by the piece standing on that square.
pub proof fn lemma_valid_moves_from_membership(g: Seq<Option<GamePiece>>, loc: Coordinate, m: Move)
    requires
        valid_moves_from_spec(g, loc).contains(m),
    ensures
        piece_at(g, loc) is Some,
        m.from == loc,
        (loc.jump_targets().contains(m.to) && valid_jump_spec(
            g,
            piece_at(g, loc)->0,
            loc,
            m.to,
        )) || (loc.move_targets().contains(m.to) && valid_move_spec(
            g,
            piece_at(g, loc)->0,
            loc,
            m.to,
        )),
{
    if piece_at(g, loc) is Some {
        let piece = piece_at(g, loc)->0;
        let jumps = jump_moves_spec(g, piece, loc, loc.jump_targets());
        let simples = simple_moves_spec(g, piece, loc, loc.move_targets());
        let full = jumps + simples;
        let i = choose|i: int| 0 <= i < full.len() && full[i] == m;
        if i < jumps.len() {
            assert(jumps[i] == m);
            assert(jumps.contains(m));
            lemma_jump_moves_membership(g, piece, loc, loc.jump_targets(), m);
        } else {
            assert(simples[i - jumps.len()] == m);
            assert(simples.contains(m));
            lemma_simple_moves_membership(g, piece, loc, loc.move_targets(), m);
        }
    } else {
        assert(false);
    }
}

proof fn lemma_column_moves_membership(
    g: Seq<Option<GamePiece>>,
    turn: PieceColor,
    x: int,
    y: int,
    m: Move,
)
    requires
        column_moves_upto(g, turn, x, y).contains(m),
        0 <= x <= 7,
        0 <= y <= 8,
    ensures
        m.from.on_board_spec(),
        piece_at(g, m.from) is Some,
        piece_at(g, m.from)->0.color == turn,
        (m.from.jump_targets().contains(m.to) && valid_jump_spec(
            g,
            piece_at(g, m.from)->0,
            m.from,
            m.to,
        )) || (m.from.move_targets().contains(m.to) && valid_move_spec(
            g,
            piece_at(g, m.from)->0,
            m.from,
            m.to,
        )),
    decreases y,
{
    if y <= 0 {
        assert(false);
    } else {
        let prefix = column_moves_upto(g, turn, x, y - 1);
        let square = square_moves_spec(g, turn, x, y - 1);
        let full = prefix + square;
        let i = choose|i: int| 0 <= i < full.len() && full[i] == m;
        if i < prefix.len() {
            assert(prefix[i] == m);
            assert(prefix.contains(m));
            lemma_column_moves_membership(g, turn, x, y - 1, m);
        } else {
            assert(square[i - prefix.len()] == m);
            assert(square.contains(m));
            let loc = Coordinate(x as usize, (y - 1) as usize);
            assert(valid_moves_from_spec(g, loc).contains(m));
            lemma_valid_moves_from_membership(g, loc, m);
        }
    }
}

proof fn lemma_board_moves_membership(
    g: Seq<Option<GamePiece>>,
    turn: PieceColor,
    x: int,
    m: Move,
)
    requires
        board_moves_upto(g, turn, x).contains(m),
        0 <= x <= 8,
    ensures
        m.from.on_board_spec(),
        piece_at(g, m.from) is Some,
        piece_at(g, m.from)->0.color == turn,
        (m.from.jump_targets().contains(m.to) && valid_jump_spec(
            g,
            piece_at(g, m.from)->0,
            m.from,
            m.to,
        )) || (m.from.move_targets().contains(m.to) && valid_move_spec(
            g,
            piece_at(g, m.from)->0,
            m.from,
            m.to,
        )),
    decreases x,
{
    if x <= 0 {
        assert(false);
    } else {
        let prefix = board_moves_upto(g, turn, x - 1);
        let column = column_moves_upto(g, turn, x - 1, 8);
        let full = prefix + column;
        let i = choose|i: int| 0 <= i < full.len() && full[i] == m;
        if i < prefix.len() {
            assert(prefix[i] == m);
            assert(prefix.contains(m));
            lemma_board_moves_membership(g, turn, x - 1, m);
        } else {
            assert(column[i - prefix.len()] == m);
            assert(column.contains(m));
            lemma_column_moves_membership(g, turn, x - 1, 8, m);
        }
    }
}

/// Every legal move starts on an on-board square that holds a piece of the
/// side to move, ends on an on-board square, and is either a valid jump to
/// one of the source's jump targets or a valid simple move to one of its
/// move targets.
pub proof fn lemma_legal_move_shape(g: Seq<Option<GamePiece>>, turn: PieceColor, m: Move)
    requires
        legal_moves_spec(g, turn).contains(m),
    ensures
        m.from.on_board_spec(),
        m.to.on_board_spec(),
        piece_at(g, m.from) is Some,
        piece_at(g, m.from)->0.color == turn,
        (m.from.jump_targets().contains(m.to) && valid_jump_spec(
            g,
            piece_at(g, m.from)->0,
            m.from,
            m.to,
        )) || (m.from.move_targets().contains(m.to) && valid_move_spec(
            g,
            piece_at(g, m.from)->0,
            m.from,
            m.to,
        )),
{
    lemma_board_moves_membership(g, turn, 8, m);
}

/// Whether the list holds the given move.
fn contains_move(moves: &Vec<Move>, m: &Move) -> (r: bool)
    ensures
        r == moves@.contains(*m),
{
    let mut i: usize = 0;
    while i < moves.len()
        invariant
            i <= moves@.len(),
            forall|j: int| 0 <= j < i ==> moves@[j] != *m,
        decreases moves@.len() - i,
    {
        if moves[i] == *m {
            return true;
        }
        i = i + 1;
    }
    false
}

/// The piece that the standard starting layout puts on square (x, y).
fn initial_piece(x: usize, y: usize) -> (r: Option<GamePiece>)
    requires
        x <= 7,
        y <= 7,
    ensures
        r == initial_piece_spec(x as int, y as int),
{
    if (x + y) % 2 == 1 {
        if y <= 2 {
            Some(GamePiece::new(PieceColor::White))
        } else if 5 <= y && y <= 7 {
            Some(GamePiece::new(PieceColor::Black))
        } else {
            None
        }
    } else {
        None
    }
}

} // verus!
