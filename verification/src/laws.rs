//! Board-level consequences of applying a legal move: which cells change,
//! how crowning shows at the destination, and what a capture removes.

use vstd::prelude::*;

use crate::board::{Coordinate, GamePiece, Move, PieceColor};
use crate::game::{
    apply_move_spec, cell_index, grid_wf, legal_moves_spec, lemma_legal_move_shape, midpoint_coord,
    opposite_color, piece_at, should_crown_spec, valid_jump_spec, valid_move_spec,
};

verus! {

/// Distinct on-board squares live at distinct cell indexes.
proof fn lemma_cell_index_distinct(c1: Coordinate, c2: Coordinate)
    requires
        c1.on_board_spec(),
        c2.on_board_spec(),
        c1 != c2,
    ensures
        cell_index(c1.0 as int, c1.1 as int) != cell_index(c2.0 as int, c2.1 as int),
{
}

/// A square one diagonal step away has no midpoint square between itself
/// and the source.
proof fn lemma_move_target_no_midpoint(from: Coordinate, to: Coordinate)
    requires
        from.on_board_spec(),
        from.move_targets().contains(to),
    ensures
        midpoint_coord(from, to) is None,
{
    let ts = from.move_targets();
    let i = choose|i: int| 0 <= i < ts.len() && ts[i] == to;
    assert(to.1 == from.1 + 1 || to.1 + 1 == from.1);
}

/// Law: a legal simple move — one whose squares have no midpoint between
/// them — changes exactly two cells: the source is cleared, the destination
/// receives the moved piece (crowned if it reaches its far row), and every
/// other square keeps its content.
pub proof fn lemma_simple_move_changes_two_cells(
    g: Seq<Option<GamePiece>>,
    turn: PieceColor,
    m: Move,
)
    requires
        grid_wf(g),
        legal_moves_spec(g, turn).contains(m),
        midpoint_coord(m.from, m.to) is None,
    ensures
        ({
            let after = apply_move_spec(g, m);
            let piece = piece_at(g, m.from)->0;
            &&& grid_wf(after)
            &&& piece_at(after, m.from) is None
            &&& piece_at(after, m.to) == (if should_crown_spec(piece, m.to) {
                Some(GamePiece { color: piece.color, crowned: true })
            } else {
                Some(piece)
            })
            &&& forall|c: Coordinate|
                c.on_board_spec() && c != m.from && c != m.to ==> piece_at(after, c) == piece_at(
                    g,
                    c,
                )
        }),
{
    lemma_legal_move_shape(g, turn, m);
    let piece = piece_at(g, m.from)->0;
    assert(valid_move_spec(g, piece, m.from, m.to));
    assert(m.from != m.to);
    lemma_cell_index_distinct(m.from, m.to);
    assert forall|c: Coordinate|
        c.on_board_spec() && c != m.from && c != m.to implies piece_at(
        apply_move_spec(g, m),
        c,
    ) == piece_at(g, c) by {
        lemma_cell_index_distinct(c, m.from);
        lemma_cell_index_distinct(c, m.to);
    }
}

/// Law: after a legal move the destination square holds the moved piece:
/// same color, and crowned exactly when it already was crowned or when the
/// move landed a Black piece on row 0 or a White piece on row 7.
pub proof fn lemma_crowning(g: Seq<Option<GamePiece>>, turn: PieceColor, m: Move)
    requires
        grid_wf(g),
        legal_moves_spec(g, turn).contains(m),
    ensures
        ({
            let after = apply_move_spec(g, m);
            let piece = piece_at(g, m.from)->0;
            &&& piece_at(after, m.to) is Some
            &&& piece_at(after, m.to)->0.color == piece.color
            &&& piece_at(after, m.to)->0.crowned == (piece.crowned || should_crown_spec(
                piece,
                m.to,
            ))
        }),
{
    lemma_legal_move_shape(g, turn, m);
    assert(m.from != m.to);
    lemma_cell_index_distinct(m.from, m.to);
}

/// Law: a legal jump — a move whose squares have a midpoint square between
/// them — finds an opposing piece there and clears that square, besides
/// clearing the source square and landing the moving piece on the
/// destination.
pub proof fn lemma_capture_clears_midpoint(g: Seq<Option<GamePiece>>, turn: PieceColor, m: Move)
    requires
        grid_wf(g),
        legal_moves_spec(g, turn).contains(m),
        midpoint_coord(m.from, m.to) is Some,
    ensures
        ({
            let mid = midpoint_coord(m.from, m.to)->0;
            let after = apply_move_spec(g, m);
            &&& piece_at(g, mid) is Some
            &&& piece_at(g, mid)->0.color == opposite_color(piece_at(g, m.from)->0.color)
            &&& piece_at(after, mid) is None
            &&& piece_at(after, m.from) is None
            &&& piece_at(after, m.to) is Some
        }),
{
    lemma_legal_move_shape(g, turn, m);
    let piece = piece_at(g, m.from)->0;
    if m.from.move_targets().contains(m.to) && valid_move_spec(g, piece, m.from, m.to) {
        lemma_move_target_no_midpoint(m.from, m.to);
        assert(false);
    }
    assert(valid_jump_spec(g, piece, m.from, m.to));
    let mid = midpoint_coord(m.from, m.to)->0;
    assert(mid.on_board_spec());
    assert(mid != m.from && mid != m.to);
    lemma_cell_index_distinct(mid, m.from);
    lemma_cell_index_distinct(mid, m.to);
    lemma_cell_index_distinct(m.from, m.to);
}

} // verus!
