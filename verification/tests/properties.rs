use checkers::board::{Coordinate, GamePiece, Move, PieceColor};
use checkers::game::GameEngine;

fn snapshot(engine: &GameEngine) -> Vec<Option<GamePiece>> {
    let mut cells = Vec::new();
    for x in 0..8 {
        for y in 0..8 {
            cells.push(engine.get_piece(Coordinate(x, y)).unwrap());
        }
    }
    cells
}

fn expected_initial_piece(x: usize, y: usize) -> Option<GamePiece> {
    if (x + y) % 2 == 1 {
        if y <= 2 {
            Some(GamePiece::new(PieceColor::White))
        } else if (5..=7).contains(&y) {
            Some(GamePiece::new(PieceColor::Black))
        } else {
            None
        }
    } else {
        None
    }
}

#[test]
fn on_board_edges() {
    assert!(Coordinate(0, 0).on_board());
    assert!(Coordinate(7, 7).on_board());
    assert!(Coordinate(0, 7).on_board());
    assert!(Coordinate(7, 0).on_board());
    assert!(!Coordinate(8, 0).on_board());
    assert!(!Coordinate(0, 8).on_board());
    assert!(!Coordinate(8, 8).on_board());
    assert!(!Coordinate(usize::MAX, 3).on_board());
}

#[test]
fn initial_layout_exact() {
    let engine = GameEngine::new();
    let whites = [
        (1, 0), (3, 0), (5, 0), (7, 0), (0, 1), (2, 1), (4, 1), (6, 1), (1, 2), (3, 2), (5, 2),
        (7, 2),
    ];
    let blacks = [
        (0, 5), (2, 5), (4, 5), (6, 5), (1, 6), (3, 6), (5, 6), (7, 6), (0, 7), (2, 7), (4, 7),
        (6, 7),
    ];
    for &(x, y) in whites.iter() {
        assert_eq!(
            engine.get_piece(Coordinate(x, y)).unwrap(),
            Some(GamePiece::new(PieceColor::White))
        );
    }
    for &(x, y) in blacks.iter() {
        assert_eq!(
            engine.get_piece(Coordinate(x, y)).unwrap(),
            Some(GamePiece::new(PieceColor::Black))
        );
    }
    for x in 0..8 {
        for y in 0..8 {
            assert_eq!(
                engine.get_piece(Coordinate(x, y)).unwrap(),
                expected_initial_piece(x, y)
            );
        }
    }
    assert_eq!(engine.current_turn(), PieceColor::Black);
    assert_eq!(engine.move_count(), 0);
}

#[test]
fn legal_move_changes_exactly_two_cells() {
    let mut engine = GameEngine::new();
    let before = snapshot(&engine);
    let res = engine.move_piece(&Move::new((0, 5), (1, 4)));
    assert!(res.is_ok());
    let result = res.unwrap();
    assert_eq!(result.move_made, Move::new((0, 5), (1, 4)));
    assert!(!result.crowned);
    assert_eq!(engine.current_turn(), PieceColor::White);
    assert_eq!(engine.move_count(), 1);
    let after = snapshot(&engine);
    for x in 0..8 {
        for y in 0..8 {
            let i = x * 8 + y;
            if (x, y) == (0, 5) {
                assert_eq!(after[i], None);
            } else if (x, y) == (1, 4) {
                assert_eq!(after[i], Some(GamePiece::new(PieceColor::Black)));
            } else {
                assert_eq!(after[i], before[i]);
            }
        }
    }
}

#[test]
fn illegal_move_changes_nothing() {
    let mut engine = GameEngine::new();
    let before = snapshot(&engine);
    // a horizontal step is never legal
    let res = engine.move_piece(&Move::new((0, 5), (1, 5)));
    assert!(res.is_err());
    assert_eq!(engine.current_turn(), PieceColor::Black);
    assert_eq!(engine.move_count(), 0);
    assert_eq!(snapshot(&engine), before);
    // an off-board destination is never legal
    let res = engine.move_piece(&Move::new((0, 5), (8, 8)));
    assert!(res.is_err());
    assert_eq!(snapshot(&engine), before);
}

#[test]
fn black_promotion_crowns_at_row_zero() {
    let mut engine = GameEngine::new();
    engine.set_piece(Coordinate(1, 0), None);
    engine.set_piece(Coordinate(2, 1), Some(GamePiece::new(PieceColor::Black)));
    let res = engine.move_piece(&Move::new((2, 1), (1, 0)));
    assert!(res.is_ok());
    assert!(res.unwrap().crowned);
    assert!(engine.is_crowned(Coordinate(1, 0)));
    assert_eq!(
        engine.get_piece(Coordinate(1, 0)).unwrap(),
        Some(GamePiece {
            color: PieceColor::Black,
            crowned: true
        })
    );
}

#[test]
fn white_promotion_crowns_at_row_seven() {
    let mut engine = GameEngine::new();
    engine.advance_turn(); // White to move
    engine.set_piece(Coordinate(6, 7), None);
    engine.set_piece(Coordinate(5, 6), Some(GamePiece::new(PieceColor::White)));
    let res = engine.move_piece(&Move::new((5, 6), (6, 7)));
    assert!(res.is_ok());
    assert!(res.unwrap().crowned);
    assert_eq!(
        engine.get_piece(Coordinate(6, 7)).unwrap(),
        Some(GamePiece {
            color: PieceColor::White,
            crowned: true
        })
    );
}

#[test]
fn ordinary_destination_leaves_crowned_false() {
    let mut engine = GameEngine::new();
    let res = engine.move_piece(&Move::new((2, 5), (3, 4)));
    assert!(res.is_ok());
    assert!(!res.unwrap().crowned);
    assert!(!engine.is_crowned(Coordinate(3, 4)));
}

#[test]
fn capture_clears_midpoint() {
    let mut engine = GameEngine::new();
    engine.set_piece(Coordinate(1, 4), Some(GamePiece::new(PieceColor::White)));
    let res = engine.move_piece(&Move::new((0, 5), (2, 3)));
    assert!(res.is_ok());
    assert!(!res.unwrap().crowned);
    assert_eq!(engine.get_piece(Coordinate(1, 4)).unwrap(), None);
    assert_eq!(engine.get_piece(Coordinate(0, 5)).unwrap(), None);
    assert_eq!(
        engine.get_piece(Coordinate(2, 3)).unwrap(),
        Some(GamePiece::new(PieceColor::Black))
    );
    assert_eq!(engine.current_turn(), PieceColor::White);
    assert_eq!(engine.move_count(), 1);
}

#[test]
fn get_piece_is_idempotent() {
    let engine = GameEngine::new();
    for x in 0..9 {
        for y in 0..9 {
            let first = engine.get_piece(Coordinate(x, y));
            let second = engine.get_piece(Coordinate(x, y));
            assert_eq!(first, second);
        }
    }
    assert_eq!(snapshot(&engine), snapshot(&engine));
}

#[test]
fn get_piece_rejects_off_board() {
    let engine = GameEngine::new();
    assert_eq!(engine.get_piece(Coordinate(8, 0)), Err(()));
    assert_eq!(engine.get_piece(Coordinate(0, 8)), Err(()));
    assert_eq!(engine.get_piece(Coordinate(usize::MAX, usize::MAX)), Err(()));
}

#[test]
fn crowned_piece_moves_backward() {
    let mut engine = GameEngine::new();
    engine.set_piece(Coordinate(2, 5), None);
    // a crowned Black piece may move toward increasing y
    engine.set_piece(Coordinate(3, 4), Some(GamePiece::crowned(GamePiece::new(
        PieceColor::Black,
    ))));
    let moves = engine.valid_moves_from(Coordinate(3, 4));
    assert!(moves.contains(&Move::new((3, 4), (2, 5))));
    assert!(moves.contains(&Move::new((3, 4), (2, 3))));
    assert!(moves.contains(&Move::new((3, 4), (4, 3))));
    // an uncrowned Black piece may not, even onto an empty square
    engine.set_piece(Coordinate(3, 4), Some(GamePiece::new(PieceColor::Black)));
    let moves = engine.valid_moves_from(Coordinate(3, 4));
    assert!(!moves.contains(&Move::new((3, 4), (2, 5))));
    assert!(moves.contains(&Move::new((3, 4), (2, 3))));
    assert!(moves.contains(&Move::new((3, 4), (4, 3))));
    assert_eq!(moves.len(), 2);
}

#[test]
fn jump_offered_before_simple_moves() {
    let mut engine = GameEngine::new();
    engine.set_piece(Coordinate(1, 4), Some(GamePiece::new(PieceColor::White)));
    let moves = engine.valid_moves_from(Coordinate(0, 5));
    assert_eq!(moves, [Move::new((0, 5), (2, 3))]);
    let moves = engine.valid_moves_from(Coordinate(2, 5));
    // the jump over (1, 4) comes first, then the remaining simple move
    assert_eq!(
        moves,
        [Move::new((2, 5), (0, 3)), Move::new((2, 5), (3, 4))]
    );
}
