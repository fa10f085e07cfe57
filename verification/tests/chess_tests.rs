use chess::chess_board::{ChessBoard, ChessPiece, MoveFailure, PieceType};
use chess::coordinate::Coordinate;

#[test]
fn test_board_initialization() {
    let board = ChessBoard::new();
    let from_piece = board.get_piece(Coordinate::new(0, 1));
    let to_piece = board.get_piece(Coordinate::new(0, 2));

    assert!(from_piece.is_some());
    assert!(to_piece.is_none());
}

#[test]
fn test_move_no_piece() {
    let board = ChessBoard::new();
    let from = Coordinate::new(2, 2);
    let to = Coordinate::new(0, 1);

    assert!(board.get_piece(from).is_none());
    assert_eq!(board.check_move(from, to), Some(MoveFailure::NoPieceAtFrom));
}

#[test]
fn test_move_same_spot() {
    let board = ChessBoard::new();
    let from = Coordinate::new(0, 1);
    let to = Coordinate::new(0, 1);

    assert!(board.get_piece(from).is_some());
    assert_eq!(
        board.check_move(from, to),
        Some(MoveFailure::MoveToSameSpot)
    );
}

#[test]
fn test_pawn_legal_move() {
    let board = ChessBoard::new();
    let from = Coordinate::new(0, 1);
    let to = Coordinate::new(0, 2);

    assert!(board.get_piece(from).unwrap().piece_type() == PieceType::Pawn);
    assert_eq!(board.check_move(from, to), None);
}

#[test]
fn test_pawn_illegal_moves() {
    let board = ChessBoard::new();
    let from = Coordinate::new(0, 1);
    let to = Coordinate::new(0, 4);

    assert!(board.get_piece(from).unwrap().piece_type() == PieceType::Pawn);
    assert_eq!(
        board.check_move(from, to),
        Some(MoveFailure::IllegalPawnMove)
    );
}

#[test]
fn test_starting_occupancy_by_rank() {
    let board = ChessBoard::new();
    for y in 0..8 {
        for x in 0..8 {
            let occupied = board.get_piece(Coordinate::new(x, y)).is_some();
            let expected = y == 0 || y == 1 || y == 6 || y == 7;
            assert_eq!(occupied, expected);
        }
    }
}

#[test]
fn test_starting_back_ranks_exact() {
    let board = ChessBoard::new();
    let order = [
        PieceType::Rook,
        PieceType::Knight,
        PieceType::Bishop,
        PieceType::Queen,
        PieceType::King,
        PieceType::Bishop,
        PieceType::Knight,
        PieceType::Rook,
    ];
    for x in 0..8 {
        assert_eq!(
            board.get_piece(Coordinate::new(x, 0)),
            Some(ChessPiece::Black(order[x]))
        );
        assert_eq!(
            board.get_piece(Coordinate::new(x, 1)),
            Some(ChessPiece::Black(PieceType::Pawn))
        );
        assert_eq!(
            board.get_piece(Coordinate::new(x, 6)),
            Some(ChessPiece::White(PieceType::Pawn))
        );
        assert_eq!(
            board.get_piece(Coordinate::new(x, 7)),
            Some(ChessPiece::White(order[x]))
        );
    }
}

#[test]
fn test_same_spot_everywhere() {
    let board = ChessBoard::new();
    for y in 0..8 {
        for x in 0..8 {
            let c = Coordinate::new(x, y);
            assert_eq!(board.check_move(c, c), Some(MoveFailure::MoveToSameSpot));
        }
    }
}

#[test]
fn test_no_piece_at_from_everywhere() {
    let board = ChessBoard::new();
    let from = Coordinate::new(3, 3);
    assert!(board.get_piece(from).is_none());
    for y in 0..8 {
        for x in 0..8 {
            let to = Coordinate::new(x, y);
            if to != from {
                assert_eq!(board.check_move(from, to), Some(MoveFailure::NoPieceAtFrom));
            }
        }
    }
}

#[test]
fn test_same_color_take() {
    let board = ChessBoard::new();
    // Black rook onto the black pawn in front of it.
    assert_eq!(
        board.check_move(Coordinate::new(0, 0), Coordinate::new(0, 1)),
        Some(MoveFailure::SameColorTake)
    );
    // White king onto the white pawn in front of it.
    assert_eq!(
        board.check_move(Coordinate::new(4, 7), Coordinate::new(4, 6)),
        Some(MoveFailure::SameColorTake)
    );
}

#[test]
fn test_king_geometry() {
    let king = PieceType::King;
    assert_eq!(
        king.is_move_valid(Coordinate::new(4, 7), Coordinate::new(4, 6)),
        None
    );
    assert_eq!(
        king.is_move_valid(Coordinate::new(4, 7), Coordinate::new(4, 5)),
        Some(MoveFailure::IllegalKingMove)
    );
}

#[test]
fn test_knight_geometry() {
    let knight = PieceType::Knight;
    assert_eq!(
        knight.is_move_valid(Coordinate::new(1, 7), Coordinate::new(2, 5)),
        None
    );
    assert_eq!(
        knight.is_move_valid(Coordinate::new(1, 7), Coordinate::new(3, 7)),
        Some(MoveFailure::IllegalKnightMove)
    );
}

#[test]
fn test_queen_geometry() {
    let queen = PieceType::Queen;
    assert_eq!(
        queen.is_move_valid(Coordinate::new(3, 0), Coordinate::new(6, 3)),
        None
    );
    assert_eq!(
        queen.is_move_valid(Coordinate::new(3, 0), Coordinate::new(3, 5)),
        None
    );
    assert_eq!(
        queen.is_move_valid(Coordinate::new(3, 0), Coordinate::new(4, 2)),
        Some(MoveFailure::IllegalQueenMove)
    );
}

#[test]
fn test_bishop_geometry() {
    let bishop = PieceType::Bishop;
    assert_eq!(
        bishop.is_move_valid(Coordinate::new(2, 0), Coordinate::new(5, 3)),
        None
    );
    assert_eq!(
        bishop.is_move_valid(Coordinate::new(2, 0), Coordinate::new(2, 4)),
        Some(MoveFailure::IllegalBishopMove)
    );
}

#[test]
fn test_rook_geometry_ignores_obstruction() {
    let board = ChessBoard::new();
    let from = Coordinate::new(0, 7);
    let to = Coordinate::new(0, 3);
    assert!(board.get_piece(from).unwrap().piece_type() == PieceType::Rook);
    // The pawn on (0, 6) stands between, but only the endpoints matter.
    assert!(board.get_piece(Coordinate::new(0, 6)).is_some());
    assert_eq!(board.check_move(from, to), None);
    // A rook may not leave its rank and file.
    assert_eq!(
        PieceType::Rook.is_move_valid(Coordinate::new(0, 7), Coordinate::new(2, 5)),
        Some(MoveFailure::IllegalRookMove)
    );
}

#[test]
fn test_check_move_is_idempotent_and_pure() {
    let board = ChessBoard::new();
    let snapshot = |b: &ChessBoard| -> Vec<Option<ChessPiece>> {
        let mut cells = Vec::new();
        for y in 0..8 {
            for x in 0..8 {
                cells.push(b.get_piece(Coordinate::new(x, y)));
            }
        }
        cells
    };
    let before = snapshot(&board);
    let pairs = [
        (Coordinate::new(0, 1), Coordinate::new(0, 2)),
        (Coordinate::new(0, 1), Coordinate::new(0, 4)),
        (Coordinate::new(3, 3), Coordinate::new(3, 3)),
        (Coordinate::new(2, 2), Coordinate::new(5, 5)),
        (Coordinate::new(0, 0), Coordinate::new(0, 1)),
    ];
    for (from, to) in pairs {
        let first = board.check_move(from, to);
        let second = board.check_move(from, to);
        assert_eq!(first, second);
    }
    let after = snapshot(&board);
    assert_eq!(before, after);
}

#[test]
fn test_move_piece_updates_exactly_two_squares() {
    let mut board = ChessBoard::new();
    let fresh = ChessBoard::new();
    let from = Coordinate::new(0, 6);
    let to = Coordinate::new(0, 5);
    let moved = board.get_piece(from);
    assert_eq!(moved, Some(ChessPiece::White(PieceType::Pawn)));
    assert_eq!(board.check_move(from, to), None);
    board.move_piece(from, to);
    assert_eq!(board.get_piece(to), moved);
    assert_eq!(board.get_piece(from), None);
    for y in 0..8 {
        for x in 0..8 {
            let c = Coordinate::new(x, y);
            if c != from && c != to {
                assert_eq!(board.get_piece(c), fresh.get_piece(c));
            }
        }
    }
}

#[test]
fn test_piece_icons() {
    assert_eq!(PieceType::King.icon(), '\u{2654}');
    assert_eq!(PieceType::Queen.icon(), '\u{2655}');
    assert_eq!(PieceType::Rook.icon(), '\u{2656}');
    assert_eq!(PieceType::Bishop.icon(), '\u{2657}');
    assert_eq!(PieceType::Knight.icon(), '\u{2658}');
    assert_eq!(PieceType::Pawn.icon(), '\u{2659}');
}
