use vstd::prelude::*;

use crate::coordinate::Coordinate;
use crate::BOARD_SIZE;

verus! {

/// A piece kind; its movement geometry and icon are pure functions of the
/// variant.
#[derive(Clone, Copy, Debug, PartialEq, Eq, Structural)]
pub enum PieceType {
    King,
    Queen,
    Rook,
    Bishop,
    Knight,
    Pawn,
}

/// A color-tagged piece.
#[derive(Clone, Copy, Debug, PartialEq, Eq, Structural)]
pub enum ChessPiece {
    Black(PieceType),
    White(PieceType),
}

/// Every way a proposed move can be rejected; a verdict is either legal or
/// exactly one of these.
#[derive(Clone, Copy, Debug, PartialEq, Eq, Structural)]
pub enum MoveFailure {
    MoveToSameSpot,
    NoPieceAtFrom,
    SameColorTake,
    IllegalKingMove,
    IllegalQueenMove,
    IllegalRookMove,
    IllegalBishopMove,
    IllegalKnightMove,
    IllegalPawnMove,
}

/// The absolute difference of two square indices.
pub open spec fn abs_diff(a: usize, b: usize) -> int {
    if a >= b {
        a - b
    } else {
        b - a
    }
}

/// Whether the displacement from `from` to `to` fits `t`'s movement pattern.
/// Only the endpoints matter: sliding pieces are not blocked by intervening
/// pieces.
pub open spec fn geometry_ok(t: PieceType, from: Coordinate, to: Coordinate) -> bool {
    let dx = abs_diff(to.x, from.x);
    let dy = abs_diff(to.y, from.y);
    match t {
        PieceType::King => dx <= 1 && dy <= 1,
        PieceType::Queen => dx == dy || from.x == to.x || from.y == to.y,
        PieceType::Rook => from.x == to.x || from.y == to.y,
        PieceType::Bishop => dx == dy,
        PieceType::Knight => (dx == 2 && dy == 1) || (dx == 1 && dy == 2),
        PieceType::Pawn => dx == 0 && dy == 1,
    }
}

/// The failure reported when a piece of kind `t` breaks its movement pattern.
pub open spec fn illegal_move_failure(t: PieceType) -> MoveFailure {
    match t {
        PieceType::King => MoveFailure::IllegalKingMove,
        PieceType::Queen => MoveFailure::IllegalQueenMove,
        PieceType::Rook => MoveFailure::IllegalRookMove,
        PieceType::Bishop => MoveFailure::IllegalBishopMove,
        PieceType::Knight => MoveFailure::IllegalKnightMove,
        PieceType::Pawn => MoveFailure::IllegalPawnMove,
    }
}

impl PieceType {
    /// The verdict of this kind's movement pattern alone: `None` when the
    /// displacement from `from` to `to` fits it, otherwise the kind's own
    /// failure.
    pub fn is_move_valid(&self, from: Coordinate, to: Coordinate) -> (r: Option<MoveFailure>)
        ensures
            r == (if geometry_ok(*self, from, to) {
                None::<MoveFailure>
            } else {
                Some(illegal_move_failure(*self))
            }),
    {
        let dx = if to.x >= from.x {
            to.x - from.x
        } else {
            from.x - to.x
        };
        let dy = if to.y >= from.y {
            to.y - from.y
        } else {
            from.y - to.y
        };
        match self {
            PieceType::King => {
                if dx <= 1 && dy <= 1 {
                    None
                } else {
                    Some(MoveFailure::IllegalKingMove)
                }
            },
            PieceType::Queen => {
                if dx == dy || from.x == to.x || from.y == to.y {
                    None
                } else {
                    Some(MoveFailure::IllegalQueenMove)
                }
            },
            PieceType::Rook => {
                if from.x == to.x || from.y == to.y {
                    None
                } else {
                    Some(MoveFailure::IllegalRookMove)
                }
            },
            PieceType::Bishop => {
                if dx == dy {
                    None
                } else {
                    Some(MoveFailure::IllegalBishopMove)
                }
            },
            PieceType::Knight => {
                if (dx == 2 && dy == 1) || (dx == 1 && dy == 2) {
                    None
                } else {
                    Some(MoveFailure::IllegalKnightMove)
                }
            },
            PieceType::Pawn => {
                if dx == 0 && dy == 1 {
                    None
                } else {
                    Some(MoveFailure::IllegalPawnMove)
                }
            },
        }
    }

    /// The glyph used when the board is rendered.
    pub fn icon(&self) -> (r: char)
        ensures
            r == self.spec_icon(),
    {
        match self {
            PieceType::King => '\u{2654}',
            PieceType::Queen => '\u{2655}',
            PieceType::Rook => '\u{2656}',
            PieceType::Bishop => '\u{2657}',
            PieceType::Knight => '\u{2658}',
            PieceType::Pawn => '\u{2659}',
        }
    }

    /// The glyph for each kind.
    pub open spec fn spec_icon(self) -> char {
        match self {
            PieceType::King => '\u{2654}',
            PieceType::Queen => '\u{2655}',
            PieceType::Rook => '\u{2656}',
            PieceType::Bishop => '\u{2657}',
            PieceType::Knight => '\u{2658}',
            PieceType::Pawn => '\u{2659}',
        }
    }
}

impl ChessPiece {
    /// The kind of the piece, whatever its color.
    pub open spec fn spec_piece_type(self) -> PieceType {
        match self {
            ChessPiece::Black(t) => t,
            ChessPiece::White(t) => t,
        }
    }

    /// Whether the piece is black.
    pub open spec fn spec_is_black(self) -> bool {
        match self {
            ChessPiece::Black(_) => true,
            ChessPiece::White(_) => false,
        }
    }

    /// Capture arbitration when this piece moves from `from` onto `other` at
    /// `to`: a same-color target is refused; otherwise the mover's movement
    /// pattern decides.
    fn can_take(&self, other: ChessPiece, from: Coordinate, to: Coordinate) -> (r: Option<
        MoveFailure,
    >)
        ensures
            r == (if same_color(*self, other) {
                Some(MoveFailure::SameColorTake)
            } else if geometry_ok(self.spec_piece_type(), from, to) {
                None::<MoveFailure>
            } else {
                Some(illegal_move_failure(self.spec_piece_type()))
            }),
    {
        match self {
            ChessPiece::Black(t) => match other {
                ChessPiece::Black(_) => Some(MoveFailure::SameColorTake),
                ChessPiece::White(_) => t.is_move_valid(from, to),
            },
            ChessPiece::White(t) => match other {
                ChessPiece::Black(_) => t.is_move_valid(from, to),
                ChessPiece::White(_) => Some(MoveFailure::SameColorTake),
            },
        }
    }

    /// The kind of the piece, whatever its color.
    pub fn piece_type(&self) -> (r: PieceType)
        ensures
            r == self.spec_piece_type(),
    {
        match self {
            ChessPiece::Black(t) => *t,
            ChessPiece::White(t) => *t,
        }
    }
}

/// Whether the two pieces belong to the same player.
pub open spec fn same_color(a: ChessPiece, b: ChessPiece) -> bool {
    a.spec_is_black() == b.spec_is_black()
}

/// The piece kind on a back rank at file `x` in the starting position.
pub open spec fn back_rank_type(x: int) -> PieceType {
    if x == 0 || x == 7 {
        PieceType::Rook
    } else if x == 1 || x == 6 {
        PieceType::Knight
    } else if x == 2 || x == 5 {
        PieceType::Bishop
    } else if x == 3 {
        PieceType::Queen
    } else {
        PieceType::King
    }
}

/// The content of the square at `c` in the standard starting position:
/// Black's back rank on rank 0 and pawns on rank 1, White's pawns on rank 6
/// and back rank on rank 7, the four middle ranks empty.
pub open spec fn starting_piece(c: Coordinate) -> Option<ChessPiece> {
    if c.y == 0 {
        Some(ChessPiece::Black(back_rank_type(c.x as int)))
    } else if c.y == 1 {
        Some(ChessPiece::Black(PieceType::Pawn))
    } else if c.y == 6 {
        Some(ChessPiece::White(PieceType::Pawn))
    } else if c.y == 7 {
        Some(ChessPiece::White(back_rank_type(c.x as int)))
    } else {
        None
    }
}

/// The back-rank piece kind at file `x`.
fn back_rank_piece(x: usize) -> (t: PieceType)
    ensures
        t == back_rank_type(x as int),
{
    if x == 0 || x == 7 {
        PieceType::Rook
    } else if x == 1 || x == 6 {
        PieceType::Knight
    } else if x == 2 || x == 5 {
        PieceType::Bishop
    } else if x == 3 {
        PieceType::Queen
    } else {
        PieceType::King
    }
}

/// The verdict of a legality check, as a function of the board state and the
/// two squares alone. The checks short-circuit in a fixed priority order:
/// moving to the same square, an empty source, a same-color capture, and
/// last the mover's movement pattern, which applies whether or not the
/// destination is occupied.
pub open spec fn spec_check_move(board: ChessBoard, from: Coordinate, to: Coordinate) -> Option<
    MoveFailure,
> {
    if from == to {
        Some(MoveFailure::MoveToSameSpot)
    } else {
        match board.spec_piece_at(from) {
            None => Some(MoveFailure::NoPieceAtFrom),
            Some(mover) => {
                let pattern_verdict = if geometry_ok(mover.spec_piece_type(), from, to) {
                    None
                } else {
                    Some(illegal_move_failure(mover.spec_piece_type()))
                };
                match board.spec_piece_at(to) {
                    Some(target) => if same_color(mover, target) {
                        Some(MoveFailure::SameColorTake)
                    } else {
                        pattern_verdict
                    },
                    None => pattern_verdict,
                }
            },
        }
    }
}

/// Law: in the standard starting position a square is occupied exactly when
/// it lies on a back rank or a pawn rank (ranks 0, 1, 6 and 7); the four
/// middle ranks are empty.
pub proof fn lemma_starting_occupancy(c: Coordinate)
    requires
        c.in_bounds(),
    ensures
        starting_piece(c) is Some <==> (c.y == 0 || c.y == 1 || c.y == 6 || c.y == 7),
{
}

/// Law: proposing a move from a square onto itself yields `MoveToSameSpot`,
/// on any board.
pub proof fn lemma_move_to_same_spot(board: ChessBoard, c: Coordinate)
    ensures
        spec_check_move(board, c, c) == Some(MoveFailure::MoveToSameSpot),
{
}

/// Law: when the source square is empty, a move from it to any other square
/// yields `NoPieceAtFrom`.
pub proof fn lemma_no_piece_at_from(board: ChessBoard, from: Coordinate, to: Coordinate)
    requires
        from != to,
        board.spec_piece_at(from) is None,
    ensures
        spec_check_move(board, from, to) == Some(MoveFailure::NoPieceAtFrom),
{
}

/// Law: when two distinct squares hold same-colored pieces, the move between
/// them yields `SameColorTake`, whatever the mover's movement pattern says.
pub proof fn lemma_same_color_take(board: ChessBoard, from: Coordinate, to: Coordinate)
    requires
        from != to,
        board.spec_piece_at(from) is Some,
        board.spec_piece_at(to) is Some,
        same_color(board.spec_piece_at(from)->0, board.spec_piece_at(to)->0),
    ensures
        spec_check_move(board, from, to) == Some(MoveFailure::SameColorTake),
{
}

/// Law: the legality check is deterministic. `check_move` promises a verdict
/// equal to `spec_check_move` over the board and the two squares alone, so
/// two verdicts drawn from the same state and arguments are the same; and
/// the check takes the board by shared reference, so it cannot change it.
pub proof fn lemma_check_move_idempotent(
    board: ChessBoard,
    from: Coordinate,
    to: Coordinate,
    first: Option<MoveFailure>,
    second: Option<MoveFailure>,
)
    requires
        first == spec_check_move(board, from, to),
        second == spec_check_move(board, from, to),
    ensures
        first == second,
{
}

/// Law: the verdict depends only on the contents of the two end squares,
/// never on any other square — in particular not on pieces standing between
/// a sliding piece's origin and destination.
pub proof fn lemma_verdict_depends_on_endpoints_only(
    board1: ChessBoard,
    board2: ChessBoard,
    from: Coordinate,
    to: Coordinate,
)
    requires
        board1.spec_piece_at(from) == board2.spec_piece_at(from),
        board1.spec_piece_at(to) == board2.spec_piece_at(to),
    ensures
        spec_check_move(board1, from, to) == spec_check_move(board2, from, to),
{
}

/// An 8x8 grid of optional pieces, row-major by rank: the square at
/// coordinate `c` is cell `c.y * BOARD_SIZE + c.x`. The grid is the single
/// owner of the game state.
pub struct ChessBoard {
    squares: Vec<Option<ChessPiece>>,
}

impl ChessBoard {
    /// The grid holds exactly one cell per square of the board.
    pub closed spec fn wf(self) -> bool {
        self.squares@.len() == BOARD_SIZE * BOARD_SIZE
    }

    /// The content of the square at `c`.
    pub closed spec fn spec_piece_at(self, c: Coordinate) -> Option<ChessPiece> {
        self.squares@[c.y as int * BOARD_SIZE as int + c.x as int]
    }

    /// Builds the standard starting position.
    pub fn new() -> (board: ChessBoard)
        ensures
            board.wf(),
            forall|c: Coordinate|
                c.in_bounds() ==> #[trigger] board.spec_piece_at(c) == starting_piece(c),
    {
        let mut squares: Vec<Option<ChessPiece>> = Vec::new();
        let mut y: usize = 0;
        while y < BOARD_SIZE
            invariant
                y <= BOARD_SIZE,
                squares@.len() == y * BOARD_SIZE,
                forall|c: Coordinate|
                    c.in_bounds() && c.y < y ==> squares@[c.y as int * BOARD_SIZE as int
                        + c.x as int] == #[trigger] starting_piece(c),
            decreases BOARD_SIZE - y,
        {
            let mut x: usize = 0;
            while x < BOARD_SIZE
                invariant
                    y < BOARD_SIZE,
                    x <= BOARD_SIZE,
                    squares@.len() == y * BOARD_SIZE + x,
                    forall|c: Coordinate|
                        c.in_bounds() && (c.y < y || (c.y == y && c.x < x)) ==> squares@[c.y as int
                            * BOARD_SIZE as int + c.x as int] == #[trigger] starting_piece(c),
                decreases BOARD_SIZE - x,
            {
                let square: Option<ChessPiece> = if y == 0 {
                    Some(ChessPiece::Black(back_rank_piece(x)))
                } else if y == 1 {
                    Some(ChessPiece::Black(PieceType::Pawn))
                } else if y == 6 {
                    Some(ChessPiece::White(PieceType::Pawn))
                } else if y == 7 {
                    Some(ChessPiece::White(back_rank_piece(x)))
                } else {
                    None
                };
                squares.push(square);
                x += 1;
            }
            y += 1;
        }
        ChessBoard { squares }
    }

    /// Reads the square at `coord` without touching the board.
    pub fn get_piece(&self, coord: Coordinate) -> (r: Option<ChessPiece>)
        requires
            self.wf(),
            coord.in_bounds(),
        ensures
            r == self.spec_piece_at(coord),
    {
        self.squares[coord.y * BOARD_SIZE + coord.x]
    }

    /// Overwrites the square at `coord`, leaving every other square as it
    /// was.
    fn set_piece(&mut self, coord: Coordinate, piece: Option<ChessPiece>)
        requires
            old(self).wf(),
            coord.in_bounds(),
        ensures
            final(self).wf(),
            forall|c: Coordinate|
                c.in_bounds() ==> #[trigger] final(self).spec_piece_at(c) == (if c == coord {
                    piece
                } else {
                    old(self).spec_piece_at(c)
                }),
    {
        let i: usize = coord.y * BOARD_SIZE + coord.x;
        self.squares.set(i, piece);
    }

    /// Copies the piece at `from` onto `to` and clears `from`. A pure state
    /// transition with no legality check of its own: callers establish that
    /// `from` is occupied, normally through a legal `check_move` verdict.
    pub fn move_piece(&mut self, from: Coordinate, to: Coordinate)
        requires
            old(self).wf(),
            from.in_bounds(),
            to.in_bounds(),
            old(self).spec_piece_at(from) is Some,
        ensures
            final(self).wf(),
            forall|c: Coordinate|
                c.in_bounds() ==> #[trigger] final(self).spec_piece_at(c) == (if c == from {
                    None::<ChessPiece>
                } else if c == to {
                    old(self).spec_piece_at(from)
                } else {
                    old(self).spec_piece_at(c)
                }),
    {
        let piece = self.get_piece(from).unwrap();
        self.set_piece(to, Some(piece));
        self.set_piece(from, None);
    }

    /// Classifies the proposed move: `None` when it is legal, otherwise
    /// exactly one failure reason. Never mutates the board.
    pub fn check_move(&self, from: Coordinate, to: Coordinate) -> (r: Option<MoveFailure>)
        requires
            self.wf(),
            from.in_bounds(),
            to.in_bounds(),
        ensures
            r == spec_check_move(*self, from, to),
    {
        if from == to {
            return Some(MoveFailure::MoveToSameSpot);
        }
        let from_piece = match self.get_piece(from) {
            Some(piece) => piece,
            None => {
                return Some(MoveFailure::NoPieceAtFrom);
            },
        };
        match self.get_piece(to) {
            Some(to_piece) => from_piece.can_take(to_piece, from, to),
            None => from_piece.piece_type().is_move_valid(from, to),
        }
    }
}

} // verus!
