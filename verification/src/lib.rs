//! A small chess rules kernel: an 8x8 board of optional pieces, a validating
//! coordinate type, per-piece movement geometry, and a capture-arbitration
//! verdict. Legality is purely geometric: sliding pieces are not blocked by
//! intervening pieces, and there is no check, castling, or turn enforcement.

use vstd::prelude::*;

pub mod chess_board;
pub mod coordinate;

verus! {

/// The board is `BOARD_SIZE` by `BOARD_SIZE` squares.
pub const BOARD_SIZE: usize = 8;

} // verus!
