//! The board as the rules engine reports it.

use vstd::prelude::*;
use crate::square::Square;

verus! {

/// The kind of a piece.
#[derive(Clone, Copy, Debug, PartialEq, Eq, Structural)]
pub enum PieceKind {
    King,
    Queen,
    Rook,
    Bishop,
    Knight,
    Pawn,
    /// A kind that has no glyph.
    Other,
}

/// One of the two players.
#[derive(Clone, Copy, Debug, PartialEq, Eq, Structural)]
pub enum Side {
    White,
    Black,
}

/// A piece on the board.
#[derive(Clone, Copy, Debug, PartialEq, Eq, Structural)]
pub struct Piece {
    pub kind: PieceKind,
    pub side: Side,
}

impl Piece {
    /// The occupant of a square, from the engine's two answers about the
    /// square: the kind of the piece on it and the side of that piece. Where
    /// the engine names a piece but no side for it, the square counts as
    /// empty.
    pub open spec fn of_parts(kind: Option<PieceKind>, side: Option<Side>) -> Option<Piece> {
        match (kind, side) {
            (Some(kind), Some(side)) => Some(Piece { kind, side }),
            _ => None,
        }
    }

    /// The occupant of a square, from the engine's two answers about it.
    pub fn from_parts(kind: Option<PieceKind>, side: Option<Side>) -> (piece: Option<Piece>)
        ensures
            piece == Piece::of_parts(kind, side),
    {
        match (kind, side) {
            (Some(kind), Some(side)) => Some(Piece { kind, side }),
            _ => None,
        }
    }
}

/// The occupancy of the board at one moment, `cells[row][col]`.
///
/// A snapshot is only read: it is the engine's to produce.
#[derive(Clone, Copy, Debug, PartialEq, Eq)]
pub struct BoardSnapshot {
    pub cells: [[Option<Piece>; 8]; 8],
}

impl BoardSnapshot {
    /// What stands on `square`.
    pub open spec fn occupant(self, square: Square) -> Option<Piece> {
        self.cells[square.row as int][square.col as int]
    }

    /// What stands on `square`.
    pub fn piece_at(&self, square: Square) -> (piece: Option<Piece>)
        requires
            square.wf(),
        ensures
            piece == self.occupant(square),
    {
        self.cells[square.row][square.col]
    }
}

} // verus!
