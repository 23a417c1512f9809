//! The pieces and where they are.

use crate::board::coordinate::xy_to_algebraic;
use crate::board::coordinate::CoordinateAlgebraic;
use crate::board::Coordinate;
use vstd::prelude::*;

verus! {

/// `String::push`: the character is appended to the end of the string.
pub assume_specification[ String::push ](text: &mut String, ch: char)
    ensures
        final(text)@ == old(text)@.push(ch),
;

/// What kind of piece it is.
#[derive(Debug, PartialEq, Eq, Clone, Copy, Structural)]
pub enum Rank {
    Pawn,
    Bishop,
    Knight,
    Rook,
    Queen,
    King,
}

/// Where a piece is.
#[derive(Debug, PartialEq, Eq, Clone, Copy, Structural)]
pub enum Position {
    /// Piece was captured by the opponent
    Captured,
    /// Piece is not on the board, but also not captured by the opponent, for example when a pawn
    /// is promoted
    OtherwiseOffBoard,
    /// Piece is still on the board, must specify where
    Board(Coordinate),
}

impl Position {
    /// How the position is written: `captured`, `off`, or the square in
    /// algebraic notation, file letter first.
    pub open spec fn notation_of(self) -> Seq<char> {
        match self {
            Position::Captured => "captured"@,
            Position::OtherwiseOffBoard => "off"@,
            Position::Board(coord) => seq![xy_to_algebraic(coord@).0, xy_to_algebraic(coord@).1],
        }
    }

    /// The position as text.
    pub fn notation(&self) -> (text: String)
        ensures
            text@ == self.notation_of(),
    {
        match self {
            Position::Captured => "captured".to_string(),
            Position::OtherwiseOffBoard => "off".to_string(),
            Position::Board(coord) => {
                let algebraic = CoordinateAlgebraic::from(*coord);
                let mut text = String::new();
                text.push(algebraic.file());
                text.push(algebraic.rank());
                text
            },
        }
    }
}

/// A piece: its kind and where it is.
pub struct Piece {
    rank: Rank,
    position: Position,
}

impl Piece {
    /// What kind of piece it is.
    pub closed spec fn spec_rank(&self) -> Rank {
        self.rank
    }

    /// Where the piece is.
    pub closed spec fn spec_position(&self) -> Position {
        self.position
    }

    /// A piece of kind `rank` at `position`.
    pub fn new(rank: Rank, position: Position) -> (piece: Piece)
        ensures
            piece.rank() == rank,
            piece.position() == position,
    {
        Piece { rank, position }
    }

    /// What kind of piece it is.
    #[verifier::when_used_as_spec(spec_rank)]
    pub fn rank(&self) -> (rank: Rank)
        ensures
            rank == self.spec_rank(),
    {
        self.rank
    }

    /// Where the piece is.
    #[verifier::when_used_as_spec(spec_position)]
    pub fn position(&self) -> (position: Position)
        ensures
            position == self.spec_position(),
    {
        self.position
    }
}

} // verus!
