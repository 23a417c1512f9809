//! The board and its squares.

pub mod coordinate;

pub use crate::board::coordinate::Coordinate;
use crate::board::coordinate::CoordinateLinear;
pub use crate::piece::Piece;
use vstd::prelude::*;

verus! {

/// The colour of a square.
#[derive(Debug, PartialEq, Eq, Clone, Copy, Structural)]
pub enum SquareColor {
    Dark,
    Light,
}

/// The colour of the square in column `x`, row `y`: a1 is dark, and the
/// colours alternate along every row and every column.
pub open spec fn color_of(xy: (int, int)) -> SquareColor {
    if (xy.0 + xy.1) % 2 == 0 {
        SquareColor::Dark
    } else {
        SquareColor::Light
    }
}

impl SquareColor {
    /// The colour of the square at `coordinate`.
    pub fn color_for_coordinate(coordinate: Coordinate) -> (color: SquareColor)
        ensures
            color == color_of(coordinate@),
    {
        let bm_dark: u64 = 0xAA55AA55AA55AA55;
        let square_index: u8 = CoordinateLinear::from(coordinate).index();
        proof {
            lemma_dark_squares(square_index as u64);
        }

        if ((bm_dark >> square_index) & 1) != 0 {
            SquareColor::Dark
        } else {
            SquareColor::Light
        }
    }
}

/// The bits set in the mask of dark squares are those of the squares whose
/// column and row add up to an even number.
proof fn lemma_dark_squares(index: u64)
    requires
        index < 64,
    ensures
        ((0xAA55AA55AA55AA55u64 >> index) & 1) != 0 <==> ((index % 8) + (index / 8)) % 2 == 0,
{
    assert(index < 64 ==> (((0xAA55AA55AA55AA55u64 >> index) & 1) != 0 <==> ((index % 8) + (index
        / 8)) % 2 == 0)) by (bit_vector);
}

/// One square of the board: where it is, what colour it has and what stands on it.
pub struct Square {
    piece: Option<Piece>,
    color: SquareColor,
    coordinate: Coordinate,
}

impl Square {
    /// A square has the colour of its place.
    #[verifier::type_invariant]
    spec fn colored_by_place(self) -> bool {
        self.color == color_of(self.coordinate@)
    }

    /// What stands on the square.
    pub closed spec fn spec_piece(&self) -> &Option<Piece> {
        &self.piece
    }

    /// The colour of the square.
    pub closed spec fn spec_color(&self) -> SquareColor {
        self.color
    }

    /// Where the square is.
    pub closed spec fn spec_coordinate(&self) -> Coordinate {
        self.coordinate
    }

    /// The square at `coordinate`, in its colour, holding `piece`.
    pub fn new(coordinate: Coordinate, piece: Option<Piece>) -> (square: Square)
        ensures
            square.coordinate() == coordinate,
            square.color() == color_of(coordinate@),
            *square.piece() == piece,
    {
        Square { piece, color: SquareColor::color_for_coordinate(coordinate), coordinate }
    }

    /// What stands on the square.
    #[verifier::when_used_as_spec(spec_piece)]
    pub fn piece(&self) -> (piece: &Option<Piece>)
        ensures
            piece == self.spec_piece(),
    {
        &self.piece
    }

    /// The colour of the square, which is that of its place.
    #[verifier::when_used_as_spec(spec_color)]
    pub fn color(&self) -> (color: SquareColor)
        ensures
            color == self.spec_color(),
            color == color_of(self.coordinate()@),
    {
        proof {
            use_type_invariant(self);
        }
        self.color
    }

    /// Where the square is.
    #[verifier::when_used_as_spec(spec_coordinate)]
    pub fn coordinate(&self) -> (coordinate: Coordinate)
        ensures
            coordinate == self.spec_coordinate(),
    {
        self.coordinate
    }
}

/// The sixty-four squares.
pub struct Board {
    squares: [Square; 64],
}

} // verus!
