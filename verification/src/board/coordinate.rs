//! The coordinate system of the board.
//!
//! Three notations name a square:
//! - XY, where the a1 square is (0, 0) and the h8 square is (7, 7);
//! - algebraic, the standard a1 - h8 notation;
//! - linear, where a1 is 0, h1 is 7 and h8 is 63.
//!
//! A coordinate of any notation always names a square of the board, so every
//! conversion between notations is total and loses nothing.

use vstd::prelude::*;
use vstd::std_specs::convert::FromSpec;
use vstd::std_specs::convert::FromSpecImpl;

verus! {

/// Squares along one side of the board.
pub const BOARD_SIDE: u8 = 8;

/// Squares on the board.
pub const BOARD_SQUARES: u8 = 64;

/// The file letters in board order.
pub open spec fn files() -> Seq<char> {
    seq!['a', 'b', 'c', 'd', 'e', 'f', 'g', 'h']
}

/// The rank digits in board order.
pub open spec fn ranks() -> Seq<char> {
    seq!['1', '2', '3', '4', '5', '6', '7', '8']
}

/// Whether column `xy.0` and row `xy.1` name a square of the board.
pub open spec fn xy_on_board(xy: (int, int)) -> bool {
    0 <= xy.0 < BOARD_SIDE && 0 <= xy.1 < BOARD_SIDE
}

/// Whether `index` names a square of the board.
pub open spec fn linear_on_board(index: int) -> bool {
    0 <= index < BOARD_SQUARES
}

/// Whether file letter `square.0` and rank digit `square.1` name a square of
/// the board.
pub open spec fn algebraic_on_board(square: (char, char)) -> bool {
    files().contains(square.0) && ranks().contains(square.1)
}

/// The linear index of the square in column `xy.0`, row `xy.1`: `x + 8y`.
pub open spec fn xy_to_linear(xy: (int, int)) -> int {
    xy.0 + BOARD_SIDE * xy.1
}

/// The column and row of the square with linear index `index`.
pub open spec fn linear_to_xy(index: int) -> (int, int) {
    (index % (BOARD_SIDE as int), index / (BOARD_SIDE as int))
}

/// The file letter and rank digit of the square in column `xy.0`, row `xy.1`.
pub open spec fn xy_to_algebraic(xy: (int, int)) -> (char, char) {
    (files()[xy.0], ranks()[xy.1])
}

/// The column and row of the square with file letter `square.0` and rank
/// digit `square.1`.
pub open spec fn algebraic_to_xy(square: (char, char)) -> (int, int) {
    (files().index_of(square.0), ranks().index_of(square.1))
}

/// Why a coordinate could not be made.
#[derive(Debug, PartialEq, Eq, Clone, Copy, Structural)]
pub enum CoordinateError {
    /// Attempting to construct or access a coordinate that is outside of the allowed board area
    OutOfBounds,
    /// Poorly specified input when attempting to instantiate a coordinate
    BadFormat,
}

/// A square by column and row.
#[derive(Debug, PartialEq, Eq, Clone, Copy, Structural)]
pub struct CoordinateXY {
    x: u8,
    y: u8,
}

/// A square by file letter and rank digit.
#[derive(Debug, PartialEq, Eq, Clone, Copy, Structural)]
pub struct CoordinateAlgebraic {
    file: char,
    rank: char,
}

/// A square by its index in the row-by-row order of the board.
#[derive(Debug, PartialEq, Eq, Clone, Copy, Structural)]
pub struct CoordinateLinear {
    index: u8,
}

/// NOTE: This is what sets the default coordinate system
pub type Coordinate = CoordinateXY;

impl View for CoordinateXY {
    type V = (int, int);

    closed spec fn view(&self) -> (int, int) {
        (self.x as int, self.y as int)
    }
}

impl View for CoordinateAlgebraic {
    type V = (char, char);

    closed spec fn view(&self) -> (char, char) {
        (self.file, self.rank)
    }
}

impl View for CoordinateLinear {
    type V = int;

    closed spec fn view(&self) -> int {
        self.index as int
    }
}

impl CoordinateXY {
    #[verifier::type_invariant]
    spec fn on_board(self) -> bool {
        self.x < BOARD_SIDE && self.y < BOARD_SIDE
    }

    /// The square in column `x`, row `y`, if the board has one.
    pub fn new(x: u8, y: u8) -> (result: Result<CoordinateXY, CoordinateError>)
        ensures
            result is Ok <==> xy_on_board((x as int, y as int)),
            result matches Ok(coord) ==> coord@ == (x as int, y as int),
            result matches Err(error) ==> error is OutOfBounds,
    {
        if x < BOARD_SIDE && y < BOARD_SIDE {
            Ok(CoordinateXY { x, y })
        } else {
            Err(CoordinateError::OutOfBounds)
        }
    }

    /// The column, counted from the a file.
    pub fn x(&self) -> (x: u8)
        ensures
            x == self@.0,
            x < BOARD_SIDE,
    {
        proof {
            use_type_invariant(self);
        }
        self.x
    }

    /// The row, counted from the first rank.
    pub fn y(&self) -> (y: u8)
        ensures
            y == self@.1,
            y < BOARD_SIDE,
    {
        proof {
            use_type_invariant(self);
        }
        self.y
    }
}

impl CoordinateLinear {
    #[verifier::type_invariant]
    spec fn on_board(self) -> bool {
        self.index < BOARD_SQUARES
    }

    /// The square with linear index `index`, if the board has one.
    pub fn new(index: u8) -> (result: Result<CoordinateLinear, CoordinateError>)
        ensures
            result is Ok <==> linear_on_board(index as int),
            result matches Ok(coord) ==> coord@ == index,
            result matches Err(error) ==> error is OutOfBounds,
    {
        if index < BOARD_SQUARES {
            Ok(CoordinateLinear { index })
        } else {
            Err(CoordinateError::OutOfBounds)
        }
    }

    /// The index, counted from a1 along the ranks.
    pub fn index(&self) -> (index: u8)
        ensures
            index == self@,
            index < BOARD_SQUARES,
    {
        proof {
            use_type_invariant(self);
        }
        self.index
    }
}

impl CoordinateAlgebraic {
    #[verifier::type_invariant]
    spec fn on_board(self) -> bool {
        'a' <= self.file <= 'h' && '1' <= self.rank <= '8'
    }

    /// The square with file letter `file` and rank digit `rank`, if the board
    /// has one.
    pub fn new(file: char, rank: char) -> (result: Result<CoordinateAlgebraic, CoordinateError>)
        ensures
            result is Ok <==> algebraic_on_board((file, rank)),
            result matches Ok(coord) ==> coord@ == (file, rank),
            result matches Err(error) ==> error is BadFormat,
    {
        proof {
            lemma_files_and_ranks(file, rank);
        }
        if 'a' <= file && file <= 'h' && '1' <= rank && rank <= '8' {
            Ok(CoordinateAlgebraic { file, rank })
        } else {
            Err(CoordinateError::BadFormat)
        }
    }

    /// The file letter.
    pub fn file(&self) -> (file: char)
        ensures
            file == self@.0,
            files().contains(file),
    {
        proof {
            use_type_invariant(self);
            lemma_files_and_ranks(self.file, self.rank);
        }
        self.file
    }

    /// The rank digit.
    pub fn rank(&self) -> (rank: char)
        ensures
            rank == self@.1,
            ranks().contains(rank),
    {
        proof {
            use_type_invariant(self);
            lemma_files_and_ranks(self.file, self.rank);
        }
        self.rank
    }
}

/// From pure Coordinate type to other subtypes
impl FromSpecImpl<CoordinateXY> for CoordinateLinear {
    open spec fn obeys_from_spec() -> bool {
        true
    }

    closed spec fn from_spec(coord: CoordinateXY) -> CoordinateLinear {
        CoordinateLinear { index: (coord.x + BOARD_SIDE * coord.y) as u8 }
    }
}

impl From<CoordinateXY> for CoordinateLinear {
    fn from(coord: CoordinateXY) -> (linear: CoordinateLinear)
        ensures
            linear@ == xy_to_linear(coord@),
            linear_to_xy(linear@) == coord@,
    {
        proof {
            use_type_invariant(coord);
        }
        // converting from x-y to linear coordinates is simple: x + 8y
        CoordinateLinear { index: coord.x + BOARD_SIDE * coord.y }
    }
}

impl FromSpecImpl<CoordinateXY> for CoordinateAlgebraic {
    open spec fn obeys_from_spec() -> bool {
        true
    }

    closed spec fn from_spec(coord: CoordinateXY) -> CoordinateAlgebraic {
        CoordinateAlgebraic { file: files()[coord.x as int], rank: ranks()[coord.y as int] }
    }
}

impl From<CoordinateXY> for CoordinateAlgebraic {
    fn from(coord: CoordinateXY) -> (algebraic: CoordinateAlgebraic)
        ensures
            algebraic@ == xy_to_algebraic(coord@),
            algebraic_to_xy(algebraic@) == coord@,
    {
        proof {
            use_type_invariant(coord);
        }
        // two lookup tables, one per axis
        let file_lut = ['a', 'b', 'c', 'd', 'e', 'f', 'g', 'h'];
        let rank_lut = ['1', '2', '3', '4', '5', '6', '7', '8'];

        let file: char = file_lut[coord.x as usize];
        let rank: char = rank_lut[coord.y as usize];
        proof {
            lemma_files_and_ranks(file, rank);
        }
        CoordinateAlgebraic { file, rank }
    }
}

/// From subtypes into pure Coordinate type
impl FromSpecImpl<CoordinateLinear> for CoordinateXY {
    open spec fn obeys_from_spec() -> bool {
        true
    }

    closed spec fn from_spec(coord: CoordinateLinear) -> CoordinateXY {
        CoordinateXY { x: coord.index % BOARD_SIDE, y: coord.index / BOARD_SIDE }
    }
}

impl From<CoordinateLinear> for CoordinateXY {
    fn from(coord: CoordinateLinear) -> (xy: CoordinateXY)
        ensures
            xy@ == linear_to_xy(coord@),
            xy_to_linear(xy@) == coord@,
    {
        proof {
            use_type_invariant(coord);
        }
        // this conversion is dependent on the board size/shape, but it's just basic div/mod math
        let y: u8 = coord.index / BOARD_SIDE;
        let x: u8 = coord.index % BOARD_SIDE;
        CoordinateXY { x, y }
    }
}

impl FromSpecImpl<CoordinateAlgebraic> for CoordinateXY {
    open spec fn obeys_from_spec() -> bool {
        true
    }

    closed spec fn from_spec(coord: CoordinateAlgebraic) -> CoordinateXY {
        CoordinateXY {
            x: (coord.file as u8 - 'a' as u8) as u8,
            y: (coord.rank as u8 - '1' as u8) as u8,
        }
    }
}

impl From<CoordinateAlgebraic> for CoordinateXY {
    fn from(coord: CoordinateAlgebraic) -> (xy: CoordinateXY)
        ensures
            xy@ == algebraic_to_xy(coord@),
            xy_to_algebraic(xy@) == coord@,
    {
        proof {
            use_type_invariant(coord);
            lemma_files_and_ranks(coord.file, coord.rank);
        }
        // we need to map ('a'-'h' == 0-7) and ('1'-'8' == 0-7)
        //                  97-104               49-56
        //
        // the x coordinate corresponds to the file (letter) of the algebraic coordinate
        // the y coordinate corresponds to the rank (number) of the algebraic coordinate
        let x: u8 = coord.file as u8 - 97;
        let y: u8 = coord.rank as u8 - 49;
        CoordinateXY { x, y }
    }
}

/// Conversion between subtypes
impl FromSpecImpl<CoordinateLinear> for CoordinateAlgebraic {
    open spec fn obeys_from_spec() -> bool {
        true
    }

    open spec fn from_spec(coord: CoordinateLinear) -> CoordinateAlgebraic {
        <CoordinateAlgebraic as FromSpec<CoordinateXY>>::from_spec(
            <CoordinateXY as FromSpec<CoordinateLinear>>::from_spec(coord),
        )
    }
}

impl From<CoordinateLinear> for CoordinateAlgebraic {
    fn from(coord: CoordinateLinear) -> (algebraic: CoordinateAlgebraic)
        ensures
            algebraic@ == xy_to_algebraic(linear_to_xy(coord@)),
    {
        // go from linear to xy and then xy to alg
        let xy = CoordinateXY::from(coord);
        CoordinateAlgebraic::from(xy)
    }
}

impl FromSpecImpl<CoordinateAlgebraic> for CoordinateLinear {
    open spec fn obeys_from_spec() -> bool {
        true
    }

    open spec fn from_spec(coord: CoordinateAlgebraic) -> CoordinateLinear {
        <CoordinateLinear as FromSpec<CoordinateXY>>::from_spec(
            <CoordinateXY as FromSpec<CoordinateAlgebraic>>::from_spec(coord),
        )
    }
}

impl From<CoordinateAlgebraic> for CoordinateLinear {
    fn from(coord: CoordinateAlgebraic) -> (linear: CoordinateLinear)
        ensures
            linear@ == xy_to_linear(algebraic_to_xy(coord@)),
    {
        // go from algebraic to xy then to linear
        let xy = CoordinateXY::from(coord);
        CoordinateLinear::from(xy)
    }
}

/// A coordinate is what its view says: two coordinates of one notation that
/// name the same square are equal.
pub proof fn lemma_same_square_same_coordinate(
    xy: (CoordinateXY, CoordinateXY),
    linear: (CoordinateLinear, CoordinateLinear),
    algebraic: (CoordinateAlgebraic, CoordinateAlgebraic),
)
    ensures
        xy.0@ == xy.1@ ==> xy.0 == xy.1,
        linear.0@ == linear.1@ ==> linear.0 == linear.1,
        algebraic.0@ == algebraic.1@ ==> algebraic.0 == algebraic.1,
{
}

/// The file letters are the characters from `a` to `h`, the rank digits those
/// from `1` to `8`, each at the place its distance from the first gives.
pub proof fn lemma_files_and_ranks(file: char, rank: char)
    ensures
        files().contains(file) <==> 'a' <= file <= 'h',
        ranks().contains(rank) <==> '1' <= rank <= '8',
        files().contains(file) ==> files().index_of(file) == file as int - 'a' as int,
        ranks().contains(rank) ==> ranks().index_of(rank) == rank as int - '1' as int,
{
    let f = file as int - 'a' as int;
    let r = rank as int - '1' as int;
    if 'a' <= file <= 'h' {
        assert(files()[f] == file);
    }
    if '1' <= rank <= '8' {
        assert(ranks()[r] == rank);
    }
    if files().contains(file) {
        let i = files().index_of(file);
        assert(files()[i] == file);
        assert(files()[f] == file);
    }
    if ranks().contains(rank) {
        let i = ranks().index_of(rank);
        assert(ranks()[i] == rank);
        assert(ranks()[r] == rank);
    }
}

/// Column and row and the linear index name the same squares: each
/// conversion lands on the board and the other one undoes it.
pub proof fn lemma_xy_linear_round_trip(xy: (int, int), index: int)
    ensures
        xy_on_board(xy) ==> linear_on_board(xy_to_linear(xy)) && linear_to_xy(xy_to_linear(xy))
            == xy,
        linear_on_board(index) ==> xy_on_board(linear_to_xy(index)) && xy_to_linear(
            linear_to_xy(index),
        ) == index,
{
}

/// Column and row and the algebraic notation name the same squares: each
/// conversion lands on the board and the other one undoes it.
pub proof fn lemma_xy_algebraic_round_trip(xy: (int, int), square: (char, char))
    ensures
        xy_on_board(xy) ==> algebraic_on_board(xy_to_algebraic(xy)) && algebraic_to_xy(
            xy_to_algebraic(xy),
        ) == xy,
        algebraic_on_board(square) ==> xy_on_board(algebraic_to_xy(square)) && xy_to_algebraic(
            algebraic_to_xy(square),
        ) == square,
{
    if xy_on_board(xy) {
        let (file, rank) = xy_to_algebraic(xy);
        lemma_files_and_ranks(file, rank);
    }
    if algebraic_on_board(square) {
        lemma_files_and_ranks(square.0, square.1);
    }
}

} // verus!
