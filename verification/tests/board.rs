use chess_engine::board::coordinate::CoordinateLinear;
use chess_engine::board::Coordinate;
use chess_engine::board::Square;
use chess_engine::board::SquareColor;
use chess_engine::board::SquareColor::Dark;
use chess_engine::board::SquareColor::Light;
use chess_engine::piece::Piece;
use chess_engine::piece::Position;
use chess_engine::piece::Rank;

#[test]
fn test_color_determination() {
    let color_by_index_lut = [
        Dark, Light, Dark, Light, Dark, Light, Dark, Light,
        Light, Dark, Light, Dark, Light, Dark, Light, Dark,
        Dark, Light, Dark, Light, Dark, Light, Dark, Light,
        Light, Dark, Light, Dark, Light, Dark, Light, Dark,
        Dark, Light, Dark, Light, Dark, Light, Dark, Light,
        Light, Dark, Light, Dark, Light, Dark, Light, Dark,
        Dark, Light, Dark, Light, Dark, Light, Dark, Light,
        Light, Dark, Light, Dark, Light, Dark, Light, Dark,
    ];

    for (index, expect) in color_by_index_lut.iter().enumerate() {
        // we can unwrap as this is test code and we will only test valid values
        let coord = Coordinate::from(CoordinateLinear::new(index as u8).unwrap());
        assert_eq!(SquareColor::color_for_coordinate(coord), *expect);
    }
}

#[test]
fn colors_alternate_with_column_plus_row() {
    for x in 0..8u8 {
        for y in 0..8u8 {
            let coord = Coordinate::new(x, y).unwrap();
            let expect = if (x + y) % 2 == 0 { Dark } else { Light };
            assert_eq!(SquareColor::color_for_coordinate(coord), expect);
        }
    }
}

#[test]
fn position_notation() {
    assert_eq!(Position::Captured.notation(), "captured");
    assert_eq!(Position::OtherwiseOffBoard.notation(), "off");
    assert_eq!(Position::Board(Coordinate::new(0, 0).unwrap()).notation(), "a1");
    assert_eq!(Position::Board(Coordinate::new(4, 3).unwrap()).notation(), "e4");
    assert_eq!(Position::Board(Coordinate::new(7, 7).unwrap()).notation(), "h8");
}

#[test]
fn a_piece_is_its_kind_and_position() {
    let coord = Coordinate::new(4, 0).unwrap();
    let king = Piece::new(Rank::King, Position::Board(coord));
    assert_eq!(king.rank(), Rank::King);
    assert_eq!(king.position(), Position::Board(coord));
    let gone = Piece::new(Rank::Pawn, Position::Captured);
    assert_eq!(gone.rank(), Rank::Pawn);
    assert_eq!(gone.position(), Position::Captured);
}

#[test]
fn a_square_knows_its_place_colour_and_piece() {
    let e1 = Coordinate::new(4, 0).unwrap();
    let occupied = Square::new(e1, Some(Piece::new(Rank::King, Position::Board(e1))));
    assert_eq!(occupied.coordinate(), e1);
    assert_eq!(occupied.color(), Dark);
    assert_eq!(occupied.piece().as_ref().map(|piece| piece.rank()), Some(Rank::King));

    let e5 = Coordinate::new(4, 4).unwrap();
    let empty = Square::new(e5, None);
    assert_eq!(empty.coordinate(), e5);
    assert_eq!(empty.color(), Dark);
    assert!(empty.piece().is_none());

    let h1 = Coordinate::new(7, 0).unwrap();
    assert_eq!(Square::new(h1, None).color(), Light);
}
