use chess_engine::board::coordinate::CoordinateAlgebraic;
use chess_engine::board::coordinate::CoordinateError;
use chess_engine::board::coordinate::CoordinateLinear;
use chess_engine::board::coordinate::CoordinateXY;

const TEST_SET: [((u8, u8), (char, char), u8); 24] = [
    // move along the 1 rank
    ((0, 0), ('a', '1'), 0),
    ((1, 0), ('b', '1'), 1),
    ((2, 0), ('c', '1'), 2),
    ((3, 0), ('d', '1'), 3),
    ((4, 0), ('e', '1'), 4),
    ((5, 0), ('f', '1'), 5),
    ((6, 0), ('g', '1'), 6),
    ((7, 0), ('h', '1'), 7),

    // move along the a file
    ((0, 0), ('a', '1'), 0),
    ((0, 1), ('a', '2'), 8),
    ((0, 2), ('a', '3'), 16),
    ((0, 3), ('a', '4'), 24),
    ((0, 4), ('a', '5'), 32),
    ((0, 5), ('a', '6'), 40),
    ((0, 6), ('a', '7'), 48),
    ((0, 7), ('a', '8'), 56),

    // move along the a1-h8 diagonal
    ((0, 0), ('a', '1'), 0),
    ((1, 1), ('b', '2'), 9),
    ((2, 2), ('c', '3'), 18),
    ((3, 3), ('d', '4'), 27),
    ((4, 4), ('e', '5'), 36),
    ((5, 5), ('f', '6'), 45),
    ((6, 6), ('g', '7'), 54),
    ((7, 7), ('h', '8'), 63),
];

#[test]
fn test_coordinate_conv_xy_to_linear() {
    for ((x, y), _, linear) in TEST_SET.iter() {
        let coord = CoordinateXY::new(*x, *y).unwrap();
        let result= CoordinateLinear::from(coord);
        let expect = CoordinateLinear::new(*linear).unwrap();

        assert_eq!(result, expect);
    }
}

#[test]
fn test_coordinate_conv_linear_to_xy() {
    for ((x, y), _, linear) in TEST_SET.iter() {
        let coord = CoordinateLinear::new(*linear).unwrap();
        let result = CoordinateXY::from(coord);
        let expect = CoordinateXY::new(*x, *y).unwrap();

        assert_eq!(result, expect);
    }
}

#[test]
fn test_coordinate_conv_xy_to_algebraic() {
    for ((x, y), algebraic, _) in TEST_SET.iter() {
        let coord = CoordinateXY::new(*x, *y).unwrap();
        let result = CoordinateAlgebraic::from(coord);
        let expect = CoordinateAlgebraic::new(algebraic.0, algebraic.1).unwrap();

        assert_eq!(result, expect);
    }
}

#[test]
fn test_coordinate_conv_algebraic_to_xy() {
    for ((x, y), algebraic, _) in TEST_SET.iter() {
        let coord = CoordinateAlgebraic::new(algebraic.0, algebraic.1).unwrap();
        let result = CoordinateXY::from(coord);
        let expect = CoordinateXY::new(*x, *y).unwrap();

        assert_eq!(result, expect);
    }
}

#[test]
fn test_all_way_commutative_conversion() {
    // convert each test coordinate from XY to linear to algebraic and back to XY, testing
    // the full conversion range
    for ((x, y), algebraic, linear) in TEST_SET.iter() {
        let xy_expect = CoordinateXY::new(*x, *y).unwrap();
        let alg_expect = CoordinateAlgebraic::new(algebraic.0, algebraic.1).unwrap();
        let lin_expect = CoordinateLinear::new(*linear).unwrap();

        // from x-y to linear
        let result = CoordinateLinear::from(xy_expect);
        assert_eq!(result, lin_expect);

        // from linear to algebraic
        let result = CoordinateAlgebraic::from(lin_expect);
        assert_eq!(result, alg_expect);

        // from algebraic to xy
        let result = CoordinateXY::from(alg_expect);
        assert_eq!(result, xy_expect);
    }
}

#[test]
fn getters_return_what_was_given() {
    let xy = CoordinateXY::new(3, 6).unwrap();
    assert_eq!(xy.x(), 3);
    assert_eq!(xy.y(), 6);
    let linear = CoordinateLinear::new(51).unwrap();
    assert_eq!(linear.index(), 51);
    let algebraic = CoordinateAlgebraic::new('d', '7').unwrap();
    assert_eq!(algebraic.file(), 'd');
    assert_eq!(algebraic.rank(), '7');
}

#[test]
fn every_square_converts_there_and_back() {
    for index in 0..64u8 {
        let linear = CoordinateLinear::new(index).unwrap();
        let xy = CoordinateXY::from(linear);
        assert_eq!(xy.x(), index % 8);
        assert_eq!(xy.y(), index / 8);
        assert_eq!(CoordinateLinear::from(xy), linear);
        let algebraic = CoordinateAlgebraic::from(xy);
        assert_eq!(algebraic.file() as u8, b'a' + index % 8);
        assert_eq!(algebraic.rank() as u8, b'1' + index / 8);
        assert_eq!(CoordinateXY::from(algebraic), xy);
        assert_eq!(CoordinateLinear::from(algebraic), linear);
        assert_eq!(CoordinateAlgebraic::from(linear), algebraic);
    }
}

#[test]
fn squares_off_the_board_are_out_of_bounds() {
    assert!(matches!(CoordinateXY::new(8, 0), Err(CoordinateError::OutOfBounds)));
    assert!(matches!(CoordinateXY::new(0, 8), Err(CoordinateError::OutOfBounds)));
    assert!(matches!(CoordinateXY::new(255, 255), Err(CoordinateError::OutOfBounds)));
    assert!(CoordinateXY::new(7, 7).is_ok());
    assert!(matches!(CoordinateLinear::new(64), Err(CoordinateError::OutOfBounds)));
    assert!(matches!(CoordinateLinear::new(255), Err(CoordinateError::OutOfBounds)));
    assert!(CoordinateLinear::new(63).is_ok());
}

#[test]
fn text_that_names_no_square_is_bad_format() {
    assert!(matches!(CoordinateAlgebraic::new('i', '1'), Err(CoordinateError::BadFormat)));
    assert!(matches!(CoordinateAlgebraic::new('a', '9'), Err(CoordinateError::BadFormat)));
    assert!(matches!(CoordinateAlgebraic::new('a', '0'), Err(CoordinateError::BadFormat)));
    assert!(matches!(CoordinateAlgebraic::new('A', '1'), Err(CoordinateError::BadFormat)));
    assert!(matches!(CoordinateAlgebraic::new('1', 'a'), Err(CoordinateError::BadFormat)));
    assert!(CoordinateAlgebraic::new('h', '8').is_ok());
}
