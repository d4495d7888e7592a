use seer::board::{Bitboard, Direction, Square};

#[test]
fn directions_north() {
    assert_eq!(
        Direction::North.move_board(Square::A1.into_bitboard()),
        Square::A2.into_bitboard()
    );
    assert_eq!(
        Direction::North.move_board(Square::A2.into_bitboard()),
        Square::A3.into_bitboard()
    );
    assert_eq!(
        Direction::North.move_board(Square::A7.into_bitboard()),
        Square::A8.into_bitboard()
    );
    assert_eq!(
        Direction::North.move_board(Square::A8.into_bitboard()),
        Bitboard::empty()
    );
}

#[test]
fn directions_west() {
    assert_eq!(
        Direction::West.move_board(Square::A1.into_bitboard()),
        Bitboard::empty()
    );
    assert_eq!(
        Direction::West.move_board(Square::B1.into_bitboard()),
        Square::A1.into_bitboard()
    );
    assert_eq!(
        Direction::West.move_board(Square::G1.into_bitboard()),
        Square::F1.into_bitboard()
    );
    assert_eq!(
        Direction::West.move_board(Square::H1.into_bitboard()),
        Square::G1.into_bitboard()
    );
}

#[test]
fn directions_south() {
    assert_eq!(
        Direction::South.move_board(Square::A1.into_bitboard()),
        Bitboard::empty()
    );
    assert_eq!(
        Direction::South.move_board(Square::A2.into_bitboard()),
        Square::A1.into_bitboard()
    );
    assert_eq!(
        Direction::South.move_board(Square::A7.into_bitboard()),
        Square::A6.into_bitboard()
    );
    assert_eq!(
        Direction::South.move_board(Square::A8.into_bitboard()),
        Square::A7.into_bitboard()
    );
}

#[test]
fn directions_east() {
    assert_eq!(
        Direction::East.move_board(Square::A1.into_bitboard()),
        Square::B1.into_bitboard()
    );
    assert_eq!(
        Direction::East.move_board(Square::B1.into_bitboard()),
        Square::C1.into_bitboard()
    );
    assert_eq!(
        Direction::East.move_board(Square::G1.into_bitboard()),
        Square::H1.into_bitboard()
    );
    assert_eq!(
        Direction::East.move_board(Square::H1.into_bitboard()),
        Bitboard::empty()
    );
}

#[test]
fn directions_north_west() {
    assert_eq!(
        Direction::NorthWest.move_board(Square::A1.into_bitboard()),
        Bitboard::empty()
    );
    assert_eq!(
        Direction::NorthWest.move_board(Square::B1.into_bitboard()),
        Square::A2.into_bitboard()
    );
    assert_eq!(
        Direction::NorthWest.move_board(Square::H1.into_bitboard()),
        Square::G2.into_bitboard()
    );
    assert_eq!(
        Direction::NorthWest.move_board(Square::A8.into_bitboard()),
        Bitboard::empty()
    );
    assert_eq!(
        Direction::NorthWest.move_board(Square::B8.into_bitboard()),
        Bitboard::empty()
    );
    assert_eq!(
        Direction::NorthWest.move_board(Square::H8.into_bitboard()),
        Bitboard::empty()
    );
}

#[test]
fn directions_south_west() {
    assert_eq!(
        Direction::SouthWest.move_board(Square::A1.into_bitboard()),
        Bitboard::empty()
    );
    assert_eq!(
        Direction::SouthWest.move_board(Square::B1.into_bitboard()),
        Bitboard::empty()
    );
    assert_eq!(
        Direction::SouthWest.move_board(Square::H1.into_bitboard()),
        Bitboard::empty()
    );
    assert_eq!(
        Direction::SouthWest.move_board(Square::A8.into_bitboard()),
        Bitboard::empty()
    );
    assert_eq!(
        Direction::SouthWest.move_board(Square::B8.into_bitboard()),
        Square::A7.into_bitboard()
    );
    assert_eq!(
        Direction::SouthWest.move_board(Square::H8.into_bitboard()),
        Square::G7.into_bitboard()
    );
}

#[test]
fn directions_south_east() {
    assert_eq!(
        Direction::SouthEast.move_board(Square::A1.into_bitboard()),
        Bitboard::empty()
    );
    assert_eq!(
        Direction::SouthEast.move_board(Square::B1.into_bitboard()),
        Bitboard::empty()
    );
    assert_eq!(
        Direction::SouthEast.move_board(Square::H1.into_bitboard()),
        Bitboard::empty()
    );
    assert_eq!(
        Direction::SouthEast.move_board(Square::A8.into_bitboard()),
        Square::B7.into_bitboard()
    );
    assert_eq!(
        Direction::SouthEast.move_board(Square::B8.into_bitboard()),
        Square::C7.into_bitboard()
    );
    assert_eq!(
        Direction::SouthEast.move_board(Square::H8.into_bitboard()),
        Bitboard::empty()
    );
}

#[test]
fn directions_north_east() {
    assert_eq!(
        Direction::NorthEast.move_board(Square::A1.into_bitboard()),
        Square::B2.into_bitboard()
    );
    assert_eq!(
        Direction::NorthEast.move_board(Square::B1.into_bitboard()),
        Square::C2.into_bitboard()
    );
    assert_eq!(
        Direction::NorthEast.move_board(Square::H1.into_bitboard()),
        Bitboard::empty()
    );
    assert_eq!(
        Direction::NorthEast.move_board(Square::A8.into_bitboard()),
        Bitboard::empty()
    );
    assert_eq!(
        Direction::NorthEast.move_board(Square::B8.into_bitboard()),
        Bitboard::empty()
    );
    assert_eq!(
        Direction::NorthEast.move_board(Square::H8.into_bitboard()),
        Bitboard::empty()
    );
}

#[test]
fn directions_north_north_west() {
    assert_eq!(
        Direction::NorthNorthWest.move_board(Square::A1.into_bitboard()),
        Bitboard::empty(),
    );
    assert_eq!(
        Direction::NorthNorthWest.move_board(Square::B2.into_bitboard()),
        Square::A4.into_bitboard()
    );
    assert_eq!(
        Direction::NorthNorthWest.move_board(Square::H1.into_bitboard()),
        Square::G3.into_bitboard()
    );
    assert_eq!(
        Direction::NorthNorthWest.move_board(Square::G2.into_bitboard()),
        Square::F4.into_bitboard()
    );
    assert_eq!(
        Direction::NorthNorthWest.move_board(Square::A8.into_bitboard()),
        Bitboard::empty(),
    );
    assert_eq!(
        Direction::NorthNorthWest.move_board(Square::B7.into_bitboard()),
        Bitboard::empty(),
    );
    assert_eq!(
        Direction::NorthNorthWest.move_board(Square::H8.into_bitboard()),
        Bitboard::empty(),
    );
    assert_eq!(
        Direction::NorthNorthWest.move_board(Square::G7.into_bitboard()),
        Bitboard::empty(),
    );
}

#[test]
fn directions_north_west_west() {
    assert_eq!(
        Direction::NorthWestWest.move_board(Square::A1.into_bitboard()),
        Bitboard::empty(),
    );
    assert_eq!(
        Direction::NorthWestWest.move_board(Square::B2.into_bitboard()),
        Bitboard::empty(),
    );
    assert_eq!(
        Direction::NorthWestWest.move_board(Square::H1.into_bitboard()),
        Square::F2.into_bitboard()
    );
    assert_eq!(
        Direction::NorthWestWest.move_board(Square::G2.into_bitboard()),
        Square::E3.into_bitboard()
    );
    assert_eq!(
        Direction::NorthWestWest.move_board(Square::A8.into_bitboard()),
        Bitboard::empty(),
    );
    assert_eq!(
        Direction::NorthWestWest.move_board(Square::B7.into_bitboard()),
        Bitboard::empty(),
    );
    assert_eq!(
        Direction::NorthWestWest.move_board(Square::H8.into_bitboard()),
        Bitboard::empty(),
    );
    assert_eq!(
        Direction::NorthWestWest.move_board(Square::G7.into_bitboard()),
        Square::E8.into_bitboard()
    );
}

#[test]
fn directions_south_west_west() {
    assert_eq!(
        Direction::SouthWestWest.move_board(Square::A1.into_bitboard()),
        Bitboard::empty(),
    );
    assert_eq!(
        Direction::SouthWestWest.move_board(Square::B2.into_bitboard()),
        Bitboard::empty(),
    );
    assert_eq!(
        Direction::SouthWestWest.move_board(Square::H1.into_bitboard()),
        Bitboard::empty(),
    );
    assert_eq!(
        Direction::SouthWestWest.move_board(Square::G2.into_bitboard()),
        Square::E1.into_bitboard()
    );
    assert_eq!(
        Direction::SouthWestWest.move_board(Square::A8.into_bitboard()),
        Bitboard::empty(),
    );
    assert_eq!(
        Direction::SouthWestWest.move_board(Square::B7.into_bitboard()),
        Bitboard::empty(),
    );
    assert_eq!(
        Direction::SouthWestWest.move_board(Square::H8.into_bitboard()),
        Square::F7.into_bitboard()
    );
    assert_eq!(
        Direction::SouthWestWest.move_board(Square::G7.into_bitboard()),
        Square::E6.into_bitboard()
    );
}

#[test]
fn directions_south_south_west() {
    assert_eq!(
        Direction::SouthSouthWest.move_board(Square::A1.into_bitboard()),
        Bitboard::empty(),
    );
    assert_eq!(
        Direction::SouthSouthWest.move_board(Square::B2.into_bitboard()),
        Bitboard::empty(),
    );
    assert_eq!(
        Direction::SouthSouthWest.move_board(Square::H1.into_bitboard()),
        Bitboard::empty(),
    );
    assert_eq!(
        Direction::SouthSouthWest.move_board(Square::G2.into_bitboard()),
        Bitboard::empty(),
    );
    assert_eq!(
        Direction::SouthSouthWest.move_board(Square::A8.into_bitboard()),
        Bitboard::empty(),
    );
    assert_eq!(
        Direction::SouthSouthWest.move_board(Square::B7.into_bitboard()),
        Square::A5.into_bitboard()
    );
    assert_eq!(
        Direction::SouthSouthWest.move_board(Square::H8.into_bitboard()),
        Square::G6.into_bitboard()
    );
    assert_eq!(
        Direction::SouthSouthWest.move_board(Square::G7.into_bitboard()),
        Square::F5.into_bitboard()
    );
}

#[test]
fn directions_south_south_east() {
    assert_eq!(
        Direction::SouthSouthEast.move_board(Square::A1.into_bitboard()),
        Bitboard::empty(),
    );
    assert_eq!(
        Direction::SouthSouthEast.move_board(Square::B2.into_bitboard()),
        Bitboard::empty(),
    );
    assert_eq!(
        Direction::SouthSouthEast.move_board(Square::H1.into_bitboard()),
        Bitboard::empty(),
    );
    assert_eq!(
        Direction::SouthSouthEast.move_board(Square::G2.into_bitboard()),
        Bitboard::empty(),
    );
    assert_eq!(
        Direction::SouthSouthEast.move_board(Square::A8.into_bitboard()),
        Square::B6.into_bitboard()
    );
    assert_eq!(
        Direction::SouthSouthEast.move_board(Square::B7.into_bitboard()),
        Square::C5.into_bitboard()
    );
    assert_eq!(
        Direction::SouthSouthEast.move_board(Square::H8.into_bitboard()),
        Bitboard::empty(),
    );
    assert_eq!(
        Direction::SouthSouthEast.move_board(Square::G7.into_bitboard()),
        Square::H5.into_bitboard()
    );
}

#[test]
fn directions_south_east_east() {
    assert_eq!(
        Direction::SouthEastEast.move_board(Square::A1.into_bitboard()),
        Bitboard::empty(),
    );
    assert_eq!(
        Direction::SouthEastEast.move_board(Square::B2.into_bitboard()),
        Square::D1.into_bitboard()
    );
    assert_eq!(
        Direction::SouthEastEast.move_board(Square::H1.into_bitboard()),
        Bitboard::empty(),
    );
    assert_eq!(
        Direction::SouthEastEast.move_board(Square::G2.into_bitboard()),
        Bitboard::empty(),
    );
    assert_eq!(
        Direction::SouthEastEast.move_board(Square::A8.into_bitboard()),
        Square::C7.into_bitboard()
    );
    assert_eq!(
        Direction::SouthEastEast.move_board(Square::B7.into_bitboard()),
        Square::D6.into_bitboard()
    );
    assert_eq!(
        Direction::SouthEastEast.move_board(Square::H8.into_bitboard()),
        Bitboard::empty(),
    );
    assert_eq!(
        Direction::SouthEastEast.move_board(Square::G7.into_bitboard()),
        Bitboard::empty(),
    );
}

#[test]
fn directions_north_east_east() {
    assert_eq!(
        Direction::NorthEastEast.move_board(Square::A1.into_bitboard()),
        Square::C2.into_bitboard()
    );
    assert_eq!(
        Direction::NorthEastEast.move_board(Square::B2.into_bitboard()),
        Square::D3.into_bitboard()
    );
    assert_eq!(
        Direction::NorthEastEast.move_board(Square::H1.into_bitboard()),
        Bitboard::empty(),
    );
    assert_eq!(
        Direction::NorthEastEast.move_board(Square::G2.into_bitboard()),
        Bitboard::empty(),
    );
    assert_eq!(
        Direction::NorthEastEast.move_board(Square::A8.into_bitboard()),
        Bitboard::empty(),
    );
    assert_eq!(
        Direction::NorthEastEast.move_board(Square::B7.into_bitboard()),
        Square::D8.into_bitboard()
    );
    assert_eq!(
        Direction::NorthEastEast.move_board(Square::H8.into_bitboard()),
        Bitboard::empty(),
    );
    assert_eq!(
        Direction::NorthEastEast.move_board(Square::G7.into_bitboard()),
        Bitboard::empty(),
    );
}

#[test]
fn directions_north_north_east() {
    assert_eq!(
        Direction::NorthNorthEast.move_board(Square::A1.into_bitboard()),
        Square::B3.into_bitboard()
    );
    assert_eq!(
        Direction::NorthNorthEast.move_board(Square::B2.into_bitboard()),
        Square::C4.into_bitboard()
    );
    assert_eq!(
        Direction::NorthNorthEast.move_board(Square::H1.into_bitboard()),
        Bitboard::empty(),
    );
    assert_eq!(
        Direction::NorthNorthEast.move_board(Square::G2.into_bitboard()),
        Square::H4.into_bitboard()
    );
    assert_eq!(
        Direction::NorthNorthEast.move_board(Square::A8.into_bitboard()),
        Bitboard::empty(),
    );
    assert_eq!(
        Direction::NorthNorthEast.move_board(Square::B7.into_bitboard()),
        Bitboard::empty(),
    );
    assert_eq!(
        Direction::NorthNorthEast.move_board(Square::H8.into_bitboard()),
        Bitboard::empty(),
    );
    assert_eq!(
        Direction::NorthNorthEast.move_board(Square::G7.into_bitboard()),
        Bitboard::empty(),
    );
}
