use seer::board::{Bitboard, Direction, File, Rank, Square};

#[test]
fn direction_north() {
    assert_eq!(
        Direction::North.move_board(Square::A1.into_bitboard()),
        Square::A2.into_bitboard()
    );
    assert_eq!(
        Direction::North.move_board(Square::A2.into_bitboard()),
        Square::A3.into_bitboard()
    );
    assert_eq!(
        Direction::North.move_board(Square::A7.into_bitboard()),
        Square::A8.into_bitboard()
    );
    assert_eq!(
        Direction::North.move_board(Square::A8.into_bitboard()),
        Bitboard::empty()
    );
}

#[test]
fn direction_west() {
    assert_eq!(
        Direction::West.move_board(Square::A1.into_bitboard()),
        Bitboard::empty()
    );
    assert_eq!(
        Direction::West.move_board(Square::B1.into_bitboard()),
        Square::A1.into_bitboard()
    );
    assert_eq!(
        Direction::West.move_board(Square::G1.into_bitboard()),
        Square::F1.into_bitboard()
    );
    assert_eq!(
        Direction::West.move_board(Square::H1.into_bitboard()),
        Square::G1.into_bitboard()
    );
}

#[test]
fn direction_south() {
    assert_eq!(
        Direction::South.move_board(Square::A1.into_bitboard()),
        Bitboard::empty()
    );
    assert_eq!(
        Direction::South.move_board(Square::A2.into_bitboard()),
        Square::A1.into_bitboard()
    );
    assert_eq!(
        Direction::South.move_board(Square::A7.into_bitboard()),
        Square::A6.into_bitboard()
    );
    assert_eq!(
        Direction::South.move_board(Square::A8.into_bitboard()),
        Square::A7.into_bitboard()
    );
}

#[test]
fn direction_east() {
    assert_eq!(
        Direction::East.move_board(Square::A1.into_bitboard()),
        Square::B1.into_bitboard()
    );
    assert_eq!(
        Direction::East.move_board(Square::B1.into_bitboard()),
        Square::C1.into_bitboard()
    );
    assert_eq!(
        Direction::East.move_board(Square::G1.into_bitboard()),
        Square::H1.into_bitboard()
    );
    assert_eq!(
        Direction::East.move_board(Square::H1.into_bitboard()),
        Bitboard::empty()
    );
}

#[test]
fn direction_north_west() {
    assert_eq!(
        Direction::NorthWest.move_board(Square::A1.into_bitboard()),
        Bitboard::empty()
    );
    assert_eq!(
        Direction::NorthWest.move_board(Square::B1.into_bitboard()),
        Square::A2.into_bitboard()
    );
    assert_eq!(
        Direction::NorthWest.move_board(Square::H1.into_bitboard()),
        Square::G2.into_bitboard()
    );
    assert_eq!(
        Direction::NorthWest.move_board(Square::A8.into_bitboard()),
        Bitboard::empty()
    );
    assert_eq!(
        Direction::NorthWest.move_board(Square::B8.into_bitboard()),
        Bitboard::empty()
    );
    assert_eq!(
        Direction::NorthWest.move_board(Square::H8.into_bitboard()),
        Bitboard::empty()
    );
}

#[test]
fn direction_south_west() {
    assert_eq!(
        Direction::SouthWest.move_board(Square::A1.into_bitboard()),
        Bitboard::empty()
    );
    assert_eq!(
        Direction::SouthWest.move_board(Square::B1.into_bitboard()),
        Bitboard::empty()
    );
    assert_eq!(
        Direction::SouthWest.move_board(Square::H1.into_bitboard()),
        Bitboard::empty()
    );
    assert_eq!(
        Direction::SouthWest.move_board(Square::A8.into_bitboard()),
        Bitboard::empty()
    );
    assert_eq!(
        Direction::SouthWest.move_board(Square::B8.into_bitboard()),
        Square::A7.into_bitboard()
    );
    assert_eq!(
        Direction::SouthWest.move_board(Square::H8.into_bitboard()),
        Square::G7.into_bitboard()
    );
}

#[test]
fn direction_south_east() {
    assert_eq!(
        Direction::SouthEast.move_board(Square::A1.into_bitboard()),
        Bitboard::empty()
    );
    assert_eq!(
        Direction::SouthEast.move_board(Square::B1.into_bitboard()),
        Bitboard::empty()
    );
    assert_eq!(
        Direction::SouthEast.move_board(Square::H1.into_bitboard()),
        Bitboard::empty()
    );
    assert_eq!(
        Direction::SouthEast.move_board(Square::A8.into_bitboard()),
        Square::B7.into_bitboard()
    );
    assert_eq!(
        Direction::SouthEast.move_board(Square::B8.into_bitboard()),
        Square::C7.into_bitboard()
    );
    assert_eq!(
        Direction::SouthEast.move_board(Square::H8.into_bitboard()),
        Bitboard::empty()
    );
}

#[test]
fn direction_north_east() {
    assert_eq!(
        Direction::NorthEast.move_board(Square::A1.into_bitboard()),
        Square::B2.into_bitboard()
    );
    assert_eq!(
        Direction::NorthEast.move_board(Square::B1.into_bitboard()),
        Square::C2.into_bitboard()
    );
    assert_eq!(
        Direction::NorthEast.move_board(Square::H1.into_bitboard()),
        Bitboard::empty()
    );
    assert_eq!(
        Direction::NorthEast.move_board(Square::A8.into_bitboard()),
        Bitboard::empty()
    );
    assert_eq!(
        Direction::NorthEast.move_board(Square::B8.into_bitboard()),
        Bitboard::empty()
    );
    assert_eq!(
        Direction::NorthEast.move_board(Square::H8.into_bitboard()),
        Bitboard::empty()
    );
}

#[test]
fn direction_north_north_west() {
    assert_eq!(
        Direction::NorthNorthWest.move_board(Square::A1.into_bitboard()),
        Bitboard::empty(),
    );
    assert_eq!(
        Direction::NorthNorthWest.move_board(Square::B2.into_bitboard()),
        Square::A4.into_bitboard()
    );
    assert_eq!(
        Direction::NorthNorthWest.move_board(Square::H1.into_bitboard()),
        Square::G3.into_bitboard()
    );
    assert_eq!(
        Direction::NorthNorthWest.move_board(Square::G2.into_bitboard()),
        Square::F4.into_bitboard()
    );
    assert_eq!(
        Direction::NorthNorthWest.move_board(Square::A8.into_bitboard()),
        Bitboard::empty(),
    );
    assert_eq!(
        Direction::NorthNorthWest.move_board(Square::B7.into_bitboard()),
        Bitboard::empty(),
    );
    assert_eq!(
        Direction::NorthNorthWest.move_board(Square::H8.into_bitboard()),
        Bitboard::empty(),
    );
    assert_eq!(
        Direction::NorthNorthWest.move_board(Square::G7.into_bitboard()),
        Bitboard::empty(),
    );
}

#[test]
fn direction_north_west_west() {
    assert_eq!(
        Direction::NorthWestWest.move_board(Square::A1.into_bitboard()),
        Bitboard::empty(),
    );
    assert_eq!(
        Direction::NorthWestWest.move_board(Square::B2.into_bitboard()),
        Bitboard::empty(),
    );
    assert_eq!(
        Direction::NorthWestWest.move_board(Square::H1.into_bitboard()),
        Square::F2.into_bitboard()
    );
    assert_eq!(
        Direction::NorthWestWest.move_board(Square::G2.into_bitboard()),
        Square::E3.into_bitboard()
    );
    assert_eq!(
        Direction::NorthWestWest.move_board(Square::A8.into_bitboard()),
        Bitboard::empty(),
    );
    assert_eq!(
        Direction::NorthWestWest.move_board(Square::B7.into_bitboard()),
        Bitboard::empty(),
    );
    assert_eq!(
        Direction::NorthWestWest.move_board(Square::H8.into_bitboard()),
        Bitboard::empty(),
    );
    assert_eq!(
        Direction::NorthWestWest.move_board(Square::G7.into_bitboard()),
        Square::E8.into_bitboard()
    );
}

#[test]
fn direction_south_west_west() {
    assert_eq!(
        Direction::SouthWestWest.move_board(Square::A1.into_bitboard()),
        Bitboard::empty(),
    );
    assert_eq!(
        Direction::SouthWestWest.move_board(Square::B2.into_bitboard()),
        Bitboard::empty(),
    );
    assert_eq!(
        Direction::SouthWestWest.move_board(Square::H1.into_bitboard()),
        Bitboard::empty(),
    );
    assert_eq!(
        Direction::SouthWestWest.move_board(Square::G2.into_bitboard()),
        Square::E1.into_bitboard()
    );
    assert_eq!(
        Direction::SouthWestWest.move_board(Square::A8.into_bitboard()),
        Bitboard::empty(),
    );
    assert_eq!(
        Direction::SouthWestWest.move_board(Square::B7.into_bitboard()),
        Bitboard::empty(),
    );
    assert_eq!(
        Direction::SouthWestWest.move_board(Square::H8.into_bitboard()),
        Square::F7.into_bitboard()
    );
    assert_eq!(
        Direction::SouthWestWest.move_board(Square::G7.into_bitboard()),
        Square::E6.into_bitboard()
    );
}

#[test]
fn direction_south_south_west() {
    assert_eq!(
        Direction::SouthSouthWest.move_board(Square::A1.into_bitboard()),
        Bitboard::empty(),
    );
    assert_eq!(
        Direction::SouthSouthWest.move_board(Square::B2.into_bitboard()),
        Bitboard::empty(),
    );
    assert_eq!(
        Direction::SouthSouthWest.move_board(Square::H1.into_bitboard()),
        Bitboard::empty(),
    );
    assert_eq!(
        Direction::SouthSouthWest.move_board(Square::G2.into_bitboard()),
        Bitboard::empty(),
    );
    assert_eq!(
        Direction::SouthSouthWest.move_board(Square::A8.into_bitboard()),
        Bitboard::empty(),
    );
    assert_eq!(
        Direction::SouthSouthWest.move_board(Square::B7.into_bitboard()),
        Square::A5.into_bitboard()
    );
    assert_eq!(
        Direction::SouthSouthWest.move_board(Square::H8.into_bitboard()),
        Square::G6.into_bitboard()
    );
    assert_eq!(
        Direction::SouthSouthWest.move_board(Square::G7.into_bitboard()),
        Square::F5.into_bitboard()
    );
}

#[test]
fn direction_south_south_east() {
    assert_eq!(
        Direction::SouthSouthEast.move_board(Square::A1.into_bitboard()),
        Bitboard::empty(),
    );
    assert_eq!(
        Direction::SouthSouthEast.move_board(Square::B2.into_bitboard()),
        Bitboard::empty(),
    );
    assert_eq!(
        Direction::SouthSouthEast.move_board(Square::H1.into_bitboard()),
        Bitboard::empty(),
    );
    assert_eq!(
        Direction::SouthSouthEast.move_board(Square::G2.into_bitboard()),
        Bitboard::empty(),
    );
    assert_eq!(
        Direction::SouthSouthEast.move_board(Square::A8.into_bitboard()),
        Square::B6.into_bitboard()
    );
    assert_eq!(
        Direction::SouthSouthEast.move_board(Square::B7.into_bitboard()),
        Square::C5.into_bitboard()
    );
    assert_eq!(
        Direction::SouthSouthEast.move_board(Square::H8.into_bitboard()),
        Bitboard::empty(),
    );
    assert_eq!(
        Direction::SouthSouthEast.move_board(Square::G7.into_bitboard()),
        Square::H5.into_bitboard()
    );
}

#[test]
fn direction_south_east_east() {
    assert_eq!(
        Direction::SouthEastEast.move_board(Square::A1.into_bitboard()),
        Bitboard::empty(),
    );
    assert_eq!(
        Direction::SouthEastEast.move_board(Square::B2.into_bitboard()),
        Square::D1.into_bitboard()
    );
    assert_eq!(
        Direction::SouthEastEast.move_board(Square::H1.into_bitboard()),
        Bitboard::empty(),
    );
    assert_eq!(
        Direction::SouthEastEast.move_board(Square::G2.into_bitboard()),
        Bitboard::empty(),
    );
    assert_eq!(
        Direction::SouthEastEast.move_board(Square::A8.into_bitboard()),
        Square::C7.into_bitboard()
    );
    assert_eq!(
        Direction::SouthEastEast.move_board(Square::B7.into_bitboard()),
        Square::D6.into_bitboard()
    );
    assert_eq!(
        Direction::SouthEastEast.move_board(Square::H8.into_bitboard()),
        Bitboard::empty(),
    );
    assert_eq!(
        Direction::SouthEastEast.move_board(Square::G7.into_bitboard()),
        Bitboard::empty(),
    );
}

#[test]
fn direction_north_east_east() {
    assert_eq!(
        Direction::NorthEastEast.move_board(Square::A1.into_bitboard()),
        Square::C2.into_bitboard()
    );
    assert_eq!(
        Direction::NorthEastEast.move_board(Square::B2.into_bitboard()),
        Square::D3.into_bitboard()
    );
    assert_eq!(
        Direction::NorthEastEast.move_board(Square::H1.into_bitboard()),
        Bitboard::empty(),
    );
    assert_eq!(
        Direction::NorthEastEast.move_board(Square::G2.into_bitboard()),
        Bitboard::empty(),
    );
    assert_eq!(
        Direction::NorthEastEast.move_board(Square::A8.into_bitboard()),
        Bitboard::empty(),
    );
    assert_eq!(
        Direction::NorthEastEast.move_board(Square::B7.into_bitboard()),
        Square::D8.into_bitboard()
    );
    assert_eq!(
        Direction::NorthEastEast.move_board(Square::H8.into_bitboard()),
        Bitboard::empty(),
    );
    assert_eq!(
        Direction::NorthEastEast.move_board(Square::G7.into_bitboard()),
        Bitboard::empty(),
    );
}

#[test]
fn direction_north_north_east() {
    assert_eq!(
        Direction::NorthNorthEast.move_board(Square::A1.into_bitboard()),
        Square::B3.into_bitboard()
    );
    assert_eq!(
        Direction::NorthNorthEast.move_board(Square::B2.into_bitboard()),
        Square::C4.into_bitboard()
    );
    assert_eq!(
        Direction::NorthNorthEast.move_board(Square::H1.into_bitboard()),
        Bitboard::empty(),
    );
    assert_eq!(
        Direction::NorthNorthEast.move_board(Square::G2.into_bitboard()),
        Square::H4.into_bitboard()
    );
    assert_eq!(
        Direction::NorthNorthEast.move_board(Square::A8.into_bitboard()),
        Bitboard::empty(),
    );
    assert_eq!(
        Direction::NorthNorthEast.move_board(Square::B7.into_bitboard()),
        Bitboard::empty(),
    );
    assert_eq!(
        Direction::NorthNorthEast.move_board(Square::H8.into_bitboard()),
        Bitboard::empty(),
    );
    assert_eq!(
        Direction::NorthNorthEast.move_board(Square::G7.into_bitboard()),
        Bitboard::empty(),
    );
}

#[test]
fn slide() {
    assert_eq!(
        Direction::North.slide_square(Square::A1),
        File::A.into_bitboard() - Square::A1
    );
    assert_eq!(
        Direction::West.slide_square(Square::H1),
        Rank::First.into_bitboard() - Square::H1
    );
    assert_eq!(
        Direction::South.slide_square(Square::A8),
        File::A.into_bitboard() - Square::A8
    );
    assert_eq!(
        Direction::East.slide_square(Square::A1),
        Rank::First.into_bitboard() - Square::A1
    );
    assert_eq!(
        Direction::NorthWest.slide_square(Square::H1),
        Bitboard::anti_diagonal() - Square::H1
    );
    assert_eq!(
        Direction::SouthWest.slide_square(Square::H8),
        Bitboard::diagonal() - Square::H8
    );
    assert_eq!(
        Direction::SouthEast.slide_square(Square::A8),
        Bitboard::anti_diagonal() - Square::A8
    );
    assert_eq!(
        Direction::NorthEast.slide_square(Square::A1),
        Bitboard::diagonal() - Square::A1
    );
}

#[test]
fn blocked_slides() {
    assert_eq!(
        Direction::North
            .slide_board_with_blockers(Square::A1.into_bitboard(), Square::A2.into_bitboard()),
        Square::A2.into_bitboard()
    );
    assert_eq!(
        Direction::North
            .slide_board_with_blockers(Square::A1.into_bitboard(), Square::A3.into_bitboard()),
        Square::A2 | Square::A3
    );
    assert_eq!(
        Direction::North
            .slide_board_with_blockers(Square::A1.into_bitboard(), Square::A4.into_bitboard()),
        Square::A2 | Square::A3 | Square::A4
    );
    // Ensure that the starting square being in `blockers` is not an issue
    assert_eq!(
        Direction::North
            .slide_board_with_blockers(Square::A1.into_bitboard(), Square::A1.into_bitboard()),
        File::A.into_bitboard() - Square::A1
    );
}
