use vstd::prelude::*;
use vstd::std_specs::convert::FromSpecImpl;
use vstd::string::StringSliceAdditionalSpecFns;

use crate::board::castle_rights::CastleRights;
use crate::board::chess_board::builder::{board_of, built_of, ChessBoardBuilder};
use crate::board::chess_board::error::ValidationError;
use crate::board::chess_board::ChessBoard;
use crate::board::color::Color;
use crate::board::file::File;
use crate::board::piece::Piece;
use crate::board::rank::Rank;
use crate::board::square::Square;

verus! {

/// A trait to mark items that can be converted from a FEN input.
pub trait FromFen: Sized {
    type Error;

    fn from_fen(s: &str) -> Result<Self, Self::Error>;
}

/// A singular type for all errors that could happen during FEN parsing.
#[derive(Copy, Clone, Debug, PartialEq, Eq, PartialOrd, Ord, Hash, Structural)]
pub enum FenError {
    /// Invalid FEN input.
    InvalidFen,
    /// Invalid chess position.
    InvalidPosition(ValidationError),
}

impl FenError {
    /// The text that describes the error.
    pub open spec fn spec_message(self) -> Seq<char> {
        match self {
            FenError::InvalidFen => "invalid FEN input"@,
            FenError::InvalidPosition(_) => "invalid chess position"@,
        }
    }

    /// A description of the error.
    pub fn message(&self) -> (text: &'static str)
        ensures
            text@ == self.spec_message(),
    {
        match self {
            FenError::InvalidFen => "invalid FEN input",
            FenError::InvalidPosition(_) => "invalid chess position",
        }
    }
}

/// Allow converting a [ValidationError] into [FenError], for use with the '?' operator.
impl From<ValidationError> for FenError {
    fn from(err: ValidationError) -> (error: FenError) {
        FenError::InvalidPosition(err)
    }
}

impl FromSpecImpl<ValidationError> for FenError {
    open spec fn obeys_from_spec() -> bool {
        true
    }

    open spec fn from_spec(err: ValidationError) -> FenError {
        FenError::InvalidPosition(err)
    }
}

/// Whether a byte is one of the blanks that separate the fields of a FEN input: a space, a tab,
/// a line feed, a form feed or a carriage return.
pub open spec fn is_blank(byte: u8) -> bool {
    byte == 0x20 || byte == 0x09 || byte == 0x0a || byte == 0x0c || byte == 0x0d
}

/// The first place from `from` on that holds no blank, or the end of the input.
pub open spec fn skip_blanks(bytes: Seq<u8>, from: int) -> int
    decreases bytes.len() - from,
{
    if 0 <= from < bytes.len() && is_blank(bytes[from]) {
        skip_blanks(bytes, from + 1)
    } else {
        from
    }
}

/// The first place from `from` on that holds a blank, or the end of the input.
pub open spec fn skip_field(bytes: Seq<u8>, from: int) -> int
    decreases bytes.len() - from,
{
    if 0 <= from < bytes.len() && !is_blank(bytes[from]) {
        skip_field(bytes, from + 1)
    } else {
        from
    }
}

/// The place at which the field of a given number starts, the first field having number 0: the
/// end of the input where there is no such field.
pub open spec fn field_start(bytes: Seq<u8>, number: nat) -> int
    decreases number,
{
    if number == 0 {
        skip_blanks(bytes, 0)
    } else {
        skip_blanks(bytes, skip_field(bytes, field_start(bytes, (number - 1) as nat)))
    }
}

/// The field of a given number: empty where there is no such field.
pub open spec fn field(bytes: Seq<u8>, number: nat) -> Seq<u8> {
    bytes.subrange(field_start(bytes, number), skip_field(bytes, field_start(bytes, number)))
}

/// The player named by the field of the side to move: `w` for white, `b` for black.
pub open spec fn color_of_fen(field: Seq<u8>) -> Option<Color> {
    if field.len() == 1 && field[0] == 0x77 {
        Some(Color::White)
    } else if field.len() == 1 && field[0] == 0x62 {
        Some(Color::Black)
    } else {
        None
    }
}

/// The piece type named by a letter, in either case.
pub open spec fn piece_of_letter(letter: u8) -> Option<Piece> {
    if letter == 0x70 || letter == 0x50 {
        Some(Piece::Pawn)
    } else if letter == 0x6e || letter == 0x4e {
        Some(Piece::Knight)
    } else if letter == 0x62 || letter == 0x42 {
        Some(Piece::Bishop)
    } else if letter == 0x72 || letter == 0x52 {
        Some(Piece::Rook)
    } else if letter == 0x71 || letter == 0x51 {
        Some(Piece::Queen)
    } else if letter == 0x6b || letter == 0x4b {
        Some(Piece::King)
    } else {
        None
    }
}

/// The color named by the case of a letter: white for capitals.
pub open spec fn color_of_letter(letter: u8) -> Color {
    if 0x41 <= letter <= 0x5a {
        Color::White
    } else {
        Color::Black
    }
}

/// The piece type named by a field of one letter.
pub open spec fn piece_of_fen(field: Seq<u8>) -> Option<Piece> {
    if field.len() == 1 {
        piece_of_letter(field[0])
    } else {
        None
    }
}

/// The en-passant target named by a field: none for `-`, and else the square of a file from `a`
/// to `h` and a rank from `1` to `8`.
pub open spec fn en_passant_of_fen(field: Seq<u8>) -> Option<Option<Square>> {
    if field.len() == 1 && field[0] == 0x2d {
        Some(None)
    } else if field.len() == 2 && 0x61 <= field[0] <= 0x68 && 0x31 <= field[1] <= 0x38 {
        Some(
            Some(
                Square::spec_new(
                    File::spec_from_index(field[0] - 0x61),
                    Rank::spec_from_index(field[1] - 0x31),
                ),
            ),
        )
    } else {
        None
    }
}

/// The castle rights named by the first `upto` letters of a field, white's first: `K` and `Q`
/// add to white's rights, `k` and `q` to black's.
pub open spec fn castling_of_letters(field: Seq<u8>, upto: int) -> Option<
    (CastleRights, CastleRights),
>
    decreases upto,
{
    if upto <= 0 {
        Some((CastleRights::NoSide, CastleRights::NoSide))
    } else {
        match castling_of_letters(field, upto - 1) {
            Some((white, black)) => {
                let letter = field[upto - 1];
                if letter == 0x4b {
                    Some((CastleRights::of_sides(true, white.spec_has_queen_side()), black))
                } else if letter == 0x51 {
                    Some((CastleRights::of_sides(white.spec_has_king_side(), true), black))
                } else if letter == 0x6b {
                    Some((white, CastleRights::of_sides(true, black.spec_has_queen_side())))
                } else if letter == 0x71 {
                    Some((white, CastleRights::of_sides(black.spec_has_king_side(), true)))
                } else {
                    None
                }
            },
            None => None,
        }
    }
}

/// The castle rights named by a field of at most four letters, white's first: none for `-`.
pub open spec fn castling_of_fen(field: Seq<u8>) -> Option<(CastleRights, CastleRights)> {
    if field.len() > 4 {
        None
    } else if field.len() == 1 && field[0] == 0x2d {
        Some((CastleRights::NoSide, CastleRights::NoSide))
    } else {
        castling_of_letters(field, field.len() as int)
    }
}

/// The number written by the first `upto` digits of a field, or `None` if one of them is no
/// digit.
pub open spec fn number_of_digits(digits: Seq<u8>, upto: int) -> Option<nat>
    decreases upto,
{
    if upto <= 0 {
        Some(0)
    } else {
        match number_of_digits(digits, upto - 1) {
            Some(above) => if 0x30 <= digits[upto - 1] <= 0x39 {
                Some((above * 10 + (digits[upto - 1] - 0x30)) as nat)
            } else {
                None
            },
            None => None,
        }
    }
}

/// The number written by a field: digits, at least one, after an optional `+`, if they write a
/// number that fits 32 bits.
pub open spec fn number_of_fen(field: Seq<u8>) -> Option<u32> {
    let digits = if field.len() > 0 && field[0] == 0x2b {
        field.subrange(1, field.len() as int)
    } else {
        field
    };
    if digits.len() == 0 {
        None
    } else {
        match number_of_digits(digits, digits.len() as int) {
            Some(number) => if number <= u32::MAX {
                Some(number as u32)
            } else {
                None
            },
            None => None,
        }
    }
}

/// How far a piece placement has been read: the rank and the file that come next, and the
/// pieces read so far, by the index of their squares.
pub struct Placement {
    pub rank: int,
    pub file: int,
    pub pieces: Seq<Option<(Piece, Color)>>,
}

/// The placement after the first `upto` bytes of a field. The ranks are read from the eighth
/// down and are divided by `/`, which must come after exactly eight files; within a rank the
/// files are read from `a` up, a digit from `1` to `8` passes over that many files, and a letter
/// sets a piece on the next file, which must lie on the board.
pub open spec fn placement_of_letters(field: Seq<u8>, upto: int) -> Option<Placement>
    decreases upto,
{
    if upto <= 0 {
        Some(Placement { rank: 7, file: 0, pieces: Seq::new(64, |index: int| None) })
    } else {
        match placement_of_letters(field, upto - 1) {
            Some(before) => {
                let letter = field[upto - 1];
                if letter == 0x2f {
                    if before.file == 8 && before.rank > 0 {
                        Some(Placement { rank: before.rank - 1, file: 0, pieces: before.pieces })
                    } else {
                        None
                    }
                } else if 0x31 <= letter <= 0x38 {
                    Some(Placement { file: before.file + (letter - 0x30), ..before })
                } else {
                    match piece_of_letter(letter) {
                        Some(piece) => if before.file < 8 {
                            Some(
                                Placement {
                                    file: before.file + 1,
                                    pieces: before.pieces.update(
                                        before.file * 8 + before.rank,
                                        Some((piece, color_of_letter(letter))),
                                    ),
                                    ..before
                                },
                            )
                        } else {
                            None
                        },
                        None => None,
                    }
                }
            },
            None => None,
        }
    }
}

/// The pieces named by a field, by the index of their squares, if the field names eight ranks
/// of eight files.
pub open spec fn placement_of_fen(field: Seq<u8>) -> Option<Seq<Option<(Piece, Color)>>> {
    match placement_of_letters(field, field.len() as int) {
        Some(end) => if end.file == 8 && end.rank == 0 {
            Some(end.pieces)
        } else {
            None
        },
        None => None,
    }
}

/// The position that a FEN input describes. The input holds six fields divided by blanks, and
/// what follows them is not read: the piece placement, the side to move, the castle rights, the
/// en-passant target, the half-move clock, and the number of the turn, which is counted from one
/// and may not pass two to the power of 31. An input that lacks a field, or of which a field is
/// not as it should be, is invalid; a position that breaks a rule is reported with that rule.
pub open spec fn board_of_fen(bytes: Seq<u8>) -> Result<ChessBoard, FenError> {
    match (
        placement_of_fen(field(bytes, 0)),
        color_of_fen(field(bytes, 1)),
        castling_of_fen(field(bytes, 2)),
        en_passant_of_fen(field(bytes, 3)),
        number_of_fen(field(bytes, 4)),
        number_of_fen(field(bytes, 5)),
    ) {
        (Some(pieces), Some(side), Some(rights), Some(target), Some(clock), Some(turn)) => {
            if 1 <= turn <= 0x8000_0000 {
                match built_of(board_of(pieces, [rights.0, rights.1], target, clock, side, turn)) {
                    Ok(board) => Ok(board),
                    Err(error) => Err(FenError::InvalidPosition(error)),
                }
            } else {
                Err(FenError::InvalidFen)
            }
        },
        _ => Err(FenError::InvalidFen),
    }
}

/// Whether a byte is a blank.
fn blank(byte: u8) -> (blank: bool)
    ensures
        blank == is_blank(byte),
{
    byte == 0x20 || byte == 0x09 || byte == 0x0a || byte == 0x0c || byte == 0x0d
}

/// The bounds of the next field from `from` on.
fn next_field(bytes: &[u8], from: usize) -> (bounds: (usize, usize))
    requires
        from <= bytes.len(),
    ensures
        bounds.0 == skip_blanks(bytes@, from as int),
        bounds.1 == skip_field(bytes@, bounds.0 as int),
        from <= bounds.0 <= bounds.1 <= bytes.len(),
{
    let mut start = from;
    while start < bytes.len() && blank(bytes[start])
        invariant
            from <= start <= bytes.len(),
            skip_blanks(bytes@, from as int) == skip_blanks(bytes@, start as int),
        decreases bytes.len() - start,
    {
        start += 1;
    }
    let mut end = start;
    while end < bytes.len() && !blank(bytes[end])
        invariant
            start <= end <= bytes.len(),
            skip_field(bytes@, start as int) == skip_field(bytes@, end as int),
        decreases bytes.len() - end,
    {
        end += 1;
    }
    (start, end)
}

/// Read the side to move from the bytes between two places.
fn parse_color(bytes: &[u8], start: usize, end: usize) -> (color: Option<Color>)
    requires
        start <= end <= bytes.len(),
    ensures
        color == color_of_fen(bytes@.subrange(start as int, end as int)),
{
    if end - start != 1 {
        None
    } else if bytes[start] == 0x77 {
        Some(Color::White)
    } else if bytes[start] == 0x62 {
        Some(Color::Black)
    } else {
        None
    }
}

/// Read a piece type from a letter.
fn parse_letter(letter: u8) -> (piece: Option<Piece>)
    ensures
        piece == piece_of_letter(letter),
{
    if letter == 0x70 || letter == 0x50 {
        Some(Piece::Pawn)
    } else if letter == 0x6e || letter == 0x4e {
        Some(Piece::Knight)
    } else if letter == 0x62 || letter == 0x42 {
        Some(Piece::Bishop)
    } else if letter == 0x72 || letter == 0x52 {
        Some(Piece::Rook)
    } else if letter == 0x71 || letter == 0x51 {
        Some(Piece::Queen)
    } else if letter == 0x6b || letter == 0x4b {
        Some(Piece::King)
    } else {
        None
    }
}

/// Read the en-passant target from the bytes between two places.
fn parse_en_passant(bytes: &[u8], start: usize, end: usize) -> (target: Option<Option<Square>>)
    requires
        start <= end <= bytes.len(),
    ensures
        target == en_passant_of_fen(bytes@.subrange(start as int, end as int)),
{
    if end - start == 1 && bytes[start] == 0x2d {
        Some(None)
    } else if end - start == 2 && 0x61 <= bytes[start] && bytes[start] <= 0x68 && 0x31
        <= bytes[start + 1] && bytes[start + 1] <= 0x38 {
        Some(
            Some(
                Square::new(
                    File::from_index((bytes[start] - 0x61) as usize),
                    Rank::from_index((bytes[start + 1] - 0x31) as usize),
                ),
            ),
        )
    } else {
        None
    }
}

/// Read the castle rights from the bytes between two places.
fn parse_castling(bytes: &[u8], start: usize, end: usize) -> (rights: Option<
    (CastleRights, CastleRights),
>)
    requires
        start <= end <= bytes.len(),
    ensures
        rights == castling_of_fen(bytes@.subrange(start as int, end as int)),
{
    let ghost field = bytes@.subrange(start as int, end as int);
    if end - start > 4 {
        return None;
    }
    if end - start == 1 && bytes[start] == 0x2d {
        return Some((CastleRights::NoSide, CastleRights::NoSide));
    }
    assert(field.len() > 0 ==> field[0] == bytes[start as int]);
    let mut white = CastleRights::NoSide;
    let mut black = CastleRights::NoSide;
    let mut at = start;
    while at < end
        invariant
            start <= at <= end <= bytes.len(),
            field == bytes@.subrange(start as int, end as int),
            !(field.len() == 1 && field[0] == 0x2d),
            castling_of_letters(field, at - start) == Some((white, black)),
        decreases end - at,
    {
        let letter = bytes[at];
        assert(field[at - start] == letter);
        if letter == 0x4b {
            white = white.with_king_side();
        } else if letter == 0x51 {
            white = white.with_queen_side();
        } else if letter == 0x6b {
            black = black.with_king_side();
        } else if letter == 0x71 {
            black = black.with_queen_side();
        } else {
            proof {
                assert(castling_of_letters(field, at - start + 1).is_none());
                lemma_castling_fails(field, at - start + 1, field.len() as int);
            }
            return None;
        }
        at += 1;
    }
    Some((white, black))
}

/// Once a letter has been refused, no longer part of the field names castle rights.
proof fn lemma_castling_fails(field: Seq<u8>, failed: int, upto: int)
    requires
        0 < failed <= upto,
        castling_of_letters(field, failed).is_none(),
    ensures
        castling_of_letters(field, upto).is_none(),
    decreases upto,
{
    if failed < upto {
        lemma_castling_fails(field, failed, upto - 1);
    }
}

/// Once a digit has been refused, no longer part of the field writes a number; and the numbers
/// that longer parts write do not get smaller.
proof fn lemma_number_grows(digits: Seq<u8>, shorter: int, upto: int)
    requires
        0 <= shorter <= upto,
    ensures
        number_of_digits(digits, shorter).is_none() ==> number_of_digits(digits, upto).is_none(),
        number_of_digits(digits, upto) matches Some(longer) ==> number_of_digits(
            digits,
            shorter,
        ) matches Some(number) && number <= longer,
    decreases upto,
{
    if shorter < upto {
        lemma_number_grows(digits, shorter, upto - 1);
    }
}

/// Read a number from the bytes between two places.
fn parse_number(bytes: &[u8], start: usize, end: usize) -> (number: Option<u32>)
    requires
        start <= end <= bytes.len(),
    ensures
        number == number_of_fen(bytes@.subrange(start as int, end as int)),
{
    let ghost field = bytes@.subrange(start as int, end as int);
    let first = if start < end && bytes[start] == 0x2b {
        start + 1
    } else {
        start
    };
    let ghost digits = bytes@.subrange(first as int, end as int);
    proof {
        if first > start {
            assert(field[0] == bytes[start as int]);
            assert(field.subrange(1, field.len() as int) =~= digits);
        } else {
            if field.len() > 0 {
                assert(field[0] == bytes[start as int]);
            }
            assert(field =~= digits);
        }
    }
    if first == end {
        return None;
    }
    let mut number: u32 = 0;
    let mut at = first;
    while at < end
        invariant
            first <= at <= end <= bytes.len(),
            start <= first,
            field == bytes@.subrange(start as int, end as int),
            digits == bytes@.subrange(first as int, end as int),
            digits.len() > 0,
            number_of_fen(field) == match number_of_digits(digits, digits.len() as int) {
                Some(number) => if number <= u32::MAX {
                    Some(number as u32)
                } else {
                    None
                },
                None => None,
            },
            number_of_digits(digits, at - first) == Some(number as nat),
        decreases end - at,
    {
        let digit = bytes[at];
        assert(digits[at - first] == digit);
        if digit < 0x30 || digit > 0x39 {
            proof {
                assert(number_of_digits(digits, at - first + 1).is_none());
                lemma_number_grows(digits, at - first + 1, digits.len() as int);
            }
            return None;
        }
        let value = (digit - 0x30) as u32;
        if number > (u32::MAX - value) / 10 {
            proof {
                assert(number_of_digits(digits, at - first + 1) == Some(
                    (number * 10 + value) as nat,
                ));
                lemma_number_grows(digits, at - first + 1, digits.len() as int);
            }
            return None;
        }
        number = number * 10 + value;
        at += 1;
    }
    Some(number)
}

/// Once a letter has been refused, no longer part of the field names a placement.
proof fn lemma_placement_fails(field: Seq<u8>, failed: int, upto: int)
    requires
        0 < failed <= upto,
        placement_of_letters(field, failed).is_none(),
    ensures
        placement_of_letters(field, upto).is_none(),
    decreases upto,
{
    if failed < upto {
        lemma_placement_fails(field, failed, upto - 1);
    }
}

/// Once more than eight files have been read on a rank, no longer part of the field names a
/// placement of eight files on each rank.
proof fn lemma_placement_overfull(field: Seq<u8>, overfull: int, upto: int)
    requires
        0 < overfull <= upto,
        placement_of_letters(field, overfull) matches Some(placement) && placement.file > 8,
    ensures
        placement_of_letters(field, upto) matches Some(placement) ==> placement.file > 8,
    decreases upto,
{
    if overfull < upto {
        lemma_placement_overfull(field, overfull, upto - 1);
    }
}

/// Read the piece placement from the bytes between two places.
fn parse_placement(bytes: &[u8], start: usize, end: usize) -> (pieces: Option<
    [Option<(Piece, Color)>; 64],
>)
    requires
        start <= end <= bytes.len(),
    ensures
        match pieces {
            Some(pieces) => placement_of_fen(bytes@.subrange(start as int, end as int)) == Some(
                pieces@,
            ),
            None => placement_of_fen(bytes@.subrange(start as int, end as int)).is_none(),
        },
{
    let ghost field = bytes@.subrange(start as int, end as int);
    proof {
        vstd::array::axiom_spec_array_fill_for_copy_type::<Option<(Piece, Color)>, 64>(None);
    }
    let mut pieces: [Option<(Piece, Color)>; 64] = [None;64];
    let mut rank: usize = 7;
    let mut file: usize = 0;
    let mut at = start;
    proof {
        assert(pieces@ =~= Seq::new(64, |index: int| None::<(Piece, Color)>));
    }
    while at < end
        invariant
            start <= at <= end <= bytes.len(),
            field == bytes@.subrange(start as int, end as int),
            rank < 8,
            file <= 8,
            placement_of_letters(field, at - start) == Some(
                Placement { rank: rank as int, file: file as int, pieces: pieces@ },
            ),
        decreases end - at,
    {
        let letter = bytes[at];
        assert(field[at - start] == letter);
        if letter == 0x2f {
            // We haven't read exactly 8 files, or we have read all ranks.
            if file != 8 || rank == 0 {
                proof {
                    lemma_placement_fails(field, at - start + 1, field.len() as int);
                }
                return None;
            }
            rank -= 1;
            file = 0;
        } else if 0x31 <= letter && letter <= 0x38 {
            file += (letter - 0x30) as usize;
            if file > 8 {
                proof {
                    lemma_placement_overfull(field, at - start + 1, field.len() as int);
                }
                return None;
            }
        } else {
            let color = if 0x41 <= letter && letter <= 0x5a {
                Color::White
            } else {
                Color::Black
            };
            let piece = match parse_letter(letter) {
                Some(piece) => piece,
                None => {
                    proof {
                        lemma_placement_fails(field, at - start + 1, field.len() as int);
                    }
                    return None;
                },
            };
            if file >= 8 {
                proof {
                    lemma_placement_fails(field, at - start + 1, field.len() as int);
                }
                return None;
            }
            let square = Square::new(File::from_index(file), Rank::from_index(rank));
            pieces[square.index()] = Some((piece, color));
            file += 1;
        }
        at += 1;
    }
    // We haven't read exactly 8 files and 8 ranks.
    if file != 8 || rank != 0 {
        return None;
    }
    Some(pieces)
}

/// Convert the castling rights segment of a FEN string to an array of [CastleRights].
impl FromFen for [CastleRights; 2] {
    type Error = FenError;

    fn from_fen(s: &str) -> (rights: Result<[CastleRights; 2], FenError>)
        ensures
            match rights {
                Ok(rights) => castling_of_fen(s.spec_bytes()) == Some((rights[0], rights[1])),
                Err(error) => error == FenError::InvalidFen && castling_of_fen(
                    s.spec_bytes(),
                ).is_none(),
            },
    {
        let bytes = s.as_bytes();
        assert(bytes@.subrange(0, bytes@.len() as int) =~= bytes@);
        match parse_castling(bytes, 0, bytes.len()) {
            Some((white, black)) => Ok([white, black]),
            None => Err(FenError::InvalidFen),
        }
    }
}

/// Convert a side to move segment of a FEN string to a [Color].
impl FromFen for Color {
    type Error = FenError;

    fn from_fen(s: &str) -> (color: Result<Color, FenError>)
        ensures
            match color {
                Ok(color) => color_of_fen(s.spec_bytes()) == Some(color),
                Err(error) => error == FenError::InvalidFen && color_of_fen(
                    s.spec_bytes(),
                ).is_none(),
            },
    {
        let bytes = s.as_bytes();
        assert(bytes@.subrange(0, bytes@.len() as int) =~= bytes@);
        match parse_color(bytes, 0, bytes.len()) {
            Some(color) => Ok(color),
            None => Err(FenError::InvalidFen),
        }
    }
}

/// Convert an en-passant target square segment of a FEN string to an optional [Square].
impl FromFen for Option<Square> {
    type Error = FenError;

    fn from_fen(s: &str) -> (target: Result<Option<Square>, FenError>)
        ensures
            match target {
                Ok(target) => en_passant_of_fen(s.spec_bytes()) == Some(target),
                Err(error) => error == FenError::InvalidFen && en_passant_of_fen(
                    s.spec_bytes(),
                ).is_none(),
            },
    {
        let bytes = s.as_bytes();
        assert(bytes@.subrange(0, bytes@.len() as int) =~= bytes@);
        match parse_en_passant(bytes, 0, bytes.len()) {
            Some(target) => Ok(target),
            None => Err(FenError::InvalidFen),
        }
    }
}

/// Convert a piece in FEN notation to a [Piece].
impl FromFen for Piece {
    type Error = FenError;

    fn from_fen(s: &str) -> (piece: Result<Piece, FenError>)
        ensures
            match piece {
                Ok(piece) => piece_of_fen(s.spec_bytes()) == Some(piece),
                Err(error) => error == FenError::InvalidFen && piece_of_fen(
                    s.spec_bytes(),
                ).is_none(),
            },
    {
        let bytes = s.as_bytes();
        if bytes.len() != 1 {
            return Err(FenError::InvalidFen);
        }
        match parse_letter(bytes[0]) {
            Some(piece) => Ok(piece),
            None => Err(FenError::InvalidFen),
        }
    }
}

/// Return a [ChessBoard] from the given FEN string.
impl FromFen for ChessBoard {
    type Error = FenError;

    fn from_fen(s: &str) -> (board: Result<ChessBoard, FenError>)
        ensures
            board == board_of_fen(s.spec_bytes()),
    {
        let bytes = s.as_bytes();
        let (placement_start, placement_end) = next_field(bytes, 0);
        let (side_start, side_end) = next_field(bytes, placement_end);
        let (castling_start, castling_end) = next_field(bytes, side_end);
        let (target_start, target_end) = next_field(bytes, castling_end);
        let (clock_start, clock_end) = next_field(bytes, target_end);
        let (turn_start, turn_end) = next_field(bytes, clock_end);
        proof {
            reveal_with_fuel(field_start, 6);
        }

        let rights = parse_castling(bytes, castling_start, castling_end);
        let side = parse_color(bytes, side_start, side_end);
        let target = parse_en_passant(bytes, target_start, target_end);
        let clock = parse_number(bytes, clock_start, clock_end);
        let turn = parse_number(bytes, turn_start, turn_end);
        let pieces = parse_placement(bytes, placement_start, placement_end);
        match (pieces, side, rights, target, clock, turn) {
            (Some(pieces), Some(side), Some(rights), Some(target), Some(clock), Some(turn)) => {
                if turn < 1 || turn > 0x8000_0000 {
                    return Err(FenError::InvalidFen);
                }
                let builder = ChessBoardBuilder {
                    pieces,
                    castle_rights: [rights.0, rights.1],
                    en_passant: target,
                    half_move_clock: clock,
                    side,
                    turn_count: turn,
                };
                match ChessBoard::try_from(builder) {
                    Ok(board) => Ok(board),
                    Err(error) => Err(FenError::from(error)),
                }
            },
            _ => Err(FenError::InvalidFen),
        }
    }
}

} // verus!
