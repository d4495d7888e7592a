use vstd::prelude::*;

use crate::board::bitboard::Bitboard;
use crate::board::castle_rights::CastleRights;
use crate::board::chess_board::error::ValidationError;
use crate::board::chess_board::ChessBoard;
use crate::board::color::Color;
use crate::board::piece::Piece;
use crate::board::square::Square;

verus! {

/// Build a [ChessBoard] one piece at a time.
#[derive(Clone, Debug, PartialEq, Eq, PartialOrd, Ord)]
pub struct ChessBoardBuilder {
    /// The list of [Piece] on the board. Indexed by [Square::index].
    pub pieces: [Option<(Piece, Color)>; 64],
    // Same fields as [ChessBoard].
    pub castle_rights: [CastleRights; 2],
    pub en_passant: Option<Square>,
    pub half_move_clock: u32,
    pub side: Color,
    // 1-based, a turn is *two* half-moves (i.e: both players have played).
    pub turn_count: u32,
}

/// The squares below `upto` on which the builder holds a piece of the wanted type and color,
/// where `None` stands for any type or any color, as a machine word.
pub open spec fn squares_with(
    pieces: Seq<Option<(Piece, Color)>>,
    wanted_piece: Option<Piece>,
    wanted_color: Option<Color>,
    upto: int,
) -> u64
    decreases upto,
{
    if upto <= 0 {
        0
    } else {
        let below = squares_with(pieces, wanted_piece, wanted_color, upto - 1);
        match pieces[upto - 1] {
            Some((piece, color)) => if (wanted_piece.is_none() || wanted_piece == Some(piece)) && (
            wanted_color.is_none() || wanted_color == Some(color)) {
                below | (1u64 << ((upto - 1) as u64))
            } else {
                below
            },
            None => below,
        }
    }
}

/// The number of plies that lie before a turn in which the given player is to move.
pub open spec fn plies_before(turn_count: u32, side: Color) -> int {
    (turn_count - 1) * 2 + side.spec_index()
}

/// The board that holds the given pieces, each on the square of its place in the sequence,
/// valid or not, with the ply counter as [plies_before] gives it.
pub open spec fn board_of(
    pieces: Seq<Option<(Piece, Color)>>,
    castle_rights: [CastleRights; 2],
    en_passant: Option<Square>,
    half_move_clock: u32,
    side: Color,
    turn_count: u32,
) -> ChessBoard {
    ChessBoard {
        piece_occupancy: [
            Bitboard(squares_with(pieces, Some(Piece::King), None, 64)),
            Bitboard(squares_with(pieces, Some(Piece::Queen), None, 64)),
            Bitboard(squares_with(pieces, Some(Piece::Rook), None, 64)),
            Bitboard(squares_with(pieces, Some(Piece::Bishop), None, 64)),
            Bitboard(squares_with(pieces, Some(Piece::Knight), None, 64)),
            Bitboard(squares_with(pieces, Some(Piece::Pawn), None, 64)),
        ],
        color_occupancy: [
            Bitboard(squares_with(pieces, None, Some(Color::White), 64)),
            Bitboard(squares_with(pieces, None, Some(Color::Black), 64)),
        ],
        combined_occupancy: Bitboard(squares_with(pieces, None, None, 64)),
        castle_rights,
        en_passant,
        half_move_clock,
        total_plies: plies_before(turn_count, side) as u32,
        side,
    }
}

/// The board that [board_of] gives if it is valid, and else the first rule that it breaks.
pub open spec fn built_of(board: ChessBoard) -> Result<ChessBoard, ValidationError> {
    match board.validation() {
        Ok(_) => Ok(board),
        Err(error) => Err(error),
    }
}

impl ChessBoardBuilder {
    /// The board that the builder describes, valid or not.
    pub open spec fn board(self) -> ChessBoard {
        board_of(
            self.pieces@,
            self.castle_rights,
            self.en_passant,
            self.half_move_clock,
            self.side,
            self.turn_count,
        )
    }

    /// The board that the builder describes if it is valid, and else the first rule that it
    /// breaks.
    pub open spec fn built(self) -> Result<ChessBoard, ValidationError> {
        built_of(self.board())
    }

    /// A builder with no piece on the board, no castle rights and no en-passant target, in the
    /// first turn, with white to move.
    pub fn new() -> (builder: ChessBoardBuilder)
        ensures
            builder == (ChessBoardBuilder {
                pieces: builder.pieces,
                castle_rights: [CastleRights::NoSide, CastleRights::NoSide],
                en_passant: None,
                half_move_clock: 0,
                side: Color::White,
                turn_count: 1,
            }),
            forall|index: int| 0 <= index < 64 ==> (#[trigger] builder.pieces[index]).is_none(),
    {
        proof {
            vstd::array::axiom_spec_array_fill_for_copy_type::<Option<(Piece, Color)>, 64>(None);
        }
        ChessBoardBuilder {
            pieces: [None;64],
            castle_rights: [CastleRights::NoSide, CastleRights::NoSide],
            en_passant: None,
            half_move_clock: 0,
            side: Color::White,
            turn_count: 1,
        }
    }

    /// Set the castle rights of a color.
    pub fn with_castle_rights(&mut self, rights: CastleRights, color: Color) -> (builder: &mut Self)
        ensures
            builder.castle_rights@ == old(self).castle_rights@.update(
                color.spec_index() as int,
                rights,
            ),
            builder.pieces == old(self).pieces,
            builder.en_passant == old(self).en_passant,
            builder.half_move_clock == old(self).half_move_clock,
            builder.side == old(self).side,
            builder.turn_count == old(self).turn_count,
            *final(self) == *final(builder),
    {
        self.castle_rights[color.index()] = rights;
        self
    }

    /// Set the en-passant target.
    pub fn with_en_passant(&mut self, square: Square) -> (builder: &mut Self)
        ensures
            *builder == (ChessBoardBuilder { en_passant: Some(square), ..*old(self) }),
            *final(self) == *final(builder),
    {
        self.en_passant = Some(square);
        self
    }

    /// Take the en-passant target away.
    pub fn without_en_passant(&mut self) -> (builder: &mut Self)
        ensures
            *builder == (ChessBoardBuilder { en_passant: None, ..*old(self) }),
            *final(self) == *final(builder),
    {
        self.en_passant = None;
        self
    }

    /// Set the number of half-turns without either a pawn push or a capture.
    pub fn with_half_move_clock(&mut self, clock: u32) -> (builder: &mut Self)
        ensures
            *builder == (ChessBoardBuilder { half_move_clock: clock, ..*old(self) }),
            *final(self) == *final(builder),
    {
        self.half_move_clock = clock;
        self
    }

    /// Set the number of the turn, where the first turn has number one.
    pub fn with_turn_count(&mut self, count: u32) -> (builder: &mut Self)
        ensures
            *builder == (ChessBoardBuilder { turn_count: count, ..*old(self) }),
            *final(self) == *final(builder),
    {
        self.turn_count = count;
        self
    }

    /// Set the player to move.
    pub fn with_current_player(&mut self, color: Color) -> (builder: &mut Self)
        ensures
            *builder == (ChessBoardBuilder { side: color, ..*old(self) }),
            *final(self) == *final(builder),
    {
        self.side = color;
        self
    }
}

impl Default for ChessBoardBuilder {
    fn default() -> (builder: ChessBoardBuilder)
        ensures
            builder == (ChessBoardBuilder {
                pieces: builder.pieces,
                castle_rights: [CastleRights::NoSide, CastleRights::NoSide],
                en_passant: None,
                half_move_clock: 0,
                side: Color::White,
                turn_count: 1,
            }),
            forall|index: int| 0 <= index < 64 ==> (#[trigger] builder.pieces[index]).is_none(),
    {
        ChessBoardBuilder::new()
    }
}

/// Index a [ChessBoardBuilder] with a [Square] to access its pieces.
impl core::ops::Index<Square> for ChessBoardBuilder {
    type Output = Option<(Piece, Color)>;

    fn index(&self, square: Square) -> (piece: &Option<(Piece, Color)>)
        ensures
            *piece == self.pieces[square.spec_index() as int],
    {
        &self.pieces[square.index()]
    }
}

/// Index a [ChessBoardBuilder] with a [Square] to access its pieces.
impl core::ops::IndexMut<Square> for ChessBoardBuilder {
    fn index_mut(&mut self, square: Square) -> (piece: &mut Option<(Piece, Color)>)
        ensures
            *piece == old(self).pieces[square.spec_index() as int],
            final(self).pieces@ == old(self).pieces@.update(
                square.spec_index() as int,
                *final(piece),
            ),
            final(self).castle_rights == old(self).castle_rights,
            final(self).en_passant == old(self).en_passant,
            final(self).half_move_clock == old(self).half_move_clock,
            final(self).side == old(self).side,
            final(self).turn_count == old(self).turn_count,
    {
        &mut self.pieces[square.index()]
    }
}

impl ChessBoard {
    /// The board that a builder describes, if it is valid, and else the first rule that it
    /// breaks. Turns are counted from one, and the ply counter must fit its type.
    pub fn try_from(builder: ChessBoardBuilder) -> (board: Result<ChessBoard, ValidationError>)
        requires
            1 <= builder.turn_count <= 0x8000_0000,
        ensures
            board == builder.built(),
    {
        let mut piece_occupancy: [Bitboard; 6] = [Bitboard(0);6];
        let mut color_occupancy: [Bitboard; 2] = [Bitboard(0);2];
        let mut combined_occupancy: Bitboard = Bitboard(0);

        let mut index: usize = 0;
        while index < 64
            invariant
                index <= 64,
                forall|kind: int|
                    0 <= kind < 6 ==> (#[trigger] piece_occupancy[kind]).0 == squares_with(
                        builder.pieces@,
                        Some(Piece::spec_from_index(kind)),
                        None,
                        index as int,
                    ),
                color_occupancy[0].0 == squares_with(
                    builder.pieces@,
                    None,
                    Some(Color::White),
                    index as int,
                ),
                color_occupancy[1].0 == squares_with(
                    builder.pieces@,
                    None,
                    Some(Color::Black),
                    index as int,
                ),
                combined_occupancy.0 == squares_with(builder.pieces@, None, None, index as int),
            decreases 64 - index,
        {
            let square = Square::from_index(index);
            if let Some((piece, color)) = builder.pieces[index] {
                piece_occupancy[piece.index()] = piece_occupancy[piece.index()] | square;
                color_occupancy[color.index()] = color_occupancy[color.index()] | square;
                combined_occupancy = combined_occupancy | square;
            }
            index += 1;
        }

        let total_plies = (builder.turn_count - 1) * 2 + if builder.side == Color::White {
            0
        } else {
            1
        };

        let board = ChessBoard {
            piece_occupancy,
            color_occupancy,
            combined_occupancy,
            castle_rights: builder.castle_rights,
            en_passant: builder.en_passant,
            half_move_clock: builder.half_move_clock,
            total_plies,
            side: builder.side,
        };

        proof {
            assert(board.piece_occupancy =~= builder.board().piece_occupancy);
            assert(board.color_occupancy =~= builder.board().color_occupancy);
        }
        match board.validate() {
            Ok(_) => Ok(board),
            Err(error) => Err(error),
        }
    }
}

} // verus!
