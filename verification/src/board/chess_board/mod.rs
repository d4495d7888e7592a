use vstd::prelude::*;

use crate::board::bitboard::{
    has_bit, popcount, Bitboard, RANK_1, RANK_2, RANK_7, RANK_8, RANK_MASKS,
};
use crate::board::castle_rights::CastleRights;
use crate::board::chess_board::error::ValidationError;
use crate::board::chess_move::Move;
use crate::board::color::Color;
use crate::board::file::File;
use crate::board::piece::Piece;
use crate::board::rank::Rank;
use crate::board::square::Square;
use crate::movegen::naive::{
    bishop_attacks, king_attacks, knight_attacks, pawn_targets, rook_attacks,
};
use crate::movegen::{bishop_moves, king_moves, knight_moves, pawn_attacks, rook_moves};
use crate::utils::bits::{lemma_has_bit_algebra, lemma_xor_algebra};

pub mod builder;
pub mod checkers;
pub mod error;

verus! {

/// Represent an on-going chess game.
#[derive(Clone, Debug, PartialEq, Eq, PartialOrd, Ord)]
pub struct ChessBoard {
    /// A [Bitboard] of occupancy for each piece type, discarding color. Indexed by [Piece::index].
    pub piece_occupancy: [Bitboard; 6],
    /// A [Bitboard] of occupancy for each color, discarding piece type. Indexed by [Color::index].
    pub color_occupancy: [Bitboard; 2],
    /// A [Bitboard] representing all squares currently occupied by a piece.
    pub combined_occupancy: Bitboard,
    /// The allowed [CastleRights] for either color. Indexed by [Color::index].
    pub castle_rights: [CastleRights; 2],
    /// A potential en-passant attack.
    /// Either `None` if no double-step pawn move was made in the previous half-turn, or
    /// `Some(target_square)` if a double-step move was made.
    pub en_passant: Option<Square>,
    /// The number of half-turns without either a pawn push or capture.
    pub half_move_clock: u32,
    /// The number of half-turns so far.
    pub total_plies: u32,
    /// The current player turn.
    pub side: Color,
}

/// The state which can't be reversed when doing/un-doing a [Move].
#[derive(Clone, Debug, PartialEq, Eq, PartialOrd, Ord)]
pub struct NonReversibleState {
    pub castle_rights: [CastleRights; 2],
    pub en_passant: Option<Square>,
    pub half_move_clock: u32,
    pub captured_piece: Option<Piece>,
}

/// A board with one square added or removed where `on` holds, and unchanged where it does not.
pub open spec fn toggle_if(board: Bitboard, on: bool, bit: u64) -> Bitboard {
    if on {
        Bitboard(board.0 ^ bit)
    } else {
        board
    }
}

/// The most pieces of a type that one player can have: the pieces of the starting position, and
/// one more for each pawn that can promote.
pub open spec fn piece_limit(piece: Piece) -> nat {
    match piece {
        Piece::King => 1,
        Piece::Pawn => 8,
        Piece::Queen => 9,
        _ => 10,
    }
}

impl ChessBoard {
    /// The squares occupied by pieces of a type, of either color, as a machine word.
    pub open spec fn pieces(self, piece: Piece) -> u64 {
        self.piece_occupancy[piece.spec_index() as int].0
    }

    /// The squares occupied by pieces of a color, of any type, as a machine word.
    pub open spec fn colors(self, color: Color) -> u64 {
        self.color_occupancy[color.spec_index() as int].0
    }

    /// The squares occupied by pieces of a type and color, as a machine word.
    pub open spec fn spec_occupancy(self, piece: Piece, color: Color) -> u64 {
        self.pieces(piece) & self.colors(color)
    }

    /// The castle rights of a color.
    pub open spec fn rights(self, color: Color) -> CastleRights {
        self.castle_rights[color.spec_index() as int]
    }

    /// The first piece type, in the order of the indices, that occupies a square.
    pub open spec fn piece_on(self, square: Square) -> Option<Piece> {
        if self.pieces(Piece::King) & square.bit() != 0 {
            Some(Piece::King)
        } else if self.pieces(Piece::Queen) & square.bit() != 0 {
            Some(Piece::Queen)
        } else if self.pieces(Piece::Rook) & square.bit() != 0 {
            Some(Piece::Rook)
        } else if self.pieces(Piece::Bishop) & square.bit() != 0 {
            Some(Piece::Bishop)
        } else if self.pieces(Piece::Knight) & square.bit() != 0 {
            Some(Piece::Knight)
        } else if self.pieces(Piece::Pawn) & square.bit() != 0 {
            Some(Piece::Pawn)
        } else {
            None
        }
    }

    /// The first piece type other than the king, in the order of the indices, of which a piece of
    /// the given color occupies a square.
    pub open spec fn capturable_on(self, color: Color, square: Square) -> Option<Piece> {
        if self.spec_occupancy(Piece::Queen, color) & square.bit() != 0 {
            Some(Piece::Queen)
        } else if self.spec_occupancy(Piece::Rook, color) & square.bit() != 0 {
            Some(Piece::Rook)
        } else if self.spec_occupancy(Piece::Bishop, color) & square.bit() != 0 {
            Some(Piece::Bishop)
        } else if self.spec_occupancy(Piece::Knight, color) & square.bit() != 0 {
            Some(Piece::Knight)
        } else if self.spec_occupancy(Piece::Pawn, color) & square.bit() != 0 {
            Some(Piece::Pawn)
        } else {
            None
        }
    }

    /// The board with a piece of the given type and color added to a square where none of them
    /// is recorded, and removed where it is: the square is flipped in the board of the piece
    /// type, in that of the color, and in the combined board.
    pub open spec fn toggled(self, color: Color, piece: Piece, square: Square) -> ChessBoard {
        ChessBoard {
            piece_occupancy: [
                toggle_if(self.piece_occupancy[0], piece == Piece::King, square.bit()),
                toggle_if(self.piece_occupancy[1], piece == Piece::Queen, square.bit()),
                toggle_if(self.piece_occupancy[2], piece == Piece::Rook, square.bit()),
                toggle_if(self.piece_occupancy[3], piece == Piece::Bishop, square.bit()),
                toggle_if(self.piece_occupancy[4], piece == Piece::Knight, square.bit()),
                toggle_if(self.piece_occupancy[5], piece == Piece::Pawn, square.bit()),
            ],
            color_occupancy: [
                toggle_if(self.color_occupancy[0], color == Color::White, square.bit()),
                toggle_if(self.color_occupancy[1], color == Color::Black, square.bit()),
            ],
            combined_occupancy: Bitboard(self.combined_occupancy.0 ^ square.bit()),
            ..self
        }
    }

    /// The castle rights that are left to a player when one of its pieces leaves a square on the
    /// given file, by a move or by a capture: none after the king, not those of the queen side
    /// after a rook on file A, not those of the king side after a rook on file H.
    pub open spec fn rights_after(rights: CastleRights, piece: Piece, file: File) -> CastleRights {
        if piece == Piece::Rook && file == File::A {
            rights.spec_remove(CastleRights::QueenSide)
        } else if piece == Piece::Rook && file == File::H {
            rights.spec_remove(CastleRights::KingSide)
        } else if piece == Piece::King {
            CastleRights::NoSide
        } else {
            rights
        }
    }

    /// The board with the castle rights of a color brought up to date after one of its pieces has
    /// left a square on the given file.
    pub open spec fn castling_updated(self, color: Color, piece: Piece, file: File) -> ChessBoard {
        ChessBoard {
            castle_rights: [
                if color == Color::White {
                    ChessBoard::rights_after(self.castle_rights[0], piece, file)
                } else {
                    self.castle_rights[0]
                },
                if color == Color::Black {
                    ChessBoard::rights_after(self.castle_rights[1], piece, file)
                } else {
                    self.castle_rights[1]
                },
            ],
            ..self
        }
    }

    /// Whether a move is the double step of a pawn of the player to move: a pawn that goes from
    /// the second rank of its color to the fourth.
    pub open spec fn is_double_step(self, chess_move: Move) -> bool {
        &&& self.piece_on(chess_move.start) == Some(Piece::Pawn)
        &&& chess_move.start.spec_rank() == self.side.spec_second_rank()
        &&& chess_move.destination.spec_rank() == self.side.spec_fourth_rank()
    }

    /// Whether a move can be played: a piece stands on its starting square, and the counters can
    /// still be raised.
    pub open spec fn can_play(self, chess_move: Move) -> bool {
        &&& self.piece_on(chess_move.start).is_some()
        &&& self.total_plies < u32::MAX
        &&& self.half_move_clock < u32::MAX || self.capturable_on(
            self.side.opponent(),
            chess_move.destination,
        ).is_some() || self.piece_on(chess_move.start) == Some(Piece::Pawn)
    }

    /// What a move cannot bring back by itself: the castle rights, the en-passant target and the
    /// half-move clock of the board before the move, and the type of the piece it captures.
    pub open spec fn played_state(self, chess_move: Move) -> NonReversibleState {
        NonReversibleState {
            castle_rights: self.castle_rights,
            en_passant: self.en_passant,
            half_move_clock: self.half_move_clock,
            captured_piece: self.capturable_on(self.side.opponent(), chess_move.destination),
        }
    }

    /// The board after a move of the player to move. The piece that moves is the first that
    /// occupies the starting square; the piece that is captured is the first of the opponent's,
    /// other than the king, on the destination. The half-move clock starts again at a capture or
    /// a pawn move and goes up by one otherwise; an en-passant target is set behind a pawn that
    /// took a double step and cleared otherwise; the mover loses the castle rights that the
    /// moved piece stands for, and the opponent those of a captured rook; the captured piece
    /// leaves the board, the moved piece leaves its square, and it, or the piece it promotes to,
    /// is set on the destination; then the ply counter goes up and the other player is to move.
    /// Neither the rook's part of castling nor the pawn taken en passant is moved.
    pub open spec fn played(self, chess_move: Move) -> ChessBoard
        recommends
            self.can_play(chess_move),
    {
        let mover = self.side;
        let opponent = self.side.opponent();
        let piece = self.piece_on(chess_move.start).unwrap();
        let captured = self.capturable_on(opponent, chess_move.destination);
        let clocked = ChessBoard {
            half_move_clock: if captured.is_some() || piece == Piece::Pawn {
                0
            } else {
                (self.half_move_clock + 1) as u32
            },
            en_passant: if self.is_double_step(chess_move) {
                Some(Square::spec_new(chess_move.destination.spec_file(), mover.spec_third_rank()))
            } else {
                None
            },
            ..self
        }.castling_updated(mover, piece, chess_move.start.spec_file());
        let taken = match captured {
            Some(victim) => clocked.toggled(
                opponent,
                victim,
                chess_move.destination,
            ).castling_updated(opponent, victim, chess_move.destination.spec_file()),
            None => clocked,
        };
        let placed = taken.toggled(mover, piece, chess_move.start).toggled(
            mover,
            match chess_move.promotion {
                Some(promoted) => promoted,
                None => piece,
            },
            chess_move.destination,
        );
        ChessBoard { total_plies: (self.total_plies + 1) as u32, side: opponent, ..placed }
    }

    /// Whether a move can be taken back: a piece stands on its destination, and a ply has been
    /// counted.
    pub open spec fn can_unplay(self, chess_move: Move) -> bool {
        self.piece_on(chess_move.destination).is_some() && self.total_plies > 0
    }

    /// The board before a move that led to this board, given what the move could not bring back.
    /// The castle rights, the en-passant target and the half-move clock are those of the state;
    /// the first piece that occupies the destination goes back to the starting square, as a pawn
    /// if the move was a promotion; the captured piece of the state is set on the destination
    /// again, for the player who is now to move; the ply counter goes down and the other player
    /// is to move.
    pub open spec fn unplayed(self, chess_move: Move, previous: NonReversibleState) -> ChessBoard
        recommends
            self.can_unplay(chess_move),
    {
        let mover = self.side.opponent();
        let piece = self.piece_on(chess_move.destination).unwrap();
        let restored = ChessBoard {
            castle_rights: previous.castle_rights,
            en_passant: previous.en_passant,
            half_move_clock: previous.half_move_clock,
            ..self
        };
        let given_back = match previous.captured_piece {
            Some(victim) => restored.toggled(self.side, victim, chess_move.destination),
            None => restored,
        };
        let placed = given_back.toggled(mover, piece, chess_move.destination).toggled(
            mover,
            match chess_move.promotion {
                Some(_) => Piece::Pawn,
                None => piece,
            },
            chess_move.start,
        );
        ChessBoard { total_plies: (self.total_plies - 1) as u32, side: mover, ..placed }
    }

    /// Whether taking a move back after playing it gives the board before the move: the move can
    /// be played; the piece found on the destination after the move is the one that the move set
    /// there; and only a pawn is promoted.
    pub open spec fn plays_reversibly(self, chess_move: Move) -> bool {
        &&& self.can_play(chess_move)
        &&& self.played(chess_move).piece_on(chess_move.destination) == Some(
            match chess_move.promotion {
                Some(promoted) => promoted,
                None => self.piece_on(chess_move.start).unwrap(),
            },
        )
        &&& chess_move.promotion.is_some() ==> self.piece_on(chess_move.start) == Some(Piece::Pawn)
    }

    /// Whether a square is occupied by pieces of two types.
    pub open spec fn pieces_overlap(self) -> bool {
        exists|one: int, other: int|
            0 <= one < 6 && 0 <= other < 6 && one != other && (
            #[trigger] self.piece_occupancy[one]).0 & (#[trigger] self.piece_occupancy[other]).0
                != 0
    }

    /// The squares occupied by a piece of any type.
    pub open spec fn all_pieces(self) -> u64 {
        self.pieces(Piece::King) | self.pieces(Piece::Queen) | self.pieces(Piece::Rook)
            | self.pieces(Piece::Bishop) | self.pieces(Piece::Knight) | self.pieces(Piece::Pawn)
    }

    /// Whether a player has more pieces of some type than [piece_limit] allows.
    pub open spec fn too_many_of_a_type(self, color: Color) -> bool {
        exists|index: int|
            0 <= index < 6 && popcount(
                (#[trigger] self.piece_occupancy[index]).0 & self.colors(color),
            ) > piece_limit(Piece::spec_from_index(index))
    }

    /// What is wrong with the number of pieces of a player, if anything: too many of one type, no
    /// king, or more than sixteen pieces in all.
    pub open spec fn count_error(self, color: Color) -> Option<ValidationError> {
        if self.too_many_of_a_type(color) {
            Some(ValidationError::TooManyPieces)
        } else if popcount(self.spec_occupancy(Piece::King, color)) != 1 {
            Some(ValidationError::MissingKing)
        } else if popcount(self.colors(color)) > 16 {
            Some(ValidationError::TooManyPieces)
        } else {
            None
        }
    }

    /// Whether the castle rights of a player ask for a rook that is not on its corner, or for a
    /// king that is not on file E of the player's first rank.
    pub open spec fn castling_error(self, color: Color) -> bool {
        let expected_rooks = self.rights(color).spec_unmoved_rooks(color);
        let expected_king = Square::spec_new(File::E, color.spec_first_rank()).bit();
        self.rights(color) != CastleRights::NoSide && (expected_rooks & self.spec_occupancy(
            Piece::Rook,
            color,
        ) != expected_rooks || self.spec_occupancy(Piece::King, color) != expected_king)
    }

    /// Whether there is an en-passant target that is occupied, that is not on the third rank of
    /// the player who just moved, or behind which no pawn of that player stands.
    pub open spec fn en_passant_error(self) -> bool {
        match self.en_passant {
            Some(square) => {
                let opponent = self.side.opponent();
                ||| self.combined_occupancy.0 & square.bit() != 0
                ||| square.bit() & RANK_MASKS[opponent.spec_third_rank().spec_index() as int] == 0
                ||| self.spec_occupancy(Piece::Pawn, opponent)
                    & self.side.spec_backward_direction().shifted(square.bit()) == 0
            },
            None => false,
        }
    }

    /// The square of the king of a color, on a board with one such king.
    pub open spec fn king_square(self, color: Color) -> Square {
        Square::spec_from_index(self.spec_occupancy(Piece::King, color).trailing_zeros() as usize)
    }

    /// The pieces of the opponent that threaten the king of a color: the queens and bishops on
    /// the squares a bishop would attack from the king's square, the queens and rooks on those a
    /// rook would attack from there, the knights on those a knight would attack from there, and
    /// the pawns on those that a pawn of the king's color would attack from there.
    pub open spec fn checkers_of(self, color: Color) -> u64 {
        let king = self.king_square(color);
        let opponent = color.opponent();
        let blockers = self.combined_occupancy.0;
        ((self.spec_occupancy(Piece::Queen, opponent) | self.spec_occupancy(
            Piece::Bishop,
            opponent,
        )) & bishop_attacks(king.bit(), blockers)) | ((self.spec_occupancy(Piece::Queen, opponent)
            | self.spec_occupancy(Piece::Rook, opponent)) & rook_attacks(king.bit(), blockers)) | (
        self.spec_occupancy(Piece::Knight, opponent) & knight_attacks(king.bit())) | (
        self.spec_occupancy(Piece::Pawn, opponent) & pawn_targets(color, king))
    }

    /// The first rule that the board breaks, in the order in which the rules are tested, or `Ok`
    /// for a board that breaks none.
    pub open spec fn validation(self) -> Result<(), ValidationError> {
        if self.pieces_overlap() {
            Err(ValidationError::OverlappingPieces)
        } else if self.colors(Color::White) & self.colors(Color::Black) != 0 {
            Err(ValidationError::OverlappingColors)
        } else if self.all_pieces() != self.combined_occupancy.0 || self.all_pieces() != (
        self.colors(Color::White) | self.colors(Color::Black)) {
            Err(ValidationError::ErroneousCombinedOccupancy)
        } else if let Some(error) = self.count_error(Color::White) {
            Err(error)
        } else if let Some(error) = self.count_error(Color::Black) {
            Err(error)
        } else if self.pieces(Piece::Pawn) & (RANK_1 | RANK_8) != 0 {
            Err(ValidationError::InvalidPawnPosition)
        } else if self.castling_error(Color::White) || self.castling_error(Color::Black) {
            Err(ValidationError::InvalidCastlingRights)
        } else if self.en_passant_error() {
            Err(ValidationError::InvalidEnPassant)
        } else if king_attacks(self.king_square(Color::White).bit()) & self.spec_occupancy(
            Piece::King,
            Color::Black,
        ) != 0 {
            Err(ValidationError::NeighbouringKings)
        } else if self.checkers_of(self.side.opponent()) != 0 {
            Err(ValidationError::OpponentInCheck)
        } else if self.total_plies % 2 != self.side.spec_index() {
            Err(ValidationError::IncoherentPlieCount)
        } else if self.half_move_clock > self.total_plies {
            Err(ValidationError::HalfMoveClockTooHigh)
        } else {
            Ok(())
        }
    }

    /// The starting position of a game.
    pub open spec fn starting_position() -> ChessBoard {
        ChessBoard {
            piece_occupancy: [
                Bitboard(Square::E1.bit() | Square::E8.bit()),
                Bitboard(Square::D1.bit() | Square::D8.bit()),
                Bitboard(Square::A1.bit() | Square::A8.bit() | Square::H1.bit() | Square::H8.bit()),
                Bitboard(Square::C1.bit() | Square::C8.bit() | Square::F1.bit() | Square::F8.bit()),
                Bitboard(Square::B1.bit() | Square::B8.bit() | Square::G1.bit() | Square::G8.bit()),
                Bitboard(RANK_2 | RANK_7),
            ],
            color_occupancy: [Bitboard(RANK_1 | RANK_2), Bitboard(RANK_7 | RANK_8)],
            combined_occupancy: Bitboard(RANK_1 | RANK_2 | RANK_7 | RANK_8),
            castle_rights: [CastleRights::BothSides, CastleRights::BothSides],
            en_passant: None,
            half_move_clock: 0,
            total_plies: 0,
            side: Color::White,
        }
    }

    /// Whether no piece and no color is recorded on a square.
    pub open spec fn square_free(self, square: Square) -> bool {
        &&& forall|kind: int|
            0 <= kind < 6 ==> !has_bit(
                (#[trigger] self.piece_occupancy[kind]).0,
                square.spec_index() as int,
            )
        &&& !has_bit(self.colors(Color::White), square.spec_index() as int)
        &&& !has_bit(self.colors(Color::Black), square.spec_index() as int)
    }

    /// Whether a square holds a piece of the given type and color, and nothing else.
    pub open spec fn sole_occupant(self, color: Color, piece: Piece, square: Square) -> bool {
        &&& forall|kind: int|
            0 <= kind < 6 ==> (has_bit(
                (#[trigger] self.piece_occupancy[kind]).0,
                square.spec_index() as int,
            ) <==> kind == piece.spec_index())
        &&& has_bit(self.colors(color), square.spec_index() as int)
        &&& !has_bit(self.colors(color.opponent()), square.spec_index() as int)
    }

    /// Whether a move can be played and takes a piece of the player to move, alone on its
    /// square, to another square that is free or holds one piece of the opponent's other than
    /// the king, and promotes nothing but a pawn.
    pub open spec fn plays_cleanly(self, chess_move: Move) -> bool {
        &&& self.can_play(chess_move)
        &&& chess_move.start != chess_move.destination
        &&& self.sole_occupant(
            self.side,
            self.piece_on(chess_move.start).unwrap(),
            chess_move.start,
        )
        &&& self.square_free(chess_move.destination) || exists|victim: Piece|
            victim != Piece::King && #[trigger] self.sole_occupant(
                self.side.opponent(),
                victim,
                chess_move.destination,
            )
        &&& chess_move.promotion.is_some() ==> self.piece_on(chess_move.start) == Some(Piece::Pawn)
    }

    /// Which player's turn is it.
    pub fn current_player(&self) -> (color: Color)
        ensures
            color == self.side,
    {
        self.side
    }

    /// Return the target [Square] that can be captured en-passant, or `None`
    pub fn en_passant(&self) -> (square: Option<Square>)
        ensures
            square == self.en_passant,
    {
        self.en_passant
    }

    /// Return the [CastleRights] for the given [Color].
    pub fn castle_rights(&self, color: Color) -> (rights: CastleRights)
        ensures
            rights == self.rights(color),
    {
        self.castle_rights[color.index()]
    }

    /// Return the [CastleRights] for the given [Color]. Allow mutations.
    pub fn castle_rights_mut(&mut self, color: Color) -> (rights: &mut CastleRights)
        ensures
            *rights == old(self).rights(color),
            final(self).castle_rights@ == old(self).castle_rights@.update(
                color.spec_index() as int,
                *final(rights),
            ),
            final(self).piece_occupancy == old(self).piece_occupancy,
            final(self).color_occupancy == old(self).color_occupancy,
            final(self).combined_occupancy == old(self).combined_occupancy,
            final(self).en_passant == old(self).en_passant,
            final(self).half_move_clock == old(self).half_move_clock,
            final(self).total_plies == old(self).total_plies,
            final(self).side == old(self).side,
    {
        &mut self.castle_rights[color.index()]
    }

    /// Get the [Bitboard] representing all pieces of the given [Piece] and [Color] type.
    pub fn occupancy(&self, piece: Piece, color: Color) -> (board: Bitboard)
        ensures
            board.0 == self.spec_occupancy(piece, color),
    {
        self.piece_occupancy(piece) & self.color_occupancy(color)
    }

    /// Get the [Bitboard] representing all pieces of the given [Piece] type, discarding color.
    pub fn piece_occupancy(&self, piece: Piece) -> (board: Bitboard)
        ensures
            board.0 == self.pieces(piece),
            board == self.piece_occupancy[piece.spec_index() as int],
    {
        self.piece_occupancy[piece.index()]
    }

    /// Get the [Bitboard] representing all pieces of the given [Piece] type, discarding color.
    /// Allow mutating the state.
    pub fn piece_occupancy_mut(&mut self, piece: Piece) -> (board: &mut Bitboard)
        ensures
            *board == old(self).piece_occupancy[piece.spec_index() as int],
            final(self).piece_occupancy@ == old(self).piece_occupancy@.update(
                piece.spec_index() as int,
                *final(board),
            ),
            final(self).color_occupancy == old(self).color_occupancy,
            final(self).combined_occupancy == old(self).combined_occupancy,
            final(self).castle_rights == old(self).castle_rights,
            final(self).en_passant == old(self).en_passant,
            final(self).half_move_clock == old(self).half_move_clock,
            final(self).total_plies == old(self).total_plies,
            final(self).side == old(self).side,
    {
        &mut self.piece_occupancy[piece.index()]
    }

    /// Get the [Bitboard] representing all colors of the given [Color] type, discarding piece
    /// type.
    pub fn color_occupancy(&self, color: Color) -> (board: Bitboard)
        ensures
            board.0 == self.colors(color),
            board == self.color_occupancy[color.spec_index() as int],
    {
        self.color_occupancy[color.index()]
    }

    /// Get the [Bitboard] representing all colors of the given [Color] type, discarding piece
    /// type. Allow mutating the state.
    pub fn color_occupancy_mut(&mut self, color: Color) -> (board: &mut Bitboard)
        ensures
            *board == old(self).color_occupancy[color.spec_index() as int],
            final(self).color_occupancy@ == old(self).color_occupancy@.update(
                color.spec_index() as int,
                *final(board),
            ),
            final(self).piece_occupancy == old(self).piece_occupancy,
            final(self).combined_occupancy == old(self).combined_occupancy,
            final(self).castle_rights == old(self).castle_rights,
            final(self).en_passant == old(self).en_passant,
            final(self).half_move_clock == old(self).half_move_clock,
            final(self).total_plies == old(self).total_plies,
            final(self).side == old(self).side,
    {
        &mut self.color_occupancy[color.index()]
    }

    /// Get the [Bitboard] representing all pieces on the board.
    pub fn combined_occupancy(&self) -> (board: Bitboard)
        ensures
            board == self.combined_occupancy,
    {
        self.combined_occupancy
    }

    /// Return the number of half-turns without either a pawn push or a capture.
    pub fn half_move_clock(&self) -> (clock: u32)
        ensures
            clock == self.half_move_clock,
    {
        self.half_move_clock
    }

    /// Return the total number of plies (i.e: half-turns) played so far.
    pub fn total_plies(&self) -> (plies: u32)
        ensures
            plies == self.total_plies,
    {
        self.total_plies
    }

    /// Quickly add/remove a piece on the [Bitboard]s that are part of the [ChessBoard] state.
    pub fn xor(&mut self, color: Color, piece: Piece, square: Square)
        ensures
            *final(self) == old(self).toggled(color, piece, square),
    {
        let piece_index = piece.index();
        let color_index = color.index();
        self.piece_occupancy[piece_index] = self.piece_occupancy[piece_index] ^ square;
        self.color_occupancy[color_index] = self.color_occupancy[color_index] ^ square;
        self.combined_occupancy = self.combined_occupancy ^ square;
        proof {
            let after = old(self).toggled(color, piece, square);
            assert(self.piece_occupancy =~= after.piece_occupancy);
            assert(self.color_occupancy =~= after.color_occupancy);
        }
    }

    /// Compute the change of [CastleRights] from moving/taking a piece.
    pub fn update_castling(&mut self, color: Color, piece: Piece, file: File)
        ensures
            *final(self) == old(self).castling_updated(color, piece, file),
    {
        let current = self.castle_rights(color);
        let new_rights = match (piece, file) {
            (Piece::Rook, File::A) => current.without_queen_side(),
            (Piece::Rook, File::H) => current.without_king_side(),
            (Piece::King, _) => CastleRights::NoSide,
            _ => {
                proof {
                    assert(self.castle_rights =~= old(self).castling_updated(
                        color,
                        piece,
                        file,
                    ).castle_rights);
                }
                return ;
            },
        };
        if new_rights != current {
            self.castle_rights[color.index()] = new_rights;
        }
        proof {
            assert(self.castle_rights =~= old(self).castling_updated(
                color,
                piece,
                file,
            ).castle_rights);
        }
    }
    /// The first piece type that occupies a square.
    pub fn find_piece(&self, square: Square) -> (piece: Option<Piece>)
        ensures
            piece == self.piece_on(square),
    {
        if !(self.piece_occupancy(Piece::King) & square).is_empty() {
            Some(Piece::King)
        } else if !(self.piece_occupancy(Piece::Queen) & square).is_empty() {
            Some(Piece::Queen)
        } else if !(self.piece_occupancy(Piece::Rook) & square).is_empty() {
            Some(Piece::Rook)
        } else if !(self.piece_occupancy(Piece::Bishop) & square).is_empty() {
            Some(Piece::Bishop)
        } else if !(self.piece_occupancy(Piece::Knight) & square).is_empty() {
            Some(Piece::Knight)
        } else if !(self.piece_occupancy(Piece::Pawn) & square).is_empty() {
            Some(Piece::Pawn)
        } else {
            None
        }
    }

    /// The first piece type of the given color, other than the king, that occupies a square.
    fn find_capturable(&self, color: Color, square: Square) -> (piece: Option<Piece>)
        ensures
            piece == self.capturable_on(color, square),
    {
        if !(self.occupancy(Piece::Queen, color) & square).is_empty() {
            Some(Piece::Queen)
        } else if !(self.occupancy(Piece::Rook, color) & square).is_empty() {
            Some(Piece::Rook)
        } else if !(self.occupancy(Piece::Bishop, color) & square).is_empty() {
            Some(Piece::Bishop)
        } else if !(self.occupancy(Piece::Knight, color) & square).is_empty() {
            Some(Piece::Knight)
        } else if !(self.occupancy(Piece::Pawn, color) & square).is_empty() {
            Some(Piece::Pawn)
        } else {
            None
        }
    }

    /// Play the given [Move], return a copy of the board with the resulting state.
    pub fn play_move(&self, chess_move: Move) -> (after: ChessBoard)
        requires
            self.can_play(chess_move),
        ensures
            after == self.played(chess_move),
    {
        let mut res = ChessBoard {
            piece_occupancy: self.piece_occupancy,
            color_occupancy: self.color_occupancy,
            combined_occupancy: self.combined_occupancy,
            castle_rights: self.castle_rights,
            en_passant: self.en_passant,
            half_move_clock: self.half_move_clock,
            total_plies: self.total_plies,
            side: self.side,
        };
        res.play_move_inplace(chess_move);
        res
    }

    /// Play the given [Move] in place, returning all non-revertible state (e.g: en-passant,
    /// etc...).
    pub fn play_move_inplace(&mut self, chess_move: Move) -> (state: NonReversibleState)
        requires
            old(self).can_play(chess_move),
        ensures
            *final(self) == old(self).played(chess_move),
            state == old(self).played_state(chess_move),
    {
        let mover = self.current_player();
        let opponent = core::ops::Not::not(mover);
        let move_piece = self.find_piece(chess_move.start()).unwrap();
        let captured_piece = self.find_capturable(opponent, chess_move.destination());
        let is_double_step = move_piece == Piece::Pawn && chess_move.start().rank()
            == mover.second_rank() && chess_move.destination().rank() == mover.fourth_rank();

        // Save non-revertible state
        let state = NonReversibleState {
            castle_rights: self.castle_rights,
            en_passant: self.en_passant,
            half_move_clock: self.half_move_clock,
            captured_piece,
        };

        // Non-revertible state modification
        if captured_piece.is_some() || move_piece == Piece::Pawn {
            self.half_move_clock = 0;
        } else {
            self.half_move_clock += 1;
        }
        if is_double_step {
            let target_square = Square::new(chess_move.destination().file(), mover.third_rank());
            self.en_passant = Some(target_square);
        } else {
            self.en_passant = None;
        }
        self.update_castling(mover, move_piece, chess_move.start().file());
        if let Some(piece) = captured_piece {
            self.xor(opponent, piece, chess_move.destination());
            // If a rook is captured, it loses its castling rights
            self.update_castling(opponent, piece, chess_move.destination().file());
        }
        // Revertible state modification

        let dest_piece = match chess_move.promotion() {
            Some(promoted) => promoted,
            None => move_piece,
        };
        self.xor(mover, move_piece, chess_move.start());
        self.xor(mover, dest_piece, chess_move.destination());
        self.total_plies += 1;
        self.side = opponent;

        state
    }

    /// Reverse the effect of playing the given [Move], and return to the given
    /// [NonReversibleState].
    pub fn unplay_move(&mut self, chess_move: Move, previous: NonReversibleState)
        requires
            old(self).can_unplay(chess_move),
        ensures
            *final(self) == old(self).unplayed(chess_move, previous),
    {
        // Restore non-revertible state
        self.castle_rights = previous.castle_rights;
        self.en_passant = previous.en_passant;
        self.half_move_clock = previous.half_move_clock;

        // We're looking for the *destination* as this is *undoing* the move
        let move_piece = self.find_piece(chess_move.destination()).unwrap();
        let current = self.current_player();
        let mover = core::ops::Not::not(current);

        if let Some(piece) = previous.captured_piece {
            // The capture affected the *current* player, from our post-move POV
            self.xor(current, piece, chess_move.destination());
        }
        // Restore revertible state

        let start_piece = match chess_move.promotion() {
            Some(_) => Piece::Pawn,
            None => move_piece,
        };
        self.xor(mover, move_piece, chess_move.destination());
        self.xor(mover, start_piece, chess_move.start());
        self.total_plies -= 1;
        self.side = mover;
    }

    /// Return the [Bitboard] corresponding to all the opponent's pieces threatening the current
    /// player's king.
    pub fn checkers(&self) -> (threats: Bitboard)
        requires
            popcount(self.spec_occupancy(Piece::King, self.side)) == 1,
        ensures
            threats.0 == self.checkers_of(self.side),
    {
        self.compute_checkers(self.current_player())
    }

    /// Compute all pieces that are currently threatening the given [Color]'s king.
    pub fn compute_checkers(&self, color: Color) -> (threats: Bitboard)
        requires
            popcount(self.spec_occupancy(Piece::King, color)) == 1,
        ensures
            threats.0 == self.checkers_of(color),
    {
        let king = Square::try_from(self.occupancy(Piece::King, color)).unwrap();

        let opponent = core::ops::Not::not(color);

        // No need to remove our pieces from the generated moves, we just want to check if we
        // intersect with the opponent's pieces, rather than generate only valid moves.
        let bishops = {
            let queens = self.occupancy(Piece::Queen, opponent);
            let bishops = self.occupancy(Piece::Bishop, opponent);
            let bishop_attacks = bishop_moves(king, self.combined_occupancy());
            (queens | bishops) & bishop_attacks
        };
        let rooks = {
            let queens = self.occupancy(Piece::Queen, opponent);
            let rooks = self.occupancy(Piece::Rook, opponent);
            let rook_attacks = rook_moves(king, self.combined_occupancy());
            (queens | rooks) & rook_attacks
        };
        let knights = {
            let knights = self.occupancy(Piece::Knight, opponent);
            let knight_attacks = knight_moves(king);
            knights & knight_attacks
        };
        let pawns = {
            let pawns = self.occupancy(Piece::Pawn, opponent);
            let pawn_attacks = pawn_attacks(color, king);
            pawns & pawn_attacks
        };

        bishops | rooks | knights | pawns
    }

    /// Return true if the current state of the board looks valid, false if something is definitely
    /// wrong.
    pub fn is_valid(&self) -> (valid: bool)
        ensures
            valid == self.validation().is_ok(),
    {
        self.validate().is_ok()
    }

    /// Whether two of the piece boards share a square.
    fn has_overlapping_pieces(&self) -> (overlap: bool)
        ensures
            overlap == self.pieces_overlap(),
    {
        let mut one: usize = 0;
        while one < 6
            invariant
                one <= 6,
                forall|a: int, b: int|
                    0 <= a < one && 0 <= b < 6 && a != b ==> (#[trigger] self.piece_occupancy[a]).0
                        & (#[trigger] self.piece_occupancy[b]).0 == 0,
            decreases 6 - one,
        {
            let mut other: usize = 0;
            while other < 6
                invariant
                    one < 6,
                    other <= 6,
                    forall|a: int, b: int|
                        0 <= a < one && 0 <= b < 6 && a != b ==> (
                        #[trigger] self.piece_occupancy[a]).0 & (
                        #[trigger] self.piece_occupancy[b]).0 == 0,
                    forall|b: int|
                        0 <= b < other && one != b ==> self.piece_occupancy[one as int].0 & (
                        #[trigger] self.piece_occupancy[b]).0 == 0,
                decreases 6 - other,
            {
                if one != other {
                    if !(self.piece_occupancy[one] & self.piece_occupancy[other]).is_empty() {
                        return true;
                    }
                }
                other += 1;
            }
            one += 1;
        }
        false
    }

    /// What is wrong with the number of pieces of a player, if anything.
    fn check_counts(&self, color: Color) -> (error: Option<ValidationError>)
        ensures
            error == self.count_error(color),
    {
        let mut index: usize = 0;
        while index < 6
            invariant
                index <= 6,
                forall|k: int|
                    0 <= k < index ==> popcount(
                        (#[trigger] self.piece_occupancy[k]).0 & self.colors(color),
                    ) <= piece_limit(Piece::spec_from_index(k)),
            decreases 6 - index,
        {
            let piece = Piece::from_index(index);
            // Check that we have the expected number of pieces.
            let count = self.occupancy(piece, color).count();
            let possible = match piece {
                Piece::King => count <= 1,
                Piece::Pawn => count <= 8,
                Piece::Queen => count <= 9,
                _ => count <= 10,
            };
            if !possible {
                return Some(ValidationError::TooManyPieces);
            }
            index += 1;
        }
        // Check that we have a king
        if self.occupancy(Piece::King, color).count() != 1 {
            return Some(ValidationError::MissingKing);
        }
        // Check that don't have too many pieces in total

        if self.color_occupancy(color).count() > 16 {
            return Some(ValidationError::TooManyPieces);
        }
        None
    }

    /// Whether rooks and kings that are allowed to castle have been moved.
    fn has_castling_error(&self, color: Color) -> (wrong: bool)
        ensures
            wrong == self.castling_error(color),
    {
        let castle_rights = self.castle_rights(color);

        // Nothing to check if there are no castlings allowed.
        if castle_rights == CastleRights::NoSide {
            return false;
        }
        let actual_rooks = self.occupancy(Piece::Rook, color);
        let expected_rooks = castle_rights.unmoved_rooks(color);
        // We must check the intersection, in case there are more than 2 rooks on the board.
        if (expected_rooks & actual_rooks) != expected_rooks {
            return true;
        }
        let actual_king = self.occupancy(Piece::King, color);
        let expected_king = Square::new(File::E, color.first_rank());
        actual_king != expected_king.into_bitboard()
    }

    /// Whether the en-passant target does not fit the board.
    fn has_en_passant_error(&self) -> (wrong: bool)
        ensures
            wrong == self.en_passant_error(),
    {
        if let Some(square) = self.en_passant() {
            // Must be empty
            if !(self.combined_occupancy() & square).is_empty() {
                return true;
            }
            let opponent = core::ops::Not::not(self.current_player());

            // Must be on the opponent's third rank
            if (square & opponent.third_rank().into_bitboard()).is_empty() {
                return true;
            }
            // Must be behind a pawn

            let opponent_pawns = self.occupancy(Piece::Pawn, opponent);
            let double_pushed_pawn = self.current_player().backward_direction().move_board(
                square.into_bitboard(),
            );
            if (opponent_pawns & double_pushed_pawn).is_empty() {
                return true;
            }
        }
        false
    }

    /// Validate the state of the board. Return Err([ValidationError]) if an issue is found: the
    /// error of the first rule that the board breaks.
    pub fn validate(&self) -> (result: Result<(), ValidationError>)
        ensures
            result == self.validation(),
    {
        // Don't overlap pieces.
        if self.has_overlapping_pieces() {
            return Err(ValidationError::OverlappingPieces);
        }
        // Don't overlap colors.

        if !(self.color_occupancy(Color::White) & self.color_occupancy(Color::Black)).is_empty() {
            return Err(ValidationError::OverlappingColors);
        }
        // Calculate the union of all pieces.

        let combined = self.piece_occupancy(Piece::King) | self.piece_occupancy(Piece::Queen)
            | self.piece_occupancy(Piece::Rook) | self.piece_occupancy(Piece::Bishop)
            | self.piece_occupancy(Piece::Knight) | self.piece_occupancy(Piece::Pawn);

        // Ensure that the pre-computed version is accurate.
        if combined != self.combined_occupancy() {
            return Err(ValidationError::ErroneousCombinedOccupancy);
        }
        // Ensure that all pieces belong to a color, and no color has pieces that don't exist.

        if combined != (self.color_occupancy(Color::White) | self.color_occupancy(Color::Black)) {
            return Err(ValidationError::ErroneousCombinedOccupancy);
        }
        if let Some(error) = self.check_counts(Color::White) {
            return Err(error);
        }
        if let Some(error) = self.check_counts(Color::Black) {
            return Err(error);
        }
        // Check that pawns aren't in first/last rank.

        if !(self.piece_occupancy(Piece::Pawn) & (Rank::First.into_bitboard()
            | Rank::Eighth.into_bitboard())).is_empty() {
            return Err(ValidationError::InvalidPawnPosition);
        }
        // Verify that rooks and kings that are allowed to castle have not been moved.

        if self.has_castling_error(Color::White) || self.has_castling_error(Color::Black) {
            return Err(ValidationError::InvalidCastlingRights);
        }
        // En-passant validation

        if self.has_en_passant_error() {
            return Err(ValidationError::InvalidEnPassant);
        }
        // Check that kings don't touch each other.

        let white_king = self.occupancy(Piece::King, Color::White);
        let black_king = self.occupancy(Piece::King, Color::Black);
        // Unwrap is fine, we already checked that there is exactly one king of each color
        if !(king_moves(Square::try_from(white_king).unwrap()) & black_king).is_empty() {
            return Err(ValidationError::NeighbouringKings);
        }
        // Check that the opponent is not currently in check.

        if !self.compute_checkers(core::ops::Not::not(self.current_player())).is_empty() {
            return Err(ValidationError::OpponentInCheck);
        }
        // The current plie count should be odd on black's turn, and even on white's.

        if self.total_plies() % 2 != self.current_player().index() as u32 {
            return Err(ValidationError::IncoherentPlieCount);
        }
        // Make sure the clocks are in agreement.

        if self.half_move_clock() > self.total_plies() {
            return Err(ValidationError::HalfMoveClockTooHigh);
        }
        Ok(())
    }
}

/// Use the starting position as a default value, corresponding to the
/// "rnbqkbnr/pppppppp/8/8/8/8/PPPPPPPP/RNBQKBNR w KQkq - 0 1" FEN string
impl Default for ChessBoard {
    fn default() -> (board: ChessBoard)
        ensures
            board == ChessBoard::starting_position(),
    {
        ChessBoard {
            piece_occupancy: [
                // King
                Square::E1 | Square::E8,
                // Queen
                Square::D1 | Square::D8,
                // Rook
                Square::A1 | Square::A8 | Square::H1 | Square::H8,
                // Bishop
                Square::C1 | Square::C8 | Square::F1 | Square::F8,
                // Knight
                Square::B1 | Square::B8 | Square::G1 | Square::G8,
                // Pawn
                Rank::Second.into_bitboard() | Rank::Seventh.into_bitboard(),
            ],
            color_occupancy: [
                Rank::First.into_bitboard() | Rank::Second.into_bitboard(),
                Rank::Seventh.into_bitboard() | Rank::Eighth.into_bitboard(),
            ],
            combined_occupancy: Rank::First.into_bitboard() | Rank::Second.into_bitboard()
                | Rank::Seventh.into_bitboard() | Rank::Eighth.into_bitboard(),
            castle_rights: [CastleRights::BothSides, CastleRights::BothSides],
            en_passant: None,
            half_move_clock: 0,
            total_plies: 0,
            side: Color::White,
        }
    }
}

/// The order in which two pieces are added or removed does not matter, and adding or removing
/// the same piece twice changes nothing.
pub proof fn lemma_toggles(
    board: ChessBoard,
    color: Color,
    piece: Piece,
    square: Square,
    other_color: Color,
    other_piece: Piece,
    other_square: Square,
)
    ensures
        board.toggled(color, piece, square).toggled(color, piece, square) == board,
        board.toggled(color, piece, square).toggled(other_color, other_piece, other_square)
            == board.toggled(other_color, other_piece, other_square).toggled(color, piece, square),
{
    lemma_xor_algebra();
    let twice = board.toggled(color, piece, square).toggled(color, piece, square);
    assert(twice.piece_occupancy =~= board.piece_occupancy);
    assert(twice.color_occupancy =~= board.color_occupancy);
    let one = board.toggled(color, piece, square).toggled(other_color, other_piece, other_square);
    let two = board.toggled(other_color, other_piece, other_square).toggled(color, piece, square);
    assert(one.piece_occupancy =~= two.piece_occupancy);
    assert(one.color_occupancy =~= two.color_occupancy);
}

/// Playing a move and taking it back gives the board before the move. This holds for every
/// board and every move that [ChessBoard::plays_reversibly] admits.
pub proof fn lemma_play_then_unplay(board: ChessBoard, chess_move: Move)
    requires
        board.plays_reversibly(chess_move),
    ensures
        board.played(chess_move).can_unplay(chess_move),
        board.played(chess_move).unplayed(chess_move, board.played_state(chess_move)) == board,
{
    let mover = board.side;
    let opponent = board.side.opponent();
    let piece = board.piece_on(chess_move.start).unwrap();
    let set = match chess_move.promotion {
        Some(promoted) => promoted,
        None => piece,
    };
    let (from, to) = (chess_move.start, chess_move.destination);
    let after = board.played(chess_move);
    let back = after.unplayed(chess_move, board.played_state(chess_move));
    match board.capturable_on(opponent, to) {
        Some(victim) => {
            let taken = board.toggled(opponent, victim, to);
            lemma_toggles(taken.toggled(mover, piece, from), mover, set, to, opponent, victim, to);
            lemma_toggles(taken, mover, piece, from, opponent, victim, to);
            lemma_toggles(board, opponent, victim, to, mover, piece, from);
            lemma_toggles(board.toggled(mover, piece, from), opponent, victim, to, mover, set, to);
            lemma_toggles(board.toggled(mover, piece, from), mover, set, to, mover, set, to);
            lemma_toggles(board, mover, piece, from, mover, piece, from);
            let middle = taken.toggled(mover, piece, from).toggled(mover, set, to).toggled(
                opponent,
                victim,
                to,
            );
            assert(middle.piece_occupancy == board.toggled(mover, piece, from).toggled(
                mover,
                set,
                to,
            ).piece_occupancy);
            assert(back.piece_occupancy == board.piece_occupancy);
            assert(back.color_occupancy == board.color_occupancy);
            assert(back.combined_occupancy == board.combined_occupancy);
        },
        None => {
            lemma_toggles(board.toggled(mover, piece, from), mover, set, to, mover, set, to);
            lemma_toggles(board, mover, piece, from, mover, piece, from);
            assert(back.piece_occupancy == board.piece_occupancy);
            assert(back.color_occupancy == board.color_occupancy);
            assert(back.combined_occupancy == board.combined_occupancy);
        },
    }
}

/// What adding or removing a piece does to the squares of a board: a free square then holds the
/// piece alone, a square that held the piece alone is then free, and nothing changes on any
/// other square.
pub proof fn lemma_toggled_squares(board: ChessBoard, color: Color, piece: Piece, square: Square)
    ensures
        board.square_free(square) ==> board.toggled(color, piece, square).sole_occupant(
            color,
            piece,
            square,
        ),
        board.sole_occupant(color, piece, square) ==> board.toggled(
            color,
            piece,
            square,
        ).square_free(square),
        forall|other: Square|
            other != square ==> (#[trigger] board.toggled(color, piece, square).square_free(other)
                <==> board.square_free(other)),
        forall|other: Square, other_color: Color, other_piece: Piece|
            other != square ==> (#[trigger] board.toggled(color, piece, square).sole_occupant(
                other_color,
                other_piece,
                other,
            ) <==> board.sole_occupant(other_color, other_piece, other)),
{
    let after = board.toggled(color, piece, square);
    let at = square.spec_index() as int;
    assert forall|kind: int, index: int| 0 <= kind < 6 implies (#[trigger] has_bit(
        after.piece_occupancy[kind].0,
        index,
    ) <==> (has_bit(board.piece_occupancy[kind].0, index) != (index == at && kind
        == piece.spec_index()))) by {
        lemma_has_bit_algebra(board.piece_occupancy[kind].0, 0, at, index);
    }
    assert forall|side: int, index: int| 0 <= side < 2 implies (#[trigger] has_bit(
        after.color_occupancy[side].0,
        index,
    ) <==> (has_bit(board.color_occupancy[side].0, index) != (index == at && side
        == color.spec_index()))) by {
        lemma_has_bit_algebra(board.color_occupancy[side].0, 0, at, index);
    }
    assert forall|other: Square| other != square implies (#[trigger] after.square_free(other)
        <==> board.square_free(other)) by {
        assert(other.spec_index() != square.spec_index());
        if board.square_free(other) {
            assert(after.square_free(other));
        }
        if after.square_free(other) {
            assert forall|kind: int| 0 <= kind < 6 implies !has_bit(
                (#[trigger] board.piece_occupancy[kind]).0,
                other.spec_index() as int,
            ) by {
                assert(!has_bit(after.piece_occupancy[kind].0, other.spec_index() as int));
            }
            assert(board.square_free(other));
        }
    }
    assert forall|other: Square, other_color: Color, other_piece: Piece|
        other != square implies (#[trigger] after.sole_occupant(other_color, other_piece, other)
        <==> board.sole_occupant(other_color, other_piece, other)) by {
        assert(other.spec_index() != square.spec_index());
        if board.sole_occupant(other_color, other_piece, other) {
            assert(after.sole_occupant(other_color, other_piece, other));
        }
        if after.sole_occupant(other_color, other_piece, other) {
            assert forall|kind: int| 0 <= kind < 6 implies (has_bit(
                (#[trigger] board.piece_occupancy[kind]).0,
                other.spec_index() as int,
            ) <==> kind == other_piece.spec_index()) by {
                assert(has_bit(after.piece_occupancy[kind].0, other.spec_index() as int) <==> kind
                    == other_piece.spec_index());
            }
            assert(board.sole_occupant(other_color, other_piece, other));
        }
    }
}

/// The piece found on a square, where the square is free or holds one piece alone.
pub proof fn lemma_piece_on_square(board: ChessBoard, color: Color, piece: Piece, square: Square)
    ensures
        board.square_free(square) ==> board.piece_on(square).is_none() && board.capturable_on(
            color,
            square,
        ).is_none(),
        board.sole_occupant(color, piece, square) ==> board.piece_on(square) == Some(piece)
            && board.capturable_on(color.opponent(), square).is_none() && board.capturable_on(
            color,
            square,
        ) == if piece == Piece::King {
            None
        } else {
            Some(piece)
        },
{
    let at = square.spec_index() as int;
    assert forall|kind: int| 0 <= kind < 6 implies (has_bit(
        (#[trigger] board.piece_occupancy[kind]).0,
        at,
    ) <==> board.piece_occupancy[kind].0 & square.bit() != 0) && (has_bit(
        board.piece_occupancy[kind].0 & board.colors(color),
        at,
    ) <==> (board.piece_occupancy[kind].0 & board.colors(color)) & square.bit() != 0) && (has_bit(
        board.piece_occupancy[kind].0 & board.colors(color.opponent()),
        at,
    ) <==> (board.piece_occupancy[kind].0 & board.colors(color.opponent())) & square.bit() != 0)
        && (has_bit(board.piece_occupancy[kind].0 & board.colors(color), at) <==> has_bit(
        board.piece_occupancy[kind].0,
        at,
    ) && has_bit(board.colors(color), at)) && (has_bit(
        board.piece_occupancy[kind].0 & board.colors(color.opponent()),
        at,
    ) <==> has_bit(board.piece_occupancy[kind].0, at) && has_bit(
        board.colors(color.opponent()),
        at,
    )) by {
        let bits = board.piece_occupancy[kind].0;
        lemma_has_bit_algebra(bits, board.colors(color), at, at);
        lemma_has_bit_algebra(bits, board.colors(color.opponent()), at, at);
        lemma_has_bit_algebra(bits & board.colors(color), 0, at, at);
        lemma_has_bit_algebra(bits & board.colors(color.opponent()), 0, at, at);
    }
    assert(board.piece_occupancy[0].0 == board.pieces(Piece::King));
    assert(board.piece_occupancy[1].0 == board.pieces(Piece::Queen));
    assert(board.piece_occupancy[2].0 == board.pieces(Piece::Rook));
    assert(board.piece_occupancy[3].0 == board.pieces(Piece::Bishop));
    assert(board.piece_occupancy[4].0 == board.pieces(Piece::Knight));
    assert(board.piece_occupancy[5].0 == board.pieces(Piece::Pawn));
}

/// A move that [ChessBoard::plays_cleanly] admits can be taken back: it leads to a board on
/// which the piece it set on the destination stands there alone.
pub proof fn lemma_clean_move_is_reversible(board: ChessBoard, chess_move: Move)
    requires
        board.plays_cleanly(chess_move),
    ensures
        board.plays_reversibly(chess_move),
        board.played(chess_move).sole_occupant(
            board.side,
            match chess_move.promotion {
                Some(promoted) => promoted,
                None => board.piece_on(chess_move.start).unwrap(),
            },
            chess_move.destination,
        ),
{
    let mover = board.side;
    let opponent = board.side.opponent();
    let piece = board.piece_on(chess_move.start).unwrap();
    let set = match chess_move.promotion {
        Some(promoted) => promoted,
        None => piece,
    };
    let (from, to) = (chess_move.start, chess_move.destination);
    let taken = match board.capturable_on(opponent, to) {
        Some(victim) => board.toggled(opponent, victim, to),
        None => board,
    };
    if board.square_free(to) {
        lemma_piece_on_square(board, opponent, piece, to);
    } else {
        let victim = choose|victim: Piece|
            victim != Piece::King && #[trigger] board.sole_occupant(opponent, victim, to);
        lemma_piece_on_square(board, opponent, victim, to);
        lemma_toggled_squares(board, opponent, victim, to);
    }
    assert(taken.square_free(to));
    assert(taken.sole_occupant(mover, piece, from));
    lemma_toggled_squares(taken, mover, piece, from);
    let lifted = taken.toggled(mover, piece, from);
    assert(lifted.square_free(to));
    lemma_toggled_squares(lifted, mover, set, to);
    let placed = lifted.toggled(mover, set, to);
    let after = board.played(chess_move);
    assert(after.piece_occupancy == placed.piece_occupancy);
    assert(after.color_occupancy == placed.color_occupancy);
    assert(after.sole_occupant(mover, set, to));
    lemma_piece_on_square(after, mover, set, to);
}

} // verus!
