pub mod bitboard;
pub mod castle_rights;
pub mod chess_board;
pub mod chess_move;
pub mod color;
pub mod direction;
pub mod file;
pub mod piece;
pub mod rank;
pub mod square;
pub mod zobrist;

pub use bitboard::error::IntoSquareError;
pub use bitboard::iterator::BitboardIterator;
pub use bitboard::superset::BitboardPowerSetIterator;
pub use bitboard::{
    Bitboard, ANTI_DIAGONAL_MASK, DIAGONAL_MASK, FILE_A, FILE_H, FILE_MASKS, RANK_1, RANK_2,
    RANK_7, RANK_8, RANK_MASKS,
};
pub use castle_rights::CastleRights;
pub use chess_board::builder::ChessBoardBuilder;
pub use chess_board::error::ValidationError;
pub use chess_board::{ChessBoard, NonReversibleState};
pub use chess_move::Move;
pub use color::Color;
pub use direction::Direction;
pub use file::File;
pub use piece::Piece;
pub use rank::Rank;
pub use square::Square;
