//! Rules of chess: squares, pieces, the board, move generation, attack
//! detection, castling, en passant, promotion, and a game state with undo.

pub mod attack;
pub mod castle;
pub mod chess_board;
pub mod chess_index;
pub mod chess_move;
pub mod color;
pub mod file;
pub mod fmt;
pub mod game;
pub mod laws;
pub mod legal;
pub mod modes;
pub mod moves;
pub mod piece;
pub mod rank;
pub mod square;
mod text;

pub use castle::CanCastleError;
pub use chess_board::{BoardView, ChessBoard};
pub use chess_index::{ChessIndex, ParseChessIndexError};
pub use chess_move::{CastleMove, ChessMove, EnPassantMove, PromotionMove, RegularMove};
pub use color::Color;
pub use file::{File, FileIter};
pub use game::{Game, GameView, MissingKingError, MovePieceError};
pub use legal::IllegalMoveError;
pub use modes::{ComputerPlayer, LocalPlayer, PlayLocalMode, PlayLocalOpts};
pub use piece::{piece_value, Piece, PieceType, PieceView};
pub use rank::{Rank, RankIter};
pub use square::{Square, SquareView};
