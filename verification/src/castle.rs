use vstd::prelude::*;
use crate::attack::attacked;
use crate::chess_board::BoardView;
use crate::chess_index::ChessIndex;
use crate::chess_move::CastleMove;
use crate::file::File;
use crate::game::Game;
use crate::piece::PieceType;

verus! {

/// Why a king and a rook cannot castle.
#[derive(Debug, Copy, Clone, PartialEq, Eq, Structural)]
pub enum CanCastleError {
    /// The two squares do not hold a king and a rook of one side, or they do
    /// not lie on one rank three or four files apart.
    WrongPieces,
    /// The king would stand on or cross the square it carries, which is
    /// attacked.
    SquareInCheck(ChessIndex),
    /// A piece stands between the king and the rook.
    PiecesBetween,
    /// The piece on the square it carries has moved before.
    PieceHasMadeMove(ChessIndex),
}

impl CanCastleError {
    /// The message for the error.
    pub open spec fn message(self) -> Seq<char> {
        match self {
            CanCastleError::SquareInCheck(idx) => "can't castle because "@ + idx.text()
                + " is in check"@,
            CanCastleError::WrongPieces =>
                "can't castle because at least one of the given squares was wrong"@,
            CanCastleError::PiecesBetween =>
                "can't castle because there are pieces between the king and rook"@,
            CanCastleError::PieceHasMadeMove(idx) => "can't castle because the piece at "@
                + idx.text() + " has already moved"@,
        }
    }

    /// The message for the error.
    pub fn to_string(&self) -> (s: String)
        ensures
            s@ == self.message(),
    {
        match self {
            CanCastleError::SquareInCheck(idx) => {
                let mut s = "can't castle because ".to_owned();
                s.append(idx.to_string().as_str());
                s.append(" is in check");
                s
            },
            CanCastleError::WrongPieces => {
                "can't castle because at least one of the given squares was wrong".to_owned()
            },
            CanCastleError::PiecesBetween => {
                "can't castle because there are pieces between the king and rook".to_owned()
            },
            CanCastleError::PieceHasMadeMove(idx) => {
                let mut s = "can't castle because the piece at ".to_owned();
                s.append(idx.to_string().as_str());
                s.append(" has already moved");
                s
            },
        }
    }
}

/// Whether `king` holds a king and `rook` a rook of the same side.
pub open spec fn castling_pair(board: BoardView, king: ChessIndex, rook: ChessIndex) -> bool {
    &&& board.contains_key(king)
    &&& board.contains_key(rook)
    &&& board[king].piece_type == PieceType::King
    &&& board[rook].piece_type == PieceType::Rook
    &&& board[king].color == board[rook].color
}

/// Whether the two squares lie on one rank with two or three squares between
/// them, as a king and a rook that can castle do.
pub open spec fn castling_line(king: ChessIndex, rook: ChessIndex) -> bool {
    let d = rook.0.number() - king.0.number();
    king.1 == rook.1 && (d == 3 || d == 4 || d == -3 || d == -4)
}

/// The direction from the king to the rook along the rank: 1 when the rook
/// stands on a higher file, else -1.
pub open spec fn toward(king: ChessIndex, rook: ChessIndex) -> int {
    if king.0.number() < rook.0.number() {
        1
    } else {
        -1
    }
}

/// Whether every square strictly between the two squares, which share a
/// rank, is empty.
pub open spec fn between_empty(board: BoardView, king: ChessIndex, rook: ChessIndex) -> bool {
    forall|f: File|
        (king.0.number() < f.number() < rook.0.number() || rook.0.number() < f.number()
            < king.0.number()) ==> !#[trigger] board.contains_key(ChessIndex(f, king.1))
}

/// The first attacked square among the three that the king of `board[king]`'s
/// side stands on while it castles toward `rook`: where it starts, the
/// square it crosses, and where it arrives.
pub open spec fn attacked_on_path(board: BoardView, king: ChessIndex, rook: ChessIndex) -> Option<
    ChessIndex,
>
    recommends
        board.contains_key(king),
        castling_line(king, rook),
{
    let color = board[king].color;
    let via = king.shift(toward(king, rook), 0).unwrap();
    let to = king.shift(2 * toward(king, rook), 0).unwrap();
    if attacked(board, king, color) {
        Some(king)
    } else if attacked(board, via, color) {
        Some(via)
    } else if attacked(board, to, color) {
        Some(to)
    } else {
        None
    }
}

/// The castling of the king on `king` with the rook on `rook`, or why there
/// is none. The conditions are looked at in this order: the squares hold a
/// king and a rook of one side; the king has not moved; the rook has not
/// moved; the squares lie on one rank three or four files apart; the squares
/// between them are empty; the king's three squares are not attacked. The
/// king goes two files toward the rook, and the rook to the square that the
/// king crosses.
pub open spec fn castling(board: BoardView, king: ChessIndex, rook: ChessIndex) -> Result<
    CastleMove,
    CanCastleError,
> {
    if !castling_pair(board, king, rook) {
        Err(CanCastleError::WrongPieces)
    } else if board[king].has_moved() {
        Err(CanCastleError::PieceHasMadeMove(king))
    } else if board[rook].has_moved() {
        Err(CanCastleError::PieceHasMadeMove(rook))
    } else if !castling_line(king, rook) {
        Err(CanCastleError::WrongPieces)
    } else if !between_empty(board, king, rook) {
        Err(CanCastleError::PiecesBetween)
    } else {
        match attacked_on_path(board, king, rook) {
            Some(idx) => Err(CanCastleError::SquareInCheck(idx)),
            None => Ok(
                CastleMove(
                    king,
                    king.shift(2 * toward(king, rook), 0).unwrap(),
                    rook,
                    king.shift(toward(king, rook), 0).unwrap(),
                ),
            ),
        }
    }
}

impl Game {
    /// Whether the squares strictly between two squares of one rank are all
    /// empty.
    fn squares_between_empty(&self, king_index: ChessIndex, rook_index: ChessIndex) -> (b: bool)
        requires
            king_index.1 == rook_index.1,
        ensures
            b == between_empty(self@.board, king_index, rook_index),
    {
        let board = self.board();
        let rank = king_index.rank();
        let king_file: u8 = king_index.file().to_u8();
        let rook_file: u8 = rook_index.file().to_u8();
        let (lo, hi) = if king_file < rook_file {
            (king_file, rook_file)
        } else {
            (rook_file, king_file)
        };
        let mut f: u8 = lo + 1;
        while f < hi
            invariant
                lo < f,
                f <= hi || lo == hi,
                hi <= 8,
                (lo == king_index.0.number() && hi == rook_index.0.number()) || (lo
                    == rook_index.0.number() && hi == king_index.0.number()),
                board@ == self@.board,
                rank == king_index.1,
                forall|g: File|
                    lo < g.number() < f ==> !#[trigger] self@.board.contains_key(
                        ChessIndex(g, rank),
                    ),
            decreases hi - f,
        {
            match File::from_u8(f) {
                Some(file) => {
                    if board.piece_at(ChessIndex(file, rank)).is_some() {
                        proof {
                            File::lemma_of_number(f as int);
                            assert(self@.board.contains_key(ChessIndex(file, king_index.1)));
                        }
                        return false;
                    }
                    assert forall|g: File| lo < g.number() < f + 1 implies !#[trigger] self@.board.contains_key(
                        ChessIndex(g, rank),
                    ) by {
                        g.lemma_number_round_trip();
                    }
                },
                None => {},
            }
            f = f + 1;
        }
        true
    }

    /// Whether the king on `king_index` can castle with the rook on
    /// `rook_index`, and with which move.
    pub fn can_castle(&self, king_index: ChessIndex, rook_index: ChessIndex) -> (r: Result<
        CastleMove,
        CanCastleError,
    >)
        ensures
            r == castling(self@.board, king_index, rook_index),
    {
        let board = self.board();
        let (king, rook) = match (board.piece_at(king_index), board.piece_at(rook_index)) {
            (Some(king), Some(rook)) => {
                if king.is_king() && rook.is_rook() && king.color() == rook.color() {
                    (king, rook)
                } else {
                    return Err(CanCastleError::WrongPieces);
                }
            },
            _ => {
                // either there is no piece at `king_index` or the piece is not a king
                return Err(CanCastleError::WrongPieces);
            },
        };
        let color = king.color();
        if king.has_made_move() {
            return Err(CanCastleError::PieceHasMadeMove(king_index));
        }
        if rook.has_made_move() {
            return Err(CanCastleError::PieceHasMadeMove(rook_index));
        }
        let king_file: u8 = king_index.file().to_u8();
        let rook_file: u8 = rook_index.file().to_u8();
        let apart: u8 = if king_file < rook_file {
            rook_file - king_file
        } else {
            king_file - rook_file
        };
        if king_index.rank() != rook_index.rank() || (apart != 3 && apart != 4) {
            return Err(CanCastleError::WrongPieces);
        }
        if !self.squares_between_empty(king_index, rook_index) {
            // square between the king and rook is not empty
            return Err(CanCastleError::PiecesBetween);
        }
        let step: i32 = if king_file < rook_file {
            1
        } else {
            -1
        };
        let (via, king_to) = match (king_index.offset(step, 0), king_index.offset(2 * step, 0)) {
            (Some(via), Some(king_to)) => (via, king_to),
            _ => {
                return Err(CanCastleError::WrongPieces);
            },
        };
        // check that the squares the king stands on are not in check
        if self.is_checked(king_index, color) {
            return Err(CanCastleError::SquareInCheck(king_index));
        }
        if self.is_checked(via, color) {
            return Err(CanCastleError::SquareInCheck(via));
        }
        if self.is_checked(king_to, color) {
            return Err(CanCastleError::SquareInCheck(king_to));
        }
        Ok(CastleMove::new(king_index, king_to, rook_index, via))
    }
}

} // verus!
