use vstd::prelude::*;
use crate::chess_index::ChessIndex;
use crate::chess_move::ChessMove;
use crate::color::Color;
use crate::game::{executed, king_in_check, Game, GameView, MissingKingError, MovePieceError};
use crate::laws::lemma_legal_moves_keep_king_safe;
use crate::moves::{double_stepped, pseudo_legal};
use crate::piece::PieceType;

verus! {

/// Whether `m` can be executed and leaves the king of the mover's side
/// unattacked. A move from an empty square, a move that is refused, and a
/// move after which the mover's king does not stand where the game takes it
/// to stand all count as unsafe.
pub open spec fn keeps_king_safe(s: GameView, m: ChessMove) -> bool {
    s.board.contains_key(m.origin()) && match executed(s, m) {
        Ok(after) => king_in_check(after, s.board[m.origin()].color) == Ok::<
            bool,
            MissingKingError,
        >(false),
        Err(_) => false,
    }
}

/// Whether the piece on `idx` is a pawn that came there by the latest
/// executed move, and by an advance of two squares: before that move `idx`
/// was empty and a pawn of its side stood two ranks behind it.
pub open spec fn just_advanced(s: GameView, idx: ChessIndex) -> bool {
    &&& s.history.len() > 0
    &&& s.board.contains_key(idx)
    &&& double_stepped(s.board, idx, s.board[idx].color)
    &&& !s.history.last().contains_key(idx)
    &&& s.history.last().contains_key(s.board[idx].previous().unwrap())
    &&& s.history.last()[s.board[idx].previous().unwrap()].is(
        PieceType::Pawn,
        s.board[idx].color,
    )
}

/// Whether `m`, if it is a capture en passant, answers at once the advance
/// of the pawn it takes. Moves of the other forms are always in time.
pub open spec fn in_time(s: GameView, m: ChessMove) -> bool {
    match m {
        ChessMove::EnPassant(e) => just_advanced(s, e.2),
        _ => true,
    }
}

/// Whether `m` is legal in `s`, for a move that the piece can make by the way
/// it moves: it leaves the mover's king unattacked and, en passant, comes in
/// time.
pub open spec fn legal(s: GameView, m: ChessMove) -> bool {
    keeps_king_safe(s, m) && in_time(s, m)
}

/// `legal` as a test on moves.
pub open spec fn legal_in(s: GameView) -> spec_fn(ChessMove) -> bool {
    |m: ChessMove| legal(s, m)
}

/// The legal moves of the piece on `from`: those of its moves that are legal,
/// in the order in which the piece's moves are listed.
pub open spec fn legal_moves(s: GameView, from: ChessIndex) -> Seq<ChessMove> {
    pseudo_legal(s.board, from).filter(legal_in(s))
}

/// The move it carries is not among the legal moves of the piece on the
/// square that it leaves.
#[derive(Debug, Copy, Clone, PartialEq, Eq, Structural)]
pub struct IllegalMoveError(pub ChessMove);

impl Game {
    /// Makes `chess_move` if it is legal: the move is executed and the board
    /// before it joins the history. A move that is not legal is refused and
    /// changes nothing.
    pub fn make_move(&mut self, chess_move: ChessMove) -> (r: Result<(), IllegalMoveError>)
        ensures
            legal_moves(old(self)@, chess_move.origin()).contains(chess_move) ==> r.is_ok()
                && executed(old(self)@, chess_move) == Ok::<GameView, MovePieceError>(
                final(self)@,
            ),
            !legal_moves(old(self)@, chess_move.origin()).contains(chess_move) ==> r == Err::<
                (),
                IllegalMoveError,
            >(IllegalMoveError(chess_move)) && final(self)@ == old(self)@,
    {
        if !self.is_move_valid(chess_move) {
            return Err(IllegalMoveError(chess_move));
        }
        proof {
            let moves = legal_moves(self@, chess_move.origin());
            let i = choose|i: int| 0 <= i < moves.len() && moves[i] == chess_move;
            lemma_legal_moves_keep_king_safe(self@, chess_move.origin(), i);
        }
        match self.execute_move(chess_move) {
            Ok(()) => Ok(()),
            Err(_) => Err(IllegalMoveError(chess_move)),
        }
    }

    /// Whether the piece on `idx` is a pawn that came there by the latest
    /// executed move, and by an advance of two squares.
    pub fn pawn_just_advanced(&self, idx: ChessIndex) -> (b: bool)
        ensures
            b == just_advanced(self@, idx),
    {
        let prev = match self.last_board() {
            Some(board) => board,
            None => {
                return false;
            },
        };
        let pawn = match self.board().piece_at(idx) {
            Some(p) => p,
            None => {
                return false;
            },
        };
        if !pawn.is_pawn() {
            return false;
        }
        let color = pawn.color();
        let back: i32 = match color {
            Color::White => -2,
            Color::Black => 2,
        };
        let origin = match pawn.previous_index() {
            Some(o) => o,
            None => {
                return false;
            },
        };
        if idx.offset(0, back) != Some(origin) {
            return false;
        }
        if prev.piece_at(idx).is_some() {
            return false;
        }
        match prev.piece_at(origin) {
            Some(q) => q.is_pawn() && q.color() == color,
            None => false,
        }
    }

    /// Whether `chess_move` is legal, for a move that the piece can make by
    /// the way it moves. The move is tried on a copy of the game, which is
    /// then dropped; the game itself is not changed.
    pub fn is_legal(&self, chess_move: ChessMove) -> (b: bool)
        ensures
            b == legal(self@, chess_move),
    {
        let piece_color = match self.board().piece_at(chess_move.from_idx()) {
            Some(p) => p.color(),
            None => {
                return false;
            },
        };
        if let ChessMove::EnPassant(en_passant_move) = chess_move {
            if !self.pawn_just_advanced(en_passant_move.taken_pawn_idx()) {
                return false;
            }
        }
        let mut clone = self.clone();
        match clone.execute_move(chess_move) {
            Ok(()) => match clone.is_king_checked(piece_color) {
                Ok(checked) => !checked,
                Err(_) => false,
            },
            Err(_) => false,
        }
    }

    /// The legal moves of the piece on `from_index`. An empty square has
    /// none.
    pub fn valid_moves_from(&self, from_index: ChessIndex) -> (moves: Vec<ChessMove>)
        ensures
            moves@ == legal_moves(self@, from_index),
    {
        let valid_moves = self.pseudo_legal_moves(from_index);
        let mut actual_valid_moves: Vec<ChessMove> = Vec::new();
        let mut i: usize = 0;
        proof {
            reveal(Seq::filter);
            assert(valid_moves@.take(0) =~= Seq::<ChessMove>::empty());
        }
        while i < valid_moves.len()
            invariant
                i <= valid_moves@.len(),
                actual_valid_moves@ == valid_moves@.take(i as int).filter(legal_in(self@)),
            decreases valid_moves.len() - i,
        {
            let valid_move = valid_moves[i];
            proof {
                reveal(Seq::filter);
                assert(valid_moves@.take(i + 1).drop_last() =~= valid_moves@.take(i as int));
            }
            if self.is_legal(valid_move) {
                actual_valid_moves.push(valid_move);
            } else {
                // can't actually make this move
            }
            i = i + 1;
        }
        assert(valid_moves@.take(i as int) =~= valid_moves@);
        actual_valid_moves
    }

    /// Whether `chess_move` is among the legal moves of the piece on the
    /// square that it leaves.
    pub fn is_move_valid(&self, chess_move: ChessMove) -> (b: bool)
        ensures
            b == legal_moves(self@, chess_move.origin()).contains(chess_move),
    {
        let valid_moves_from = self.valid_moves_from(chess_move.from_idx());
        let mut i: usize = 0;
        while i < valid_moves_from.len()
            invariant
                i <= valid_moves_from@.len(),
                valid_moves_from@ == legal_moves(self@, chess_move.origin()),
                forall|j: int| 0 <= j < i ==> valid_moves_from@[j] != chess_move,
            decreases valid_moves_from.len() - i,
        {
            if valid_moves_from[i] == chess_move {
                assert(valid_moves_from@[i as int] == chess_move);
                return true;
            }
            i = i + 1;
        }
        false
    }
}

} // verus!
