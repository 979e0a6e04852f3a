use vstd::prelude::*;
use crate::chess_index::ChessIndex;
use crate::color::Color;
use crate::file::File;
use crate::piece::{view_of, view_of_ref, Piece, PieceView};
use crate::rank::Rank;
use crate::square::Square;

verus! {

/// What a board is: which squares hold a piece, and which piece.
pub type BoardView = Map<ChessIndex, PieceView>;

/// The piece on `idx`, if the square is occupied.
pub open spec fn piece_on(board: BoardView, idx: ChessIndex) -> Option<PieceView> {
    if board.contains_key(idx) {
        Some(board[idx])
    } else {
        None
    }
}

/// Whether every piece on the board has its own square as the latest entry in
/// its history.
pub open spec fn well_placed(board: BoardView) -> bool {
    forall|idx: ChessIndex|
        board.contains_key(idx) ==> (#[trigger] board[idx]).history.len() > 0
            && board[idx].history.last() == idx
}

/// The shade of a square: `a1` is dark, and the shades alternate along every
/// file and rank.
pub open spec fn shade(idx: ChessIndex) -> Color {
    if (idx.0.number() + idx.1.number()) % 2 == 0 {
        Color::Black
    } else {
        Color::White
    }
}

/// What is printed for a square: the figurine of its piece, or a blank.
pub open spec fn cell_text(board: BoardView, idx: ChessIndex) -> Seq<char> {
    match piece_on(board, idx) {
        Some(p) => p.glyph(),
        None => " "@,
    }
}

/// The first `n` squares of a rank in print, from file `a`, with one blank
/// between neighbours.
pub open spec fn row_text(board: BoardView, rank: Rank, n: int) -> Seq<char>
    decreases n,
{
    if n <= 0 || n > 8 {
        Seq::empty()
    } else if n == 1 {
        cell_text(board, ChessIndex(File::A, rank))
    } else {
        row_text(board, rank, n - 1) + " "@ + cell_text(
            board,
            ChessIndex(File::of_number(n).unwrap(), rank),
        )
    }
}

/// The topmost `n` ranks in print, the eighth first, one line for each.
pub open spec fn rows_text(board: BoardView, n: int) -> Seq<char>
    decreases n,
{
    if n <= 0 || n > 8 {
        Seq::empty()
    } else if n == 1 {
        row_text(board, Rank::Eighth, 8)
    } else {
        rows_text(board, n - 1) + "\n"@ + row_text(board, Rank::of_number(9 - n).unwrap(), 8)
    }
}

/// The 64 squares of a chess board.
#[derive(Debug)]
pub struct ChessBoard {
    squares: [Square; 64],
}

impl View for ChessBoard {
    type V = BoardView;

    closed spec fn view(&self) -> BoardView {
        Map::new(
            |idx: ChessIndex| self.squares[idx.linear()]@.piece.is_some(),
            |idx: ChessIndex| self.squares[idx.linear()]@.piece.unwrap(),
        )
    }
}

impl Clone for ChessBoard {
    fn clone(&self) -> (r: Self)
        ensures
            r@ == self@,
    {
        proof {
            use_type_invariant(self);
        }
        let squares = self.squares.clone();
        assert forall|i: int| 0 <= i < 64 implies (#[trigger] squares[i])@ == self.squares[i]@ by {
            assert(cloned::<Square>(self.squares@[i], squares@[i]));
        }
        let r = ChessBoard { squares };
        assert(r@ =~= self@) by {
            assert forall|idx: ChessIndex| piece_on(r@, idx) == piece_on(self@, idx) by {
                idx.lemma_linear();
            }
        }
        r
    }
}

impl ChessBoard {
    /// Every square keeps the shade that its place on the board gives it,
    /// and every piece has last been put where it stands.
    #[verifier::type_invariant]
    closed spec fn orderly(self) -> bool {
        forall|i: int|
            0 <= i < 64 ==> {
                &&& (#[trigger] self.squares[i])@.color == shade(ChessIndex::of_linear(i))
                &&& match self.squares[i]@.piece {
                    Some(p) => p.history.len() > 0 && p.history.last() == ChessIndex::of_linear(i),
                    None => true,
                }
            }
    }

    /// The board in print: eight lines, the eighth rank first, each with the
    /// figurines of its squares from file `a`, blanks for empty squares.
    pub open spec fn text(self) -> Seq<char> {
        rows_text(self@, 8)
    }

    /// The square at `idx`: it has the shade of its place and holds the piece
    /// that the board has there.
    pub fn square(&self, idx: ChessIndex) -> (s: &Square)
        ensures
            s@.color == shade(idx),
            s@.piece == piece_on(self@, idx),
            well_placed(self@),
    {
        proof {
            use_type_invariant(self);
            idx.lemma_linear();
            assert forall|at: ChessIndex| self@.contains_key(at) implies (#[trigger] self@[at]).history.len()
                > 0 && self@[at].history.last() == at by {
                at.lemma_linear();
            }
        }
        &self.squares[idx.linear_value()]
    }

    /// The piece on `idx`, if any.
    pub fn piece_at(&self, idx: ChessIndex) -> (r: Option<&Piece>)
        ensures
            view_of_ref(r) == piece_on(self@, idx),
            well_placed(self@),
    {
        proof {
            use_type_invariant(self);
            assert forall|at: ChessIndex| self@.contains_key(at) implies (#[trigger] self@[at]).history.len()
                > 0 && self@[at].history.last() == at by {
                at.lemma_linear();
            }
        }
        self.squares[idx.linear_value()].piece()
    }

    /// Puts `piece` on `idx`, where its history gains `idx`, and hands out
    /// the piece that stood there before.
    pub fn set_piece(&mut self, idx: ChessIndex, piece: Piece) -> (r: Option<Piece>)
        ensures
            view_of(r) == piece_on(old(self)@, idx),
            final(self)@ == old(self)@.insert(idx, piece@.placed_on(idx)),
    {
        proof {
            use_type_invariant(&*self);
        }
        let mut piece = piece;
        piece.add_index_to_history(idx);
        let i = idx.linear_value();
        proof {
            idx.lemma_linear();
        }
        let taken = self.squares[i].set_piece(piece);
        proof {
            assert(self@ =~= old(self)@.insert(idx, piece@)) by {
                assert forall|other: ChessIndex| other != idx implies other.linear() != i by {
                    if other.linear() == i {
                        ChessIndex::lemma_linear_injective(other, idx);
                    }
                }
            }
        }
        taken
    }

    /// Lifts the piece off `idx` and hands it out.
    pub fn take_piece(&mut self, idx: ChessIndex) -> (r: Option<Piece>)
        ensures
            view_of(r) == piece_on(old(self)@, idx),
            final(self)@ == old(self)@.remove(idx),
    {
        proof {
            use_type_invariant(&*self);
        }
        let i = idx.linear_value();
        let taken = self.squares[i].take_piece();
        proof {
            assert(self@ =~= old(self)@.remove(idx)) by {
                assert forall|other: ChessIndex| other != idx implies other.linear() != i by {
                    if other.linear() == i {
                        ChessIndex::lemma_linear_injective(other, idx);
                    }
                }
            }
        }
        taken
    }

    /// The board in print.
    pub fn to_string(&self) -> (s: String)
        ensures
            s@ == self.text(),
    {
        let mut out = String::new();
        let mut row: u8 = 0;
        while row < 8
            invariant
                row <= 8,
                out@ == rows_text(self@, row as int),
            decreases 8 - row,
        {
            let rank = match Rank::from_u8(8 - row) {
                Some(r) => r,
                None => Rank::Eighth,
            };
            let mut line = String::new();
            let mut col: u8 = 0;
            while col < 8
                invariant
                    col <= 8,
                    line@ == row_text(self@, rank, col as int),
                decreases 8 - col,
            {
                let file = match File::from_u8(col + 1) {
                    Some(f) => f,
                    None => File::A,
                };
                let cell = match self.piece_at(ChessIndex(file, rank)) {
                    Some(p) => p.to_string(),
                    None => " ".to_owned(),
                };
                if col > 0 {
                    line.append(" ");
                }
                line.append(cell.as_str());
                assert(line@ =~= row_text(self@, rank, col + 1));
                col = col + 1;
            }
            if row > 0 {
                out.append("\n");
            }
            out.append(line.as_str());
            assert(out@ =~= rows_text(self@, row + 1));
            row = row + 1;
        }
        out
    }
}

impl Default for ChessBoard {
    /// The empty board.
    fn default() -> (board: Self)
        ensures
            board@ == Map::<ChessIndex, PieceView>::empty(),
    {
        let squares = [
            // rank 1
            Square::empty(Color::Black),  // a1
            Square::empty(Color::White),  // b1
            Square::empty(Color::Black),  // c1
            Square::empty(Color::White),  // d1
            Square::empty(Color::Black),  // e1
            Square::empty(Color::White),  // f1
            Square::empty(Color::Black),  // g1
            Square::empty(Color::White),  // h1
            // rank 2
            Square::empty(Color::White),  // a2
            Square::empty(Color::Black),  // b2
            Square::empty(Color::White),  // c2
            Square::empty(Color::Black),  // d2
            Square::empty(Color::White),  // e2
            Square::empty(Color::Black),  // f2
            Square::empty(Color::White),  // g2
            Square::empty(Color::Black),  // h2
            // rank 3
            Square::empty(Color::Black),  // a3
            Square::empty(Color::White),  // b3
            Square::empty(Color::Black),  // c3
            Square::empty(Color::White),  // d3
            Square::empty(Color::Black),  // e3
            Square::empty(Color::White),  // f3
            Square::empty(Color::Black),  // g3
            Square::empty(Color::White),  // h3
            // rank 4
            Square::empty(Color::White),  // a4
            Square::empty(Color::Black),  // b4
            Square::empty(Color::White),  // c4
            Square::empty(Color::Black),  // d4
            Square::empty(Color::White),  // e4
            Square::empty(Color::Black),  // f4
            Square::empty(Color::White),  // g4
            Square::empty(Color::Black),  // h4
            // rank 5
            Square::empty(Color::Black),  // a5
            Square::empty(Color::White),  // b5
            Square::empty(Color::Black),  // c5
            Square::empty(Color::White),  // d5
            Square::empty(Color::Black),  // e5
            Square::empty(Color::White),  // f5
            Square::empty(Color::Black),  // g5
            Square::empty(Color::White),  // h5
            // rank 6
            Square::empty(Color::White),  // a6
            Square::empty(Color::Black),  // b6
            Square::empty(Color::White),  // c6
            Square::empty(Color::Black),  // d6
            Square::empty(Color::White),  // e6
            Square::empty(Color::Black),  // f6
            Square::empty(Color::White),  // g6
            Square::empty(Color::Black),  // h6
            // rank 7
            Square::empty(Color::Black),  // a7
            Square::empty(Color::White),  // b7
            Square::empty(Color::Black),  // c7
            Square::empty(Color::White),  // d7
            Square::empty(Color::Black),  // e7
            Square::empty(Color::White),  // f7
            Square::empty(Color::Black),  // g7
            Square::empty(Color::White),  // h7
            // rank 8
            Square::empty(Color::White),  // a8
            Square::empty(Color::Black),  // b8
            Square::empty(Color::White),  // c8
            Square::empty(Color::Black),  // d8
            Square::empty(Color::White),  // e8
            Square::empty(Color::Black),  // f8
            Square::empty(Color::White),  // g8
            Square::empty(Color::Black),  // h8
        ];
        let board = Self { squares };
        assert(board@ =~= Map::<ChessIndex, PieceView>::empty());
        board
    }
}

} // verus!
