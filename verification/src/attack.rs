use vstd::prelude::*;
use crate::chess_board::BoardView;
use crate::chess_index::ChessIndex;
use crate::color::Color;
use crate::game::Game;
use crate::piece::PieceType;

verus! {

/// The first of two answers that names a square.
pub open spec fn first_of(a: Option<ChessIndex>, b: Option<ChessIndex>) -> Option<ChessIndex> {
    if a.is_some() {
        a
    } else {
        b
    }
}

/// The nearest occupied square when one walks from `at` in steps of
/// (`df`, `dr`), looking at most `reach` squares ahead; `at` itself is not
/// looked at. A walk in one of the eight directions leaves the board within
/// seven steps.
pub open spec fn first_piece(board: BoardView, at: ChessIndex, df: int, dr: int, reach: nat) -> Option<
    ChessIndex,
>
    decreases reach,
{
    if reach == 0 {
        None
    } else {
        match at.shift(df, dr) {
            None => None,
            Some(next) => if board.contains_key(next) {
                Some(next)
            } else {
                first_piece(board, next, df, dr, (reach - 1) as nat)
            },
        }
    }
}

/// Where a piece of kind `kind` and side `by` stands that looks at `sq` along
/// the line of direction (`df`, `dr`) from `sq`: it must be the nearest piece
/// on that line.
pub open spec fn line_attacker(
    board: BoardView,
    sq: ChessIndex,
    df: int,
    dr: int,
    kind: PieceType,
    by: Color,
) -> Option<ChessIndex> {
    match first_piece(board, sq, df, dr, 7) {
        Some(idx) => if board[idx].is(kind, by) {
            Some(idx)
        } else {
            None
        },
        None => None,
    }
}

/// Where a piece of kind `kind` and side `by` stands that is (`df`, `dr`) away
/// from `sq`.
pub open spec fn step_attacker(
    board: BoardView,
    sq: ChessIndex,
    df: int,
    dr: int,
    kind: PieceType,
    by: Color,
) -> Option<ChessIndex> {
    match sq.shift(df, dr) {
        Some(idx) => if board.contains_key(idx) && board[idx].is(kind, by) {
            Some(idx)
        } else {
            None
        },
        None => None,
    }
}

/// A piece of kind `kind` and side `by` that looks at `sq` along a file or a
/// rank: to the right, to the left, upward, downward, the first that is found
/// in this order.
pub open spec fn straight_attacker(board: BoardView, sq: ChessIndex, kind: PieceType, by: Color) -> Option<
    ChessIndex,
> {
    first_of(
        line_attacker(board, sq, 1, 0, kind, by),
        first_of(
            line_attacker(board, sq, -1, 0, kind, by),
            first_of(
                line_attacker(board, sq, 0, 1, kind, by),
                line_attacker(board, sq, 0, -1, kind, by),
            ),
        ),
    )
}

/// A piece of kind `kind` and side `by` that looks at `sq` along a diagonal:
/// right and up, right and down, left and up, left and down, the first that
/// is found in this order.
pub open spec fn diagonal_attacker(board: BoardView, sq: ChessIndex, kind: PieceType, by: Color) -> Option<
    ChessIndex,
> {
    first_of(
        line_attacker(board, sq, 1, 1, kind, by),
        first_of(
            line_attacker(board, sq, 1, -1, kind, by),
            first_of(
                line_attacker(board, sq, -1, 1, kind, by),
                line_attacker(board, sq, -1, -1, kind, by),
            ),
        ),
    )
}

/// A bishop of the side against `defender` that attacks `sq`.
pub open spec fn bishop_attacker(board: BoardView, sq: ChessIndex, defender: Color) -> Option<
    ChessIndex,
> {
    diagonal_attacker(board, sq, PieceType::Bishop, defender.other())
}

/// A rook of the side against `defender` that attacks `sq`.
pub open spec fn rook_attacker(board: BoardView, sq: ChessIndex, defender: Color) -> Option<
    ChessIndex,
> {
    straight_attacker(board, sq, PieceType::Rook, defender.other())
}

/// A queen of the side against `defender` that attacks `sq`: along files and
/// ranks first, then along the diagonals.
pub open spec fn queen_attacker(board: BoardView, sq: ChessIndex, defender: Color) -> Option<
    ChessIndex,
> {
    first_of(
        straight_attacker(board, sq, PieceType::Queen, defender.other()),
        diagonal_attacker(board, sq, PieceType::Queen, defender.other()),
    )
}

/// A knight of the side against `defender` that attacks `sq`.
pub open spec fn knight_attacker(board: BoardView, sq: ChessIndex, defender: Color) -> Option<
    ChessIndex,
> {
    let by = defender.other();
    first_of(
        step_attacker(board, sq, 2, 1, PieceType::Knight, by),
        first_of(
            step_attacker(board, sq, 2, -1, PieceType::Knight, by),
            first_of(
                step_attacker(board, sq, -2, 1, PieceType::Knight, by),
                first_of(
                    step_attacker(board, sq, -2, -1, PieceType::Knight, by),
                    first_of(
                        step_attacker(board, sq, 1, 2, PieceType::Knight, by),
                        first_of(
                            step_attacker(board, sq, 1, -2, PieceType::Knight, by),
                            first_of(
                                step_attacker(board, sq, -1, 2, PieceType::Knight, by),
                                step_attacker(board, sq, -1, -2, PieceType::Knight, by),
                            ),
                        ),
                    ),
                ),
            ),
        ),
    )
}

/// The direction in which the pawns of `color` advance: 1 for White, -1 for
/// Black.
pub open spec fn forward(color: Color) -> int {
    match color {
        Color::White => 1,
        Color::Black => -1,
    }
}

/// A pawn of the side against `defender` that attacks `sq`: it stands one
/// rank further on, seen from `defender`, on a neighbouring file; the left
/// file is looked at first.
pub open spec fn pawn_attacker(board: BoardView, sq: ChessIndex, defender: Color) -> Option<
    ChessIndex,
> {
    let by = defender.other();
    first_of(
        step_attacker(board, sq, -1, forward(defender), PieceType::Pawn, by),
        step_attacker(board, sq, 1, forward(defender), PieceType::Pawn, by),
    )
}

/// Whether a knight, pawn, bishop, rook or queen of the side against
/// `defender` attacks `sq`. Whose turn it is plays no part.
pub open spec fn attacked(board: BoardView, sq: ChessIndex, defender: Color) -> bool {
    knight_attacker(board, sq, defender).is_some() || pawn_attacker(board, sq, defender).is_some()
        || bishop_attacker(board, sq, defender).is_some() || rook_attacker(
        board,
        sq,
        defender,
    ).is_some() || queen_attacker(board, sq, defender).is_some()
}

impl Game {
    /// The nearest occupied square on the line from `from` in direction
    /// (`file_step`, `rank_step`).
    fn nearest_piece(&self, from: ChessIndex, file_step: i32, rank_step: i32) -> (r: Option<
        ChessIndex,
    >)
        ensures
            r == first_piece(self@.board, from, file_step as int, rank_step as int, 7),
            r.is_some() ==> self@.board.contains_key(r.unwrap()),
    {
        let mut at = from;
        let mut reach: u8 = 7;
        let mut found: Option<ChessIndex> = None;
        while reach > 0
            invariant_except_break
                found.is_none(),
                first_piece(self@.board, at, file_step as int, rank_step as int, reach as nat)
                    == first_piece(self@.board, from, file_step as int, rank_step as int, 7),
            ensures
                found == first_piece(self@.board, from, file_step as int, rank_step as int, 7),
                found.is_some() ==> self@.board.contains_key(found.unwrap()),
            decreases reach,
        {
            match at.offset(file_step, rank_step) {
                None => {
                    break ;
                },
                Some(next) => {
                    if self.board().piece_at(next).is_some() {
                        found = Some(next);
                        break ;
                    }
                    at = next;
                    reach = reach - 1;
                },
            }
        }
        found
    }

    /// Whether the nearest piece on the line from `sq` in the given direction
    /// is of kind `kind` and side `by`, and where it stands.
    fn attacker_on_line(
        &self,
        sq: ChessIndex,
        file_step: i32,
        rank_step: i32,
        kind: PieceType,
        by: Color,
    ) -> (r: Option<ChessIndex>)
        ensures
            r == line_attacker(self@.board, sq, file_step as int, rank_step as int, kind, by),
    {
        match self.nearest_piece(sq, file_step, rank_step) {
            Some(idx) => match self.board().piece_at(idx) {
                Some(p) => if p.piece_type() == kind && p.color() == by {
                    Some(idx)
                } else {
                    None
                },
                None => None,
            },
            None => None,
        }
    }

    /// Whether a piece of kind `kind` and side `by` stands at the given
    /// offset from `sq`, and where.
    fn attacker_at_step(
        &self,
        sq: ChessIndex,
        file_offset: i32,
        rank_offset: i32,
        kind: PieceType,
        by: Color,
    ) -> (r: Option<ChessIndex>)
        ensures
            r == step_attacker(self@.board, sq, file_offset as int, rank_offset as int, kind, by),
    {
        match sq.offset(file_offset, rank_offset) {
            Some(idx) => match self.board().piece_at(idx) {
                Some(p) => if p.piece_type() == kind && p.color() == by {
                    Some(idx)
                } else {
                    None
                },
                None => None,
            },
            None => None,
        }
    }

    fn attacker_on_straights(&self, sq: ChessIndex, kind: PieceType, by: Color) -> (r: Option<
        ChessIndex,
    >)
        ensures
            r == straight_attacker(self@.board, sq, kind, by),
    {
        // increasing file
        let right = self.attacker_on_line(sq, 1, 0, kind, by);
        if right.is_some() {
            return right;
        }
        // decreasing file
        let left = self.attacker_on_line(sq, -1, 0, kind, by);
        if left.is_some() {
            return left;
        }
        // increasing rank
        let up = self.attacker_on_line(sq, 0, 1, kind, by);
        if up.is_some() {
            return up;
        }
        // decreasing rank
        self.attacker_on_line(sq, 0, -1, kind, by)
    }

    fn attacker_on_diagonals(&self, sq: ChessIndex, kind: PieceType, by: Color) -> (r: Option<
        ChessIndex,
    >)
        ensures
            r == diagonal_attacker(self@.board, sq, kind, by),
    {
        // increasing file, increasing rank
        let right_up = self.attacker_on_line(sq, 1, 1, kind, by);
        if right_up.is_some() {
            return right_up;
        }
        // increasing file, decreasing rank
        let right_down = self.attacker_on_line(sq, 1, -1, kind, by);
        if right_down.is_some() {
            return right_down;
        }
        // decreasing file, increasing rank
        let left_up = self.attacker_on_line(sq, -1, 1, kind, by);
        if left_up.is_some() {
            return left_up;
        }
        // decreasing file, decreasing rank
        self.attacker_on_line(sq, -1, -1, kind, by)
    }

    /// Check if a square is in check: whether a piece of the side against
    /// `color` attacks `index`.
    pub fn is_checked(&self, index: ChessIndex, color: Color) -> (b: bool)
        ensures
            b == attacked(self@.board, index, color),
    {
        if self.is_checked_by_knight(index, color).is_some() {
            return true;
        }
        if self.is_checked_by_pawn(index, color).is_some() {
            return true;
        }
        if self.is_checked_by_bishop(index, color).is_some() {
            return true;
        }
        if self.is_checked_by_rook(index, color).is_some() {
            return true;
        }
        if self.is_checked_by_queen(index, color).is_some() {
            return true;
        }
        false
    }

    /// The square of a bishop that attacks `king_index`, the square of a
    /// piece of `king_color`.
    pub fn is_checked_by_bishop(&self, king_index: ChessIndex, king_color: Color) -> (r: Option<
        ChessIndex,
    >)
        ensures
            r == bishop_attacker(self@.board, king_index, king_color),
    {
        self.attacker_on_diagonals(king_index, PieceType::Bishop, king_color.opponent())
    }

    /// The square of a pawn that attacks `king_index`, the square of a piece
    /// of `king_color`.
    pub fn is_checked_by_pawn(&self, king_index: ChessIndex, king_color: Color) -> (r: Option<
        ChessIndex,
    >)
        ensures
            r == pawn_attacker(self@.board, king_index, king_color),
    {
        let opponent_color = king_color.opponent();
        let rank_offset: i32 = match king_color {
            // black pawn on king's rank + 1
            Color::White => 1,
            // white pawn on king's rank - 1
            Color::Black => -1,
        };
        let left = self.attacker_at_step(
            king_index,
            -1,
            rank_offset,
            PieceType::Pawn,
            opponent_color,
        );
        if left.is_some() {
            return left;
        }
        self.attacker_at_step(king_index, 1, rank_offset, PieceType::Pawn, opponent_color)
    }

    /// The square of a knight that attacks `king_index`, the square of a
    /// piece of `king_color`.
    pub fn is_checked_by_knight(&self, king_index: ChessIndex, king_color: Color) -> (r: Option<
        ChessIndex,
    >)
        ensures
            r == knight_attacker(self@.board, king_index, king_color),
    {
        let by = king_color.opponent();
        // check if there is an opponent knight a knight's move away
        let a = self.attacker_at_step(king_index, 2, 1, PieceType::Knight, by);
        if a.is_some() {
            return a;
        }
        let b = self.attacker_at_step(king_index, 2, -1, PieceType::Knight, by);
        if b.is_some() {
            return b;
        }
        let c = self.attacker_at_step(king_index, -2, 1, PieceType::Knight, by);
        if c.is_some() {
            return c;
        }
        let d = self.attacker_at_step(king_index, -2, -1, PieceType::Knight, by);
        if d.is_some() {
            return d;
        }
        let e = self.attacker_at_step(king_index, 1, 2, PieceType::Knight, by);
        if e.is_some() {
            return e;
        }
        let f = self.attacker_at_step(king_index, 1, -2, PieceType::Knight, by);
        if f.is_some() {
            return f;
        }
        let g = self.attacker_at_step(king_index, -1, 2, PieceType::Knight, by);
        if g.is_some() {
            return g;
        }
        self.attacker_at_step(king_index, -1, -2, PieceType::Knight, by)
    }

    /// The square of a rook that attacks `king_index`, the square of a piece
    /// of `king_color`.
    pub fn is_checked_by_rook(&self, king_index: ChessIndex, king_color: Color) -> (r: Option<
        ChessIndex,
    >)
        ensures
            r == rook_attacker(self@.board, king_index, king_color),
    {
        self.attacker_on_straights(king_index, PieceType::Rook, king_color.opponent())
    }

    /// The square of a queen that attacks `king_index`, the square of a piece
    /// of `king_color`.
    pub fn is_checked_by_queen(&self, king_index: ChessIndex, king_color: Color) -> (r: Option<
        ChessIndex,
    >)
        ensures
            r == queen_attacker(self@.board, king_index, king_color),
    {
        let by = king_color.opponent();
        let straight = self.attacker_on_straights(king_index, PieceType::Queen, by);
        if straight.is_some() {
            return straight;
        }
        self.attacker_on_diagonals(king_index, PieceType::Queen, by)
    }
}

} // verus!
