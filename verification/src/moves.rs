use vstd::prelude::*;
use crate::attack::forward;
use crate::castle::castling;
use crate::chess_board::{piece_on, BoardView};
use crate::chess_index::ChessIndex;
use crate::chess_move::{ChessMove, EnPassantMove, RegularMove};
use crate::color::Color;
use crate::file::File;
use crate::game::Game;
use crate::piece::PieceType;

verus! {

/// Whether a piece of side `color` may come to stand on `idx`: the square is
/// empty or holds a piece of the other side.
pub open spec fn may_land(board: BoardView, idx: ChessIndex, color: Color) -> bool {
    !(board.contains_key(idx) && board[idx].color == color)
}

/// The move of a piece of side `color` from `from` to the square (`df`, `dr`)
/// away, if that square is on the board and the piece may land there.
pub open spec fn step_move(board: BoardView, from: ChessIndex, df: int, dr: int, color: Color) -> Seq<
    ChessMove,
> {
    match from.shift(df, dr) {
        Some(to) => if may_land(board, to, color) {
            seq![ChessMove::Regular(RegularMove(from, to))]
        } else {
            Seq::empty()
        },
        None => Seq::empty(),
    }
}

/// The moves of a piece of side `color` that set out from `start` and has
/// slid as far as `at`: onward in steps of (`df`, `dr`) over empty squares,
/// up to and including the first piece of the other side, and not onto a
/// piece of its own side. At most `reach` squares are looked at.
pub open spec fn line_moves(
    board: BoardView,
    start: ChessIndex,
    at: ChessIndex,
    df: int,
    dr: int,
    color: Color,
    reach: nat,
) -> Seq<ChessMove>
    decreases reach,
{
    if reach == 0 {
        Seq::empty()
    } else {
        match at.shift(df, dr) {
            None => Seq::empty(),
            Some(next) => if board.contains_key(next) {
                if board[next].color == color.other() {
                    seq![ChessMove::Regular(RegularMove(start, next))]
                } else {
                    Seq::empty()
                }
            } else {
                seq![ChessMove::Regular(RegularMove(start, next))] + line_moves(
                    board,
                    start,
                    next,
                    df,
                    dr,
                    color,
                    (reach - 1) as nat,
                )
            },
        }
    }
}

/// The moves of a sliding piece of side `color` from `start` in the direction
/// (`df`, `dr`), nearest first. A step of (0, 0) leads nowhere and gives no
/// move.
pub open spec fn slide_moves(board: BoardView, start: ChessIndex, df: int, dr: int, color: Color) -> Seq<
    ChessMove,
> {
    if df == 0 && dr == 0 {
        Seq::empty()
    } else {
        line_moves(board, start, start, df, dr, color, 7)
    }
}

/// The moves of a rook: upward, downward, to the right, to the left.
pub open spec fn rook_moves(board: BoardView, from: ChessIndex, color: Color) -> Seq<ChessMove> {
    slide_moves(board, from, 0, 1, color) + slide_moves(board, from, 0, -1, color) + slide_moves(
        board,
        from,
        1,
        0,
        color,
    ) + slide_moves(board, from, -1, 0, color)
}

/// The moves of a bishop: right and up, right and down, left and up, left
/// and down.
pub open spec fn bishop_moves(board: BoardView, from: ChessIndex, color: Color) -> Seq<ChessMove> {
    slide_moves(board, from, 1, 1, color) + slide_moves(board, from, 1, -1, color) + slide_moves(
        board,
        from,
        -1,
        1,
        color,
    ) + slide_moves(board, from, -1, -1, color)
}

/// The moves of a queen: those of a rook, then those of a bishop.
pub open spec fn queen_moves(board: BoardView, from: ChessIndex, color: Color) -> Seq<ChessMove> {
    rook_moves(board, from, color) + bishop_moves(board, from, color)
}

/// The moves of a knight, over its eight jumps.
pub open spec fn knight_moves(board: BoardView, from: ChessIndex, color: Color) -> Seq<ChessMove> {
    step_move(board, from, 2, 1, color) + step_move(board, from, 2, -1, color) + step_move(
        board,
        from,
        -2,
        1,
        color,
    ) + step_move(board, from, -2, -1, color) + step_move(board, from, 1, 2, color) + step_move(
        board,
        from,
        1,
        -2,
        color,
    ) + step_move(board, from, -1, 2, color) + step_move(board, from, -1, -2, color)
}

/// The single steps of a king to its eight neighbours.
pub open spec fn king_steps(board: BoardView, from: ChessIndex, color: Color) -> Seq<ChessMove> {
    step_move(board, from, 1, 0, color) + step_move(board, from, -1, 0, color) + step_move(
        board,
        from,
        0,
        1,
        color,
    ) + step_move(board, from, 0, -1, color) + step_move(board, from, 1, 1, color) + step_move(
        board,
        from,
        1,
        -1,
        color,
    ) + step_move(board, from, -1, 1, color) + step_move(board, from, -1, -1, color)
}

/// The castling of the king on `king` with a rook on file `rook_file` of its
/// rank, where the two can castle.
pub open spec fn castle_with(board: BoardView, king: ChessIndex, rook_file: File) -> Seq<ChessMove> {
    match castling(board, king, ChessIndex(rook_file, king.1)) {
        Ok(m) => seq![ChessMove::Castle(m)],
        Err(_) => Seq::empty(),
    }
}

/// The moves of a king: its single steps, then castling with the rook on
/// file `h` and castling with the rook on file `a`.
pub open spec fn king_moves(board: BoardView, from: ChessIndex, color: Color) -> Seq<ChessMove> {
    king_steps(board, from, color) + castle_with(board, from, File::H) + castle_with(
        board,
        from,
        File::A,
    )
}

/// The steps of a pawn straight ahead. One step onto an empty square, which
/// is a promotion to each of the four kinds when it reaches the last rank;
/// from the starting rank also two steps, when both squares are empty.
pub open spec fn pawn_advance(board: BoardView, from: ChessIndex, color: Color) -> Seq<ChessMove> {
    match from.shift(0, forward(color)) {
        None => Seq::empty(),
        Some(ahead) => if board.contains_key(ahead) {
            Seq::empty()
        } else if from.1.pawn_promotes(color) {
            ChessMove::promotion_set(from, ahead)
        } else {
            seq![ChessMove::Regular(RegularMove(from, ahead))] + (match from.shift(
                0,
                2 * forward(color),
            ) {
                Some(two) => if from.1.pawn_start(color) && !board.contains_key(two) {
                    seq![ChessMove::Regular(RegularMove(from, two))]
                } else {
                    Seq::empty()
                },
                None => Seq::empty(),
            })
        },
    }
}

/// The capture of a pawn on the diagonal toward the file `df` away: only
/// onto a piece of the other side, and as a promotion to each of the four
/// kinds when it reaches the last rank.
pub open spec fn pawn_capture(board: BoardView, from: ChessIndex, color: Color, df: int) -> Seq<
    ChessMove,
> {
    match from.shift(df, forward(color)) {
        Some(to) => if board.contains_key(to) && board[to].color == color.other() {
            if from.1.pawn_promotes(color) {
                ChessMove::promotion_set(from, to)
            } else {
                seq![ChessMove::Regular(RegularMove(from, to))]
            }
        } else {
            Seq::empty()
        },
        None => Seq::empty(),
    }
}

/// Whether the piece on `idx` is a pawn of side `color` whose latest move
/// was an advance of two squares.
pub open spec fn double_stepped(board: BoardView, idx: ChessIndex, color: Color) -> bool {
    &&& board.contains_key(idx)
    &&& board[idx].is(PieceType::Pawn, color)
    &&& board[idx].previous().is_some()
    &&& Some(board[idx].previous().unwrap()) == idx.shift(0, -2 * forward(color))
}

/// The capture en passant by a pawn of side `color` on `from` of the pawn on
/// the neighbouring file `df` away. The capturing pawn stands three ranks
/// ahead of its starting rank, the pawn beside it is of the other side and
/// has come there by an advance of two squares as its latest move, and the
/// square behind that pawn, where the capturing pawn lands, is empty.
pub open spec fn en_passant_toward(board: BoardView, from: ChessIndex, color: Color, df: int) -> Seq<
    ChessMove,
> {
    match (from.shift(df, 0), from.shift(df, forward(color))) {
        (Some(beside), Some(to)) => if from.1.en_passant(color) && double_stepped(
            board,
            beside,
            color.other(),
        ) && !board.contains_key(to) {
            seq![ChessMove::EnPassant(EnPassantMove(from, to, beside))]
        } else {
            Seq::empty()
        },
        _ => Seq::empty(),
    }
}

/// The moves of a pawn: straight ahead, the captures to the left and to the
/// right, then en passant to the left and to the right.
pub open spec fn pawn_moves(board: BoardView, from: ChessIndex, color: Color) -> Seq<ChessMove> {
    pawn_advance(board, from, color) + pawn_capture(board, from, color, -1) + pawn_capture(
        board,
        from,
        color,
        1,
    ) + en_passant_toward(board, from, color, -1) + en_passant_toward(board, from, color, 1)
}

/// The moves that the piece on `from` can make by the way its kind moves and
/// by what stands on the board, whether or not they leave its own king
/// attacked. An empty square has none.
pub open spec fn pseudo_legal(board: BoardView, from: ChessIndex) -> Seq<ChessMove> {
    match piece_on(board, from) {
        None => Seq::empty(),
        Some(p) => match p.piece_type {
            PieceType::Pawn => pawn_moves(board, from, p.color),
            PieceType::Knight => knight_moves(board, from, p.color),
            PieceType::Bishop => bishop_moves(board, from, p.color),
            PieceType::Rook => rook_moves(board, from, p.color),
            PieceType::Queen => queen_moves(board, from, p.color),
            PieceType::King => king_moves(board, from, p.color),
        },
    }
}

impl Game {
    /// Adds to `moves` the step from `from` to the square at the given
    /// offset, unless a piece of side `color` stands there.
    fn push_step(
        &self,
        moves: &mut Vec<ChessMove>,
        from: ChessIndex,
        file_offset: i32,
        rank_offset: i32,
        color: Color,
    )
        ensures
            final(moves)@ == old(moves)@ + step_move(
                self@.board,
                from,
                file_offset as int,
                rank_offset as int,
                color,
            ),
    {
        if let Some(to_index) = from.offset(file_offset, rank_offset) {
            match self.board().piece_at(to_index) {
                Some(p) => {
                    if p.color() != color {
                        moves.push(ChessMove::regular(from, to_index));
                    }
                },
                None => {
                    moves.push(ChessMove::regular(from, to_index));
                },
            }
        }
        assert(moves@ =~= old(moves)@ + step_move(
            self@.board,
            from,
            file_offset as int,
            rank_offset as int,
            color,
        ));
    }

    /// Steps by the given `file_step` and `rank_step` from `start` until some
    /// other piece is reached, and gives a move to each square passed and to
    /// the square of that piece, if it is of the side against `color`.
    pub fn moves_to_opponents_piece(
        &self,
        start: ChessIndex,
        file_step: i32,
        rank_step: i32,
        color: Color,
    ) -> (moves: Vec<ChessMove>)
        ensures
            moves@ == slide_moves(self@.board, start, file_step as int, rank_step as int, color),
    {
        let mut moves: Vec<ChessMove> = Vec::new();
        if file_step == 0 && rank_step == 0 {
            return moves;
        }
        let ghost all = slide_moves(self@.board, start, file_step as int, rank_step as int, color);
        let mut at = start;
        let mut reach: u8 = 7;
        while reach > 0
            invariant_except_break
                moves@ + line_moves(
                    self@.board,
                    start,
                    at,
                    file_step as int,
                    rank_step as int,
                    color,
                    reach as nat,
                ) == all,
            ensures
                moves@ == all,
            decreases reach,
        {
            match at.offset(file_step, rank_step) {
                None => {
                    assert(moves@ + Seq::<ChessMove>::empty() =~= moves@);
                    break ;
                },
                Some(idx) => {
                    let ghost before = moves@;
                    match self.board().piece_at(idx) {
                        Some(p) => {
                            if p.color() == color.opponent() {
                                moves.push(ChessMove::regular(start, idx));
                            }
                            assert(moves@ =~= before + line_moves(
                                self@.board,
                                start,
                                at,
                                file_step as int,
                                rank_step as int,
                                color,
                                reach as nat,
                            ));
                            break ;
                        },
                        None => {
                            moves.push(ChessMove::regular(start, idx));
                            assert(moves@ + line_moves(
                                self@.board,
                                start,
                                idx,
                                file_step as int,
                                rank_step as int,
                                color,
                                (reach - 1) as nat,
                            ) =~= before + line_moves(
                                self@.board,
                                start,
                                at,
                                file_step as int,
                                rank_step as int,
                                color,
                                reach as nat,
                            ));
                        },
                    }
                    at = idx;
                    reach = reach - 1;
                },
            }
        }
        moves
    }

    /// The moves of a rook of side `piece_color` on `from_index`.
    pub fn valid_rook_moves_from(&self, from_index: ChessIndex, piece_color: Color) -> (moves: Vec<
        ChessMove,
    >)
        ensures
            moves@ == rook_moves(self@.board, from_index, piece_color),
    {
        let mut moves: Vec<ChessMove> = Vec::new();
        // increasing rank
        let mut up = self.moves_to_opponents_piece(from_index, 0, 1, piece_color);
        moves.append(&mut up);
        // decreasing rank
        let mut down = self.moves_to_opponents_piece(from_index, 0, -1, piece_color);
        moves.append(&mut down);
        // increasing file
        let mut right = self.moves_to_opponents_piece(from_index, 1, 0, piece_color);
        moves.append(&mut right);
        // decreasing file
        let mut left = self.moves_to_opponents_piece(from_index, -1, 0, piece_color);
        moves.append(&mut left);
        assert(moves@ =~= rook_moves(self@.board, from_index, piece_color));
        moves
    }

    /// The moves of a knight of side `piece_color` on `from_index`.
    pub fn valid_knight_moves_from(&self, from_index: ChessIndex, piece_color: Color) -> (moves:
        Vec<ChessMove>)
        ensures
            moves@ == knight_moves(self@.board, from_index, piece_color),
    {
        let mut moves: Vec<ChessMove> = Vec::new();
        self.push_step(&mut moves, from_index, 2, 1, piece_color);
        self.push_step(&mut moves, from_index, 2, -1, piece_color);
        self.push_step(&mut moves, from_index, -2, 1, piece_color);
        self.push_step(&mut moves, from_index, -2, -1, piece_color);
        self.push_step(&mut moves, from_index, 1, 2, piece_color);
        self.push_step(&mut moves, from_index, 1, -2, piece_color);
        self.push_step(&mut moves, from_index, -1, 2, piece_color);
        self.push_step(&mut moves, from_index, -1, -2, piece_color);
        assert(moves@ =~= knight_moves(self@.board, from_index, piece_color));
        moves
    }

    /// The moves of a bishop of side `piece_color` on `from_index`.
    pub fn valid_bishop_moves_from(&self, from_index: ChessIndex, piece_color: Color) -> (moves:
        Vec<ChessMove>)
        ensures
            moves@ == bishop_moves(self@.board, from_index, piece_color),
    {
        let mut moves: Vec<ChessMove> = Vec::new();
        // increasing file, increasing rank
        let mut a = self.moves_to_opponents_piece(from_index, 1, 1, piece_color);
        moves.append(&mut a);
        // increasing file, decreasing rank
        let mut b = self.moves_to_opponents_piece(from_index, 1, -1, piece_color);
        moves.append(&mut b);
        // decreasing file, increasing rank
        let mut c = self.moves_to_opponents_piece(from_index, -1, 1, piece_color);
        moves.append(&mut c);
        // decreasing file, decreasing rank
        let mut d = self.moves_to_opponents_piece(from_index, -1, -1, piece_color);
        moves.append(&mut d);
        assert(moves@ =~= bishop_moves(self@.board, from_index, piece_color));
        moves
    }

    /// The moves of a queen of side `piece_color` on `from_index`.
    pub fn valid_queen_moves_from(&self, from_index: ChessIndex, piece_color: Color) -> (moves: Vec<
        ChessMove,
    >)
        ensures
            moves@ == queen_moves(self@.board, from_index, piece_color),
    {
        let mut moves: Vec<ChessMove> = Vec::new();
        let mut straight = self.valid_rook_moves_from(from_index, piece_color);
        moves.append(&mut straight);
        let mut diagonal = self.valid_bishop_moves_from(from_index, piece_color);
        moves.append(&mut diagonal);
        assert(moves@ =~= queen_moves(self@.board, from_index, piece_color));
        moves
    }

    /// Adds to `moves` the castling of the king on `king_index` with the rook
    /// on file `rook_file` of its rank, where the two can castle.
    fn push_castle(&self, moves: &mut Vec<ChessMove>, king_index: ChessIndex, rook_file: File)
        ensures
            final(moves)@ == old(moves)@ + castle_with(self@.board, king_index, rook_file),
    {
        match self.can_castle(king_index, ChessIndex::new(rook_file, king_index.rank())) {
            Ok(castle_move) => {
                moves.push(ChessMove::Castle(castle_move));
            },
            Err(_) => {},
        }
        assert(moves@ =~= old(moves)@ + castle_with(self@.board, king_index, rook_file));
    }

    /// The moves of a king of side `piece_color` on `from_index`, castling
    /// included.
    pub fn valid_king_moves_from(&self, from_index: ChessIndex, piece_color: Color) -> (moves: Vec<
        ChessMove,
    >)
        ensures
            moves@ == king_moves(self@.board, from_index, piece_color),
    {
        let mut moves: Vec<ChessMove> = Vec::new();
        // increasing file
        self.push_step(&mut moves, from_index, 1, 0, piece_color);
        // decreasing file
        self.push_step(&mut moves, from_index, -1, 0, piece_color);
        // increasing rank
        self.push_step(&mut moves, from_index, 0, 1, piece_color);
        // decreasing rank
        self.push_step(&mut moves, from_index, 0, -1, piece_color);
        // increasing file, increasing rank
        self.push_step(&mut moves, from_index, 1, 1, piece_color);
        // increasing file, decreasing rank
        self.push_step(&mut moves, from_index, 1, -1, piece_color);
        // decreasing file, increasing rank
        self.push_step(&mut moves, from_index, -1, 1, piece_color);
        // decreasing file, decreasing rank
        self.push_step(&mut moves, from_index, -1, -1, piece_color);
        assert(moves@ =~= king_steps(self@.board, from_index, piece_color));
        self.push_castle(&mut moves, from_index, File::H);
        self.push_castle(&mut moves, from_index, File::A);
        moves
    }

    /// Adds to `moves` the capture of the pawn on `pawn_idx` toward the file
    /// `file_offset` away.
    fn push_pawn_capture(
        &self,
        moves: &mut Vec<ChessMove>,
        pawn_idx: ChessIndex,
        pawn_color: Color,
        file_offset: i32,
    )
        requires
            file_offset == 1 || file_offset == -1,
        ensures
            final(moves)@ == old(moves)@ + pawn_capture(
                self@.board,
                pawn_idx,
                pawn_color,
                file_offset as int,
            ),
    {
        let forward_offset: i32 = match pawn_color {
            Color::Black => -1,
            Color::White => 1,
        };
        if let Some(diagonal_idx) = pawn_idx.offset(file_offset, forward_offset) {
            match self.board().piece_at(diagonal_idx) {
                Some(piece) => {
                    if piece.color() == pawn_color.opponent() {
                        if pawn_idx.rank().is_pawn_promotion_rank(pawn_color) {
                            let mut promotions = ChessMove::promotions(pawn_idx, diagonal_idx);
                            moves.append(&mut promotions);
                        } else {
                            moves.push(ChessMove::regular(pawn_idx, diagonal_idx));
                        }
                    }
                },
                None => {
                    // can't move to the diagonal if it is empty (except en passant)
                },
            }
        }
        assert(moves@ =~= old(moves)@ + pawn_capture(
            self@.board,
            pawn_idx,
            pawn_color,
            file_offset as int,
        ));
    }

    /// Adds to `moves` the capture en passant by the pawn on `pawn_idx` of
    /// the pawn beside it on the file `file_offset` away.
    fn push_en_passant(
        &self,
        moves: &mut Vec<ChessMove>,
        pawn_idx: ChessIndex,
        pawn_color: Color,
        file_offset: i32,
    )
        requires
            file_offset == 1 || file_offset == -1,
        ensures
            final(moves)@ == old(moves)@ + en_passant_toward(
                self@.board,
                pawn_idx,
                pawn_color,
                file_offset as int,
            ),
    {
        let forward_offset: i32 = match pawn_color {
            Color::Black => -1,
            Color::White => 1,
        };
        if pawn_idx.rank().is_en_passant_rank(pawn_color) {
            // pawn is placed on the rank where en passant can be made
            if let (Some(other_idx), Some(to_idx)) = (
                pawn_idx.offset(file_offset, 0),
                pawn_idx.offset(file_offset, forward_offset),
            ) {
                if let Some(other_piece) = self.board().piece_at(other_idx) {
                    if other_piece.is_pawn() && other_piece.color() == pawn_color.opponent() {
                        let came_from = other_piece.previous_index();
                        let two_back = other_idx.offset(0, 2 * forward_offset);
                        if came_from.is_some() && came_from == two_back
                            && self.board().piece_at(to_idx).is_none() {
                            moves.push(ChessMove::en_passant(pawn_idx, to_idx, other_idx));
                        }
                    }
                }
            }
        }
        assert(moves@ =~= old(moves)@ + en_passant_toward(
            self@.board,
            pawn_idx,
            pawn_color,
            file_offset as int,
        ));
    }

    /// Adds to `moves` the steps straight ahead of the pawn on `pawn_idx`.
    fn push_pawn_advance(&self, moves: &mut Vec<ChessMove>, pawn_idx: ChessIndex, pawn_color: Color)
        ensures
            final(moves)@ == old(moves)@ + pawn_advance(self@.board, pawn_idx, pawn_color),
    {
        let forward_offset: i32 = match pawn_color {
            Color::Black => -1,
            Color::White => 1,
        };
        if let Some(forward_idx) = pawn_idx.offset(0, forward_offset) {
            if self.board().piece_at(forward_idx).is_none() {
                // pawn can move forward
                if pawn_idx.rank().is_pawn_promotion_rank(pawn_color) {
                    let mut promotions = ChessMove::promotions(pawn_idx, forward_idx);
                    moves.append(&mut promotions);
                } else {
                    moves.push(ChessMove::regular(pawn_idx, forward_idx));
                    if pawn_idx.rank().is_pawn_starting_rank(pawn_color) {
                        if let Some(forward_forward_idx) = pawn_idx.offset(0, 2 * forward_offset) {
                            if self.board().piece_at(forward_forward_idx).is_none() {
                                // can move two steps forward since we haven't made a move yet
                                moves.push(ChessMove::regular(pawn_idx, forward_forward_idx));
                            }
                        }
                    }
                }
            }
        }
        assert(moves@ =~= old(moves)@ + pawn_advance(self@.board, pawn_idx, pawn_color));
    }

    /// The moves of a pawn of side `pawn_color` on `pawn_idx`.
    pub fn valid_pawn_moves_from(&self, pawn_idx: ChessIndex, pawn_color: Color) -> (moves: Vec<
        ChessMove,
    >)
        ensures
            moves@ == pawn_moves(self@.board, pawn_idx, pawn_color),
    {
        let mut moves: Vec<ChessMove> = Vec::new();
        self.push_pawn_advance(&mut moves, pawn_idx, pawn_color);
        self.push_pawn_capture(&mut moves, pawn_idx, pawn_color, -1);
        self.push_pawn_capture(&mut moves, pawn_idx, pawn_color, 1);
        self.push_en_passant(&mut moves, pawn_idx, pawn_color, -1);
        self.push_en_passant(&mut moves, pawn_idx, pawn_color, 1);
        assert(moves@ =~= pawn_moves(self@.board, pawn_idx, pawn_color));
        moves
    }

    /// The moves that the piece on `from_index` can make by the way its kind
    /// moves and by what stands on the board, whether or not they leave its
    /// own king attacked. An empty square has none.
    pub fn pseudo_legal_moves(&self, from_index: ChessIndex) -> (moves: Vec<ChessMove>)
        ensures
            moves@ == pseudo_legal(self@.board, from_index),
    {
        let (piece_type, piece_color) = match self.board().piece_at(from_index) {
            Some(p) => (p.piece_type(), p.color()),
            None => {
                return Vec::new();
            },
        };
        match piece_type {
            PieceType::Pawn => self.valid_pawn_moves_from(from_index, piece_color),
            PieceType::Knight => self.valid_knight_moves_from(from_index, piece_color),
            PieceType::Bishop => self.valid_bishop_moves_from(from_index, piece_color),
            PieceType::Rook => self.valid_rook_moves_from(from_index, piece_color),
            PieceType::Queen => self.valid_queen_moves_from(from_index, piece_color),
            PieceType::King => self.valid_king_moves_from(from_index, piece_color),
        }
    }
}

} // verus!
