use vstd::prelude::*;
use crate::attack::{
    bishop_attacker, first_piece, forward, knight_attacker, pawn_attacker, queen_attacker,
    rook_attacker,
};
use crate::castle::{
    attacked_on_path, between_empty, castling, castling_line, castling_pair, toward, CanCastleError,
};
use crate::chess_board::{piece_on, well_placed, BoardView};
use crate::chess_index::ChessIndex;
use crate::chess_move::{CastleMove, ChessMove, RegularMove};
use crate::color::Color;
use crate::file::File;
use crate::game::{executed, king_in_check, king_of, undone, GameView, MissingKingError};
use crate::legal::{just_advanced, legal, legal_in, legal_moves};
use crate::moves::{
    bishop_moves, castle_with, en_passant_toward, king_moves, king_steps, knight_moves, line_moves,
    may_land, pawn_advance, pawn_capture, pawn_moves, pseudo_legal, rook_moves,
    slide_moves, step_move,
};
use crate::piece::PieceType;
use crate::rank::Rank;

verus! {

/// The nearest piece on a line stands on the board.
proof fn lemma_first_piece_is_there(board: BoardView, at: ChessIndex, df: int, dr: int, reach: nat)
    ensures
        first_piece(board, at, df, dr, reach).is_some() ==> board.contains_key(
            first_piece(board, at, df, dr, reach).unwrap(),
        ),
    decreases reach,
{
    if reach > 0 {
        match at.shift(df, dr) {
            None => {},
            Some(next) => {
                if !board.contains_key(next) {
                    lemma_first_piece_is_there(board, next, df, dr, (reach - 1) as nat);
                }
            },
        }
    }
}

/// How many steps of (`df`, `dr`) from `at` can stay on the board at most:
/// the squares up to the edge toward which the walk moves, by files if it
/// changes the file and else by ranks.
pub open spec fn steps_to_edge(at: ChessIndex, df: int, dr: int) -> int {
    if df > 0 {
        8 - at.0.number()
    } else if df < 0 {
        at.0.number() - 1
    } else if dr > 0 {
        8 - at.1.number()
    } else {
        at.1.number() - 1
    }
}

/// Looking further than the edge finds nothing more: the nearest piece on a
/// line is the same for every reach that covers the squares up to the edge.
proof fn lemma_first_piece_reach(
    board: BoardView,
    at: ChessIndex,
    df: int,
    dr: int,
    near: nat,
    far: nat,
)
    requires
        df != 0 || dr != 0,
        steps_to_edge(at, df, dr) <= near <= far,
    ensures
        first_piece(board, at, df, dr, near) == first_piece(board, at, df, dr, far),
    decreases near,
{
    File::lemma_of_number(at.0.number() + df);
    Rank::lemma_of_number(at.1.number() + dr);
    match at.shift(df, dr) {
        None => {},
        Some(next) => {
            if !board.contains_key(next) {
                lemma_first_piece_reach(
                    board,
                    next,
                    df,
                    dr,
                    (near - 1) as nat,
                    (far - 1) as nat,
                );
            }
        },
    }
}

/// Sliding further than the edge gives no more moves: the moves along a line
/// are the same for every reach that covers the squares up to the edge.
proof fn lemma_line_moves_reach(
    board: BoardView,
    start: ChessIndex,
    at: ChessIndex,
    df: int,
    dr: int,
    color: Color,
    near: nat,
    far: nat,
)
    requires
        df != 0 || dr != 0,
        steps_to_edge(at, df, dr) <= near <= far,
    ensures
        line_moves(board, start, at, df, dr, color, near) == line_moves(
            board,
            start,
            at,
            df,
            dr,
            color,
            far,
        ),
    decreases near,
{
    File::lemma_of_number(at.0.number() + df);
    Rank::lemma_of_number(at.1.number() + dr);
    match at.shift(df, dr) {
        None => {},
        Some(next) => {
            if !board.contains_key(next) {
                lemma_line_moves_reach(
                    board,
                    start,
                    next,
                    df,
                    dr,
                    color,
                    (near - 1) as nat,
                    (far - 1) as nat,
                );
            }
        },
    }
}

/// Seven steps reach the edge of the board from every square, in every
/// direction: with a longer reach a walk finds the same nearest piece and a
/// slide has the same moves.
pub proof fn lemma_seven_steps_suffice(
    board: BoardView,
    start: ChessIndex,
    df: int,
    dr: int,
    color: Color,
    reach: nat,
)
    requires
        df != 0 || dr != 0,
        reach >= 7,
    ensures
        first_piece(board, start, df, dr, reach) == first_piece(board, start, df, dr, 7),
        line_moves(board, start, start, df, dr, color, reach) == slide_moves(
            board,
            start,
            df,
            dr,
            color,
        ),
{
    lemma_first_piece_reach(board, start, df, dr, 7, reach);
    lemma_line_moves_reach(board, start, start, df, dr, color, 7, reach);
}

/// Whether `found`, if it names a square, names one that holds a piece of
/// kind `kind` and side `by`.
pub open spec fn names_piece(
    board: BoardView,
    found: Option<ChessIndex>,
    kind: PieceType,
    by: Color,
) -> bool {
    found.is_some() ==> board.contains_key(found.unwrap()) && board[found.unwrap()].is(kind, by)
}

/// An attacker that is found is there: each search for an attacker of `sq`
/// names, if any, a square that holds a piece of the kind it looks for and
/// of the side against `defender`.
pub proof fn lemma_attackers_are_enemy_pieces(board: BoardView, sq: ChessIndex, defender: Color)
    ensures
        names_piece(board, knight_attacker(board, sq, defender), PieceType::Knight, defender.other()),
        names_piece(board, pawn_attacker(board, sq, defender), PieceType::Pawn, defender.other()),
        names_piece(board, bishop_attacker(board, sq, defender), PieceType::Bishop, defender.other()),
        names_piece(board, rook_attacker(board, sq, defender), PieceType::Rook, defender.other()),
        names_piece(board, queen_attacker(board, sq, defender), PieceType::Queen, defender.other()),
{
    lemma_first_piece_is_there(board, sq, 1, 0, 7);
    lemma_first_piece_is_there(board, sq, -1, 0, 7);
    lemma_first_piece_is_there(board, sq, 0, 1, 7);
    lemma_first_piece_is_there(board, sq, 0, -1, 7);
    lemma_first_piece_is_there(board, sq, 1, 1, 7);
    lemma_first_piece_is_there(board, sq, 1, -1, 7);
    lemma_first_piece_is_there(board, sq, -1, 1, 7);
    lemma_first_piece_is_there(board, sq, -1, -1, 7);
}

/// Whether `m` is a move such as a piece of side `color` on `from` makes: it
/// sets out from `from`, it does not land on a piece of side `color`, and,
/// if it is a castling, the king on `from` can castle so.
pub open spec fn well_made(board: BoardView, from: ChessIndex, color: Color, m: ChessMove) -> bool {
    &&& m.origin() == from
    &&& may_land(board, m.destination(), color)
    &&& match m {
        ChessMove::Castle(c) => castling(board, from, c.2) == Ok::<CastleMove, CanCastleError>(c),
        _ => true,
    }
}

/// Whether every move of a list is well made.
pub open spec fn all_well_made(
    board: BoardView,
    from: ChessIndex,
    color: Color,
    moves: Seq<ChessMove>,
) -> bool {
    forall|i: int| 0 <= i < moves.len() ==> well_made(board, from, color, #[trigger] moves[i])
}

/// Well-made lists, joined, are a well-made list.
proof fn lemma_joined(
    board: BoardView,
    from: ChessIndex,
    color: Color,
    a: Seq<ChessMove>,
    b: Seq<ChessMove>,
)
    requires
        all_well_made(board, from, color, a),
        all_well_made(board, from, color, b),
    ensures
        all_well_made(board, from, color, a + b),
{
    assert forall|i: int| 0 <= i < (a + b).len() implies well_made(
        board,
        from,
        color,
        #[trigger] (a + b)[i],
    ) by {
        if i < a.len() {
            assert((a + b)[i] == a[i]);
        } else {
            assert((a + b)[i] == b[i - a.len()]);
        }
    }
}

/// The moves along a line are well made.
proof fn lemma_line(
    board: BoardView,
    start: ChessIndex,
    at: ChessIndex,
    df: int,
    dr: int,
    color: Color,
    reach: nat,
)
    ensures
        all_well_made(board, start, color, line_moves(board, start, at, df, dr, color, reach)),
    decreases reach,
{
    if reach > 0 {
        match at.shift(df, dr) {
            None => {},
            Some(next) => {
                if !board.contains_key(next) {
                    lemma_line(board, start, next, df, dr, color, (reach - 1) as nat);
                    lemma_joined(
                        board,
                        start,
                        color,
                        seq![ChessMove::Regular(RegularMove(start, next))],
                        line_moves(board, start, next, df, dr, color, (reach - 1) as nat),
                    );
                }
            },
        }
    }
}

/// The moves of a slide are well made.
proof fn lemma_slide(board: BoardView, start: ChessIndex, df: int, dr: int, color: Color)
    ensures
        all_well_made(board, start, color, slide_moves(board, start, df, dr, color)),
{
    lemma_line(board, start, start, df, dr, color, 7);
}

/// The moves of a rook are well made.
proof fn lemma_rook(board: BoardView, from: ChessIndex, color: Color)
    ensures
        all_well_made(board, from, color, rook_moves(board, from, color)),
{
    let a = slide_moves(board, from, 0, 1, color);
    let b = slide_moves(board, from, 0, -1, color);
    let c = slide_moves(board, from, 1, 0, color);
    let d = slide_moves(board, from, -1, 0, color);
    lemma_slide(board, from, 0, 1, color);
    lemma_slide(board, from, 0, -1, color);
    lemma_slide(board, from, 1, 0, color);
    lemma_slide(board, from, -1, 0, color);
    lemma_joined(board, from, color, a, b);
    lemma_joined(board, from, color, a + b, c);
    lemma_joined(board, from, color, a + b + c, d);
}

/// The moves of a bishop are well made.
proof fn lemma_bishop(board: BoardView, from: ChessIndex, color: Color)
    ensures
        all_well_made(board, from, color, bishop_moves(board, from, color)),
{
    let a = slide_moves(board, from, 1, 1, color);
    let b = slide_moves(board, from, 1, -1, color);
    let c = slide_moves(board, from, -1, 1, color);
    let d = slide_moves(board, from, -1, -1, color);
    lemma_slide(board, from, 1, 1, color);
    lemma_slide(board, from, 1, -1, color);
    lemma_slide(board, from, -1, 1, color);
    lemma_slide(board, from, -1, -1, color);
    lemma_joined(board, from, color, a, b);
    lemma_joined(board, from, color, a + b, c);
    lemma_joined(board, from, color, a + b + c, d);
}

/// The eight steps of a knight or a king, joined, are well made.
proof fn lemma_eight_steps(
    board: BoardView,
    from: ChessIndex,
    color: Color,
    offsets: Seq<(int, int)>,
)
    requires
        offsets.len() == 8,
    ensures
        all_well_made(
            board,
            from,
            color,
            step_move(board, from, offsets[0].0, offsets[0].1, color) + step_move(
                board,
                from,
                offsets[1].0,
                offsets[1].1,
                color,
            ) + step_move(board, from, offsets[2].0, offsets[2].1, color) + step_move(
                board,
                from,
                offsets[3].0,
                offsets[3].1,
                color,
            ) + step_move(board, from, offsets[4].0, offsets[4].1, color) + step_move(
                board,
                from,
                offsets[5].0,
                offsets[5].1,
                color,
            ) + step_move(board, from, offsets[6].0, offsets[6].1, color) + step_move(
                board,
                from,
                offsets[7].0,
                offsets[7].1,
                color,
            ),
        ),
{
    let s = |k: int| step_move(board, from, offsets[k].0, offsets[k].1, color);
    lemma_joined(board, from, color, s(0), s(1));
    lemma_joined(board, from, color, s(0) + s(1), s(2));
    lemma_joined(board, from, color, s(0) + s(1) + s(2), s(3));
    lemma_joined(board, from, color, s(0) + s(1) + s(2) + s(3), s(4));
    lemma_joined(board, from, color, s(0) + s(1) + s(2) + s(3) + s(4), s(5));
    lemma_joined(board, from, color, s(0) + s(1) + s(2) + s(3) + s(4) + s(5), s(6));
    lemma_joined(board, from, color, s(0) + s(1) + s(2) + s(3) + s(4) + s(5) + s(6), s(7));
}

/// A king that can castle arrives on an empty square.
proof fn lemma_castle_lands_on_empty(board: BoardView, king: ChessIndex, rook: ChessIndex)
    requires
        castling(board, king, rook).is_ok(),
    ensures
        !board.contains_key(castling(board, king, rook).unwrap().1),
{
    let to = king.shift(2 * toward(king, rook), 0).unwrap();
    File::lemma_of_number(king.0.number() + 2 * toward(king, rook));
    assert(to == ChessIndex(to.0, king.1));
    assert(!board.contains_key(ChessIndex(to.0, king.1)));
}

/// A castling that is offered is well made.
proof fn lemma_castle(board: BoardView, from: ChessIndex, color: Color, rook_file: File)
    ensures
        all_well_made(board, from, color, castle_with(board, from, rook_file)),
{
    let rook = ChessIndex(rook_file, from.1);
    if castling(board, from, rook).is_ok() {
        lemma_castle_lands_on_empty(board, from, rook);
    }
}

/// The moves of a king are well made.
proof fn lemma_king(board: BoardView, from: ChessIndex, color: Color)
    ensures
        all_well_made(board, from, color, king_moves(board, from, color)),
{
    lemma_eight_steps(
        board,
        from,
        color,
        seq![
            (1int, 0int),
            (-1int, 0int),
            (0int, 1int),
            (0int, -1int),
            (1int, 1int),
            (1int, -1int),
            (-1int, 1int),
            (-1int, -1int),
        ],
    );
    lemma_castle(board, from, color, File::H);
    lemma_castle(board, from, color, File::A);
    lemma_joined(
        board,
        from,
        color,
        king_steps(board, from, color),
        castle_with(board, from, File::H),
    );
    lemma_joined(
        board,
        from,
        color,
        king_steps(board, from, color) + castle_with(board, from, File::H),
        castle_with(board, from, File::A),
    );
}

/// The moves of a knight are well made.
proof fn lemma_knight(board: BoardView, from: ChessIndex, color: Color)
    ensures
        all_well_made(board, from, color, knight_moves(board, from, color)),
{
    lemma_eight_steps(
        board,
        from,
        color,
        seq![
            (2int, 1int),
            (2int, -1int),
            (-2int, 1int),
            (-2int, -1int),
            (1int, 2int),
            (1int, -2int),
            (-1int, 2int),
            (-1int, -2int),
        ],
    );
}

/// The steps of a pawn straight ahead are well made.
proof fn lemma_pawn_advance(board: BoardView, from: ChessIndex, color: Color)
    ensures
        all_well_made(board, from, color, pawn_advance(board, from, color)),
{
    match from.shift(0, forward(color)) {
        None => {},
        Some(ahead) => {
            if !board.contains_key(ahead) && !from.1.pawn_promotes(color) {
                let one = seq![ChessMove::Regular(RegularMove(from, ahead))];
                match from.shift(0, 2 * forward(color)) {
                    Some(two) => {
                        let far = if from.1.pawn_start(color) && !board.contains_key(two) {
                            seq![ChessMove::Regular(RegularMove(from, two))]
                        } else {
                            Seq::empty()
                        };
                        lemma_joined(board, from, color, one, far);
                    },
                    None => {
                        lemma_joined(board, from, color, one, Seq::empty());
                    },
                }
            }
        },
    }
}

/// A capture of a pawn is well made.
proof fn lemma_pawn_capture(board: BoardView, from: ChessIndex, color: Color, df: int)
    ensures
        all_well_made(board, from, color, pawn_capture(board, from, color, df)),
{
}

/// A capture en passant that is listed is well made.
proof fn lemma_en_passant(board: BoardView, from: ChessIndex, color: Color, df: int)
    ensures
        all_well_made(board, from, color, en_passant_toward(board, from, color, df)),
{
}

/// The moves of a pawn are well made.
proof fn lemma_pawn(board: BoardView, from: ChessIndex, color: Color)
    ensures
        all_well_made(board, from, color, pawn_moves(board, from, color)),
{
    let a = pawn_advance(board, from, color);
    let b = pawn_capture(board, from, color, -1);
    let c = pawn_capture(board, from, color, 1);
    let d = en_passant_toward(board, from, color, -1);
    let e = en_passant_toward(board, from, color, 1);
    lemma_pawn_advance(board, from, color);
    lemma_pawn_capture(board, from, color, -1);
    lemma_pawn_capture(board, from, color, 1);
    lemma_en_passant(board, from, color, -1);
    lemma_en_passant(board, from, color, 1);
    lemma_joined(board, from, color, a, b);
    lemma_joined(board, from, color, a + b, c);
    lemma_joined(board, from, color, a + b + c, d);
    lemma_joined(board, from, color, a + b + c + d, e);
}

/// Every move that is listed for the piece on `from` sets out from `from`,
/// does not land on a piece of the mover's side, and is, if it is a
/// castling, one that the king on `from` can make.
pub proof fn lemma_pseudo_legal_well_made(board: BoardView, from: ChessIndex)
    requires
        board.contains_key(from),
    ensures
        all_well_made(board, from, board[from].color, pseudo_legal(board, from)),
{
    let color = board[from].color;
    match board[from].piece_type {
        PieceType::Pawn => lemma_pawn(board, from, color),
        PieceType::Knight => lemma_knight(board, from, color),
        PieceType::Bishop => lemma_bishop(board, from, color),
        PieceType::Rook => lemma_rook(board, from, color),
        PieceType::Queen => {
            lemma_rook(board, from, color);
            lemma_bishop(board, from, color);
            lemma_joined(
                board,
                from,
                color,
                rook_moves(board, from, color),
                bishop_moves(board, from, color),
            );
        },
        PieceType::King => lemma_king(board, from, color),
    }
}

/// Each move that passes a test was among the moves that were tested.
proof fn lemma_kept_was_listed(moves: Seq<ChessMove>, test: spec_fn(ChessMove) -> bool, i: int)
    requires
        0 <= i < moves.filter(test).len(),
    ensures
        moves.contains(moves.filter(test)[i]),
        test(moves.filter(test)[i]),
    decreases moves.len(),
{
    reveal(Seq::filter);
    if moves.len() > 0 {
        let rest = moves.drop_last();
        if i < rest.filter(test).len() {
            lemma_kept_was_listed(rest, test, i);
            let j = choose|j: int| 0 <= j < rest.len() && rest[j] == rest.filter(test)[i];
            assert(moves[j] == moves.filter(test)[i]);
        } else {
            assert(moves[moves.len() - 1] == moves.filter(test)[i]);
        }
    }
}

/// A move is never listed for a piece if it would land on a piece of the
/// mover's own side: no square and no board has such a move among the moves
/// of `pseudo_legal`.
pub proof fn lemma_never_onto_own_piece(board: BoardView, from: ChessIndex, i: int)
    requires
        0 <= i < pseudo_legal(board, from).len(),
    ensures
        board.contains_key(from),
        pseudo_legal(board, from)[i].origin() == from,
        !(board.contains_key(pseudo_legal(board, from)[i].destination()) && board[pseudo_legal(
            board,
            from,
        )[i].destination()].color == board[from].color),
{
    lemma_pseudo_legal_well_made(board, from);
}

/// A move that can be executed is taken back by `undone`: the board is
/// piece for piece what it was before the move, and so is the history of
/// boards. A king's square is what it was, too, where it was the square on
/// which the board's search for that king ends. This holds of every legal
/// move, since a legal move can be executed.
pub proof fn lemma_undo_restores_board(s: GameView, m: ChessMove)
    requires
        executed(s, m).is_ok(),
    ensures
        undone(executed(s, m).unwrap()).board == s.board,
        undone(executed(s, m).unwrap()).history == s.history,
        king_of(s.board, Color::White) == Some(s.white_king) ==> undone(
            executed(s, m).unwrap(),
        ).white_king == s.white_king,
        king_of(s.board, Color::Black) == Some(s.black_king) ==> undone(
            executed(s, m).unwrap(),
        ).black_king == s.black_king,
{
    let after = executed(s, m).unwrap();
    assert(after.history == s.history.push(s.board));
    assert(after.history.drop_last() =~= s.history);
}

/// Executing a move keeps the pieces' histories in step with the board: if
/// every piece had last been put where it stands, that is so after the move.
pub proof fn lemma_moves_keep_pieces_placed(s: GameView, m: ChessMove)
    requires
        well_placed(s.board),
        executed(s, m).is_ok(),
    ensures
        well_placed(executed(s, m).unwrap().board),
{
    let after = executed(s, m).unwrap().board;
    assert forall|idx: ChessIndex| after.contains_key(idx) implies (#[trigger] after[idx]).history.len()
        > 0 && after[idx].history.last() == idx by {
        if s.board.contains_key(idx) {
            assert(s.board[idx].history.len() > 0);
        }
    }
}

/// Whether each king stands where the game takes it to stand.
pub open spec fn kings_in_place(s: GameView) -> bool {
    &&& s.board.contains_key(s.white_king)
    &&& s.board[s.white_king].is(PieceType::King, Color::White)
    &&& s.board.contains_key(s.black_king)
    &&& s.board[s.black_king].is(PieceType::King, Color::Black)
}

/// The kings' squares follow the kings: if each king stands where the game
/// takes it to stand, that is so after every legal move that does not take a
/// king.
pub proof fn lemma_kings_stay_in_place(s: GameView, from: ChessIndex, i: int)
    requires
        kings_in_place(s),
        0 <= i < legal_moves(s, from).len(),
        !(s.board.contains_key(legal_moves(s, from)[i].destination()) && s.board[legal_moves(
            s,
            from,
        )[i].destination()].piece_type == PieceType::King),
    ensures
        kings_in_place(executed(s, legal_moves(s, from)[i]).unwrap()),
{
    let m = legal_moves(s, from)[i];
    lemma_legal_moves_keep_king_safe(s, from, i);
    let color = s.board[from].color;
    let after = executed(s, m).unwrap();
    assert(after.board.contains_key(after.king(color)));
    let other = s.king(color.other());
    assert(after.king(color.other()) == other);
    assert(other != from);
    assert(other != m.destination());
    match m {
        ChessMove::Regular(r) => {},
        ChessMove::Castle(c) => {
            lemma_castling_only_when_allowed(s, from, i);
            assert(other != c.2);
            assert(s.board.remove(c.0).remove(c.2).contains_key(other));
        },
        ChessMove::Promotion(p) => {},
        ChessMove::EnPassant(e) => {
            assert(piece_on(s.board.remove(e.0), e.2).is_some());
            assert(other != e.2);
        },
    }
    assert(after.board.contains_key(other) && after.board[other] == s.board[other]);
}

/// Executing a legal move and taking it back restores the board: after any
/// of the legal moves of the piece on `from`, `undone` gives a board that is
/// piece for piece the board before the move.
pub proof fn lemma_undo_restores_board_after_legal_move(s: GameView, from: ChessIndex, i: int)
    requires
        0 <= i < legal_moves(s, from).len(),
    ensures
        executed(s, legal_moves(s, from)[i]).is_ok(),
        undone(executed(s, legal_moves(s, from)[i]).unwrap()).board == s.board,
{
    lemma_legal_moves_keep_king_safe(s, from, i);
    lemma_undo_restores_board(s, legal_moves(s, from)[i]);
}

/// No legal move leaves the mover's king attacked. Each move among the legal
/// moves of the piece on `from` can be executed, and in the game after it
/// the king of the mover's side stands where the game takes it to stand and
/// is not attacked there.
pub proof fn lemma_legal_moves_keep_king_safe(s: GameView, from: ChessIndex, i: int)
    requires
        0 <= i < legal_moves(s, from).len(),
    ensures
        s.board.contains_key(from),
        legal_moves(s, from)[i].origin() == from,
        executed(s, legal_moves(s, from)[i]).is_ok(),
        king_in_check(executed(s, legal_moves(s, from)[i]).unwrap(), s.board[from].color) == Ok::<
            bool,
            MissingKingError,
        >(false),
{
    let listed = pseudo_legal(s.board, from);
    lemma_kept_was_listed(listed, legal_in(s), i);
    let m = legal_moves(s, from)[i];
    let j = choose|j: int| 0 <= j < listed.len() && listed[j] == m;
    lemma_pseudo_legal_well_made(s.board, from);
    assert(well_made(s.board, from, s.board[from].color, listed[j]));
    assert(legal(s, m));
}

/// What `castling` answers, condition by condition. It offers a move only
/// when the squares hold a king and a rook of one side that have both not
/// moved, on one rank three or four files apart, with nothing between them
/// and none of the king's three squares attacked; the move then takes the
/// king two files toward the rook and the rook to the square the king
/// crosses. The first condition that fails, in this order, decides the
/// error.
pub proof fn lemma_castling_conditions(board: BoardView, king: ChessIndex, rook: ChessIndex)
    ensures
        castling(board, king, rook).is_ok() <==> (castling_pair(board, king, rook)
            && !board[king].has_moved() && !board[rook].has_moved() && castling_line(king, rook)
            && between_empty(board, king, rook) && attacked_on_path(board, king, rook).is_none()),
        castling(board, king, rook).is_ok() ==> castling(board, king, rook).unwrap() == CastleMove(
            king,
            king.shift(2 * toward(king, rook), 0).unwrap(),
            rook,
            king.shift(toward(king, rook), 0).unwrap(),
        ),
        !castling_pair(board, king, rook) ==> castling(board, king, rook) == Err::<
            CastleMove,
            CanCastleError,
        >(CanCastleError::WrongPieces),
        castling_pair(board, king, rook) && board[king].has_moved() ==> castling(board, king, rook)
            == Err::<CastleMove, CanCastleError>(CanCastleError::PieceHasMadeMove(king)),
        castling_pair(board, king, rook) && !board[king].has_moved() && board[rook].has_moved()
            ==> castling(board, king, rook) == Err::<CastleMove, CanCastleError>(
            CanCastleError::PieceHasMadeMove(rook),
        ),
        castling_pair(board, king, rook) && !board[king].has_moved() && !board[rook].has_moved()
            && !castling_line(king, rook) ==> castling(board, king, rook) == Err::<
            CastleMove,
            CanCastleError,
        >(CanCastleError::WrongPieces),
        castling_pair(board, king, rook) && !board[king].has_moved() && !board[rook].has_moved()
            && castling_line(king, rook) && !between_empty(board, king, rook) ==> castling(
            board,
            king,
            rook,
        ) == Err::<CastleMove, CanCastleError>(CanCastleError::PiecesBetween),
        castling_pair(board, king, rook) && !board[king].has_moved() && !board[rook].has_moved()
            && castling_line(king, rook) && between_empty(board, king, rook) && attacked_on_path(
            board,
            king,
            rook,
        ).is_some() ==> castling(board, king, rook) == Err::<CastleMove, CanCastleError>(
            CanCastleError::SquareInCheck(attacked_on_path(board, king, rook).unwrap()),
        ),
{
}

/// A king and a rook that can castle stand on their home squares: on a
/// board where every piece has last been put where it stands, each of the two
/// has stood on its square and on no other.
pub proof fn lemma_castling_from_home_squares(
    board: BoardView,
    king: ChessIndex,
    rook: ChessIndex,
)
    requires
        well_placed(board),
        castling(board, king, rook).is_ok(),
    ensures
        board.contains_key(king),
        board.contains_key(rook),
        board[king].history == seq![king],
        board[rook].history == seq![rook],
{
    assert(board[king].history =~= seq![king]);
    assert(board[rook].history =~= seq![rook]);
}

/// Castling is only offered where it is allowed: a castling among the legal
/// moves of the piece on `from` is the move that `castling` gives for the
/// king on `from` and the rook it names.
pub proof fn lemma_castling_only_when_allowed(s: GameView, from: ChessIndex, i: int)
    requires
        0 <= i < legal_moves(s, from).len(),
    ensures
        match legal_moves(s, from)[i] {
            ChessMove::Castle(c) => c.0 == from && castling(s.board, from, c.2) == Ok::<
                CastleMove,
                CanCastleError,
            >(c),
            _ => true,
        },
{
    let listed = pseudo_legal(s.board, from);
    lemma_kept_was_listed(listed, legal_in(s), i);
    let m = legal_moves(s, from)[i];
    let j = choose|j: int| 0 <= j < listed.len() && listed[j] == m;
    lemma_pseudo_legal_well_made(s.board, from);
    assert(well_made(s.board, from, s.board[from].color, listed[j]));
}

/// A capture en passant is legal only as the answer to the advance: where
/// one is among the legal moves, the pawn that it takes came to its square
/// by the latest executed move, by an advance of two squares.
pub proof fn lemma_en_passant_answers_at_once(s: GameView, from: ChessIndex, i: int)
    requires
        0 <= i < legal_moves(s, from).len(),
    ensures
        match legal_moves(s, from)[i] {
            ChessMove::EnPassant(e) => just_advanced(s, e.2),
            _ => true,
        },
{
    lemma_kept_was_listed(pseudo_legal(s.board, from), legal_in(s), i);
    assert(legal(s, legal_moves(s, from)[i]));
}

/// One move later the capture en passant is gone: once any move `x` has been
/// executed, no legal move takes en passant a pawn that already stood on its
/// square before `x`.
pub proof fn lemma_en_passant_lapses(s: GameView, x: ChessMove, from: ChessIndex, i: int)
    requires
        executed(s, x).is_ok(),
        0 <= i < legal_moves(executed(s, x).unwrap(), from).len(),
    ensures
        match legal_moves(executed(s, x).unwrap(), from)[i] {
            ChessMove::EnPassant(e) => !s.board.contains_key(e.2),
            _ => true,
        },
{
    let after = executed(s, x).unwrap();
    lemma_en_passant_answers_at_once(after, from, i);
    assert(after.history == s.history.push(s.board));
    assert(after.history.last() == s.board);
}

} // verus!
