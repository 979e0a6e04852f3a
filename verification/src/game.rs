use vstd::prelude::*;
use crate::attack::attacked;
use crate::chess_board::{piece_on, BoardView, ChessBoard};
use crate::chess_index::ChessIndex;
use crate::chess_move::{CastleMove, ChessMove, EnPassantMove, PromotionMove, RegularMove};
use crate::color::Color;
use crate::file::File;
use crate::piece::{piece_value, Piece, PieceType, PieceView};
use crate::rank::Rank;

verus! {

/// Why a move cannot be executed.
#[derive(Debug, Copy, Clone, PartialEq, Eq, Structural)]
pub enum MovePieceError {
    /// No piece stands on the square it carries, from which one was to move.
    NoPieceToMove(ChessIndex),
    /// The square to move to holds a piece of the mover's own side.
    OwnPieceAtTarget,
    /// The square it carries has to be empty for the move, and is not.
    TargetOccupied(ChessIndex),
    /// No pawn stands on the square it carries, where one was to be taken en
    /// passant.
    NoPawnToTake(ChessIndex),
}

impl MovePieceError {
    /// The message for the error.
    pub open spec fn message(self) -> Seq<char> {
        match self {
            MovePieceError::NoPieceToMove(idx) => "no piece at "@ + idx.text(),
            MovePieceError::OwnPieceAtTarget => "can't move to a square you occupy"@,
            MovePieceError::TargetOccupied(idx) => "can't move to "@ + idx.text()
                + ", which is occupied"@,
            MovePieceError::NoPawnToTake(idx) => "no pawn to take at "@ + idx.text(),
        }
    }

    /// The message for the error.
    pub fn to_string(&self) -> (s: String)
        ensures
            s@ == self.message(),
    {
        match self {
            MovePieceError::NoPieceToMove(idx) => {
                let mut s = "no piece at ".to_owned();
                s.append(idx.to_string().as_str());
                s
            },
            MovePieceError::OwnPieceAtTarget => "can't move to a square you occupy".to_owned(),
            MovePieceError::TargetOccupied(idx) => {
                let mut s = "can't move to ".to_owned();
                s.append(idx.to_string().as_str());
                s.append(", which is occupied");
                s
            },
            MovePieceError::NoPawnToTake(idx) => {
                let mut s = "no pawn to take at ".to_owned();
                s.append(idx.to_string().as_str());
                s
            },
        }
    }
}

/// The king of the side it carries does not stand on the square where the
/// game takes it to stand, so nothing can be said about check.
#[derive(Debug, Copy, Clone, PartialEq, Eq, Structural)]
pub struct MissingKingError(pub Color);

/// What a game is: the board, where the two kings are taken to stand, what
/// each side has captured, oldest first, and the boards before each executed
/// move, oldest first.
pub struct GameView {
    pub board: BoardView,
    pub white_king: ChessIndex,
    pub black_king: ChessIndex,
    pub white_taken: Seq<PieceView>,
    pub black_taken: Seq<PieceView>,
    pub history: Seq<BoardView>,
}

/// The kind of piece that starts the game on the given file of a side's
/// first rank.
pub open spec fn back_rank(file: File) -> PieceType {
    match file {
        File::A => PieceType::Rook,
        File::B => PieceType::Knight,
        File::C => PieceType::Bishop,
        File::D => PieceType::Queen,
        File::E => PieceType::King,
        File::F => PieceType::Bishop,
        File::G => PieceType::Knight,
        File::H => PieceType::Rook,
    }
}

/// The board at the start of a game. White's pieces stand on the first rank
/// and its pawns on the second, Black's pawns on the seventh rank and its
/// pieces on the eighth. Each has been put on its square and nowhere else.
pub open spec fn starting_board() -> BoardView {
    Map::new(
        |idx: ChessIndex|
            idx.1 == Rank::First || idx.1 == Rank::Second || idx.1 == Rank::Seventh || idx.1
                == Rank::Eighth,
        |idx: ChessIndex|
            PieceView::fresh(
                if idx.1 == Rank::Second || idx.1 == Rank::Seventh {
                    PieceType::Pawn
                } else {
                    back_rank(idx.0)
                },
                if idx.1 == Rank::First || idx.1 == Rank::Second {
                    Color::White
                } else {
                    Color::Black
                },
            ).placed_on(idx),
    )
}

/// The first square, from place `i` of the board's storage on, that holds a
/// king of side `color`.
pub open spec fn king_from(board: BoardView, color: Color, i: int) -> Option<ChessIndex>
    decreases 64 - i,
{
    if i < 0 || i >= 64 {
        None
    } else if board.contains_key(ChessIndex::of_linear(i)) && board[ChessIndex::of_linear(i)].is(
        PieceType::King,
        color,
    ) {
        Some(ChessIndex::of_linear(i))
    } else {
        king_from(board, color, i + 1)
    }
}

/// Where the king of side `color` stands on the board: of several, the one
/// on the lowest rank and there on the lowest file.
pub open spec fn king_of(board: BoardView, color: Color) -> Option<ChessIndex> {
    king_from(board, color, 0)
}

impl GameView {
    /// A game before its first move.
    pub open spec fn start() -> GameView {
        GameView {
            board: starting_board(),
            white_king: ChessIndex(File::E, Rank::First),
            black_king: ChessIndex(File::E, Rank::Eighth),
            white_taken: Seq::empty(),
            black_taken: Seq::empty(),
            history: Seq::empty(),
        }
    }

    /// A game that starts from `board`, with nothing captured and no move to
    /// take back. Each king is taken to stand where the board has the side's
    /// king, and on its square of the standard position where the board has
    /// none.
    pub open spec fn starting_from(board: BoardView) -> GameView {
        GameView {
            board,
            white_king: match king_of(board, Color::White) {
                Some(k) => k,
                None => ChessIndex(File::E, Rank::First),
            },
            black_king: match king_of(board, Color::Black) {
                Some(k) => k,
                None => ChessIndex(File::E, Rank::Eighth),
            },
            white_taken: Seq::empty(),
            black_taken: Seq::empty(),
            history: Seq::empty(),
        }
    }

    /// The square where the king of side `color` is taken to stand.
    pub open spec fn king(self, color: Color) -> ChessIndex {
        match color {
            Color::White => self.white_king,
            Color::Black => self.black_king,
        }
    }

    /// What side `color` has captured.
    pub open spec fn taken(self, color: Color) -> Seq<PieceView> {
        match color {
            Color::White => self.white_taken,
            Color::Black => self.black_taken,
        }
    }

    /// The game after side `by` has captured `piece`, if there is one.
    pub open spec fn with_capture(self, by: Color, piece: Option<PieceView>) -> GameView {
        match piece {
            None => self,
            Some(p) => match by {
                Color::White => GameView { white_taken: self.white_taken.push(p), ..self },
                Color::Black => GameView { black_taken: self.black_taken.push(p), ..self },
            },
        }
    }

    /// The game after `piece` has come to stand on `idx`, as far as the
    /// kings' squares go: a king's square follows the king.
    pub open spec fn with_king_on(self, piece: PieceView, idx: ChessIndex) -> GameView {
        if piece.piece_type == PieceType::King {
            match piece.color {
                Color::White => GameView { white_king: idx, ..self },
                Color::Black => GameView { black_king: idx, ..self },
            }
        } else {
            self
        }
    }

    /// The game with another board.
    pub open spec fn with_board(self, board: BoardView) -> GameView {
        GameView { board, ..self }
    }
}

/// The game after the piece on `m.0` has gone to `m.1`. What stood on `m.1`
/// is captured by the mover's side; a king's square follows the king; the
/// history of boards stays as it is. Refused when `m.0` is empty or `m.1`
/// holds another piece of the mover's side.
pub open spec fn after_regular(s: GameView, m: RegularMove) -> Result<GameView, MovePieceError> {
    match piece_on(s.board, m.0) {
        None => Err(MovePieceError::NoPieceToMove(m.0)),
        Some(mover) => {
            let lifted = s.board.remove(m.0);
            let target = piece_on(lifted, m.1);
            if target.is_some() && target.unwrap().color == mover.color {
                Err(MovePieceError::OwnPieceAtTarget)
            } else {
                Ok(
                    s.with_capture(mover.color, target).with_king_on(mover, m.1).with_board(
                        lifted.insert(m.1, mover.placed_on(m.1)),
                    ),
                )
            }
        },
    }
}

/// The game after castling: the piece on `m.0` has gone to `m.1` and the
/// piece on `m.2` to `m.3`. Nothing is captured; a king's square follows the
/// king. Refused when one of the two is missing, or when `m.1` or `m.3` is
/// occupied once both have been lifted.
pub open spec fn after_castle(s: GameView, m: CastleMove) -> Result<GameView, MovePieceError> {
    match piece_on(s.board, m.0) {
        None => Err(MovePieceError::NoPieceToMove(m.0)),
        Some(king) => match piece_on(s.board.remove(m.0), m.2) {
            None => Err(MovePieceError::NoPieceToMove(m.2)),
            Some(rook) => {
                let lifted = s.board.remove(m.0).remove(m.2);
                if lifted.contains_key(m.1) {
                    Err(MovePieceError::TargetOccupied(m.1))
                } else if lifted.contains_key(m.3) {
                    Err(MovePieceError::TargetOccupied(m.3))
                } else {
                    Ok(
                        s.with_king_on(king, m.1).with_board(
                            lifted.insert(m.1, king.placed_on(m.1)).insert(
                                m.3,
                                rook.placed_on(m.3),
                            ),
                        ),
                    )
                }
            },
        },
    }
}

/// The game after the pawn on `m.0` has gone to `m.1` and become a new piece
/// of kind `m.2` there. What stood on `m.1` is captured by the mover's side.
/// Refused when `m.0` is empty.
pub open spec fn after_promotion(s: GameView, m: PromotionMove) -> Result<GameView, MovePieceError> {
    match piece_on(s.board, m.0) {
        None => Err(MovePieceError::NoPieceToMove(m.0)),
        Some(pawn) => {
            let lifted = s.board.remove(m.0);
            Ok(
                s.with_capture(pawn.color, piece_on(lifted, m.1)).with_board(
                    lifted.insert(m.1, PieceView::fresh(m.2, pawn.color).placed_on(m.1)),
                ),
            )
        },
    }
}

/// The game after the pawn on `m.0` has gone to the empty square `m.1` and
/// taken the pawn on `m.2`. Refused when `m.1` is occupied, when `m.0` is
/// empty, or when no pawn is left on `m.2` once the mover has been lifted.
pub open spec fn after_en_passant(s: GameView, m: EnPassantMove) -> Result<GameView, MovePieceError> {
    if s.board.contains_key(m.1) {
        Err(MovePieceError::TargetOccupied(m.1))
    } else {
        match piece_on(s.board, m.0) {
            None => Err(MovePieceError::NoPieceToMove(m.0)),
            Some(pawn) => {
                let lifted = s.board.remove(m.0);
                match piece_on(lifted, m.2) {
                    Some(taken) => if taken.piece_type == PieceType::Pawn {
                        Ok(
                            s.with_capture(pawn.color, Some(taken)).with_board(
                                lifted.remove(m.2).insert(m.1, pawn.placed_on(m.1)),
                            ),
                        )
                    } else {
                        Err(MovePieceError::NoPawnToTake(m.2))
                    },
                    None => Err(MovePieceError::NoPawnToTake(m.2)),
                }
            },
        }
    }
}

/// The game after a move of any form, as the four functions above say, but
/// for the history of boards.
pub open spec fn moved(s: GameView, m: ChessMove) -> Result<GameView, MovePieceError> {
    match m {
        ChessMove::Regular(r) => after_regular(s, r),
        ChessMove::Castle(c) => after_castle(s, c),
        ChessMove::Promotion(p) => after_promotion(s, p),
        ChessMove::EnPassant(e) => after_en_passant(s, e),
    }
}

/// The game after `m` has been executed: the move is made and the board
/// before it joins the history. A move that is refused changes nothing.
pub open spec fn executed(s: GameView, m: ChessMove) -> Result<GameView, MovePieceError> {
    match moved(s, m) {
        Ok(after) => Ok(GameView { history: s.history.push(s.board), ..after }),
        Err(e) => Err(e),
    }
}

/// The game after its latest executed move has been taken back: the board
/// before that move is the board again and leaves the history, and each
/// king's square is where that board has the side's king, or stays where the
/// board has none. With no move to take back nothing changes.
pub open spec fn undone(s: GameView) -> GameView {
    if s.history.len() == 0 {
        s
    } else {
        let board = s.history.last();
        GameView {
            board,
            history: s.history.drop_last(),
            white_king: match king_of(board, Color::White) {
                Some(k) => k,
                None => s.white_king,
            },
            black_king: match king_of(board, Color::Black) {
                Some(k) => k,
                None => s.black_king,
            },
            ..s
        }
    }
}

/// Whether a call that was to change the game from `before` into what
/// `expected` holds has done so: on success the game is what was expected, on
/// refusal the call hands out the expected error and the game is unchanged.
pub open spec fn carried_out(
    before: GameView,
    expected: Result<GameView, MovePieceError>,
    result: Result<(), MovePieceError>,
    after: GameView,
) -> bool {
    match expected {
        Ok(s) => result.is_ok() && after == s,
        Err(e) => result == Err::<(), MovePieceError>(e) && after == before,
    }
}

/// Whether the king of side `color` is attacked on the square where the game
/// takes it to stand. When no king of that side stands there, the answer is
/// the error.
pub open spec fn king_in_check(s: GameView, color: Color) -> Result<bool, MissingKingError> {
    let k = s.king(color);
    if s.board.contains_key(k) && s.board[k].is(PieceType::King, color) {
        Ok(attacked(s.board, k, color))
    } else {
        Err(MissingKingError(color))
    }
}

/// What the pieces of a list count for together.
pub open spec fn total_value(pieces: Seq<PieceView>) -> nat
    decreases pieces.len(),
{
    if pieces.len() == 0 {
        0
    } else {
        total_value(pieces.drop_last()) + pieces.last().piece_type.value()
    }
}

/// The models of a list of pieces.
pub open spec fn views_of(pieces: Seq<Piece>) -> Seq<PieceView> {
    pieces.map_values(|p: Piece| p@)
}

/// The models of a list of boards.
pub open spec fn boards_of(boards: Seq<ChessBoard>) -> Seq<BoardView> {
    boards.map_values(|b: ChessBoard| b@)
}

/// A game of chess: the position and what led to it.
#[derive(Debug)]
pub struct Game {
    board: ChessBoard,
    white_king: ChessIndex,
    black_king: ChessIndex,
    white_taken: Vec<Piece>,
    black_taken: Vec<Piece>,
    history: Vec<ChessBoard>,
}

impl View for Game {
    type V = GameView;

    closed spec fn view(&self) -> GameView {
        GameView {
            board: self.board@,
            white_king: self.white_king,
            black_king: self.black_king,
            white_taken: views_of(self.white_taken@),
            black_taken: views_of(self.black_taken@),
            history: boards_of(self.history@),
        }
    }
}

/// A copy of a list of pieces.
fn clone_pieces(pieces: &Vec<Piece>) -> (r: Vec<Piece>)
    ensures
        views_of(r@) == views_of(pieces@),
{
    let r = pieces.clone();
    assert forall|i: int| 0 <= i < pieces@.len() implies (#[trigger] r@[i])@ == pieces@[i]@ by {
        assert(cloned::<Piece>(pieces@[i], r@[i]));
    }
    assert(views_of(r@) =~= views_of(pieces@));
    r
}

/// A copy of a list of boards.
fn clone_boards(boards: &Vec<ChessBoard>) -> (r: Vec<ChessBoard>)
    ensures
        boards_of(r@) == boards_of(boards@),
{
    let r = boards.clone();
    assert forall|i: int| 0 <= i < boards@.len() implies (#[trigger] r@[i])@ == boards@[i]@ by {
        assert(cloned::<ChessBoard>(boards@[i], r@[i]));
    }
    assert(boards_of(r@) =~= boards_of(boards@));
    r
}

impl Clone for Game {
    fn clone(&self) -> (r: Self)
        ensures
            r@ == self@,
    {
        Game {
            board: self.board.clone(),
            white_king: self.white_king,
            black_king: self.black_king,
            white_taken: clone_pieces(&self.white_taken),
            black_taken: clone_pieces(&self.black_taken),
            history: clone_boards(&self.history),
        }
    }
}

impl Game {
    /// A game before its first move.
    pub fn new() -> (game: Self)
        ensures
            game@ == GameView::start(),
    {
        Self::default()
    }

    /// A game that starts from `board`, with the kings taken to stand where
    /// the board has them.
    pub fn from_board(board: ChessBoard) -> (game: Self)
        ensures
            game@ == GameView::starting_from(board@),
    {
        let mut game = Self {
            board,
            white_king: ChessIndex(File::E, Rank::First),
            black_king: ChessIndex(File::E, Rank::Eighth),
            white_taken: Vec::new(),
            black_taken: Vec::new(),
            history: Vec::new(),
        };
        assert(game@.white_taken =~= Seq::empty());
        assert(game@.black_taken =~= Seq::empty());
        assert(game@.history =~= Seq::empty());
        if let Some(k) = game.find_king(Color::White) {
            game.white_king = k;
        }
        if let Some(k) = game.find_king(Color::Black) {
            game.black_king = k;
        }
        game
    }

    /// The board as it stands.
    pub fn board(&self) -> (b: &ChessBoard)
        ensures
            b@ == self@.board,
    {
        &self.board
    }

    /// The board, to be changed in place. The rest of the game stays as it
    /// is: the kings' squares do not follow what is done to the board.
    pub fn board_mut(&mut self) -> (b: &mut ChessBoard)
        ensures
            b@ == old(self)@.board,
            final(self)@ == old(self)@.with_board(final(b)@),
    {
        &mut self.board
    }

    /// The square where the king of side `color` is taken to stand.
    pub fn king_index(&self, color: Color) -> (idx: ChessIndex)
        ensures
            idx == self@.king(color),
    {
        match color {
            Color::Black => self.black_king,
            Color::White => self.white_king,
        }
    }

    /// What side `color` has captured, oldest first.
    pub fn taken_pieces(&self, color: Color) -> (pieces: &Vec<Piece>)
        ensures
            views_of(pieces@) == self@.taken(color),
    {
        match color {
            Color::Black => &self.black_taken,
            Color::White => &self.white_taken,
        }
    }

    /// The board before the latest executed move, if a move has been
    /// executed and not taken back.
    pub fn last_board(&self) -> (b: Option<&ChessBoard>)
        ensures
            b.is_some() == (self@.history.len() > 0),
            b.is_some() ==> b.unwrap()@ == self@.history.last(),
    {
        let n = self.history.len();
        if n > 0 {
            Some(&self.history[n - 1])
        } else {
            None
        }
    }

    /// How many executed moves can be taken back.
    pub fn history_len(&self) -> (n: usize)
        ensures
            n == self@.history.len(),
    {
        self.history.len()
    }

    /// Whether the king of side `color` is attacked where the game takes it
    /// to stand, or the error that no king of that side stands there.
    pub fn is_king_checked(&self, color: Color) -> (r: Result<bool, MissingKingError>)
        ensures
            r == king_in_check(self@, color),
    {
        let king_index = self.king_index(color);
        match self.board.piece_at(king_index) {
            Some(p) => {
                if p.is_king() && p.color() == color {
                    Ok(self.is_checked(king_index, color))
                } else {
                    Err(MissingKingError(color))
                }
            },
            None => Err(MissingKingError(color)),
        }
    }

    /// Adds `piece` to what side `player` has captured.
    pub fn add_taken_piece(&mut self, player: Color, piece: Piece)
        ensures
            final(self)@ == old(self)@.with_capture(player, Some(piece@)),
    {
        match player {
            Color::Black => {
                self.black_taken.push(piece);
                assert(views_of(self.black_taken@) =~= views_of(old(self).black_taken@).push(
                    piece@,
                ));
            },
            Color::White => {
                self.white_taken.push(piece);
                assert(views_of(self.white_taken@) =~= views_of(old(self).white_taken@).push(
                    piece@,
                ));
            },
        }
    }

    /// Takes back the latest executed move, if there is one.
    pub fn undo_last_move(&mut self)
        ensures
            final(self)@ == undone(old(self)@),
    {
        match self.history.pop() {
            Some(board) => {
                assert(boards_of(self.history@) =~= boards_of(old(self).history@).drop_last());
                self.board = board;
                if let Some(k) = self.find_king(Color::White) {
                    self.white_king = k;
                }
                if let Some(k) = self.find_king(Color::Black) {
                    self.black_king = k;
                }
            },
            None => {},
        }
    }

    /// Where the king of side `color` stands on the board: of several, the
    /// one on the lowest rank and there on the lowest file.
    pub fn find_king(&self, color: Color) -> (r: Option<ChessIndex>)
        ensures
            r == king_of(self@.board, color),
    {
        let mut rank_no: u8 = 1;
        while rank_no <= 8
            invariant
                1 <= rank_no <= 9,
                king_from(self@.board, color, 8 * (rank_no - 1)) == king_of(self@.board, color),
            decreases 9 - rank_no,
        {
            let mut file_no: u8 = 1;
            while file_no <= 8
                invariant
                    1 <= rank_no <= 8,
                    1 <= file_no <= 9,
                    king_from(self@.board, color, 8 * (rank_no - 1) + (file_no - 1)) == king_of(
                        self@.board,
                        color,
                    ),
                decreases 9 - file_no,
            {
                if let (Some(file), Some(rank)) = (File::from_u8(file_no), Rank::from_u8(rank_no)) {
                    let idx = ChessIndex::new(file, rank);
                    proof {
                        File::lemma_of_number(file_no as int);
                        Rank::lemma_of_number(rank_no as int);
                        idx.lemma_linear();
                    }
                    if let Some(p) = self.board.piece_at(idx) {
                        if p.is_king() && p.color() == color {
                            return Some(idx);
                        }
                    }
                }
                file_no = file_no + 1;
            }
            rank_no = rank_no + 1;
        }
        None
    }

    /// What side `player` has captured counts for, at most 255.
    pub fn score(&self, player: Color) -> (points: u8)
        ensures
            points == if total_value(self@.taken(player)) <= 255 {
                total_value(self@.taken(player))
            } else {
                255
            },
    {
        let pieces = self.taken_pieces(player);
        let mut points: u8 = 0;
        let mut i: usize = 0;
        while i < pieces.len()
            invariant
                i <= pieces@.len(),
                views_of(pieces@) == self@.taken(player),
                points == if total_value(views_of(pieces@).take(i as int)) <= 255 {
                    total_value(views_of(pieces@).take(i as int))
                } else {
                    255
                },
            decreases pieces.len() - i,
        {
            proof {
                let all = views_of(pieces@);
                assert(all.take(i + 1).drop_last() =~= all.take(i as int));
                assert(all.take(i + 1).last() == pieces@[i as int]@);
            }
            points = points.saturating_add(piece_value(&pieces[i]));
            i = i + 1;
        }
        assert(views_of(pieces@).take(i as int) =~= views_of(pieces@));
        points
    }
}

impl Game {
    /// Moves the piece on the move's first square to its second, taking what
    /// stands there. The history of boards is left alone.
    pub fn execute_regular_move(&mut self, regular_move: RegularMove) -> (r: Result<
        (),
        MovePieceError,
    >)
        ensures
            carried_out(old(self)@, after_regular(old(self)@, regular_move), r, final(self)@),
    {
        let from = regular_move.from_idx();
        let to = regular_move.to_idx();
        let mover_color = match self.board.piece_at(from) {
            Some(p) => p.color(),
            None => {
                return Err(MovePieceError::NoPieceToMove(from));
            },
        };
        if from != to {
            if let Some(piece) = self.board.piece_at(to) {
                if piece.color() == mover_color {
                    return Err(MovePieceError::OwnPieceAtTarget);
                }
            }
        }
        let from_piece = match self.board.take_piece(from) {
            Some(p) => p,
            None => {
                return Err(MovePieceError::NoPieceToMove(from));
            },
        };
        let to_piece = self.board.take_piece(to);
        if let Some(taken_piece) = to_piece {
            self.add_taken_piece(from_piece.color(), taken_piece);
        }
        if from_piece.is_king() {
            match from_piece.color() {
                Color::Black => {
                    self.black_king = to;
                },
                Color::White => {
                    self.white_king = to;
                },
            }
        }
        let ghost mover = from_piece@;
        self.board.set_piece(to, from_piece);
        proof {
            let lifted = old(self)@.board.remove(from);
            assert(self@.board =~= lifted.insert(to, mover.placed_on(to)));
        }
        Ok(())
    }

    /// Castles: moves the king and the rook of the move to their new
    /// squares. The history of boards is left alone.
    pub fn execute_castle_move(&mut self, castle_move: CastleMove) -> (r: Result<
        (),
        MovePieceError,
    >)
        ensures
            carried_out(old(self)@, after_castle(old(self)@, castle_move), r, final(self)@),
    {
        let king_from = castle_move.king_from();
        let king_to = castle_move.king_to();
        let rook_from = castle_move.rook_from();
        let rook_to = castle_move.rook_to();
        if self.board.piece_at(king_from).is_none() {
            return Err(MovePieceError::NoPieceToMove(king_from));
        }
        if rook_from == king_from || self.board.piece_at(rook_from).is_none() {
            return Err(MovePieceError::NoPieceToMove(rook_from));
        }
        if king_to != king_from && king_to != rook_from && self.board.piece_at(king_to).is_some() {
            return Err(MovePieceError::TargetOccupied(king_to));
        }
        if rook_to != king_from && rook_to != rook_from && self.board.piece_at(rook_to).is_some() {
            return Err(MovePieceError::TargetOccupied(rook_to));
        }
        let king = match self.board.take_piece(king_from) {
            Some(p) => p,
            None => {
                return Err(MovePieceError::NoPieceToMove(king_from));
            },
        };
        let rook = match self.board.take_piece(rook_from) {
            Some(p) => p,
            None => {
                return Err(MovePieceError::NoPieceToMove(rook_from));
            },
        };
        if king.is_king() {
            match king.color() {
                Color::Black => {
                    self.black_king = king_to;
                },
                Color::White => {
                    self.white_king = king_to;
                },
            }
        }
        self.board.set_piece(king_to, king);
        self.board.set_piece(rook_to, rook);
        Ok(())
    }

    /// Promotes: takes the pawn off the move's first square and puts a new
    /// piece of the chosen kind on its second, taking what stands there. The
    /// history of boards is left alone.
    pub fn execute_promotion_move(&mut self, promotion_move: PromotionMove) -> (r: Result<
        (),
        MovePieceError,
    >)
        ensures
            carried_out(old(self)@, after_promotion(old(self)@, promotion_move), r, final(self)@),
    {
        let from = promotion_move.from_idx();
        let to = promotion_move.to_idx();
        let pawn = match self.board.take_piece(from) {
            Some(p) => p,
            None => {
                assert(self@.board =~= old(self)@.board);
                return Err(MovePieceError::NoPieceToMove(from));
            },
        };
        let taken_piece = self.board.take_piece(to);
        if let Some(taken_piece) = taken_piece {
            self.add_taken_piece(pawn.color(), taken_piece);
        }
        self.board.set_piece(to, Piece::new(promotion_move.promotion_piece(), pawn.color()));
        proof {
            let lifted = old(self)@.board.remove(from);
            assert(self@.board =~= lifted.insert(
                to,
                PieceView::fresh(promotion_move.2, pawn@.color).placed_on(to),
            ));
        }
        Ok(())
    }

    /// Takes en passant: moves the pawn on the move's first square to its
    /// second, which is empty, and takes the pawn on its third. The history
    /// of boards is left alone.
    pub fn execute_en_passant_move(&mut self, en_passant_move: EnPassantMove) -> (r: Result<
        (),
        MovePieceError,
    >)
        ensures
            carried_out(
                old(self)@,
                after_en_passant(old(self)@, en_passant_move),
                r,
                final(self)@,
            ),
    {
        let from = en_passant_move.from_idx();
        let to = en_passant_move.to_idx();
        let taken_idx = en_passant_move.taken_pawn_idx();
        if self.board.piece_at(to).is_some() {
            return Err(MovePieceError::TargetOccupied(to));
        }
        if self.board.piece_at(from).is_none() {
            return Err(MovePieceError::NoPieceToMove(from));
        }
        if taken_idx == from {
            return Err(MovePieceError::NoPawnToTake(taken_idx));
        }
        match self.board.piece_at(taken_idx) {
            Some(p) => {
                if !p.is_pawn() {
                    return Err(MovePieceError::NoPawnToTake(taken_idx));
                }
            },
            None => {
                return Err(MovePieceError::NoPawnToTake(taken_idx));
            },
        }
        let pawn = match self.board.take_piece(from) {
            Some(p) => p,
            None => {
                return Err(MovePieceError::NoPieceToMove(from));
            },
        };
        let taken_pawn = match self.board.take_piece(taken_idx) {
            Some(p) => p,
            None => {
                return Err(MovePieceError::NoPawnToTake(taken_idx));
            },
        };
        self.add_taken_piece(pawn.color(), taken_pawn);
        self.board.set_piece(to, pawn);
        Ok(())
    }

    /// Executes a move of any form and, when it succeeds, adds the board
    /// before it to the history. Whether the move is legal is not looked at.
    /// A move that cannot be made is refused and changes nothing.
    pub fn execute_move(&mut self, chess_move: ChessMove) -> (r: Result<(), MovePieceError>)
        ensures
            carried_out(old(self)@, executed(old(self)@, chess_move), r, final(self)@),
    {
        let prev = self.board.clone();
        let result = match chess_move {
            ChessMove::Regular(regular_move) => self.execute_regular_move(regular_move),
            ChessMove::Castle(castle_move) => self.execute_castle_move(castle_move),
            ChessMove::Promotion(promotion_move) => self.execute_promotion_move(promotion_move),
            ChessMove::EnPassant(en_passant_move) => self.execute_en_passant_move(
                en_passant_move,
            ),
        };
        if result.is_ok() {
            let ghost before = self.history@;
            self.history.push(prev);
            assert(boards_of(self.history@) =~= boards_of(before).push(prev@));
        }
        result
    }
}

impl Default for Game {
    /// A game before its first move.
    fn default() -> (game: Self)
        ensures
            game@ == GameView::start(),
    {
        let mut board = ChessBoard::default();
        let files = [File::A, File::B, File::C, File::D, File::E, File::F, File::G, File::H];
        let mut i: usize = 0;
        while i < 8
            invariant
                i <= 8,
                files@ == seq![
                    File::A,
                    File::B,
                    File::C,
                    File::D,
                    File::E,
                    File::F,
                    File::G,
                    File::H,
                ],
                board@ == starting_board().restrict(
                    Set::new(|idx: ChessIndex| idx.0.number() <= i),
                ),
            decreases 8 - i,
        {
            let file = files[i];
            let kind = match file {
                File::A => PieceType::Rook,
                File::B => PieceType::Knight,
                File::C => PieceType::Bishop,
                File::D => PieceType::Queen,
                File::E => PieceType::King,
                File::F => PieceType::Bishop,
                File::G => PieceType::Knight,
                File::H => PieceType::Rook,
            };
            let ghost before = board@;
            board.set_piece(ChessIndex::new(file, Rank::First), Piece::new(kind, Color::White));
            board.set_piece(ChessIndex::new(file, Rank::Second), Piece::pawn(Color::White));
            board.set_piece(ChessIndex::new(file, Rank::Seventh), Piece::pawn(Color::Black));
            board.set_piece(ChessIndex::new(file, Rank::Eighth), Piece::new(kind, Color::Black));
            assert(board@ =~= starting_board().restrict(
                Set::new(|idx: ChessIndex| idx.0.number() <= i + 1),
            ));
            i = i + 1;
        }
        assert(board@ =~= starting_board());
        let game = Self {
            board,
            white_king: ChessIndex(File::E, Rank::First),
            black_king: ChessIndex(File::E, Rank::Eighth),
            white_taken: Vec::new(),
            black_taken: Vec::new(),
            history: Vec::new(),
        };
        assert(game@.white_taken =~= Seq::empty());
        assert(game@.black_taken =~= Seq::empty());
        assert(game@.history =~= Seq::empty());
        game
    }
}

} // verus!
