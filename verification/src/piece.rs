use vstd::prelude::*;
use crate::chess_index::ChessIndex;
use crate::color::Color;

verus! {

/// The six kinds of chess piece.
#[derive(Clone, Copy, PartialEq, Debug, Eq, Hash, Structural)]
pub enum PieceType {
    Pawn,
    Knight,
    Bishop,
    Rook,
    Queen,
    King,
}

impl PieceType {
    /// The English name of the kind.
    pub open spec fn name(self) -> Seq<char> {
        match self {
            PieceType::Pawn => "Pawn"@,
            PieceType::Knight => "Knight"@,
            PieceType::Bishop => "Bishop"@,
            PieceType::Rook => "Rook"@,
            PieceType::Queen => "Queen"@,
            PieceType::King => "King"@,
        }
    }

    /// What a captured piece of this kind counts for: pawn 1, knight and
    /// bishop 3, rook 5, queen 9, king 0.
    pub open spec fn value(self) -> nat {
        match self {
            PieceType::Pawn => 1,
            PieceType::Knight => 3,
            PieceType::Bishop => 3,
            PieceType::Rook => 5,
            PieceType::Queen => 9,
            PieceType::King => 0,
        }
    }

    /// The English name of the kind.
    pub fn to_string(&self) -> (s: String)
        ensures
            s@ == self.name(),
    {
        match self {
            PieceType::Pawn => "Pawn".to_owned(),
            PieceType::Knight => "Knight".to_owned(),
            PieceType::Bishop => "Bishop".to_owned(),
            PieceType::Rook => "Rook".to_owned(),
            PieceType::Queen => "Queen".to_owned(),
            PieceType::King => "King".to_owned(),
        }
    }
}

/// What a piece is: its kind, its side, and the squares it has stood on, the
/// first placement included, oldest first.
pub struct PieceView {
    pub piece_type: PieceType,
    pub color: Color,
    pub history: Seq<ChessIndex>,
}

impl PieceView {
    /// A piece that has not been put on a board yet.
    pub open spec fn fresh(piece_type: PieceType, color: Color) -> PieceView {
        PieceView { piece_type, color, history: Seq::empty() }
    }

    /// The piece after it has been put on `idx`.
    pub open spec fn placed_on(self, idx: ChessIndex) -> PieceView {
        PieceView { history: self.history.push(idx), ..self }
    }

    /// Whether the piece has left the square it was first put on.
    pub open spec fn has_moved(self) -> bool {
        self.history.len() > 1
    }

    /// The square the piece stood on before its latest placement.
    pub open spec fn previous(self) -> Option<ChessIndex> {
        if self.history.len() >= 2 {
            Some(self.history[self.history.len() - 2])
        } else {
            None
        }
    }

    /// Whether the piece is of the given kind and side.
    pub open spec fn is(self, piece_type: PieceType, color: Color) -> bool {
        self.piece_type == piece_type && self.color == color
    }

    /// The figurine that stands for the piece in print.
    pub open spec fn glyph(self) -> Seq<char> {
        match (self.color, self.piece_type) {
            (Color::Black, PieceType::Pawn) => "♟︎"@,
            (Color::Black, PieceType::Knight) => "♞"@,
            (Color::Black, PieceType::Bishop) => "♝"@,
            (Color::Black, PieceType::Rook) => "♜"@,
            (Color::Black, PieceType::Queen) => "♛"@,
            (Color::Black, PieceType::King) => "♚"@,
            (Color::White, PieceType::Pawn) => "♙"@,
            (Color::White, PieceType::Knight) => "♘"@,
            (Color::White, PieceType::Bishop) => "♗"@,
            (Color::White, PieceType::Rook) => "♖"@,
            (Color::White, PieceType::Queen) => "♕"@,
            (Color::White, PieceType::King) => "♔"@,
        }
    }
}

/// A chess piece. It remembers every square it has been put on.
#[derive(PartialEq, Debug, Eq)]
pub struct Piece {
    piece_type: PieceType,
    color: Color,
    history: Vec<ChessIndex>,
}

impl View for Piece {
    type V = PieceView;

    closed spec fn view(&self) -> PieceView {
        PieceView { piece_type: self.piece_type, color: self.color, history: self.history@ }
    }
}

impl Clone for Piece {
    fn clone(&self) -> (r: Self)
        ensures
            r@ == self@,
    {
        Piece { piece_type: self.piece_type, color: self.color, history: self.history.clone() }
    }
}

/// The model of a piece that may be absent.
pub open spec fn view_of(piece: Option<Piece>) -> Option<PieceView> {
    match piece {
        Some(p) => Some(p@),
        None => None,
    }
}

/// The model of a borrowed piece that may be absent.
pub open spec fn view_of_ref(piece: Option<&Piece>) -> Option<PieceView> {
    match piece {
        Some(p) => Some(p@),
        None => None,
    }
}

impl Piece {
    /// A piece of the given kind and side that has not been on a board yet.
    pub fn new(piece_type: PieceType, color: Color) -> (p: Self)
        ensures
            p@ == PieceView::fresh(piece_type, color),
    {
        let p = Self { piece_type, color, history: Vec::new() };
        assert(p@.history =~= Seq::empty());
        p
    }

    pub fn piece_type(&self) -> (t: PieceType)
        ensures
            t == self@.piece_type,
    {
        self.piece_type
    }

    pub fn color(&self) -> (c: Color)
        ensures
            c == self@.color,
    {
        self.color
    }

    pub fn is_pawn(&self) -> (b: bool)
        ensures
            b == (self@.piece_type == PieceType::Pawn),
    {
        match self.piece_type() {
            PieceType::Pawn => true,
            _ => false,
        }
    }

    pub fn is_knight(&self) -> (b: bool)
        ensures
            b == (self@.piece_type == PieceType::Knight),
    {
        match self.piece_type() {
            PieceType::Knight => true,
            _ => false,
        }
    }

    pub fn is_rook(&self) -> (b: bool)
        ensures
            b == (self@.piece_type == PieceType::Rook),
    {
        match self.piece_type() {
            PieceType::Rook => true,
            _ => false,
        }
    }

    pub fn is_bishop(&self) -> (b: bool)
        ensures
            b == (self@.piece_type == PieceType::Bishop),
    {
        match self.piece_type() {
            PieceType::Bishop => true,
            _ => false,
        }
    }

    pub fn is_queen(&self) -> (b: bool)
        ensures
            b == (self@.piece_type == PieceType::Queen),
    {
        match self.piece_type() {
            PieceType::Queen => true,
            _ => false,
        }
    }

    pub fn is_king(&self) -> (b: bool)
        ensures
            b == (self@.piece_type == PieceType::King),
    {
        match self.piece_type() {
            PieceType::King => true,
            _ => false,
        }
    }

    pub fn pawn(color: Color) -> (p: Self)
        ensures
            p@ == PieceView::fresh(PieceType::Pawn, color),
    {
        Self::new(PieceType::Pawn, color)
    }

    pub fn knight(color: Color) -> (p: Self)
        ensures
            p@ == PieceView::fresh(PieceType::Knight, color),
    {
        Self::new(PieceType::Knight, color)
    }

    pub fn bishop(color: Color) -> (p: Self)
        ensures
            p@ == PieceView::fresh(PieceType::Bishop, color),
    {
        Self::new(PieceType::Bishop, color)
    }

    pub fn rook(color: Color) -> (p: Self)
        ensures
            p@ == PieceView::fresh(PieceType::Rook, color),
    {
        Self::new(PieceType::Rook, color)
    }

    pub fn queen(color: Color) -> (p: Self)
        ensures
            p@ == PieceView::fresh(PieceType::Queen, color),
    {
        Self::new(PieceType::Queen, color)
    }

    pub fn king(color: Color) -> (p: Self)
        ensures
            p@ == PieceView::fresh(PieceType::King, color),
    {
        Self::new(PieceType::King, color)
    }

    /// The squares the piece has been put on, oldest first.
    pub fn history(&self) -> (h: &Vec<ChessIndex>)
        ensures
            h@ == self@.history,
    {
        &self.history
    }

    /// Records that the piece has been put on `idx`.
    pub fn add_index_to_history(&mut self, idx: ChessIndex)
        ensures
            final(self)@ == old(self)@.placed_on(idx),
    {
        self.history.push(idx);
    }

    /// Whether the piece has left the square it was first put on.
    pub fn has_made_move(&self) -> (b: bool)
        ensures
            b == self@.has_moved(),
    {
        self.history.len() > 1
    }

    /// The square the piece stood on before its latest placement, if it has
    /// been placed twice or more.
    pub fn previous_index(&self) -> (r: Option<ChessIndex>)
        ensures
            r == self@.previous(),
    {
        let n = self.history.len();
        if n >= 2 {
            Some(self.history[n - 2])
        } else {
            None
        }
    }

    /// The figurine that stands for the piece in print.
    pub fn to_string(&self) -> (s: String)
        ensures
            s@ == self@.glyph(),
    {
        match (self.color, self.piece_type) {
            (Color::Black, PieceType::Pawn) => "♟︎".to_owned(),
            (Color::Black, PieceType::Knight) => "♞".to_owned(),
            (Color::Black, PieceType::Bishop) => "♝".to_owned(),
            (Color::Black, PieceType::Rook) => "♜".to_owned(),
            (Color::Black, PieceType::Queen) => "♛".to_owned(),
            (Color::Black, PieceType::King) => "♚".to_owned(),
            (Color::White, PieceType::Pawn) => "♙".to_owned(),
            (Color::White, PieceType::Knight) => "♘".to_owned(),
            (Color::White, PieceType::Bishop) => "♗".to_owned(),
            (Color::White, PieceType::Rook) => "♖".to_owned(),
            (Color::White, PieceType::Queen) => "♕".to_owned(),
            (Color::White, PieceType::King) => "♔".to_owned(),
        }
    }
}

/// What a captured piece counts for: pawn 1, knight and bishop 3, rook 5,
/// queen 9, king 0.
pub fn piece_value(p: &Piece) -> (v: u8)
    ensures
        v == p@.piece_type.value(),
{
    match p.piece_type() {
        PieceType::Pawn => 1,
        PieceType::Knight => 3,
        PieceType::Bishop => 3,
        PieceType::Rook => 5,
        PieceType::Queen => 9,
        PieceType::King => 0,
    }
}

} // verus!
