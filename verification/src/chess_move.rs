use vstd::prelude::*;
use crate::chess_index::ChessIndex;
use crate::piece::PieceType;

verus! {

/// A move, in one of its four forms.
#[derive(Debug, Eq, PartialEq, Clone, Copy, Hash, Structural)]
pub enum ChessMove {
    Regular(RegularMove),
    Castle(CastleMove),
    Promotion(PromotionMove),
    EnPassant(EnPassantMove),
}

impl ChessMove {
    /// The square that the moving piece (for castling: the king) leaves.
    pub open spec fn origin(self) -> ChessIndex {
        match self {
            ChessMove::Regular(m) => m.0,
            ChessMove::Castle(m) => m.0,
            ChessMove::Promotion(m) => m.0,
            ChessMove::EnPassant(m) => m.0,
        }
    }

    /// The square that the moving piece (for castling: the king) arrives on.
    pub open spec fn destination(self) -> ChessIndex {
        match self {
            ChessMove::Regular(m) => m.1,
            ChessMove::Castle(m) => m.1,
            ChessMove::Promotion(m) => m.1,
            ChessMove::EnPassant(m) => m.1,
        }
    }

    /// The four promotions of a pawn that steps from `from` to `to`: to
    /// knight, rook, queen and bishop, in this order.
    pub open spec fn promotion_set(from: ChessIndex, to: ChessIndex) -> Seq<ChessMove> {
        seq![
            ChessMove::Promotion(PromotionMove(from, to, PieceType::Knight)),
            ChessMove::Promotion(PromotionMove(from, to, PieceType::Rook)),
            ChessMove::Promotion(PromotionMove(from, to, PieceType::Queen)),
            ChessMove::Promotion(PromotionMove(from, to, PieceType::Bishop)),
        ]
    }

    pub fn regular(from: ChessIndex, to: ChessIndex) -> (m: ChessMove)
        ensures
            m == ChessMove::Regular(RegularMove(from, to)),
    {
        ChessMove::Regular(RegularMove::new(from, to))
    }

    /// One promotion for each kind a pawn can become: knight, rook, queen,
    /// bishop.
    pub fn promotions(from: ChessIndex, to: ChessIndex) -> (v: Vec<ChessMove>)
        ensures
            v@ == ChessMove::promotion_set(from, to),
    {
        let mut v: Vec<ChessMove> = Vec::new();
        v.push(ChessMove::promotion(from, to, PieceType::Knight));
        v.push(ChessMove::promotion(from, to, PieceType::Rook));
        v.push(ChessMove::promotion(from, to, PieceType::Queen));
        v.push(ChessMove::promotion(from, to, PieceType::Bishop));
        assert(v@ =~= ChessMove::promotion_set(from, to));
        v
    }

    pub fn promotion(from: ChessIndex, to: ChessIndex, promotion_piece: PieceType) -> (m: ChessMove)
        ensures
            m == ChessMove::Promotion(PromotionMove(from, to, promotion_piece)),
    {
        ChessMove::Promotion(PromotionMove::new(from, to, promotion_piece))
    }

    pub fn en_passant(from: ChessIndex, to: ChessIndex, taken_pawn_idx: ChessIndex) -> (m:
        ChessMove)
        ensures
            m == ChessMove::EnPassant(EnPassantMove(from, to, taken_pawn_idx)),
    {
        ChessMove::EnPassant(EnPassantMove::new(from, to, taken_pawn_idx))
    }

    /// The square that the moving piece (for castling: the king) leaves.
    pub fn from_idx(&self) -> (idx: ChessIndex)
        ensures
            idx == self.origin(),
    {
        match self {
            ChessMove::Regular(m) => m.from_idx(),
            ChessMove::Castle(m) => m.king_from(),
            ChessMove::Promotion(m) => m.from_idx(),
            ChessMove::EnPassant(m) => m.from_idx(),
        }
    }

    /// The square that the moving piece (for castling: the king) arrives on.
    pub fn to_idx(&self) -> (idx: ChessIndex)
        ensures
            idx == self.destination(),
    {
        match self {
            ChessMove::Regular(m) => m.to_idx(),
            ChessMove::Castle(m) => m.king_to(),
            ChessMove::Promotion(m) => m.to_idx(),
            ChessMove::EnPassant(m) => m.to_idx(),
        }
    }
}

/// A piece goes from the first square to the second and takes what stands
/// there.
#[derive(Debug, Eq, PartialEq, Clone, Copy, Hash, Structural)]
pub struct RegularMove(pub ChessIndex, pub ChessIndex);

impl RegularMove {
    pub fn new(from: ChessIndex, to: ChessIndex) -> (m: Self)
        ensures
            m == RegularMove(from, to),
    {
        Self(from, to)
    }

    pub fn from_idx(&self) -> (idx: ChessIndex)
        ensures
            idx == self.0,
    {
        self.0
    }

    pub fn to_idx(&self) -> (idx: ChessIndex)
        ensures
            idx == self.1,
    {
        self.1
    }
}

impl vstd::std_specs::convert::FromSpecImpl<(ChessIndex, ChessIndex)> for RegularMove {
    open spec fn obeys_from_spec() -> bool {
        true
    }

    open spec fn from_spec(pair: (ChessIndex, ChessIndex)) -> RegularMove {
        RegularMove(pair.0, pair.1)
    }
}

impl From<(ChessIndex, ChessIndex)> for RegularMove {
    fn from(pair: (ChessIndex, ChessIndex)) -> (m: RegularMove) {
        RegularMove::new(pair.0, pair.1)
    }
}

/// Castling: where the king leaves and arrives, then where the rook leaves
/// and arrives.
#[derive(Debug, Eq, PartialEq, Clone, Copy, Hash, Structural)]
pub struct CastleMove(pub ChessIndex, pub ChessIndex, pub ChessIndex, pub ChessIndex);

impl CastleMove {
    pub fn new(
        king_from: ChessIndex,
        king_to: ChessIndex,
        rook_from: ChessIndex,
        rook_to: ChessIndex,
    ) -> (m: CastleMove)
        ensures
            m == CastleMove(king_from, king_to, rook_from, rook_to),
    {
        CastleMove(king_from, king_to, rook_from, rook_to)
    }

    pub fn king_from(&self) -> (idx: ChessIndex)
        ensures
            idx == self.0,
    {
        self.0
    }

    pub fn king_to(&self) -> (idx: ChessIndex)
        ensures
            idx == self.1,
    {
        self.1
    }

    pub fn rook_from(&self) -> (idx: ChessIndex)
        ensures
            idx == self.2,
    {
        self.2
    }

    pub fn rook_to(&self) -> (idx: ChessIndex)
        ensures
            idx == self.3,
    {
        self.3
    }
}

/// A pawn goes from the first square to the second and becomes a piece of the
/// given kind.
#[derive(Debug, Eq, PartialEq, Clone, Copy, Hash, Structural)]
pub struct PromotionMove(pub ChessIndex, pub ChessIndex, pub PieceType);

impl PromotionMove {
    pub fn new(from: ChessIndex, to: ChessIndex, promotion_piece: PieceType) -> (m: Self)
        ensures
            m == PromotionMove(from, to, promotion_piece),
    {
        Self(from, to, promotion_piece)
    }

    pub fn from_idx(&self) -> (idx: ChessIndex)
        ensures
            idx == self.0,
    {
        self.0
    }

    pub fn to_idx(&self) -> (idx: ChessIndex)
        ensures
            idx == self.1,
    {
        self.1
    }

    pub fn promotion_piece(&self) -> (t: PieceType)
        ensures
            t == self.2,
    {
        self.2
    }
}

/// A pawn goes from the first square to the second and takes the pawn that
/// stands on the third.
#[derive(Debug, Eq, PartialEq, Clone, Copy, Hash, Structural)]
pub struct EnPassantMove(pub ChessIndex, pub ChessIndex, pub ChessIndex);

impl EnPassantMove {
    pub fn new(from: ChessIndex, to: ChessIndex, taken_pawn_idx: ChessIndex) -> (m: Self)
        ensures
            m == EnPassantMove(from, to, taken_pawn_idx),
    {
        Self(from, to, taken_pawn_idx)
    }

    pub fn from_idx(&self) -> (idx: ChessIndex)
        ensures
            idx == self.0,
    {
        self.0
    }

    pub fn to_idx(&self) -> (idx: ChessIndex)
        ensures
            idx == self.1,
    {
        self.1
    }

    pub fn taken_pawn_idx(&self) -> (idx: ChessIndex)
        ensures
            idx == self.2,
    {
        self.2
    }
}

} // verus!
