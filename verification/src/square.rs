use vstd::prelude::*;
use crate::color::Color;
use crate::piece::{view_of, view_of_ref, Piece, PieceView};

verus! {

/// What a square is: its shade and the piece on it, if any.
pub struct SquareView {
    pub color: Color,
    pub piece: Option<PieceView>,
}

/// One square of the board: it has a shade and may hold a piece.
#[derive(Debug)]
pub struct Square {
    color: Color,
    piece: Option<Piece>,
}

impl View for Square {
    type V = SquareView;

    closed spec fn view(&self) -> SquareView {
        SquareView { color: self.color, piece: view_of(self.piece) }
    }
}

impl Clone for Square {
    fn clone(&self) -> (r: Self)
        ensures
            r@ == self@,
    {
        let piece = match &self.piece {
            Some(p) => Some(p.clone()),
            None => None,
        };
        Square { color: self.color, piece }
    }
}

impl Square {
    /// The shade of the square.
    pub fn color(&self) -> (c: Color)
        ensures
            c == self@.color,
    {
        self.color
    }

    /// Lifts the piece off the square and hands it out.
    pub fn take_piece(&mut self) -> (r: Option<Piece>)
        ensures
            view_of(r) == old(self)@.piece,
            final(self)@ == (SquareView { color: old(self)@.color, piece: None }),
        no_unwind
    {
        let mut taken: Option<Piece> = None;
        core::mem::swap(&mut self.piece, &mut taken);
        taken
    }

    /// The piece on the square.
    pub fn piece(&self) -> (r: Option<&Piece>)
        ensures
            view_of_ref(r) == self@.piece,
    {
        match &self.piece {
            Some(p) => Some(p),
            None => None,
        }
    }

    /// The piece on the square, to be changed in place.
    pub fn piece_mut(&mut self) -> (r: Option<&mut Piece>)
        ensures
            match r {
                Some(p) => old(self)@.piece == Some(p@) && final(self)@ == (SquareView {
                    color: old(self)@.color,
                    piece: Some(final(p)@),
                }),
                None => old(self)@.piece.is_none() && final(self)@ == old(self)@,
            },
    {
        match &mut self.piece {
            Some(p) => Some(p),
            None => None,
        }
    }

    /// Empties the square.
    pub fn clear(&mut self)
        ensures
            final(self)@ == (SquareView { color: old(self)@.color, piece: None }),
    {
        self.piece = None;
    }

    /// A square of the given shade with nothing on it.
    pub fn empty(color: Color) -> (s: Self)
        ensures
            s@ == (SquareView { color, piece: None }),
    {
        Self::new(color, None)
    }

    /// A square of the given shade with `piece` on it.
    pub fn occupied(color: Color, piece: Piece) -> (s: Self)
        ensures
            s@ == (SquareView { color, piece: Some(piece@) }),
    {
        Self::new(color, Some(piece))
    }

    pub fn new(color: Color, piece: Option<Piece>) -> (s: Self)
        ensures
            s@ == (SquareView { color, piece: view_of(piece) }),
    {
        Self { color, piece }
    }

    /// Puts `piece` on the square and hands out what stood there.
    pub fn set_piece(&mut self, piece: Piece) -> (r: Option<Piece>)
        ensures
            view_of(r) == old(self)@.piece,
            final(self)@ == (SquareView { color: old(self)@.color, piece: Some(piece@) }),
        no_unwind
    {
        let mut slot: Option<Piece> = Some(piece);
        core::mem::swap(&mut self.piece, &mut slot);
        slot
    }
}

} // verus!
