use vstd::prelude::*;

verus! {

/// One of the two sides.
#[derive(PartialEq, Eq, Clone, Copy, Debug, Structural)]
pub enum Color {
    Black,
    White,
}

impl Color {
    /// The other side.
    pub open spec fn other(self) -> Color {
        match self {
            Color::Black => Color::White,
            Color::White => Color::Black,
        }
    }

    /// The side that plays against `self`.
    pub fn opponent(&self) -> (r: Color)
        ensures
            r == self.other(),
    {
        match self {
            Color::Black => Color::White,
            Color::White => Color::Black,
        }
    }

    /// "Black" or "White".
    pub fn to_string(&self) -> (s: String)
        ensures
            s@ == self.name(),
    {
        match self {
            Color::Black => "Black".to_owned(),
            Color::White => "White".to_owned(),
        }
    }

    /// The English name of the side.
    pub open spec fn name(self) -> Seq<char> {
        match self {
            Color::Black => "Black"@,
            Color::White => "White"@,
        }
    }
}

} // verus!
