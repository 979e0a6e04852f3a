use core::cmp::Ordering;
use vstd::prelude::*;
use vstd::std_specs::cmp::PartialOrdSpecImpl;
use crate::file::File;
use crate::rank::Rank;
use crate::text::push_char;

verus! {

/// A square of the board, named by its file and its rank.
#[derive(Copy, Clone, PartialEq, Debug, Eq, Hash, Structural)]
pub struct ChessIndex(pub File, pub Rank);

impl ChessIndex {
    /// The place of the square in the board's storage: rank by rank from the
    /// first, and within a rank from file `a`.
    pub open spec fn linear(self) -> int {
        8 * (self.1.number() - 1) + (self.0.number() - 1)
    }

    /// The square with file number `f` and rank number `r`, if both lie on the
    /// board.
    pub open spec fn of_numbers(f: int, r: int) -> Option<ChessIndex> {
        match (File::of_number(f), Rank::of_number(r)) {
            (Some(file), Some(rank)) => Some(ChessIndex(file, rank)),
            _ => None,
        }
    }

    /// The square `df` files to the right and `dr` ranks up, if it lies on the
    /// board.
    pub open spec fn shift(self, df: int, dr: int) -> Option<ChessIndex> {
        ChessIndex::of_numbers(self.0.number() + df, self.1.number() + dr)
    }

    /// The square with the given place in the board's storage.
    pub open spec fn of_linear(i: int) -> ChessIndex
        recommends
            0 <= i < 64,
    {
        ChessIndex(File::of_number(i % 8 + 1).unwrap(), Rank::of_number(i / 8 + 1).unwrap())
    }

    /// The squares of the straight line from `from` to `to`, both included, in
    /// the order in which one walks it. Empty when the two squares share
    /// neither file nor rank.
    pub open spec fn between(from: ChessIndex, to: ChessIndex) -> Seq<ChessIndex> {
        if from.0 == to.0 {
            let a = from.1.number();
            let b = to.1.number();
            if a <= b {
                Seq::new(
                    (b - a + 1) as nat,
                    |i: int| ChessIndex(from.0, Rank::of_number(a + i).unwrap()),
                )
            } else {
                Seq::new(
                    (a - b + 1) as nat,
                    |i: int| ChessIndex(from.0, Rank::of_number(a - i).unwrap()),
                )
            }
        } else if from.1 == to.1 {
            let a = from.0.number();
            let b = to.0.number();
            if a <= b {
                Seq::new(
                    (b - a + 1) as nat,
                    |i: int| ChessIndex(File::of_number(a + i).unwrap(), from.1),
                )
            } else {
                Seq::new(
                    (a - b + 1) as nat,
                    |i: int| ChessIndex(File::of_number(a - i).unwrap(), from.1),
                )
            }
        } else {
            Seq::empty()
        }
    }

    /// What a two-character coordinate such as `e2` names: a file letter in
    /// either case, then a rank digit.
    pub open spec fn parsed(text: Seq<char>) -> Result<ChessIndex, ParseChessIndexError> {
        if text.len() != 2 {
            Err(ParseChessIndexError::LengthNot2)
        } else {
            match File::of_letter(text[0]) {
                None => Err(ParseChessIndexError::InvalidFile(text[0])),
                Some(file) => match Rank::of_digit(text[1]) {
                    None => Err(ParseChessIndexError::InvalidRank(text[1])),
                    Some(rank) => Ok(ChessIndex(file, rank)),
                },
            }
        }
    }

    /// The coordinate of the square: file letter, then rank digit.
    pub open spec fn text(self) -> Seq<char> {
        seq![self.0.letter(), self.1.digit()]
    }

    /// A square's place lies within the 64 of the board, and `of_linear`
    /// leads back from the place to the square.
    pub proof fn lemma_linear(self)
        ensures
            0 <= self.linear() < 64,
            ChessIndex::of_linear(self.linear()) == self,
    {
    }

    /// Two squares with the same place are the same square.
    pub proof fn lemma_linear_injective(a: ChessIndex, b: ChessIndex)
        requires
            a.linear() == b.linear(),
        ensures
            a == b,
    {
        a.lemma_linear();
        b.lemma_linear();
    }

    pub fn new(file: File, rank: Rank) -> (idx: Self)
        ensures
            idx == ChessIndex(file, rank),
    {
        Self(file, rank)
    }

    /// The place of the square in the board's storage, `8 * (rank - 1) + (file - 1)`.
    pub fn linear_value(&self) -> (i: usize)
        ensures
            i == self.linear(),
            i < 64,
    {
        (8 * (self.1.to_u8() - 1) + (self.0.to_u8() - 1)) as usize
    }

    pub fn rank(&self) -> (r: Rank)
        ensures
            r == self.1,
    {
        self.1
    }

    pub fn file(&self) -> (f: File)
        ensures
            f == self.0,
    {
        self.0
    }

    /// The square `file_offset` files to the right and `rank_offset` ranks up,
    /// or `None` when that square is off the board.
    pub fn offset(&self, file_offset: i32, rank_offset: i32) -> (r: Option<ChessIndex>)
        ensures
            r == self.shift(file_offset as int, rank_offset as int),
    {
        match (self.0.shifted(file_offset), self.1.shifted(rank_offset)) {
            (Some(f), Some(r)) => Some(ChessIndex(f, r)),
            _ => None,
        }
    }

    /// The squares on the straight line from `from` to `to`, both included.
    /// Empty when the squares share neither file nor rank.
    pub fn indices_between(from: ChessIndex, to: ChessIndex) -> (v: Vec<ChessIndex>)
        ensures
            v@ == ChessIndex::between(from, to),
    {
        let mut v: Vec<ChessIndex> = Vec::new();
        if from.0 == to.0 {
            let a: u8 = from.1.to_u8();
            let b: u8 = to.1.to_u8();
            let file = from.0;
            if a <= b {
                let mut k: u8 = a;
                while k <= b
                    invariant
                        1 <= a <= k <= b + 1,
                        b <= 8,
                        v@.len() == k - a,
                        forall|i: int|
                            0 <= i < v@.len() ==> v@[i] == ChessIndex(
                                file,
                                Rank::of_number(a + i).unwrap(),
                            ),
                    decreases b + 1 - k,
                {
                    match Rank::from_u8(k) {
                        Some(r) => v.push(ChessIndex(file, r)),
                        None => {},
                    }
                    k = k + 1;
                }
            } else {
                let mut k: u8 = a;
                while k >= b
                    invariant
                        1 <= b,
                        b - 1 <= k <= a <= 8,
                        v@.len() == a - k,
                        forall|i: int|
                            0 <= i < v@.len() ==> v@[i] == ChessIndex(
                                file,
                                Rank::of_number(a - i).unwrap(),
                            ),
                    decreases k,
                {
                    match Rank::from_u8(k) {
                        Some(r) => v.push(ChessIndex(file, r)),
                        None => {},
                    }
                    k = k - 1;
                }
            }
            assert(v@ =~= ChessIndex::between(from, to));
        } else if from.1 == to.1 {
            let a: u8 = from.0.to_u8();
            let b: u8 = to.0.to_u8();
            let rank = from.1;
            if a <= b {
                let mut k: u8 = a;
                while k <= b
                    invariant
                        1 <= a <= k <= b + 1,
                        b <= 8,
                        v@.len() == k - a,
                        forall|i: int|
                            0 <= i < v@.len() ==> v@[i] == ChessIndex(
                                File::of_number(a + i).unwrap(),
                                rank,
                            ),
                    decreases b + 1 - k,
                {
                    match File::from_u8(k) {
                        Some(f) => v.push(ChessIndex(f, rank)),
                        None => {},
                    }
                    k = k + 1;
                }
            } else {
                let mut k: u8 = a;
                while k >= b
                    invariant
                        1 <= b,
                        b - 1 <= k <= a <= 8,
                        v@.len() == a - k,
                        forall|i: int|
                            0 <= i < v@.len() ==> v@[i] == ChessIndex(
                                File::of_number(a - i).unwrap(),
                                rank,
                            ),
                    decreases k,
                {
                    match File::from_u8(k) {
                        Some(f) => v.push(ChessIndex(f, rank)),
                        None => {},
                    }
                    k = k - 1;
                }
            }
            assert(v@ =~= ChessIndex::between(from, to));
        }
        v
    }

    /// Reads a coordinate such as `e2` or `E2`. A text that is not two
    /// characters long is refused as `LengthNot2`, a first character that is
    /// no file letter as `InvalidFile`, a second that is no rank digit as
    /// `InvalidRank`; the file is looked at first.
    pub fn parse(s: &str) -> (r: Result<ChessIndex, ParseChessIndexError>)
        ensures
            r == ChessIndex::parsed(s@),
    {
        if s.unicode_len() != 2 {
            return Err(ParseChessIndexError::LengthNot2);
        }
        let file_char = s.get_char(0);
        let file = match File::from_char(file_char) {
            Some(f) => f,
            None => {
                return Err(ParseChessIndexError::InvalidFile(file_char));
            },
        };
        let rank_char = s.get_char(1);
        let rank = match Rank::from_char(rank_char) {
            Some(r) => r,
            None => {
                return Err(ParseChessIndexError::InvalidRank(rank_char));
            },
        };
        Ok(ChessIndex(file, rank))
    }

    /// The coordinate of the square, such as `e2`.
    pub fn to_string(&self) -> (s: String)
        ensures
            s@ == self.text(),
    {
        let mut s = String::new();
        push_char(&mut s, self.0.to_char());
        push_char(&mut s, self.1.to_char());
        assert(s@ =~= self.text());
        s
    }
}

impl PartialOrdSpecImpl for ChessIndex {
    open spec fn obeys_partial_cmp_spec() -> bool {
        true
    }

    open spec fn partial_cmp_spec(&self, other: &ChessIndex) -> Option<Ordering> {
        if self.0.number() < other.0.number() {
            Some(Ordering::Less)
        } else if self.0.number() > other.0.number() {
            Some(Ordering::Greater)
        } else if self.1.number() < other.1.number() {
            Some(Ordering::Less)
        } else if self.1.number() > other.1.number() {
            Some(Ordering::Greater)
        } else {
            Some(Ordering::Equal)
        }
    }
}

/// The squares are ordered by file, and within a file by rank.
impl PartialOrd for ChessIndex {
    fn partial_cmp(&self, other: &ChessIndex) -> (r: Option<Ordering>) {
        match self.0.partial_cmp(&other.0) {
            Some(Ordering::Equal) => self.1.partial_cmp(&other.1),
            ordering => ordering,
        }
    }
}

impl vstd::std_specs::convert::FromSpecImpl<(File, Rank)> for ChessIndex {
    open spec fn obeys_from_spec() -> bool {
        true
    }

    open spec fn from_spec(pair: (File, Rank)) -> ChessIndex {
        ChessIndex(pair.0, pair.1)
    }
}

impl From<(File, Rank)> for ChessIndex {
    fn from(pair: (File, Rank)) -> (idx: ChessIndex) {
        ChessIndex(pair.0, pair.1)
    }
}

impl vstd::std_specs::convert::TryFromSpecImpl<(i32, i32)> for ChessIndex {
    open spec fn obeys_try_from_spec() -> bool {
        true
    }

    open spec fn try_from_spec(pair: (i32, i32)) -> Result<ChessIndex, ()> {
        match ChessIndex::of_numbers(pair.0 as int, pair.1 as int) {
            Some(idx) => Ok(idx),
            None => Err(()),
        }
    }
}

/// The square with the given file number and rank number.
impl TryFrom<(i32, i32)> for ChessIndex {
    type Error = ();

    fn try_from(pair: (i32, i32)) -> (r: Result<ChessIndex, ()>) {
        let file = pair.0;
        let rank = pair.1;
        if 1 <= file && file <= 8 && 1 <= rank && rank <= 8 {
            match (File::from_u8(file as u8), Rank::from_u8(rank as u8)) {
                (Some(f), Some(r)) => Ok(ChessIndex(f, r)),
                _ => Err(()),
            }
        } else {
            Err(())
        }
    }
}

impl core::str::FromStr for ChessIndex {
    type Err = ParseChessIndexError;

    fn from_str(s: &str) -> (r: Result<ChessIndex, ParseChessIndexError>)
        ensures
            r == ChessIndex::parsed(s@),
    {
        ChessIndex::parse(s)
    }
}

/// Why a text names no square.
#[derive(Debug, Copy, Clone, PartialEq, Eq, Structural)]
pub enum ParseChessIndexError {
    /// The text is not two characters long.
    LengthNot2,
    /// The first character, which it carries, is no file letter.
    InvalidFile(char),
    /// The second character, which it carries, is no rank digit.
    InvalidRank(char),
}

impl ParseChessIndexError {
    /// The message for the error; it quotes the offending character.
    pub open spec fn message(self) -> Seq<char> {
        match self {
            ParseChessIndexError::LengthNot2 => "format should be 'xy', x: file, y: rank"@,
            ParseChessIndexError::InvalidFile(c) => "invalid file: '"@.push(c).push('\''),
            ParseChessIndexError::InvalidRank(c) => "invalid rank: '"@.push(c).push('\''),
        }
    }

    /// The message for the error.
    pub fn to_string(&self) -> (s: String)
        ensures
            s@ == self.message(),
    {
        match self {
            ParseChessIndexError::LengthNot2 => {
                "format should be 'xy', x: file, y: rank".to_owned()
            },
            ParseChessIndexError::InvalidFile(c) => {
                let mut s = "invalid file: '".to_owned();
                push_char(&mut s, *c);
                push_char(&mut s, '\'');
                s
            },
            ParseChessIndexError::InvalidRank(c) => {
                let mut s = "invalid rank: '".to_owned();
                push_char(&mut s, *c);
                push_char(&mut s, '\'');
                s
            },
        }
    }
}

} // verus!
