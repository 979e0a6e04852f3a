use core::cmp::Ordering;
use vstd::prelude::*;
use vstd::std_specs::cmp::PartialOrdSpecImpl;
use crate::color::Color;

verus! {

/// A chess rank (horizontal line), 1 to 8.
#[derive(Debug, Copy, Clone, PartialEq, Eq, Hash, Structural)]
pub enum Rank {
    First,
    Second,
    Third,
    Fourth,
    Fifth,
    Sixth,
    Seventh,
    Eighth,
}

impl Rank {
    /// The number of the rank, 1 to 8.
    pub open spec fn number(self) -> int {
        match self {
            Rank::First => 1,
            Rank::Second => 2,
            Rank::Third => 3,
            Rank::Fourth => 4,
            Rank::Fifth => 5,
            Rank::Sixth => 6,
            Rank::Seventh => 7,
            Rank::Eighth => 8,
        }
    }

    /// The rank with the given number, for the numbers 1 to 8.
    pub open spec fn of_number(n: int) -> Option<Rank> {
        if n == 1 {
            Some(Rank::First)
        } else if n == 2 {
            Some(Rank::Second)
        } else if n == 3 {
            Some(Rank::Third)
        } else if n == 4 {
            Some(Rank::Fourth)
        } else if n == 5 {
            Some(Rank::Fifth)
        } else if n == 6 {
            Some(Rank::Sixth)
        } else if n == 7 {
            Some(Rank::Seventh)
        } else if n == 8 {
            Some(Rank::Eighth)
        } else {
            None
        }
    }

    /// The digit of the rank.
    pub open spec fn digit(self) -> char {
        match self {
            Rank::First => '1',
            Rank::Second => '2',
            Rank::Third => '3',
            Rank::Fourth => '4',
            Rank::Fifth => '5',
            Rank::Sixth => '6',
            Rank::Seventh => '7',
            Rank::Eighth => '8',
        }
    }

    /// The rank that a digit names.
    pub open spec fn of_digit(c: char) -> Option<Rank> {
        if c == '1' {
            Some(Rank::First)
        } else if c == '2' {
            Some(Rank::Second)
        } else if c == '3' {
            Some(Rank::Third)
        } else if c == '4' {
            Some(Rank::Fourth)
        } else if c == '5' {
            Some(Rank::Fifth)
        } else if c == '6' {
            Some(Rank::Sixth)
        } else if c == '7' {
            Some(Rank::Seventh)
        } else if c == '8' {
            Some(Rank::Eighth)
        } else {
            None
        }
    }

    /// `of_number` undoes `number`, and a rank's number lies between 1 and 8.
    pub proof fn lemma_number_round_trip(self)
        ensures
            1 <= self.number() <= 8,
            Rank::of_number(self.number()) == Some(self),
    {
    }

    /// `of_number` yields a rank exactly for 1 to 8, and that rank has the number.
    pub proof fn lemma_of_number(n: int)
        ensures
            Rank::of_number(n).is_some() <==> 1 <= n <= 8,
            Rank::of_number(n).is_some() ==> Rank::of_number(n).unwrap().number() == n,
    {
    }

    /// Whether pawns of `color` start the game on this rank.
    pub open spec fn pawn_start(self, color: Color) -> bool {
        (self == Rank::Second && color == Color::White) || (self == Rank::Seventh && color
            == Color::Black)
    }

    /// Whether a pawn of `color` on this rank promotes with its next step.
    pub open spec fn pawn_promotes(self, color: Color) -> bool {
        (self == Rank::Second && color == Color::Black) || (self == Rank::Seventh && color
            == Color::White)
    }

    /// Whether a pawn of `color` on this rank can take en passant: the rank
    /// three steps ahead of its starting rank.
    pub open spec fn en_passant(self, color: Color) -> bool {
        (self == Rank::Fifth && color == Color::White) || (self == Rank::Fourth && color
            == Color::Black)
    }

    /// Whether pawns of `color` start the game on this rank.
    pub fn is_pawn_starting_rank(&self, color: Color) -> (b: bool)
        ensures
            b == self.pawn_start(color),
    {
        match (self, color) {
            (Rank::Second, Color::White) => true,
            (Rank::Seventh, Color::Black) => true,
            _ => false,
        }
    }

    /// Whether a pawn of `color` on this rank reaches its last rank with one
    /// step forward.
    pub fn is_pawn_promotion_rank(&self, color: Color) -> (b: bool)
        ensures
            b == self.pawn_promotes(color),
    {
        match (self, color) {
            (Rank::Second, Color::Black) => true,
            (Rank::Seventh, Color::White) => true,
            _ => false,
        }
    }

    /// Whether a pawn of `color` on this rank stands where it can take en
    /// passant.
    pub fn is_en_passant_rank(&self, color: Color) -> (b: bool)
        ensures
            b == self.en_passant(color),
    {
        match (self, color) {
            (Rank::Fifth, Color::White) => true,
            (Rank::Fourth, Color::Black) => true,
            _ => false,
        }
    }

    /// The number of the rank as a `u8`.
    pub fn to_u8(&self) -> (v: u8)
        ensures
            v == self.number(),
    {
        match self {
            Rank::First => 1,
            Rank::Second => 2,
            Rank::Third => 3,
            Rank::Fourth => 4,
            Rank::Fifth => 5,
            Rank::Sixth => 6,
            Rank::Seventh => 7,
            Rank::Eighth => 8,
        }
    }

    /// The rank with number `value`, or `None` outside 1 to 8.
    pub fn from_u8(value: u8) -> (r: Option<Rank>)
        ensures
            r == Rank::of_number(value as int),
    {
        match value {
            1 => Some(Rank::First),
            2 => Some(Rank::Second),
            3 => Some(Rank::Third),
            4 => Some(Rank::Fourth),
            5 => Some(Rank::Fifth),
            6 => Some(Rank::Sixth),
            7 => Some(Rank::Seventh),
            8 => Some(Rank::Eighth),
            _ => None,
        }
    }

    /// The digit of the rank.
    pub fn to_char(&self) -> (c: char)
        ensures
            c == self.digit(),
    {
        match self {
            Rank::First => '1',
            Rank::Second => '2',
            Rank::Third => '3',
            Rank::Fourth => '4',
            Rank::Fifth => '5',
            Rank::Sixth => '6',
            Rank::Seventh => '7',
            Rank::Eighth => '8',
        }
    }

    /// The rank named by the digit `value`.
    pub fn from_char(value: char) -> (r: Option<Rank>)
        ensures
            r == Rank::of_digit(value),
    {
        match value {
            '1' => Some(Rank::First),
            '2' => Some(Rank::Second),
            '3' => Some(Rank::Third),
            '4' => Some(Rank::Fourth),
            '5' => Some(Rank::Fifth),
            '6' => Some(Rank::Sixth),
            '7' => Some(Rank::Seventh),
            '8' => Some(Rank::Eighth),
            _ => None,
        }
    }

    /// The rank `delta` steps away (upward when positive), or `None` when that
    /// leaves the board.
    pub fn shifted(&self, delta: i32) -> (r: Option<Rank>)
        ensures
            r == Rank::of_number(self.number() + delta),
    {
        let v: i64 = self.to_u8() as i64 + delta as i64;
        if 1 <= v && v <= 8 {
            Rank::from_u8(v as u8)
        } else {
            None
        }
    }

    /// The digit of the rank as a string of one character.
    pub fn to_string(&self) -> (s: String)
        ensures
            s@ == seq![self.digit()],
    {
        proof {
            reveal_strlit("1");
            reveal_strlit("2");
            reveal_strlit("3");
            reveal_strlit("4");
            reveal_strlit("5");
            reveal_strlit("6");
            reveal_strlit("7");
            reveal_strlit("8");
        }
        let s = match self {
            Rank::First => "1".to_owned(),
            Rank::Second => "2".to_owned(),
            Rank::Third => "3".to_owned(),
            Rank::Fourth => "4".to_owned(),
            Rank::Fifth => "5".to_owned(),
            Rank::Sixth => "6".to_owned(),
            Rank::Seventh => "7".to_owned(),
            Rank::Eighth => "8".to_owned(),
        };
        assert(s@ =~= seq![self.digit()]);
        s
    }
}

impl PartialOrdSpecImpl for Rank {
    open spec fn obeys_partial_cmp_spec() -> bool {
        true
    }

    open spec fn partial_cmp_spec(&self, other: &Rank) -> Option<Ordering> {
        if self.number() < other.number() {
            Some(Ordering::Less)
        } else if self.number() > other.number() {
            Some(Ordering::Greater)
        } else {
            Some(Ordering::Equal)
        }
    }
}

/// The ranks are ordered by their numbers.
impl PartialOrd for Rank {
    fn partial_cmp(&self, other: &Rank) -> (r: Option<Ordering>) {
        self.to_u8().partial_cmp(&other.to_u8())
    }
}

impl vstd::std_specs::ops::AddSpecImpl<u8> for Rank {
    open spec fn obeys_add_spec() -> bool {
        true
    }

    open spec fn add_req(self, rhs: u8) -> bool {
        true
    }

    open spec fn add_spec(self, rhs: u8) -> Option<Rank> {
        Rank::of_number(self.number() + rhs)
    }
}

/// `rank + n` is the rank `n` steps up, or `None` past the eighth.
impl core::ops::Add<u8> for Rank {
    type Output = Option<Rank>;

    fn add(self, rhs: u8) -> (r: Option<Rank>) {
        let v: u8 = self.to_u8();
        match v.checked_add(rhs) {
            Some(w) => Rank::from_u8(w),
            None => None,
        }
    }
}

impl vstd::std_specs::ops::SubSpecImpl<u8> for Rank {
    open spec fn obeys_sub_spec() -> bool {
        true
    }

    open spec fn sub_req(self, rhs: u8) -> bool {
        true
    }

    open spec fn sub_spec(self, rhs: u8) -> Option<Rank> {
        Rank::of_number(self.number() - rhs)
    }
}

/// `rank - n` is the rank `n` steps down, or `None` past the first.
impl core::ops::Sub<u8> for Rank {
    type Output = Option<Rank>;

    fn sub(self, rhs: u8) -> (r: Option<Rank>) {
        let v: u8 = self.to_u8();
        match v.checked_sub(rhs) {
            Some(w) => Rank::from_u8(w),
            None => None,
        }
    }
}

impl vstd::std_specs::convert::TryFromSpecImpl<u8> for Rank {
    open spec fn obeys_try_from_spec() -> bool {
        true
    }

    open spec fn try_from_spec(v: u8) -> Result<Rank, ()> {
        match Rank::of_number(v as int) {
            Some(f) => Ok(f),
            None => Err(()),
        }
    }
}

impl TryFrom<u8> for Rank {
    type Error = ();

    fn try_from(value: u8) -> (r: Result<Rank, ()>) {
        match Rank::from_u8(value) {
            Some(f) => Ok(f),
            None => Err(()),
        }
    }
}

impl vstd::std_specs::convert::TryFromSpecImpl<char> for Rank {
    open spec fn obeys_try_from_spec() -> bool {
        true
    }

    open spec fn try_from_spec(v: char) -> Result<Rank, ()> {
        match Rank::of_digit(v) {
            Some(f) => Ok(f),
            None => Err(()),
        }
    }
}

impl TryFrom<char> for Rank {
    type Error = ();

    fn try_from(value: char) -> (r: Result<Rank, ()>) {
        match Rank::from_char(value) {
            Some(f) => Ok(f),
            None => Err(()),
        }
    }
}

impl vstd::std_specs::convert::FromSpecImpl<&Rank> for u8 {
    open spec fn obeys_from_spec() -> bool {
        true
    }

    open spec fn from_spec(rank: &Rank) -> u8 {
        rank.number() as u8
    }
}

impl From<&Rank> for u8 {
    fn from(rank: &Rank) -> (v: u8) {
        rank.to_u8()
    }
}

impl vstd::std_specs::ops::AddSpecImpl<i32> for Rank {
    open spec fn obeys_add_spec() -> bool {
        true
    }

    open spec fn add_req(self, rhs: i32) -> bool {
        true
    }

    open spec fn add_spec(self, rhs: i32) -> Option<Rank> {
        Rank::of_number(self.number() + rhs)
    }
}

/// `rank + n` for a signed `n`: upward when positive, downward when negative,
/// `None` off the board.
impl core::ops::Add<i32> for Rank {
    type Output = Option<Rank>;

    fn add(self, rhs: i32) -> (r: Option<Rank>) {
        self.shifted(rhs)
    }
}

impl vstd::std_specs::convert::TryFromSpecImpl<i32> for Rank {
    open spec fn obeys_try_from_spec() -> bool {
        true
    }

    open spec fn try_from_spec(v: i32) -> Result<Rank, ()> {
        match Rank::of_number(v as int) {
            Some(r) => Ok(r),
            None => Err(()),
        }
    }
}

impl TryFrom<i32> for Rank {
    type Error = ();

    fn try_from(value: i32) -> (r: Result<Rank, ()>) {
        if 1 <= value && value <= 8 {
            match Rank::from_u8(value as u8) {
                Some(r) => Ok(r),
                None => Err(()),
            }
        } else {
            Err(())
        }
    }
}

impl vstd::std_specs::convert::FromSpecImpl<&Rank> for i32 {
    open spec fn obeys_from_spec() -> bool {
        true
    }

    open spec fn from_spec(rank: &Rank) -> i32 {
        rank.number() as i32
    }
}

impl From<&Rank> for i32 {
    fn from(rank: &Rank) -> (v: i32) {
        rank.to_u8() as i32
    }
}

/// The ranks from number `from` up to the eighth, in rising order; empty
/// unless `from` is the number of a rank.
pub open spec fn ranks_upward(from: int) -> Seq<Rank> {
    if 1 <= from <= 8 {
        Seq::new((9 - from) as nat, |i: int| Rank::of_number(from + i).unwrap())
    } else {
        Seq::empty()
    }
}

/// The ranks from number `from` down to the first, in falling order; empty
/// unless `from` is the number of a rank.
pub open spec fn ranks_downward(from: int) -> Seq<Rank> {
    if 1 <= from <= 8 {
        Seq::new(from as nat, |i: int| Rank::of_number(from - i).unwrap())
    } else {
        Seq::empty()
    }
}

/// A cursor over the ranks, which can be stepped upward (`next`) or downward
/// (`next_back`).
#[derive(Debug, Clone, Copy)]
pub struct RankIter {
    current: u8,
}

impl View for RankIter {
    type V = int;

    /// The number of the rank that the cursor stands on; 0 and 9 are the
    /// positions off the board below and above.
    closed spec fn view(&self) -> int {
        self.current as int
    }
}

impl RankIter {
    /// Start a new `RankIter` at `start`.
    pub fn start_at(start: Rank) -> (it: Self)
        ensures
            it@ == start.number(),
    {
        Self { current: start.to_u8() }
    }

    /// Yields the rank under the cursor and moves the cursor one rank up. Off
    /// the board it yields `None` and stays.
    pub fn next(&mut self) -> (r: Option<Rank>)
        ensures
            r == Rank::of_number(old(self)@),
            final(self)@ == if r.is_some() {
                old(self)@ + 1
            } else {
                old(self)@
            },
    {
        match Rank::from_u8(self.current) {
            Some(f) => {
                self.current = self.current + 1;
                Some(f)
            },
            None => None,
        }
    }

    /// Yields the rank under the cursor and moves the cursor one rank down.
    /// Off the board it yields `None` and stays.
    pub fn next_back(&mut self) -> (r: Option<Rank>)
        ensures
            r == Rank::of_number(old(self)@),
            final(self)@ == if r.is_some() {
                old(self)@ - 1
            } else {
                old(self)@
            },
    {
        match Rank::from_u8(self.current) {
            Some(f) => {
                self.current = self.current - 1;
                Some(f)
            },
            None => None,
        }
    }

    /// All ranks from the cursor to the eighth, in rising order.
    pub fn collect(self) -> (v: Vec<Rank>)
        ensures
            v@ == ranks_upward(self@),
    {
        let mut it = self;
        let mut v: Vec<Rank> = Vec::new();
        let ghost start: int = self@;
        if it.current < 1 || it.current > 8 {
            return v;
        }
        loop
            invariant
                1 <= start <= 8,
                start <= it@ <= 9,
                v@.len() == it@ - start,
                forall|i: int| 0 <= i < v@.len() ==> v@[i] == Rank::of_number(start + i).unwrap(),
            ensures
                it@ == 9,
            decreases 9 - it@,
        {
            match it.next() {
                Some(f) => {
                    v.push(f);
                },
                None => {
                    break ;
                },
            }
        }
        assert(v@ =~= ranks_upward(start));
        v
    }

    /// All ranks from the cursor down to the first, in falling order.
    pub fn collect_rev(self) -> (v: Vec<Rank>)
        ensures
            v@ == ranks_downward(self@),
    {
        let mut it = self;
        let mut v: Vec<Rank> = Vec::new();
        let ghost start: int = self@;
        if it.current < 1 || it.current > 8 {
            return v;
        }
        loop
            invariant
                1 <= start <= 8,
                0 <= it@ <= start,
                v@.len() == start - it@,
                forall|i: int| 0 <= i < v@.len() ==> v@[i] == Rank::of_number(start - i).unwrap(),
            ensures
                it@ == 0,
            decreases it@,
        {
            match it.next_back() {
                Some(f) => {
                    v.push(f);
                },
                None => {
                    break ;
                },
            }
        }
        assert(v@ =~= ranks_downward(start));
        v
    }
}

} // verus!
