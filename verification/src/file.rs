use core::cmp::Ordering;
use vstd::prelude::*;
use vstd::std_specs::cmp::PartialOrdSpecImpl;

verus! {

/// A chess file (vertical line), `a` to `h`.
#[derive(Debug, Copy, Clone, PartialEq, Eq, Hash, Structural)]
pub enum File {
    A,
    B,
    C,
    D,
    E,
    F,
    G,
    H,
}

impl File {
    /// The number of the file: 1 for `a` up to 8 for `h`.
    pub open spec fn number(self) -> int {
        match self {
            File::A => 1,
            File::B => 2,
            File::C => 3,
            File::D => 4,
            File::E => 5,
            File::F => 6,
            File::G => 7,
            File::H => 8,
        }
    }

    /// The file with the given number, for the numbers 1 to 8.
    pub open spec fn of_number(n: int) -> Option<File> {
        if n == 1 {
            Some(File::A)
        } else if n == 2 {
            Some(File::B)
        } else if n == 3 {
            Some(File::C)
        } else if n == 4 {
            Some(File::D)
        } else if n == 5 {
            Some(File::E)
        } else if n == 6 {
            Some(File::F)
        } else if n == 7 {
            Some(File::G)
        } else if n == 8 {
            Some(File::H)
        } else {
            None
        }
    }

    /// The lower-case letter of the file.
    pub open spec fn letter(self) -> char {
        match self {
            File::A => 'a',
            File::B => 'b',
            File::C => 'c',
            File::D => 'd',
            File::E => 'e',
            File::F => 'f',
            File::G => 'g',
            File::H => 'h',
        }
    }

    /// The file that a letter names, in either case.
    pub open spec fn of_letter(c: char) -> Option<File> {
        if c == 'a' || c == 'A' {
            Some(File::A)
        } else if c == 'b' || c == 'B' {
            Some(File::B)
        } else if c == 'c' || c == 'C' {
            Some(File::C)
        } else if c == 'd' || c == 'D' {
            Some(File::D)
        } else if c == 'e' || c == 'E' {
            Some(File::E)
        } else if c == 'f' || c == 'F' {
            Some(File::F)
        } else if c == 'g' || c == 'G' {
            Some(File::G)
        } else if c == 'h' || c == 'H' {
            Some(File::H)
        } else {
            None
        }
    }

    /// `of_number` undoes `number`, and a file's number lies between 1 and 8.
    pub proof fn lemma_number_round_trip(self)
        ensures
            1 <= self.number() <= 8,
            File::of_number(self.number()) == Some(self),
    {
    }

    /// `of_number` yields a file exactly for 1 to 8, and that file has the number.
    pub proof fn lemma_of_number(n: int)
        ensures
            File::of_number(n).is_some() <==> 1 <= n <= 8,
            File::of_number(n).is_some() ==> File::of_number(n).unwrap().number() == n,
    {
    }

    /// The number of the file as a `u8`.
    pub fn to_u8(&self) -> (v: u8)
        ensures
            v == self.number(),
    {
        match self {
            File::A => 1,
            File::B => 2,
            File::C => 3,
            File::D => 4,
            File::E => 5,
            File::F => 6,
            File::G => 7,
            File::H => 8,
        }
    }

    /// The file with number `value`, or `None` outside 1 to 8.
    pub fn from_u8(value: u8) -> (r: Option<File>)
        ensures
            r == File::of_number(value as int),
    {
        match value {
            1 => Some(File::A),
            2 => Some(File::B),
            3 => Some(File::C),
            4 => Some(File::D),
            5 => Some(File::E),
            6 => Some(File::F),
            7 => Some(File::G),
            8 => Some(File::H),
            _ => None,
        }
    }

    /// The lower-case letter of the file.
    pub fn to_char(&self) -> (c: char)
        ensures
            c == self.letter(),
    {
        match self {
            File::A => 'a',
            File::B => 'b',
            File::C => 'c',
            File::D => 'd',
            File::E => 'e',
            File::F => 'f',
            File::G => 'g',
            File::H => 'h',
        }
    }

    /// The file named by `value`, upper or lower case.
    pub fn from_char(value: char) -> (r: Option<File>)
        ensures
            r == File::of_letter(value),
    {
        match value {
            'a' | 'A' => Some(File::A),
            'b' | 'B' => Some(File::B),
            'c' | 'C' => Some(File::C),
            'd' | 'D' => Some(File::D),
            'e' | 'E' => Some(File::E),
            'f' | 'F' => Some(File::F),
            'g' | 'G' => Some(File::G),
            'h' | 'H' => Some(File::H),
            _ => None,
        }
    }

    /// The file `delta` steps away (to the right when positive), or `None`
    /// when that leaves the board.
    pub fn shifted(&self, delta: i32) -> (r: Option<File>)
        ensures
            r == File::of_number(self.number() + delta),
    {
        let v: i64 = self.to_u8() as i64 + delta as i64;
        if 1 <= v && v <= 8 {
            File::from_u8(v as u8)
        } else {
            None
        }
    }

    /// The letter of the file as a string of one character.
    pub fn to_string(&self) -> (s: String)
        ensures
            s@ == seq![self.letter()],
    {
        proof {
            reveal_strlit("a");
            reveal_strlit("b");
            reveal_strlit("c");
            reveal_strlit("d");
            reveal_strlit("e");
            reveal_strlit("f");
            reveal_strlit("g");
            reveal_strlit("h");
        }
        let s = match self {
            File::A => "a".to_owned(),
            File::B => "b".to_owned(),
            File::C => "c".to_owned(),
            File::D => "d".to_owned(),
            File::E => "e".to_owned(),
            File::F => "f".to_owned(),
            File::G => "g".to_owned(),
            File::H => "h".to_owned(),
        };
        assert(s@ =~= seq![self.letter()]);
        s
    }
}

impl PartialOrdSpecImpl for File {
    open spec fn obeys_partial_cmp_spec() -> bool {
        true
    }

    open spec fn partial_cmp_spec(&self, other: &File) -> Option<Ordering> {
        if self.number() < other.number() {
            Some(Ordering::Less)
        } else if self.number() > other.number() {
            Some(Ordering::Greater)
        } else {
            Some(Ordering::Equal)
        }
    }
}

/// The files are ordered by their numbers.
impl PartialOrd for File {
    fn partial_cmp(&self, other: &File) -> (r: Option<Ordering>) {
        self.to_u8().partial_cmp(&other.to_u8())
    }
}

impl vstd::std_specs::ops::AddSpecImpl<u8> for File {
    open spec fn obeys_add_spec() -> bool {
        true
    }

    open spec fn add_req(self, rhs: u8) -> bool {
        true
    }

    open spec fn add_spec(self, rhs: u8) -> Option<File> {
        File::of_number(self.number() + rhs)
    }
}

/// `file + n` is the file `n` steps to the right, or `None` past `h`.
impl core::ops::Add<u8> for File {
    type Output = Option<File>;

    fn add(self, rhs: u8) -> (r: Option<File>) {
        let v: u8 = self.to_u8();
        match v.checked_add(rhs) {
            Some(w) => File::from_u8(w),
            None => None,
        }
    }
}

impl vstd::std_specs::ops::SubSpecImpl<u8> for File {
    open spec fn obeys_sub_spec() -> bool {
        true
    }

    open spec fn sub_req(self, rhs: u8) -> bool {
        true
    }

    open spec fn sub_spec(self, rhs: u8) -> Option<File> {
        File::of_number(self.number() - rhs)
    }
}

/// `file - n` is the file `n` steps to the left, or `None` past `a`.
impl core::ops::Sub<u8> for File {
    type Output = Option<File>;

    fn sub(self, rhs: u8) -> (r: Option<File>) {
        let v: u8 = self.to_u8();
        match v.checked_sub(rhs) {
            Some(w) => File::from_u8(w),
            None => None,
        }
    }
}

impl vstd::std_specs::convert::TryFromSpecImpl<u8> for File {
    open spec fn obeys_try_from_spec() -> bool {
        true
    }

    open spec fn try_from_spec(v: u8) -> Result<File, ()> {
        match File::of_number(v as int) {
            Some(f) => Ok(f),
            None => Err(()),
        }
    }
}

impl TryFrom<u8> for File {
    type Error = ();

    fn try_from(value: u8) -> (r: Result<File, ()>) {
        match File::from_u8(value) {
            Some(f) => Ok(f),
            None => Err(()),
        }
    }
}

impl vstd::std_specs::convert::TryFromSpecImpl<char> for File {
    open spec fn obeys_try_from_spec() -> bool {
        true
    }

    open spec fn try_from_spec(v: char) -> Result<File, ()> {
        match File::of_letter(v) {
            Some(f) => Ok(f),
            None => Err(()),
        }
    }
}

impl TryFrom<char> for File {
    type Error = ();

    fn try_from(value: char) -> (r: Result<File, ()>) {
        match File::from_char(value) {
            Some(f) => Ok(f),
            None => Err(()),
        }
    }
}

impl vstd::std_specs::convert::FromSpecImpl<&File> for u8 {
    open spec fn obeys_from_spec() -> bool {
        true
    }

    open spec fn from_spec(file: &File) -> u8 {
        file.number() as u8
    }
}

impl From<&File> for u8 {
    fn from(file: &File) -> (v: u8) {
        file.to_u8()
    }
}

impl vstd::std_specs::convert::FromSpecImpl<&File> for char {
    open spec fn obeys_from_spec() -> bool {
        true
    }

    open spec fn from_spec(file: &File) -> char {
        file.letter()
    }
}

impl From<&File> for char {
    fn from(file: &File) -> (c: char) {
        file.to_char()
    }
}

/// The files from number `from` up to `h`, in rising order; empty unless
/// `from` is the number of a file.
pub open spec fn files_upward(from: int) -> Seq<File> {
    if 1 <= from <= 8 {
        Seq::new((9 - from) as nat, |i: int| File::of_number(from + i).unwrap())
    } else {
        Seq::empty()
    }
}

/// The files from number `from` down to `a`, in falling order; empty unless
/// `from` is the number of a file.
pub open spec fn files_downward(from: int) -> Seq<File> {
    if 1 <= from <= 8 {
        Seq::new(from as nat, |i: int| File::of_number(from - i).unwrap())
    } else {
        Seq::empty()
    }
}

/// A cursor over the files, which can be stepped to the right (`next`) or to
/// the left (`next_back`).
#[derive(Debug, Clone, Copy)]
pub struct FileIter {
    current: u8,
}

impl View for FileIter {
    type V = int;

    /// The number of the file that the cursor stands on; 0 and 9 are the
    /// positions off the board to the left and to the right.
    closed spec fn view(&self) -> int {
        self.current as int
    }
}

impl FileIter {
    /// Start a new `FileIter` at `start`.
    pub fn start_at(start: File) -> (it: Self)
        ensures
            it@ == start.number(),
    {
        Self { current: start.to_u8() }
    }

    /// Yields the file under the cursor and moves the cursor one file to the
    /// right. Off the board it yields `None` and stays.
    pub fn next(&mut self) -> (r: Option<File>)
        ensures
            r == File::of_number(old(self)@),
            final(self)@ == if r.is_some() {
                old(self)@ + 1
            } else {
                old(self)@
            },
    {
        match File::from_u8(self.current) {
            Some(f) => {
                self.current = self.current + 1;
                Some(f)
            },
            None => None,
        }
    }

    /// Yields the file under the cursor and moves the cursor one file to the
    /// left. Off the board it yields `None` and stays.
    pub fn next_back(&mut self) -> (r: Option<File>)
        ensures
            r == File::of_number(old(self)@),
            final(self)@ == if r.is_some() {
                old(self)@ - 1
            } else {
                old(self)@
            },
    {
        match File::from_u8(self.current) {
            Some(f) => {
                self.current = self.current - 1;
                Some(f)
            },
            None => None,
        }
    }

    /// All files from the cursor to `h`, in rising order.
    pub fn collect(self) -> (v: Vec<File>)
        ensures
            v@ == files_upward(self@),
    {
        let mut it = self;
        let mut v: Vec<File> = Vec::new();
        let ghost start: int = self@;
        if it.current < 1 || it.current > 8 {
            return v;
        }
        loop
            invariant
                1 <= start <= 8,
                start <= it@ <= 9,
                v@.len() == it@ - start,
                forall|i: int| 0 <= i < v@.len() ==> v@[i] == File::of_number(start + i).unwrap(),
            ensures
                it@ == 9,
            decreases 9 - it@,
        {
            match it.next() {
                Some(f) => {
                    v.push(f);
                },
                None => {
                    break ;
                },
            }
        }
        assert(v@ =~= files_upward(start));
        v
    }

    /// All files from the cursor down to `a`, in falling order.
    pub fn collect_rev(self) -> (v: Vec<File>)
        ensures
            v@ == files_downward(self@),
    {
        let mut it = self;
        let mut v: Vec<File> = Vec::new();
        let ghost start: int = self@;
        if it.current < 1 || it.current > 8 {
            return v;
        }
        loop
            invariant
                1 <= start <= 8,
                0 <= it@ <= start,
                v@.len() == start - it@,
                forall|i: int| 0 <= i < v@.len() ==> v@[i] == File::of_number(start - i).unwrap(),
            ensures
                it@ == 0,
            decreases it@,
        {
            match it.next_back() {
                Some(f) => {
                    v.push(f);
                },
                None => {
                    break ;
                },
            }
        }
        assert(v@ =~= files_downward(start));
        v
    }
}

} // verus!
