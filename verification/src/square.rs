//! The two players and the nine board positions.

use vstd::prelude::*;
use vstd::string::StrSliceExecFns;

verus! {

/// One of the two participants. X always moves first.
#[derive(Clone, Copy, PartialEq, Eq, Structural, Debug)]
pub enum Player {
    X,
    O,
}

impl Player {
    /// The player who moves after this one.
    pub open spec fn next_spec(self) -> Player {
        match self {
            Player::X => Player::O,
            Player::O => Player::X,
        }
    }

    pub fn next(&self) -> (p: Player)
        ensures
            p == self.next_spec(),
    {
        match self {
            Player::X => Player::O,
            Player::O => Player::X,
        }
    }

    /// The player whose turn it is after `turn` completed moves: X on even
    /// turns, O on odd turns.
    pub open spec fn for_turn_spec(turn: int) -> Player {
        if turn % 2 == 0 {
            Player::X
        } else {
            Player::O
        }
    }

    pub fn for_turn(turn: u64) -> (p: Player)
        ensures
            p == Player::for_turn_spec(turn as int),
    {
        if turn % 2 == 0 {
            Player::X
        } else {
            Player::O
        }
    }
}

/// Turn order alternates strictly X, O, X, O, ...: X takes the first turn,
/// and the player of each turn is followed by the other player on the turn
/// after it.
pub proof fn lemma_turn_alternation(turn: nat)
    ensures
        Player::for_turn_spec(0) == Player::X,
        Player::for_turn_spec(turn as int + 1) == Player::for_turn_spec(turn as int).next_spec(),
{
}

/// One of the nine fixed board positions, labelled A through I, arranged
/// row-major on the 3x3 grid.
#[derive(Clone, Copy, PartialEq, Eq, Structural, Debug)]
pub enum Square {
    A,
    B,
    C,
    D,
    E,
    F,
    G,
    H,
    I,
}

impl Square {
    /// Row-major position of the square on the grid: A is 0, I is 8.
    pub open spec fn idx_spec(self) -> int {
        match self {
            Square::A => 0,
            Square::B => 1,
            Square::C => 2,
            Square::D => 3,
            Square::E => 4,
            Square::F => 5,
            Square::G => 6,
            Square::H => 7,
            Square::I => 8,
        }
    }

    pub fn idx(self) -> (i: usize)
        ensures
            i == self.idx_spec(),
    {
        match self {
            Square::A => 0,
            Square::B => 1,
            Square::C => 2,
            Square::D => 3,
            Square::E => 4,
            Square::F => 5,
            Square::G => 6,
            Square::H => 7,
            Square::I => 8,
        }
    }

    /// The square at a given row-major position.
    pub open spec fn of_idx_spec(i: int) -> Square {
        if i == 0 {
            Square::A
        } else if i == 1 {
            Square::B
        } else if i == 2 {
            Square::C
        } else if i == 3 {
            Square::D
        } else if i == 4 {
            Square::E
        } else if i == 5 {
            Square::F
        } else if i == 6 {
            Square::G
        } else if i == 7 {
            Square::H
        } else {
            Square::I
        }
    }

    pub fn of_idx(i: usize) -> (sq: Square)
        requires
            i < 9,
        ensures
            sq == Square::of_idx_spec(i as int),
            sq.idx_spec() == i,
    {
        match i {
            0 => Square::A,
            1 => Square::B,
            2 => Square::C,
            3 => Square::D,
            4 => Square::E,
            5 => Square::F,
            6 => Square::G,
            7 => Square::H,
            _ => Square::I,
        }
    }

    /// The square a single letter stands for, case-insensitively: 'a' or
    /// 'A' is A, through 'i' or 'I' for I; any other character stands for
    /// no square.
    pub open spec fn from_char_spec(c: char) -> Option<Square> {
        if c == 'a' || c == 'A' {
            Some(Square::A)
        } else if c == 'b' || c == 'B' {
            Some(Square::B)
        } else if c == 'c' || c == 'C' {
            Some(Square::C)
        } else if c == 'd' || c == 'D' {
            Some(Square::D)
        } else if c == 'e' || c == 'E' {
            Some(Square::E)
        } else if c == 'f' || c == 'F' {
            Some(Square::F)
        } else if c == 'g' || c == 'G' {
            Some(Square::G)
        } else if c == 'h' || c == 'H' {
            Some(Square::H)
        } else if c == 'i' || c == 'I' {
            Some(Square::I)
        } else {
            None
        }
    }

    /// The square a string names: surrounding white space is stripped, and
    /// what remains must be exactly one character, mapped
    /// case-insensitively; anything else names no square.
    pub open spec fn from_str_spec(s: Seq<char>) -> Option<Square> {
        if trim_spec(s).len() == 1 {
            Square::from_char_spec(trim_spec(s)[0])
        } else {
            None
        }
    }

    pub fn from_str(s: &str) -> (r: Option<Square>)
        ensures
            r == Square::from_str_spec(s@),
    {
        let t = trimmed(s);
        if t.unicode_len() != 1 {
            return None;
        }
        let c = t.get_char(0);
        if c == 'a' || c == 'A' {
            Some(Square::A)
        } else if c == 'b' || c == 'B' {
            Some(Square::B)
        } else if c == 'c' || c == 'C' {
            Some(Square::C)
        } else if c == 'd' || c == 'D' {
            Some(Square::D)
        } else if c == 'e' || c == 'E' {
            Some(Square::E)
        } else if c == 'f' || c == 'F' {
            Some(Square::F)
        } else if c == 'g' || c == 'G' {
            Some(Square::G)
        } else if c == 'h' || c == 'H' {
            Some(Square::H)
        } else if c == 'i' || c == 'I' {
            Some(Square::I)
        } else {
            None
        }
    }
}

/// A white-space character: the Unicode White_Space set, the characters
/// that `str::trim` strips.
pub open spec fn is_space(c: char) -> bool {
    let u = c as int;
    ||| u == 0x09
    ||| u == 0x0A
    ||| u == 0x0B
    ||| u == 0x0C
    ||| u == 0x0D
    ||| u == 0x20
    ||| u == 0x85
    ||| u == 0xA0
    ||| u == 0x1680
    ||| (0x2000 <= u && u <= 0x200A)
    ||| u == 0x2028
    ||| u == 0x2029
    ||| u == 0x202F
    ||| u == 0x205F
    ||| u == 0x3000
}

/// The sequence with its leading white space dropped.
pub open spec fn trim_start_spec(s: Seq<char>) -> Seq<char>
    decreases s.len(),
{
    if s.len() > 0 && is_space(s[0]) {
        trim_start_spec(s.drop_first())
    } else {
        s
    }
}

/// The sequence with its trailing white space dropped.
pub open spec fn trim_end_spec(s: Seq<char>) -> Seq<char>
    decreases s.len(),
{
    if s.len() > 0 && is_space(s.last()) {
        trim_end_spec(s.drop_last())
    } else {
        s
    }
}

/// The sequence with its leading and trailing white space dropped.
pub open spec fn trim_spec(s: Seq<char>) -> Seq<char> {
    trim_end_spec(trim_start_spec(s))
}

fn char_is_space(c: char) -> (r: bool)
    ensures
        r == is_space(c),
{
    let u = c as u32;
    u == 0x09 || u == 0x0A || u == 0x0B || u == 0x0C || u == 0x0D || u == 0x20 || u == 0x85
        || u == 0xA0 || u == 0x1680 || (0x2000 <= u && u <= 0x200A) || u == 0x2028 || u == 0x2029
        || u == 0x202F || u == 0x205F || u == 0x3000
}

proof fn lemma_trim_start_at(s: Seq<char>, a: int)
    requires
        0 <= a <= s.len(),
        forall|j: int| 0 <= j < a ==> is_space(s[j]),
        a == s.len() || !is_space(s[a]),
    ensures
        trim_start_spec(s) =~= s.subrange(a, s.len() as int),
    decreases a,
{
    if a == 0 {
        assert(s =~= s.subrange(0, s.len() as int));
    } else {
        lemma_trim_start_at(s.drop_first(), a - 1);
        assert(s.drop_first().subrange(a - 1, s.len() - 1) =~= s.subrange(a, s.len() as int));
    }
}

proof fn lemma_trim_end_at(s: Seq<char>, m: int)
    requires
        0 <= m <= s.len(),
        forall|j: int| m <= j < s.len() ==> is_space(s[j]),
        m == 0 || !is_space(s[m - 1]),
    ensures
        trim_end_spec(s) =~= s.subrange(0, m),
    decreases s.len(),
{
    if m == s.len() {
        assert(s.subrange(0, m) =~= s);
    } else {
        assert(is_space(s.last()));
        lemma_trim_end_at(s.drop_last(), m);
        assert(s.drop_last().subrange(0, m) =~= s.subrange(0, m));
    }
}

/// Parsing depends only on the string with its surrounding white space
/// stripped: two inputs with the same trimmed form name the same square,
/// or both name none.
pub proof fn lemma_parse_ignores_surrounding_space(s: Seq<char>, t: Seq<char>)
    requires
        trim_spec(s) == trim_spec(t),
    ensures
        Square::from_str_spec(s) == Square::from_str_spec(t),
{
}

/// Strips leading and trailing white space from a string.
pub fn trimmed(s: &str) -> (r: &str)
    ensures
        r@ == trim_spec(s@),
{
    let n = s.unicode_len();
    let mut a: usize = 0;
    while a < n && char_is_space(s.get_char(a))
        invariant
            n == s@.len(),
            a <= n,
            forall|j: int| 0 <= j < a ==> is_space(s@[j]),
        decreases n - a,
    {
        a += 1;
    }
    let mut b: usize = n;
    while b > a && char_is_space(s.get_char(b - 1))
        invariant
            n == s@.len(),
            a <= b <= n,
            forall|j: int| 0 <= j < a ==> is_space(s@[j]),
            a == n || !is_space(s@[a as int]),
            forall|j: int| b <= j < n ==> is_space(s@[j]),
        decreases b,
    {
        b -= 1;
    }
    proof {
        lemma_trim_start_at(s@, a as int);
        let t = s@.subrange(a as int, n as int);
        assert(trim_start_spec(s@) == t);
        lemma_trim_end_at(t, b - a);
        assert(t.subrange(0, b - a) =~= s@.subrange(a as int, b as int));
    }
    s.substring_char(a, b)
}

} // verus!
