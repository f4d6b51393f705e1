//! Text rendering: the board as a 3x3 grid with dividers, and the messages
//! shown for players, squares and finished games.

use vstd::prelude::*;
use vstd::string::StringExecFns;

use crate::engine::Game;
use crate::engine::GameOutcome;
use crate::square::Player;
use crate::square::Square;

verus! {

/// The mark a player leaves on the board.
pub open spec fn mark_char(p: Player) -> char {
    match p {
        Player::X => 'X',
        Player::O => 'O',
    }
}

/// The lowercase letter that labels the square at position `i`.
pub open spec fn letter_char(i: int) -> char {
    if i == 0 {
        'a'
    } else if i == 1 {
        'b'
    } else if i == 2 {
        'c'
    } else if i == 3 {
        'd'
    } else if i == 4 {
        'e'
    } else if i == 5 {
        'f'
    } else if i == 6 {
        'g'
    } else if i == 7 {
        'h'
    } else {
        'i'
    }
}

/// The uppercase letter that names the square at position `i`.
pub open spec fn upper_letter_char(i: int) -> char {
    if i == 0 {
        'A'
    } else if i == 1 {
        'B'
    } else if i == 2 {
        'C'
    } else if i == 3 {
        'D'
    } else if i == 4 {
        'E'
    } else if i == 5 {
        'F'
    } else if i == 6 {
        'G'
    } else if i == 7 {
        'H'
    } else {
        'I'
    }
}

/// The three characters a cell shows: the occupant's mark bracketed by
/// colons on the most recently played square, the mark between spaces on
/// any other occupied square, and the square's lowercase letter between
/// spaces on an unoccupied one.
pub open spec fn cell_chars(cell: Option<Player>, highlighted: bool, i: int) -> Seq<char> {
    match cell {
        Some(p) => if highlighted {
            seq![':', mark_char(p), ':']
        } else {
            seq![' ', mark_char(p), ' ']
        },
        None => seq![' ', letter_char(i), ' '],
    }
}

/// The line drawn between rows.
pub open spec fn divider_chars() -> Seq<char> {
    seq!['-', '-', '-', '|', '-', '-', '-', '|', '-', '-', '-', '\n']
}

fn cell_text(cell: Option<Player>, highlighted: bool, i: usize) -> (r: &'static str)
    requires
        i < 9,
    ensures
        r@ == cell_chars(cell, highlighted, i as int),
{
    proof {
        reveal_strlit(":X:");
        reveal_strlit(":O:");
        reveal_strlit(" X ");
        reveal_strlit(" O ");
        reveal_strlit(" a ");
        reveal_strlit(" b ");
        reveal_strlit(" c ");
        reveal_strlit(" d ");
        reveal_strlit(" e ");
        reveal_strlit(" f ");
        reveal_strlit(" g ");
        reveal_strlit(" h ");
        reveal_strlit(" i ");
        assert(":X:"@ =~= seq![':', 'X', ':']);
        assert(":O:"@ =~= seq![':', 'O', ':']);
        assert(" X "@ =~= seq![' ', 'X', ' ']);
        assert(" O "@ =~= seq![' ', 'O', ' ']);
        assert(" a "@ =~= seq![' ', 'a', ' ']);
        assert(" b "@ =~= seq![' ', 'b', ' ']);
        assert(" c "@ =~= seq![' ', 'c', ' ']);
        assert(" d "@ =~= seq![' ', 'd', ' ']);
        assert(" e "@ =~= seq![' ', 'e', ' ']);
        assert(" f "@ =~= seq![' ', 'f', ' ']);
        assert(" g "@ =~= seq![' ', 'g', ' ']);
        assert(" h "@ =~= seq![' ', 'h', ' ']);
        assert(" i "@ =~= seq![' ', 'i', ' ']);
    }
    match cell {
        Some(Player::X) => if highlighted {
            ":X:"
        } else {
            " X "
        },
        Some(Player::O) => if highlighted {
            ":O:"
        } else {
            " O "
        },
        None => match i {
            0 => " a ",
            1 => " b ",
            2 => " c ",
            3 => " d ",
            4 => " e ",
            5 => " f ",
            6 => " g ",
            7 => " h ",
            _ => " i ",
        },
    }
}

fn tail_text(i: usize) -> (r: &'static str)
    requires
        i < 9,
    ensures
        r@ == Game::tail_at(i as int),
{
    proof {
        reveal_strlit("\n---|---|---\n");
        reveal_strlit("\n");
        reveal_strlit("|");
        assert("\n---|---|---\n"@ =~= seq!['\n'] + divider_chars());
        assert("\n"@ =~= seq!['\n']);
        assert("|"@ =~= seq!['|']);
    }
    if i == 2 || i == 5 {
        "\n---|---|---\n"
    } else if i == 8 {
        "\n"
    } else {
        "|"
    }
}

impl Game {
    /// Whether position `i` is the most recently played square.
    pub open spec fn highlighted(self, i: int) -> bool {
        match self.last {
            Some(sq) => sq.idx_spec() == i,
            None => false,
        }
    }

    /// The cell text at position `i`.
    pub open spec fn cell_at(self, i: int) -> Seq<char> {
        cell_chars(self.board@[i], self.highlighted(i), i)
    }

    /// What follows the cell at position `i`: a column divider inside a
    /// row, a newline and the row divider after each of the first two rows,
    /// and a bare newline after the last row.
    pub open spec fn tail_at(i: int) -> Seq<char> {
        if i == 2 || i == 5 {
            seq!['\n'] + divider_chars()
        } else if i == 8 {
            seq!['\n']
        } else {
            seq!['|']
        }
    }

    /// The rendered text of the first `n` cells, each followed by its tail.
    pub open spec fn render_prefix(self, n: int) -> Seq<char>
        decreases n,
    {
        if n <= 0 {
            Seq::empty()
        } else {
            self.render_prefix(n - 1) + self.cell_at(n - 1) + Game::tail_at(n - 1)
        }
    }

    /// The full rendered text of the board: three rows of three cells each,
    /// columns separated by `|`, rows separated by a divider line, with a
    /// final newline.
    pub open spec fn render_spec(self) -> Seq<char> {
        self.render_prefix(9)
    }

    /// Renders the board as text.
    pub fn render(&self) -> (s: String)
        requires
            self.wf(),
        ensures
            s@ == self.render_spec(),
    {
        let mut s = String::new();
        let mut i: usize = 0;
        while i < 9
            invariant
                self.wf(),
                i <= 9,
                s@ == self.render_prefix(i as int),
            decreases 9 - i,
        {
            let highlighted = match self.last {
                Some(sq) => sq.idx() == i,
                None => false,
            };
            s.append(cell_text(self.board[i], highlighted, i));
            s.append(tail_text(i));
            i += 1;
        }
        s
    }
}

impl GameOutcome {
    /// The text reported when the game ends: the winner's mark followed by
    /// " wins!", or "Draw".
    pub open spec fn message_spec(self) -> Seq<char> {
        match self {
            GameOutcome::Winner(p) => seq![mark_char(p), ' ', 'w', 'i', 'n', 's', '!'],
            GameOutcome::Draw => seq!['D', 'r', 'a', 'w'],
        }
    }

    pub fn message(&self) -> (s: String)
        ensures
            s@ == self.message_spec(),
    {
        proof {
            reveal_strlit("X wins!");
            reveal_strlit("O wins!");
            reveal_strlit("Draw");
            assert("X wins!"@ =~= seq!['X', ' ', 'w', 'i', 'n', 's', '!']);
            assert("O wins!"@ =~= seq!['O', ' ', 'w', 'i', 'n', 's', '!']);
            assert("Draw"@ =~= seq!['D', 'r', 'a', 'w']);
        }
        match self {
            GameOutcome::Winner(Player::X) => "X wins!".to_owned(),
            GameOutcome::Winner(Player::O) => "O wins!".to_owned(),
            GameOutcome::Draw => "Draw".to_owned(),
        }
    }
}

impl Player {
    /// The one-character name of the player: "X" or "O".
    pub open spec fn name_spec(self) -> Seq<char> {
        seq![mark_char(self)]
    }

    pub fn name(&self) -> (s: String)
        ensures
            s@ == self.name_spec(),
    {
        proof {
            reveal_strlit("X");
            reveal_strlit("O");
            assert("X"@ =~= seq!['X']);
            assert("O"@ =~= seq!['O']);
        }
        match self {
            Player::X => "X".to_owned(),
            Player::O => "O".to_owned(),
        }
    }
}

impl Square {
    /// The square's uppercase letter label.
    pub open spec fn name_spec(self) -> Seq<char> {
        seq![upper_letter_char(self.idx_spec())]
    }

    pub fn name(&self) -> (s: String)
        ensures
            s@ == self.name_spec(),
    {
        proof {
            reveal_strlit("A");
            reveal_strlit("B");
            reveal_strlit("C");
            reveal_strlit("D");
            reveal_strlit("E");
            reveal_strlit("F");
            reveal_strlit("G");
            reveal_strlit("H");
            reveal_strlit("I");
            assert("A"@ =~= seq!['A']);
            assert("B"@ =~= seq!['B']);
            assert("C"@ =~= seq!['C']);
            assert("D"@ =~= seq!['D']);
            assert("E"@ =~= seq!['E']);
            assert("F"@ =~= seq!['F']);
            assert("G"@ =~= seq!['G']);
            assert("H"@ =~= seq!['H']);
            assert("I"@ =~= seq!['I']);
        }
        match self {
            Square::A => "A".to_owned(),
            Square::B => "B".to_owned(),
            Square::C => "C".to_owned(),
            Square::D => "D".to_owned(),
            Square::E => "E".to_owned(),
            Square::F => "F".to_owned(),
            Square::G => "G".to_owned(),
            Square::H => "H".to_owned(),
            Square::I => "I".to_owned(),
        }
    }
}

} // verus!
