//! The game engine: board state, move application, and win and draw
//! detection.

use vstd::pervasive::VecAdditionalExecFns;
use vstd::prelude::*;

use crate::square::Player;
use crate::square::Square;

verus! {

/// What a single move leads to: a win for the mover, a draw on a full
/// board, or the game going on with the other player to move.
#[derive(Clone, Copy, PartialEq, Eq, Structural, Debug)]
pub enum PlayOutcome {
    Win(Player),
    Draw,
    Next(Player),
}

/// How a finished game ended.
#[derive(Clone, Copy, PartialEq, Eq, Structural, Debug)]
pub enum GameOutcome {
    Winner(Player),
    Draw,
}

/// Three board positions all held by `p`.
pub open spec fn line_won(b: Seq<Option<Player>>, p: Player, i: int, j: int, k: int) -> bool {
    &&& b[i] == Some(p)
    &&& b[j] == Some(p)
    &&& b[k] == Some(p)
}

/// `p` holds one of the 8 winning triples: 3 rows, 3 columns, 2 diagonals.
pub open spec fn wins(b: Seq<Option<Player>>, p: Player) -> bool {
    ||| line_won(b, p, 0, 1, 2)
    ||| line_won(b, p, 3, 4, 5)
    ||| line_won(b, p, 6, 7, 8)
    ||| line_won(b, p, 2, 4, 6)
    ||| line_won(b, p, 0, 4, 8)
    ||| line_won(b, p, 0, 3, 6)
    ||| line_won(b, p, 1, 4, 7)
    ||| line_won(b, p, 2, 5, 8)
}

/// Every one of the nine squares is occupied.
pub open spec fn board_full(b: Seq<Option<Player>>) -> bool {
    forall|i: int| 0 <= i < 9 ==> b[i] is Some
}

/// The outcome of a move, read off the board as it stands after the move:
/// a winning triple for the mover ends the game in the mover's favour; a
/// full board on which neither player holds a triple is a draw; otherwise
/// the game goes on and the other player moves next.
pub open spec fn outcome_spec(b: Seq<Option<Player>>, mover: Player) -> PlayOutcome {
    if wins(b, mover) {
        PlayOutcome::Win(mover)
    } else if board_full(b) && !wins(b, mover.next_spec()) {
        PlayOutcome::Draw
    } else {
        PlayOutcome::Next(mover.next_spec())
    }
}

/// The game state: nine squares in row-major order, and the most recently
/// played square (used only for display highlighting).
pub struct Game {
    pub board: Vec<Option<Player>>,
    pub last: Option<Square>,
}

impl Game {
    /// The board always holds exactly nine entries.
    pub open spec fn wf(self) -> bool {
        self.board@.len() == 9
    }

    /// The player occupying `square`, if any.
    pub open spec fn at(self, square: Square) -> Option<Player> {
        self.board@[square.idx_spec()]
    }

    /// A fresh game: all nine squares unoccupied, no last move.
    pub fn new() -> (g: Game)
        ensures
            g.wf(),
            g.last is None,
            g.board@ == empty_board(),
            forall|i: int| 0 <= i < 9 ==> g.board@[i] is None,
    {
        let mut board: Vec<Option<Player>> = Vec::new();
        board.push(None);
        board.push(None);
        board.push(None);
        board.push(None);
        board.push(None);
        board.push(None);
        board.push(None);
        board.push(None);
        board.push(None);
        Game { board, last: None }
    }

    /// Whether the given square already holds a player.
    pub fn square_occupied(&self, square: &Square) -> (r: bool)
        requires
            self.wf(),
        ensures
            r == (self.at(*square) is Some),
    {
        self.board[square.idx()].is_some()
    }

    /// Whether every square is occupied.
    pub fn is_complete(&self) -> (r: bool)
        requires
            self.wf(),
        ensures
            r == board_full(self.board@),
    {
        let mut i: usize = 0;
        while i < 9
            invariant
                self.wf(),
                i <= 9,
                forall|j: int| 0 <= j < i ==> self.board@[j] is Some,
            decreases 9 - i,
        {
            if self.board[i].is_none() {
                return false;
            }
            i += 1;
        }
        true
    }

    /// Whether position `i` is held by `p`.
    fn cell_is(&self, i: usize, p: Player) -> (r: bool)
        requires
            self.wf(),
            i < 9,
        ensures
            r == (self.board@[i as int] == Some(p)),
    {
        match self.board[i] {
            Some(q) => q == p,
            None => false,
        }
    }

    /// Whether the triple of positions `i`, `j`, `k` is fully held by `p`.
    fn line_is_won(&self, p: Player, i: usize, j: usize, k: usize) -> (r: bool)
        requires
            self.wf(),
            i < 9,
            j < 9,
            k < 9,
        ensures
            r == line_won(self.board@, p, i as int, j as int, k as int),
    {
        self.cell_is(i, p) && self.cell_is(j, p) && self.cell_is(k, p)
    }

    /// Whether `p` holds any of the 8 winning triples.
    pub fn player_won(&self, p: Player) -> (r: bool)
        requires
            self.wf(),
        ensures
            r == wins(self.board@, p),
    {
        self.line_is_won(p, 0, 1, 2) || self.line_is_won(p, 3, 4, 5)
            || self.line_is_won(p, 6, 7, 8) || self.line_is_won(p, 2, 4, 6)
            || self.line_is_won(p, 0, 4, 8) || self.line_is_won(p, 0, 3, 6)
            || self.line_is_won(p, 1, 4, 7) || self.line_is_won(p, 2, 5, 8)
    }

    /// Whether either player holds a winning triple.
    pub fn has_winner(&self) -> (r: bool)
        requires
            self.wf(),
        ensures
            r == (wins(self.board@, Player::X) || wins(self.board@, Player::O)),
    {
        self.player_won(Player::X) || self.player_won(Player::O)
    }

    /// Whether the game stands at a draw: the board is full and neither
    /// player holds a winning triple.
    pub fn is_draw(&self) -> (r: bool)
        requires
            self.wf(),
        ensures
            r == (board_full(self.board@) && !wins(self.board@, Player::X) && !wins(
                self.board@,
                Player::O,
            )),
    {
        self.is_complete() && !self.has_winner()
    }

    /// The squares occupied by `p`, in row-major order.
    pub fn player_squares(&self, p: Player) -> (r: Vec<Square>)
        requires
            self.wf(),
        ensures
            forall|sq: Square| r@.contains(sq) <==> self.at(sq) == Some(p),
            forall|a: int, b: int|
                0 <= a < b < r@.len() ==> r@[a].idx_spec() < r@[b].idx_spec(),
    {
        let mut r: Vec<Square> = Vec::new();
        let mut i: usize = 0;
        while i < 9
            invariant
                self.wf(),
                i <= 9,
                forall|sq: Square| #[trigger]
                    r@.contains(sq) <==> (sq.idx_spec() < i && self.at(sq) == Some(p)),
                forall|a: int, b: int|
                    0 <= a < b < r@.len() ==> r@[a].idx_spec() < r@[b].idx_spec(),
                forall|a: int| 0 <= a < r@.len() ==> #[trigger] r@[a].idx_spec() < i,
            decreases 9 - i,
        {
            let sq = Square::of_idx(i);
            if self.cell_is(i, p) {
                let ghost prev = r@;
                r.push(sq);
                proof {
                    assert forall|x: Square| #[trigger] r@.contains(x) implies (x.idx_spec() < i
                        + 1 && self.at(x) == Some(p)) by {
                        let a = choose|a: int| 0 <= a < r@.len() && r@[a] == x;
                        if a < prev.len() {
                            assert(prev.contains(x));
                        }
                    }
                    assert forall|x: Square| (x.idx_spec() < i + 1 && self.at(x) == Some(
                        p,
                    )) implies #[trigger] r@.contains(x) by {
                        if x.idx_spec() < i {
                            assert(prev.contains(x));
                            let a = choose|a: int| 0 <= a < prev.len() && prev[a] == x;
                            assert(r@[a] == x);
                        } else {
                            assert(r@[r@.len() - 1] == x);
                        }
                    }
                }
            }
            i += 1;
        }
        r
    }

    /// Marks `square` with `player`, records it as the last move, and
    /// reports the outcome of the move. The caller must have checked that
    /// the square is unoccupied.
    pub fn execute(&mut self, player: Player, square: Square) -> (r: PlayOutcome)
        requires
            old(self).wf(),
            old(self).at(square) is None,
        ensures
            final(self).wf(),
            final(self).board@ == old(self).board@.update(square.idx_spec(), Some(player)),
            final(self).last == Some(square),
            r == outcome_spec(final(self).board@, player),
    {
        let i = square.idx();
        self.board.set(i, Some(player));
        self.last = Some(square);

        if self.player_won(player) {
            PlayOutcome::Win(player)
        } else if self.is_draw() {
            PlayOutcome::Draw
        } else {
            PlayOutcome::Next(player.next())
        }
    }
}

/// The board with all nine squares unoccupied.
pub open spec fn empty_board() -> Seq<Option<Player>> {
    Seq::new(9, |i: int| None::<Player>)
}

/// The board that stands after a sequence of moves, each marking its
/// square with its player, starting from the empty board.
pub open spec fn board_after(moves: Seq<(Player, Square)>) -> Seq<Option<Player>>
    decreases moves.len(),
{
    if moves.len() == 0 {
        empty_board()
    } else {
        board_after(moves.drop_last()).update(
            moves.last().1.idx_spec(),
            Some(moves.last().0),
        )
    }
}

/// Every move of the sequence plays on a square that is still unoccupied
/// when the move is made, as the game loop enforces before calling
/// `execute`.
pub open spec fn legal_moves(moves: Seq<(Player, Square)>) -> bool {
    forall|k: int|
        0 <= k < moves.len() ==> board_after(#[trigger] moves.take(k))[moves[k].1.idx_spec()]
            is None
}

/// 1 when position `i` is occupied, else 0.
spec fn cell_count(b: Seq<Option<Player>>, i: int) -> int {
    if b[i] is Some {
        1
    } else {
        0
    }
}

/// How many of the nine squares are occupied.
spec fn occupied_count(b: Seq<Option<Player>>) -> int {
    cell_count(b, 0) + cell_count(b, 1) + cell_count(b, 2) + cell_count(b, 3) + cell_count(b, 4)
        + cell_count(b, 5) + cell_count(b, 6) + cell_count(b, 7) + cell_count(b, 8)
}

proof fn lemma_count_after_move(b: Seq<Option<Player>>, p: Player, i: int)
    requires
        b.len() == 9,
        0 <= i < 9,
        b[i] is None,
    ensures
        occupied_count(b.update(i, Some(p))) == occupied_count(b) + 1,
{
}

proof fn lemma_count_nine_is_full(b: Seq<Option<Player>>)
    requires
        b.len() == 9,
        occupied_count(b) == 9,
    ensures
        board_full(b),
{
}

proof fn lemma_legal_moves_count(moves: Seq<(Player, Square)>)
    requires
        legal_moves(moves),
        moves.len() <= 9,
    ensures
        board_after(moves).len() == 9,
        occupied_count(board_after(moves)) == moves.len(),
    decreases moves.len(),
{
    if moves.len() > 0 {
        let prefix = moves.drop_last();
        assert forall|k: int|
            0 <= k < prefix.len() implies board_after(#[trigger] prefix.take(k))[prefix[k].1.idx_spec()]
            is None by {
            assert(prefix.take(k) =~= moves.take(k));
        }
        lemma_legal_moves_count(prefix);
        assert(moves.take(moves.len() - 1) =~= prefix);
        lemma_count_after_move(board_after(prefix), moves.last().0, moves.last().1.idx_spec());
    }
}

/// Nine moves, each played on a square unoccupied at the time, fill the
/// board.
pub proof fn lemma_nine_moves_fill_the_board(moves: Seq<(Player, Square)>)
    requires
        legal_moves(moves),
        moves.len() == 9,
    ensures
        board_full(board_after(moves)),
{
    lemma_legal_moves_count(moves);
    lemma_count_nine_is_full(board_after(moves));
}

/// Every sequence of 9 moves that fills the board — each move played on a
/// square unoccupied at the time — with no winning triple for either
/// player ends with the final move reported as a draw.
pub proof fn lemma_nine_moves_without_winner_end_in_draw(moves: Seq<(Player, Square)>)
    requires
        legal_moves(moves),
        moves.len() == 9,
        !wins(board_after(moves), Player::X),
        !wins(board_after(moves), Player::O),
    ensures
        outcome_spec(board_after(moves), moves.last().0) == PlayOutcome::Draw,
{
    lemma_nine_moves_fill_the_board(moves);
    lemma_full_without_winner_is_draw(board_after(moves), moves.last().0);
}

/// A move that leaves the board full with no winning triple for either
/// player is reported as a draw: filling the last square of such a board
/// ends the game in Draw.
pub proof fn lemma_full_without_winner_is_draw(b: Seq<Option<Player>>, mover: Player)
    requires
        board_full(b),
        !wins(b, Player::X),
        !wins(b, Player::O),
    ensures
        outcome_spec(b, mover) == PlayOutcome::Draw,
{
}

/// A move that completes a winning triple for the mover is reported as a
/// win for the mover, even when it also fills the board.
pub proof fn lemma_winning_move_is_win(b: Seq<Option<Player>>, mover: Player)
    requires
        wins(b, mover),
    ensures
        outcome_spec(b, mover) == PlayOutcome::Win(mover),
{
}

/// Playing on an unoccupied square never changes a square that was already
/// occupied: on the board after the move, every square other than the one
/// played keeps its value, and so in particular every occupied square keeps
/// its player.
pub proof fn lemma_move_preserves_other_squares(
    b: Seq<Option<Player>>,
    mover: Player,
    square: Square,
)
    requires
        b.len() == 9,
        b[square.idx_spec()] is None,
    ensures
        forall|j: int|
            0 <= j < 9 && j != square.idx_spec() ==> b.update(square.idx_spec(), Some(mover))[j]
                == b[j],
        forall|j: int|
            0 <= j < 9 && b[j] is Some ==> b.update(square.idx_spec(), Some(mover))[j] == b[j],
{
}

} // verus!
