use vstd::prelude::*;
use crate::chess_index::ChessIndex;
use crate::chess_move::ChessMove;
use crate::color::Color;
use crate::fmt::{get_perspective, perspective};
use crate::game::Game;

verus! {

/// Who plays a local game: two people, or one person against the computer.
#[derive(Debug, Clone, Copy, PartialEq, Eq, Structural)]
pub enum PlayLocalMode {
    VsHuman,
    VsComputerAsBlack,
    VsComputerAsWhite,
}

/// The lower-case form of a text, as `str::to_lowercase` of the standard
/// library gives it.
pub uninterp spec fn lowercase(text: Seq<char>) -> Seq<char>;

/// The lower-case form of `s`.
///
/// Trusted: the body is `str::to_lowercase` of the standard library, which
/// maps each character by the Unicode lower-case tables and depends on the
/// text alone. The contract only gives that result its name.
#[verifier::external_body]
fn to_lowercase(s: &str) -> (r: String)
    ensures
        r@ == lowercase(s@),
{
    s.to_lowercase()
}

/// The text of a result's error, beside its value.
pub open spec fn in_text(r: Result<PlayLocalMode, String>) -> Result<PlayLocalMode, Seq<char>> {
    match r {
        Ok(mode) => Ok(mode),
        Err(message) => Err(message@),
    }
}

impl PlayLocalMode {
    /// The mode that a name in lower case stands for, or the message that
    /// there is no such mode, which quotes the name.
    pub open spec fn named(name: Seq<char>) -> Result<PlayLocalMode, Seq<char>> {
        if name == "vs-human"@ {
            Ok(PlayLocalMode::VsHuman)
        } else if name == "vs-computer-as-black"@ {
            Ok(PlayLocalMode::VsComputerAsBlack)
        } else if name == "vs-computer-as-white"@ {
            Ok(PlayLocalMode::VsComputerAsWhite)
        } else {
            Err("invalid mode: '"@ + name + "'"@)
        }
    }

    /// The mode that `name`, which is taken as it stands, is the name of.
    pub fn from_lowercase(name: &str) -> (r: Result<PlayLocalMode, String>)
        ensures
            in_text(r) == PlayLocalMode::named(name@),
    {
        let name = name.to_owned();
        if name == "vs-human".to_owned() {
            Ok(Self::VsHuman)
        } else if name == "vs-computer-as-black".to_owned() {
            Ok(Self::VsComputerAsBlack)
        } else if name == "vs-computer-as-white".to_owned() {
            Ok(Self::VsComputerAsWhite)
        } else {
            let mut message = "invalid mode: '".to_owned();
            message.append(name.as_str());
            message.append("'");
            Err(message)
        }
    }

    /// The mode that `s` names, in whatever case it is written.
    pub fn parse(s: &str) -> (r: Result<PlayLocalMode, String>)
        ensures
            in_text(r) == PlayLocalMode::named(lowercase(s@)),
    {
        let lowered = to_lowercase(s);
        Self::from_lowercase(lowered.as_str())
    }
}

impl core::str::FromStr for PlayLocalMode {
    type Err = String;

    fn from_str(s: &str) -> (r: Result<PlayLocalMode, String>)
        ensures
            in_text(r) == PlayLocalMode::named(lowercase(s@)),
    {
        PlayLocalMode::parse(s)
    }
}

/// How a local game is to be played.
#[derive(Debug, Clone, Copy)]
pub struct PlayLocalOpts {
    mode: PlayLocalMode,
}

impl PlayLocalOpts {
    /// The mode that was asked for.
    pub closed spec fn chosen(self) -> PlayLocalMode {
        self.mode
    }

    pub fn new(mode: PlayLocalMode) -> (opts: Self)
        ensures
            opts.chosen() == mode,
    {
        Self { mode }
    }

    pub fn mode(&self) -> (mode: PlayLocalMode)
        ensures
            mode == self.chosen(),
    {
        self.mode
    }
}

/// The move of a list that is meant by naming the square `to`: the last one
/// that arrives there.
pub open spec fn move_to(moves: Seq<ChessMove>, to: ChessIndex) -> Option<ChessMove>
    decreases moves.len(),
{
    if moves.len() == 0 {
        None
    } else if moves.last().destination() == to {
        Some(moves.last())
    } else {
        move_to(moves.drop_last(), to)
    }
}

/// The squares on which the moves of a list arrive, move by move.
pub open spec fn destinations(moves: Seq<ChessMove>) -> Seq<ChessIndex> {
    moves.map_values(|m: ChessMove| m.destination())
}

/// A player who sits at the terminal. It decides nothing by itself; what it
/// offers are the answers that the dialogue with such a player needs.
#[derive(Debug, Clone, Copy)]
pub struct LocalPlayer {}

impl LocalPlayer {
    pub fn new() -> Self {
        Self {  }
    }

    /// Whether `from` holds a piece that `player` can move: one of its own
    /// side.
    pub fn can_choose(game: &Game, player: Color, from: ChessIndex) -> (b: bool)
        ensures
            b == (game@.board.contains_key(from) && game@.board[from].color == player),
    {
        match game.board().piece_at(from) {
            Some(piece) => piece.color() == player,
            None => false,
        }
    }

    /// The move among `valid_moves` that the player means by naming the
    /// square `to_index`. Of several that arrive there, as the promotions of
    /// one pawn do, it is the last.
    pub fn choose_move(valid_moves: &Vec<ChessMove>, to_index: ChessIndex) -> (r: Option<
        ChessMove,
    >)
        ensures
            r == move_to(valid_moves@, to_index),
    {
        let mut i: usize = valid_moves.len();
        assert(valid_moves@.take(i as int) =~= valid_moves@);
        while i > 0
            invariant
                i <= valid_moves@.len(),
                move_to(valid_moves@, to_index) == move_to(valid_moves@.take(i as int), to_index),
            decreases i,
        {
            proof {
                assert(valid_moves@.take(i as int).drop_last() =~= valid_moves@.take(i - 1));
            }
            let m = valid_moves[i - 1];
            if m.to_idx() == to_index {
                return Some(m);
            }
            i = i - 1;
        }
        None
    }

    /// The squares on which the given moves arrive.
    pub fn highlighted_squares(highlighted: &Vec<ChessMove>) -> (squares: Vec<ChessIndex>)
        ensures
            squares@ == destinations(highlighted@),
    {
        let mut squares: Vec<ChessIndex> = Vec::new();
        let mut i: usize = 0;
        while i < highlighted.len()
            invariant
                i <= highlighted@.len(),
                squares@ == destinations(highlighted@.take(i as int)),
            decreases highlighted.len() - i,
        {
            squares.push(highlighted[i].to_idx());
            assert(squares@ =~= destinations(highlighted@.take(i + 1)));
            i = i + 1;
        }
        assert(highlighted@.take(i as int) =~= highlighted@);
        squares
    }

    /// The board as `player` sees it, with the squares marked on which the
    /// given moves arrive.
    pub fn highlighted(player: Color, game: &Game, highlighted: &Vec<ChessMove>) -> (s: String)
        ensures
            s@ == perspective(game@.board, player, destinations(highlighted@)),
    {
        let squares = Self::highlighted_squares(highlighted);
        get_perspective(game.board(), player, &squares)
    }
}

/// A player for whom a strategy chooses the moves.
#[derive(Debug)]
pub struct ComputerPlayer<T> {
    strategy: T,
}

impl<T> ComputerPlayer<T> {
    /// The strategy that chooses for the player.
    pub closed spec fn plan(self) -> T {
        self.strategy
    }

    pub fn new(strategy: T) -> (player: Self)
        ensures
            player.plan() == strategy,
    {
        Self { strategy }
    }

    /// The strategy that chooses for the player.
    pub fn strategy(&self) -> (strategy: &T)
        ensures
            *strategy == self.plan(),
    {
        &self.strategy
    }
}

} // verus!
