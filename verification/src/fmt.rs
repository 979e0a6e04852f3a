use vstd::prelude::*;
use crate::chess_board::{cell_text, BoardView, ChessBoard};
use crate::chess_index::ChessIndex;
use crate::color::Color;
use crate::file::{files_downward, files_upward, File, FileIter};
use crate::rank::{ranks_downward, ranks_upward, Rank, RankIter};

verus! {

/// The ranks from the top of the picture to its bottom, as side `color` sees
/// the board: White has the eighth rank on top, Black the first.
pub open spec fn rank_order(color: Color) -> Seq<Rank> {
    match color {
        Color::Black => ranks_upward(1),
        Color::White => ranks_downward(8),
    }
}

/// The files from the left of the picture to its right, as side `color` sees
/// the board: White has file `a` on the left, Black file `h`.
pub open spec fn file_order(color: Color) -> Seq<File> {
    match color {
        Color::Black => files_downward(8),
        Color::White => files_upward(1),
    }
}

/// One square in the picture: an `X` if it is highlighted, else a blank;
/// the figurine of its piece, or a blank; and a blank.
pub open spec fn square_text(board: BoardView, idx: ChessIndex, highlighted: Seq<ChessIndex>) -> Seq<
    char,
> {
    (if highlighted.contains(idx) {
        "X"@
    } else {
        " "@
    }) + cell_text(board, idx) + " "@
}

/// The first `n` squares of a rank in the picture, in the order of `files`,
/// with a bar between neighbours.
pub open spec fn squares_text(
    board: BoardView,
    rank: Rank,
    files: Seq<File>,
    highlighted: Seq<ChessIndex>,
    n: int,
) -> Seq<char>
    decreases n,
{
    if n <= 0 || n > files.len() {
        Seq::empty()
    } else if n == 1 {
        square_text(board, ChessIndex(files[0], rank), highlighted)
    } else {
        squares_text(board, rank, files, highlighted, n - 1) + "│"@ + square_text(
            board,
            ChessIndex(files[n - 1], rank),
            highlighted,
        )
    }
}

/// One rank in the picture: its digit, a bar, its squares, a bar, and the
/// end of the line.
pub open spec fn line_text(
    board: BoardView,
    rank: Rank,
    files: Seq<File>,
    highlighted: Seq<ChessIndex>,
) -> Seq<char> {
    seq![rank.digit()] + "│"@ + squares_text(board, rank, files, highlighted, files.len() as int)
        + "│\n"@
}

/// The first `n` ranks in the picture, in the order of `ranks`, with a rule
/// between neighbours.
pub open spec fn lines_text(
    board: BoardView,
    ranks: Seq<Rank>,
    files: Seq<File>,
    highlighted: Seq<ChessIndex>,
    n: int,
) -> Seq<char>
    decreases n,
{
    if n <= 0 || n > ranks.len() {
        Seq::empty()
    } else if n == 1 {
        line_text(board, ranks[0], files, highlighted)
    } else {
        lines_text(board, ranks, files, highlighted, n - 1)
            + " ├───┼───┼───┼───┼───┼───┼───┼───┤\n"@ + line_text(
            board,
            ranks[n - 1],
            files,
            highlighted,
        )
    }
}

/// The line of file letters above the picture.
pub open spec fn heading(color: Color) -> Seq<char> {
    match color {
        Color::Black => "   h   g   f   e   d   c   b   a  \n"@,
        Color::White => "   a   b   c   d   e   f   g   h  \n"@,
    }
}

/// The picture of the board as side `color` sees it, with the squares of
/// `highlighted` marked: the file letters, the upper edge, the eight ranks
/// with rules between them, and the lower edge.
pub open spec fn perspective(board: BoardView, color: Color, highlighted: Seq<ChessIndex>) -> Seq<
    char,
> {
    heading(color) + " ┌───┬───┬───┬───┬───┬───┬───┬───┐\n"@ + lines_text(
        board,
        rank_order(color),
        file_order(color),
        highlighted,
        8,
    ) + " └───┴───┴───┴───┴───┴───┴───┴───┘"@
}

/// The board as White sees it, with the given squares marked.
#[must_use]
pub fn whites_perspective(board: &ChessBoard, highlighted_squares: &Vec<ChessIndex>) -> (s: String)
    ensures
        s@ == perspective(board@, Color::White, highlighted_squares@),
{
    get_perspective(board, Color::White, highlighted_squares)
}

/// The board as Black sees it, with the given squares marked.
#[must_use]
pub fn blacks_perspective(board: &ChessBoard, highlighted_squares: &Vec<ChessIndex>) -> (s: String)
    ensures
        s@ == perspective(board@, Color::Black, highlighted_squares@),
{
    get_perspective(board, Color::Black, highlighted_squares)
}

/// Whether `index` is among `squares`.
fn is_highlighted(squares: &Vec<ChessIndex>, index: ChessIndex) -> (b: bool)
    ensures
        b == squares@.contains(index),
{
    let mut i: usize = 0;
    while i < squares.len()
        invariant
            i <= squares@.len(),
            forall|j: int| 0 <= j < i ==> squares@[j] != index,
        decreases squares.len() - i,
    {
        if squares[i] == index {
            assert(squares@[i as int] == index);
            return true;
        }
        i = i + 1;
    }
    false
}

/// The board as side `color` sees it, with the given squares marked.
pub fn get_perspective(board: &ChessBoard, color: Color, highlighted_squares: &Vec<ChessIndex>) -> (s:
    String)
    ensures
        s@ == perspective(board@, color, highlighted_squares@),
{
    let ranks = color_rank(color);
    let files = color_file(color);
    let mut lines = String::new();
    let mut r: usize = 0;
    while r < ranks.len()
        invariant
            r <= ranks@.len(),
            ranks@.len() == 8,
            files@.len() == 8,
            lines@ == lines_text(board@, ranks@, files@, highlighted_squares@, r as int),
        decreases ranks.len() - r,
    {
        let rank = ranks[r];
        let mut pieces = String::new();
        let mut f: usize = 0;
        while f < files.len()
            invariant
                f <= files@.len(),
                files@.len() == 8,
                pieces@ == squares_text(board@, rank, files@, highlighted_squares@, f as int),
            decreases files.len() - f,
        {
            let index = ChessIndex::new(files[f], rank);
            let highlight = match is_highlighted(highlighted_squares, index) {
                true => "X",
                false => " ",
            };
            let piece = match board.piece_at(index) {
                Some(p) => p.to_string(),
                None => " ".to_owned(),
            };
            if f > 0 {
                pieces.append("│");
            }
            pieces.append(highlight);
            pieces.append(piece.as_str());
            pieces.append(" ");
            assert(pieces@ =~= squares_text(board@, rank, files@, highlighted_squares@, f + 1));
            f = f + 1;
        }
        let mut line = rank.to_string();
        line.append("│");
        line.append(pieces.as_str());
        line.append("│\n");
        assert(line@ =~= line_text(board@, rank, files@, highlighted_squares@));
        if r > 0 {
            lines.append(" ├───┼───┼───┼───┼───┼───┼───┼───┤\n");
        }
        lines.append(line.as_str());
        assert(lines@ =~= lines_text(board@, ranks@, files@, highlighted_squares@, r + 1));
        r = r + 1;
    }
    let mut output = match color {
        Color::Black => "   h   g   f   e   d   c   b   a  \n".to_owned(),
        Color::White => "   a   b   c   d   e   f   g   h  \n".to_owned(),
    };
    output.append(" ┌───┬───┬───┬───┬───┬───┬───┬───┐\n");
    output.append(lines.as_str());
    output.append(" └───┴───┴───┴───┴───┴───┴───┴───┘");
    output
}

/// The ranks from the top of the picture to its bottom for side `color`.
pub fn color_rank(color: Color) -> (ranks: Vec<Rank>)
    ensures
        ranks@ == rank_order(color),
        ranks@.len() == 8,
{
    match color {
        Color::Black => RankIter::start_at(Rank::First).collect(),
        Color::White => RankIter::start_at(Rank::Eighth).collect_rev(),
    }
}

/// The files from the left of the picture to its right for side `color`.
pub fn color_file(color: Color) -> (files: Vec<File>)
    ensures
        files@ == file_order(color),
        files@.len() == 8,
{
    match color {
        Color::Black => FileIter::start_at(File::H).collect_rev(),
        Color::White => FileIter::start_at(File::A).collect(),
    }
}

} // verus!
