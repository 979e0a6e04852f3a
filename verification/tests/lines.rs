use game::Color::{Black, White};
use game::{ChessBoard, ChessIndex, ChessMove, Color, File, FileIter, Game, Piece, Rank, RankIter};

const A1: ChessIndex = ChessIndex(File::A, Rank::First);
const A5: ChessIndex = ChessIndex(File::A, Rank::Fifth);
const E1: ChessIndex = ChessIndex(File::E, Rank::First);
const E8: ChessIndex = ChessIndex(File::E, Rank::Eighth);
const H1: ChessIndex = ChessIndex(File::H, Rank::First);
const H4: ChessIndex = ChessIndex(File::H, Rank::Fourth);

fn all_squares() -> Vec<ChessIndex> {
    let mut squares = Vec::new();
    for rank in RankIter::start_at(Rank::First).collect() {
        for file in FileIter::start_at(File::A).collect() {
            squares.push(ChessIndex::new(file, rank));
        }
    }
    squares
}

/// The number of ways to play `depth` legal moves in turn, `player` first.
fn count_lines(game: &Game, player: Color, depth: u32) -> u64 {
    if depth == 0 {
        return 1;
    }
    let mut lines = 0;
    for from in all_squares() {
        match game.board().piece_at(from) {
            Some(piece) if piece.color() == player => {}
            _ => continue,
        }
        for chess_move in game.valid_moves_from(from) {
            if depth == 1 {
                lines += 1;
            } else {
                let mut played = game.clone();
                played.make_move(chess_move).unwrap();
                lines += count_lines(&played, player.opponent(), depth - 1);
            }
        }
    }
    lines
}

/// The squares of one rank from file `a`, written with a letter for each
/// piece, upper case for White, and a dot for an empty square.
fn put_rank(board: &mut ChessBoard, rank: Rank, row: &str) {
    assert_eq!(row.chars().count(), 8);
    for (file, letter) in FileIter::start_at(File::A).collect().into_iter().zip(row.chars()) {
        let color = if letter.is_ascii_uppercase() {
            White
        } else {
            Black
        };
        let piece = match letter.to_ascii_lowercase() {
            'p' => Piece::pawn(color),
            'n' => Piece::knight(color),
            'b' => Piece::bishop(color),
            'r' => Piece::rook(color),
            'q' => Piece::queen(color),
            'k' => Piece::king(color),
            _ => continue,
        };
        board.set_piece(ChessIndex::new(file, rank), piece);
    }
}

fn position(rows: [&str; 8]) -> Game {
    let mut board = ChessBoard::default();
    for (rank, row) in RankIter::start_at(Rank::Eighth)
        .collect_rev()
        .into_iter()
        .zip(rows)
    {
        put_rank(&mut board, rank, row);
    }
    Game::from_board(board)
}

#[test]
fn lines_of_play_from_the_start() {
    let game = Game::new();
    assert_eq!(count_lines(&game, White, 1), 20);
    assert_eq!(count_lines(&game, White, 2), 400);
    assert_eq!(count_lines(&game, White, 3), 8902);
}

#[test]
fn lines_of_play_with_castling_pins_and_en_passant() {
    let game = position([
        "r...k..r",
        "p.ppqpb.",
        "bn..pnp.",
        "...PN...",
        ".p..P...",
        "..N..Q.p",
        "PPPBBPPP",
        "R...K..R",
    ]);
    assert_eq!(game.king_index(White), E1);
    assert_eq!(game.king_index(Black), E8);
    assert_eq!(count_lines(&game, White, 1), 48);
    assert_eq!(count_lines(&game, White, 2), 2039);
    let king = game.valid_moves_from(E1);
    assert!(king.contains(&ChessMove::Castle(game.can_castle(E1, H1).unwrap())));
    assert!(king.contains(&ChessMove::Castle(game.can_castle(E1, A1).unwrap())));
}

#[test]
fn lines_of_play_in_an_endgame_with_checks() {
    let game = position([
        "........",
        "..p.....",
        "...p....",
        "KP.....r",
        ".R...p.k",
        "........",
        "....P.P.",
        "........",
    ]);
    assert_eq!(game.king_index(White), A5);
    assert_eq!(game.king_index(Black), H4);
    assert_eq!(count_lines(&game, White, 1), 14);
    assert_eq!(count_lines(&game, White, 2), 191);
    assert_eq!(count_lines(&game, White, 3), 2812);
}
