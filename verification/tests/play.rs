use game::fmt::{blacks_perspective, color_file, color_rank, get_perspective, whites_perspective};
use game::Color::{Black, White};
use game::{
    CanCastleError, CastleMove, ChessBoard, ChessIndex, ChessMove, File, FileIter, Game,
    IllegalMoveError, MissingKingError, MovePieceError, Piece, PieceType, Rank, RankIter,
};

const A1: ChessIndex = ChessIndex(File::A, Rank::First);
const A3: ChessIndex = ChessIndex(File::A, Rank::Third);
const A4: ChessIndex = ChessIndex(File::A, Rank::Fourth);
const A5: ChessIndex = ChessIndex(File::A, Rank::Fifth);
const A6: ChessIndex = ChessIndex(File::A, Rank::Sixth);
const A7: ChessIndex = ChessIndex(File::A, Rank::Seventh);
const A8: ChessIndex = ChessIndex(File::A, Rank::Eighth);
const B1: ChessIndex = ChessIndex(File::B, Rank::First);
const B2: ChessIndex = ChessIndex(File::B, Rank::Second);
const B4: ChessIndex = ChessIndex(File::B, Rank::Fourth);
const B5: ChessIndex = ChessIndex(File::B, Rank::Fifth);
const B7: ChessIndex = ChessIndex(File::B, Rank::Seventh);
const B8: ChessIndex = ChessIndex(File::B, Rank::Eighth);
const C1: ChessIndex = ChessIndex(File::C, Rank::First);
const C2: ChessIndex = ChessIndex(File::C, Rank::Second);
const C3: ChessIndex = ChessIndex(File::C, Rank::Third);
const C4: ChessIndex = ChessIndex(File::C, Rank::Fourth);
const C6: ChessIndex = ChessIndex(File::C, Rank::Sixth);
const C7: ChessIndex = ChessIndex(File::C, Rank::Seventh);
const C8: ChessIndex = ChessIndex(File::C, Rank::Eighth);
const D1: ChessIndex = ChessIndex(File::D, Rank::First);
const D2: ChessIndex = ChessIndex(File::D, Rank::Second);
const D3: ChessIndex = ChessIndex(File::D, Rank::Third);
const D4: ChessIndex = ChessIndex(File::D, Rank::Fourth);
const D5: ChessIndex = ChessIndex(File::D, Rank::Fifth);
const D6: ChessIndex = ChessIndex(File::D, Rank::Sixth);
const D7: ChessIndex = ChessIndex(File::D, Rank::Seventh);
const D8: ChessIndex = ChessIndex(File::D, Rank::Eighth);
const E1: ChessIndex = ChessIndex(File::E, Rank::First);
const E2: ChessIndex = ChessIndex(File::E, Rank::Second);
const E3: ChessIndex = ChessIndex(File::E, Rank::Third);
const E4: ChessIndex = ChessIndex(File::E, Rank::Fourth);
const E5: ChessIndex = ChessIndex(File::E, Rank::Fifth);
const E6: ChessIndex = ChessIndex(File::E, Rank::Sixth);
const E7: ChessIndex = ChessIndex(File::E, Rank::Seventh);
const E8: ChessIndex = ChessIndex(File::E, Rank::Eighth);
const F1: ChessIndex = ChessIndex(File::F, Rank::First);
const F3: ChessIndex = ChessIndex(File::F, Rank::Third);
const F4: ChessIndex = ChessIndex(File::F, Rank::Fourth);
const F5: ChessIndex = ChessIndex(File::F, Rank::Fifth);
const F6: ChessIndex = ChessIndex(File::F, Rank::Sixth);
const F8: ChessIndex = ChessIndex(File::F, Rank::Eighth);
const G1: ChessIndex = ChessIndex(File::G, Rank::First);
const G4: ChessIndex = ChessIndex(File::G, Rank::Fourth);
const G5: ChessIndex = ChessIndex(File::G, Rank::Fifth);
const G6: ChessIndex = ChessIndex(File::G, Rank::Sixth);
const G7: ChessIndex = ChessIndex(File::G, Rank::Seventh);
const G8: ChessIndex = ChessIndex(File::G, Rank::Eighth);
const H1: ChessIndex = ChessIndex(File::H, Rank::First);
const H2: ChessIndex = ChessIndex(File::H, Rank::Second);
const H3: ChessIndex = ChessIndex(File::H, Rank::Third);
const H4: ChessIndex = ChessIndex(File::H, Rank::Fourth);
const H6: ChessIndex = ChessIndex(File::H, Rank::Sixth);
const H7: ChessIndex = ChessIndex(File::H, Rank::Seventh);
const H8: ChessIndex = ChessIndex(File::H, Rank::Eighth);

fn all_squares() -> Vec<ChessIndex> {
    let mut squares = Vec::new();
    for rank in RankIter::start_at(Rank::First).collect() {
        for file in FileIter::start_at(File::A).collect() {
            squares.push(ChessIndex::new(file, rank));
        }
    }
    squares
}

fn same_pieces(a: &ChessBoard, b: &ChessBoard) -> bool {
    all_squares().into_iter().all(|idx| a.piece_at(idx) == b.piece_at(idx))
}

fn bare_game(pieces: Vec<(ChessIndex, Piece)>) -> Game {
    let mut board = ChessBoard::default();
    for (idx, piece) in pieces {
        board.set_piece(idx, piece);
    }
    Game::from_board(board)
}

/// A middle game with open lines, reached by executed moves only.
fn middle_game() -> Game {
    let mut game = Game::new();
    for (from, to) in [
        (E2, E4),
        (E7, E5),
        (G1, F3),
        (B8, C6),
        (F1, B5),
        (A7, A6),
        (B5, C6),
        (D7, C6),
        (D2, D4),
        (E5, D4),
        (D1, D4),
        (D8, D4),
        (F3, D4),
        (C8, G4),
    ] {
        let chess_move = ChessMove::regular(from, to);
        assert!(game.is_move_valid(chess_move), "{:?}", chess_move);
        game.execute_move(chess_move).unwrap();
    }
    game
}

#[test]
fn the_game_starts_from_the_standard_position() {
    let game = Game::new();
    let back = [
        PieceType::Rook,
        PieceType::Knight,
        PieceType::Bishop,
        PieceType::Queen,
        PieceType::King,
        PieceType::Bishop,
        PieceType::Knight,
        PieceType::Rook,
    ];
    for (i, file) in FileIter::start_at(File::A).collect().into_iter().enumerate() {
        let cases = [
            (Rank::First, back[i], White),
            (Rank::Second, PieceType::Pawn, White),
            (Rank::Seventh, PieceType::Pawn, Black),
            (Rank::Eighth, back[i], Black),
        ];
        for (rank, kind, color) in cases {
            let idx = ChessIndex::new(file, rank);
            let piece = game.board().piece_at(idx).unwrap();
            assert_eq!(piece.piece_type(), kind);
            assert_eq!(piece.color(), color);
            assert_eq!(piece.history(), &vec![idx]);
            assert!(!piece.has_made_move());
        }
        for rank in [Rank::Third, Rank::Fourth, Rank::Fifth, Rank::Sixth] {
            assert!(game.board().piece_at(ChessIndex::new(file, rank)).is_none());
        }
    }
    assert_eq!(game.king_index(White), E1);
    assert_eq!(game.king_index(Black), E8);
    assert_eq!(game.find_king(White), Some(E1));
    assert_eq!(game.find_king(Black), Some(E8));
    assert!(game.taken_pieces(White).is_empty());
    assert!(game.taken_pieces(Black).is_empty());
    assert_eq!(game.history_len(), 0);
    assert!(game.last_board().is_none());
    assert_eq!(game.is_king_checked(White), Ok(false));
    assert_eq!(game.is_king_checked(Black), Ok(false));
    assert_eq!(game.score(White), 0);
    assert!(same_pieces(Game::default().board(), game.board()));
}

#[test]
fn no_listed_move_lands_on_a_piece_of_the_movers_side() {
    for game in [Game::new(), middle_game()] {
        let mut listed = 0;
        for from in all_squares() {
            let moves = game.pseudo_legal_moves(from);
            let mover = match game.board().piece_at(from) {
                Some(p) => p.color(),
                None => {
                    assert!(moves.is_empty());
                    continue;
                }
            };
            for chess_move in moves {
                listed += 1;
                assert_eq!(chess_move.from_idx(), from);
                if let Some(target) = game.board().piece_at(chess_move.to_idx()) {
                    assert_ne!(target.color(), mover, "{:?}", chess_move);
                }
            }
        }
        assert!(listed >= 20);
    }
}

#[test]
fn the_starting_position_has_twenty_legal_moves_for_each_side() {
    let game = Game::new();
    let mut white = 0;
    let mut black = 0;
    for from in all_squares() {
        let moves = game.valid_moves_from(from);
        assert_eq!(moves, game.pseudo_legal_moves(from));
        match game.board().piece_at(from).map(|p| p.color()) {
            Some(White) => white += moves.len(),
            Some(Black) => black += moves.len(),
            None => assert!(moves.is_empty()),
        }
    }
    assert_eq!(white, 20);
    assert_eq!(black, 20);
    assert_eq!(
        game.valid_moves_from(B1),
        vec![ChessMove::regular(B1, C3), ChessMove::regular(B1, A3)]
    );
    assert_eq!(game.valid_moves_from(E4), vec![]);
}

#[test]
fn undo_restores_the_board_after_every_legal_move() {
    for game in [Game::new(), middle_game()] {
        for from in all_squares() {
            for chess_move in game.valid_moves_from(from) {
                let mut played = game.clone();
                played.execute_move(chess_move).unwrap();
                assert_eq!(played.history_len(), game.history_len() + 1);
                assert!(same_pieces(played.last_board().unwrap(), game.board()));
                assert!(!same_pieces(played.board(), game.board()));
                played.undo_last_move();
                assert!(same_pieces(played.board(), game.board()), "{:?}", chess_move);
                assert_eq!(played.history_len(), game.history_len());
                assert_eq!(played.king_index(White), game.king_index(White));
                assert_eq!(played.king_index(Black), game.king_index(Black));
            }
        }
    }
}

#[test]
fn undo_without_a_move_changes_nothing() {
    let mut game = Game::new();
    game.undo_last_move();
    assert!(same_pieces(game.board(), Game::new().board()));
    assert_eq!(game.history_len(), 0);
    assert_eq!(game.king_index(White), E1);
}

#[test]
fn undo_puts_the_kings_square_back() {
    let mut game = Game::new();
    game.board_mut().take_piece(E2);
    game.execute_move(ChessMove::regular(E1, E2)).unwrap();
    assert_eq!(game.king_index(White), E2);
    assert_eq!(game.find_king(White), Some(E2));
    game.undo_last_move();
    assert_eq!(game.king_index(White), E1);
    assert_eq!(game.board().piece_at(E1).unwrap().history(), &vec![E1]);
}

#[test]
fn no_legal_move_leaves_the_movers_king_in_check() {
    let mut checked = 0;
    let mut games = vec![Game::new(), middle_game()];
    let mut pinned = middle_game();
    pinned.execute_move(ChessMove::regular(B1, C3)).unwrap();
    pinned.execute_move(ChessMove::regular(F8, B4)).unwrap();
    games.push(pinned);
    for game in games {
        for from in all_squares() {
            let legal = game.valid_moves_from(from);
            for chess_move in game.pseudo_legal_moves(from) {
                let color = game.board().piece_at(from).unwrap().color();
                let mut played = game.clone();
                played.execute_move(chess_move).unwrap();
                let safe = played.is_king_checked(color) == Ok(false);
                assert_eq!(legal.contains(&chess_move), safe, "{:?}", chess_move);
                assert_eq!(game.is_move_valid(chess_move), safe);
                assert_eq!(game.is_legal(chess_move), safe);
                if !safe {
                    checked += 1;
                }
            }
        }
    }
    assert!(checked > 0);
}

#[test]
fn a_pinned_knight_has_no_legal_move() {
    let mut game = middle_game();
    game.execute_move(ChessMove::regular(B1, C3)).unwrap();
    game.execute_move(ChessMove::regular(F8, B4)).unwrap();
    assert_eq!(game.pseudo_legal_moves(C3).len(), 6);
    assert_eq!(game.valid_moves_from(C3), vec![]);
    assert!(!game.is_move_valid(ChessMove::regular(C3, D5)));
}

#[test]
fn moves_of_the_queen_behind_her_advanced_pawn() {
    let mut game = Game::new();
    game.execute_move(ChessMove::regular(D2, D4)).unwrap();
    assert_eq!(
        game.valid_moves_from(D1),
        vec![ChessMove::regular(D1, D2), ChessMove::regular(D1, D3)]
    );
}

#[test]
fn king_and_rook_alone_can_castle() {
    let game = bare_game(vec![(E1, Piece::king(White)), (H1, Piece::rook(White))]);
    assert_eq!(game.can_castle(E1, H1), Ok(CastleMove::new(E1, G1, H1, F1)));
    let moves = game.valid_moves_from(E1);
    assert_eq!(moves.len(), 6);
    assert_eq!(
        moves[5],
        ChessMove::Castle(CastleMove::new(E1, G1, H1, F1))
    );
    assert!(game.is_move_valid(ChessMove::Castle(CastleMove::new(E1, G1, H1, F1))));
    assert!(!game.is_move_valid(ChessMove::Castle(CastleMove::new(E1, C1, A1, D1))));
}

#[test]
fn castling_goes_to_either_side_for_either_colour() {
    let game = bare_game(vec![
        (E1, Piece::king(White)),
        (A1, Piece::rook(White)),
        (H1, Piece::rook(White)),
        (E8, Piece::king(Black)),
        (A8, Piece::rook(Black)),
        (H8, Piece::rook(Black)),
    ]);
    assert_eq!(game.can_castle(E1, A1), Ok(CastleMove::new(E1, C1, A1, D1)));
    assert_eq!(game.can_castle(E1, H1), Ok(CastleMove::new(E1, G1, H1, F1)));
    assert_eq!(game.can_castle(E8, A8), Ok(CastleMove::new(E8, C8, A8, D8)));
    assert_eq!(game.can_castle(E8, H8), Ok(CastleMove::new(E8, G8, H8, F8)));
    let moves = game.valid_king_moves_from(E8, Black);
    assert_eq!(
        moves[moves.len() - 2..],
        [
            ChessMove::Castle(CastleMove::new(E8, G8, H8, F8)),
            ChessMove::Castle(CastleMove::new(E8, C8, A8, D8)),
        ]
    );
    assert_eq!(game.can_castle(E1, H8), Err(CanCastleError::WrongPieces));
}

#[test]
fn castling_moves_king_and_rook_and_the_kings_square() {
    let mut game = bare_game(vec![
        (E1, Piece::king(White)),
        (A1, Piece::rook(White)),
        (E8, Piece::king(Black)),
    ]);
    let castle = ChessMove::Castle(game.can_castle(E1, A1).unwrap());
    assert!(game.is_move_valid(castle));
    game.execute_move(castle).unwrap();
    assert!(game.board().piece_at(E1).is_none());
    assert!(game.board().piece_at(A1).is_none());
    assert!(game.board().piece_at(C1).unwrap().is_king());
    assert!(game.board().piece_at(D1).unwrap().is_rook());
    assert_eq!(game.king_index(White), C1);
    assert_eq!(game.is_king_checked(White), Ok(false));
    assert!(game.taken_pieces(White).is_empty());
    assert_eq!(game.history_len(), 1);
    assert_eq!(
        game.can_castle(C1, D1),
        Err(CanCastleError::PieceHasMadeMove(C1))
    );
}

#[test]
fn each_failed_condition_of_castling_has_its_error() {
    // no king, or no rook, or of different sides
    let game = bare_game(vec![(E1, Piece::king(White)), (H1, Piece::rook(Black))]);
    assert_eq!(game.can_castle(E1, H1), Err(CanCastleError::WrongPieces));
    assert_eq!(game.can_castle(E1, A1), Err(CanCastleError::WrongPieces));
    assert_eq!(game.can_castle(A1, H1), Err(CanCastleError::WrongPieces));
    assert_eq!(game.can_castle(H1, E1), Err(CanCastleError::WrongPieces));

    // the king has moved, and moved back
    let mut game = bare_game(vec![(E1, Piece::king(White)), (H1, Piece::rook(White))]);
    game.execute_move(ChessMove::regular(E1, E2)).unwrap();
    game.execute_move(ChessMove::regular(E2, E1)).unwrap();
    assert_eq!(
        game.can_castle(E1, H1),
        Err(CanCastleError::PieceHasMadeMove(E1))
    );
    assert!(game
        .valid_moves_from(E1)
        .iter()
        .all(|m| matches!(m, ChessMove::Regular(_))));

    // the rook has moved, and moved back
    let mut game = bare_game(vec![(E1, Piece::king(White)), (H1, Piece::rook(White))]);
    game.execute_move(ChessMove::regular(H1, H2)).unwrap();
    game.execute_move(ChessMove::regular(H2, H1)).unwrap();
    assert_eq!(
        game.can_castle(E1, H1),
        Err(CanCastleError::PieceHasMadeMove(H1))
    );

    // a piece of either side between them
    let game = bare_game(vec![
        (E1, Piece::king(White)),
        (A1, Piece::rook(White)),
        (B1, Piece::knight(Black)),
    ]);
    assert_eq!(game.can_castle(E1, A1), Err(CanCastleError::PiecesBetween));

    // the king is in check, would cross an attacked square, or land on one
    for (attacker, square) in [(E5, E1), (F5, F1), (G5, G1)] {
        let game = bare_game(vec![
            (E1, Piece::king(White)),
            (H1, Piece::rook(White)),
            (attacker, Piece::rook(Black)),
        ]);
        assert_eq!(
            game.can_castle(E1, H1),
            Err(CanCastleError::SquareInCheck(square))
        );
        assert!(game
            .valid_moves_from(E1)
            .iter()
            .all(|m| matches!(m, ChessMove::Regular(_))));
    }

    // pieces between are looked at before attacks
    let game = bare_game(vec![
        (E1, Piece::king(White)),
        (H1, Piece::rook(White)),
        (G1, Piece::knight(White)),
        (E5, Piece::rook(Black)),
    ]);
    assert_eq!(game.can_castle(E1, H1), Err(CanCastleError::PiecesBetween));
}

#[test]
fn only_the_kings_own_squares_must_be_safe_to_castle() {
    // the rook is attacked, and so is the square beside it that the king
    // does not reach
    let game = bare_game(vec![
        (E1, Piece::king(White)),
        (A1, Piece::rook(White)),
        (A5, Piece::rook(Black)),
        (B5, Piece::rook(Black)),
    ]);
    assert!(game.is_checked(A1, White));
    assert!(game.is_checked(B1, White));
    assert_eq!(game.can_castle(E1, A1), Ok(CastleMove::new(E1, C1, A1, D1)));
}

#[test]
fn king_and_rook_must_stand_on_one_rank_three_or_four_files_apart() {
    let game = bare_game(vec![(E1, Piece::king(White)), (E5, Piece::rook(White))]);
    assert_eq!(game.can_castle(E1, E5), Err(CanCastleError::WrongPieces));
    let game = bare_game(vec![(E1, Piece::king(White)), (H2, Piece::rook(White))]);
    assert_eq!(game.can_castle(E1, H2), Err(CanCastleError::WrongPieces));
    let game = bare_game(vec![(G1, Piece::king(White)), (H1, Piece::rook(White))]);
    assert_eq!(game.can_castle(G1, H1), Err(CanCastleError::WrongPieces));
    let game = bare_game(vec![(F1, Piece::king(White)), (H1, Piece::rook(White))]);
    assert_eq!(game.can_castle(F1, H1), Err(CanCastleError::WrongPieces));
    let game = bare_game(vec![(A1, Piece::king(White)), (H1, Piece::rook(White))]);
    assert_eq!(game.can_castle(A1, H1), Err(CanCastleError::WrongPieces));
    let game = bare_game(vec![(D4, Piece::king(Black)), (H4, Piece::rook(Black))]);
    assert_eq!(game.can_castle(D4, H4), Ok(CastleMove::new(D4, F4, H4, E4)));
}

#[test]
fn en_passant_is_legal_only_right_after_the_advance() {
    let mut game = Game::new();
    game.execute_move(ChessMove::regular(D2, D4)).unwrap();
    game.execute_move(ChessMove::regular(A7, A6)).unwrap();
    game.execute_move(ChessMove::regular(D4, D5)).unwrap();
    game.execute_move(ChessMove::regular(E7, E5)).unwrap();
    let en_passant = ChessMove::en_passant(D5, E6, E5);
    assert!(game.pawn_just_advanced(E5));
    assert!(!game.pawn_just_advanced(D5));
    assert!(!game.pawn_just_advanced(A6));
    assert_eq!(
        game.valid_moves_from(D5),
        vec![ChessMove::regular(D5, D6), en_passant]
    );
    assert!(game.is_move_valid(en_passant));

    // one move by each side later
    let mut later = game.clone();
    later.execute_move(ChessMove::regular(H2, H3)).unwrap();
    later.execute_move(ChessMove::regular(H7, H6)).unwrap();
    assert!(!later.pawn_just_advanced(E5));
    assert_eq!(
        later.valid_pawn_moves_from(D5, White),
        vec![ChessMove::regular(D5, D6), en_passant]
    );
    assert_eq!(later.valid_moves_from(D5), vec![ChessMove::regular(D5, D6)]);
    assert!(!later.is_move_valid(en_passant));

    // one single move later
    let mut later = game.clone();
    later.execute_move(ChessMove::regular(H2, H3)).unwrap();
    assert_eq!(later.valid_moves_from(D5), vec![ChessMove::regular(D5, D6)]);

    // taken at once
    game.execute_move(en_passant).unwrap();
    assert!(game.board().piece_at(D5).is_none());
    assert!(game.board().piece_at(E5).is_none());
    let pawn = game.board().piece_at(E6).unwrap();
    assert!(pawn.is_pawn());
    assert_eq!(pawn.color(), White);
    assert_eq!(pawn.history(), &vec![D2, D4, D5, E6]);
    assert_eq!(game.taken_pieces(White).len(), 1);
    assert!(game.taken_pieces(White)[0].is_pawn());
    assert_eq!(game.taken_pieces(White)[0].color(), Black);
    assert_eq!(game.score(White), 1);
    assert_eq!(game.score(Black), 0);
}

#[test]
fn en_passant_for_black_and_to_the_left() {
    let mut game = Game::new();
    game.execute_move(ChessMove::regular(H2, H3)).unwrap();
    game.execute_move(ChessMove::regular(D7, D5)).unwrap();
    game.execute_move(ChessMove::regular(H3, H4)).unwrap();
    game.execute_move(ChessMove::regular(D5, D4)).unwrap();
    game.execute_move(ChessMove::regular(C2, C4)).unwrap();
    assert_eq!(
        game.valid_moves_from(D4),
        vec![
            ChessMove::regular(D4, D3),
            ChessMove::en_passant(D4, C3, C4)
        ]
    );
}

#[test]
fn no_en_passant_after_two_single_steps_or_onto_a_piece() {
    let mut game = Game::new();
    game.execute_move(ChessMove::regular(D2, D4)).unwrap();
    game.execute_move(ChessMove::regular(E7, E6)).unwrap();
    game.execute_move(ChessMove::regular(D4, D5)).unwrap();
    game.execute_move(ChessMove::regular(E6, E5)).unwrap();
    assert_eq!(
        game.valid_pawn_moves_from(D5, White),
        vec![ChessMove::regular(D5, D6)]
    );

    let mut game = Game::new();
    game.execute_regular_move((D2, D5).into()).unwrap();
    game.execute_regular_move((E7, E5).into()).unwrap();
    game.execute_regular_move((G8, E6).into()).unwrap();
    assert_eq!(
        game.valid_pawn_moves_from(D5, White),
        vec![ChessMove::regular(D5, D6), ChessMove::regular(D5, E6)]
    );
}

#[test]
fn a_promotion_that_exposes_the_king_is_not_legal() {
    let game = bare_game(vec![
        (A7, Piece::king(White)),
        (B7, Piece::pawn(White)),
        (H7, Piece::rook(Black)),
        (H1, Piece::king(Black)),
    ]);
    assert_eq!(
        game.pseudo_legal_moves(B7),
        ChessMove::promotions(B7, B8)
    );
    assert_eq!(game.valid_moves_from(B7), vec![]);
}

#[test]
fn a_pawn_promotes_by_capture_too() {
    let mut game = bare_game(vec![
        (E1, Piece::king(White)),
        (B2, Piece::pawn(Black)),
        (A1, Piece::rook(White)),
        (B1, Piece::knight(White)),
        (E8, Piece::king(Black)),
    ]);
    assert_eq!(
        game.valid_moves_from(B2),
        ChessMove::promotions(B2, A1)
    );
    game.execute_move(ChessMove::promotion(B2, A1, PieceType::Queen))
        .unwrap();
    let queen = game.board().piece_at(A1).unwrap();
    assert_eq!(queen.piece_type(), PieceType::Queen);
    assert_eq!(queen.color(), Black);
    assert_eq!(queen.history(), &vec![A1]);
    assert!(game.board().piece_at(B2).is_none());
    assert_eq!(game.taken_pieces(Black).len(), 1);
    assert!(game.taken_pieces(Black)[0].is_rook());
    assert_eq!(game.score(Black), 5);
}

#[test]
fn a_regular_move_takes_what_stands_on_its_target() {
    let mut game = middle_game();
    assert_eq!(game.taken_pieces(White).len(), 3);
    assert_eq!(game.taken_pieces(Black).len(), 3);
    assert_eq!(game.score(White), 3 + 1 + 9);
    assert_eq!(game.score(Black), 3 + 1 + 9);
    assert_eq!(game.history_len(), 14);
    let kinds: Vec<PieceType> = game
        .taken_pieces(White)
        .iter()
        .map(|p| p.piece_type())
        .collect();
    assert_eq!(
        kinds,
        vec![PieceType::Knight, PieceType::Pawn, PieceType::Queen]
    );
    let knight = game.board().piece_at(D4).unwrap();
    assert_eq!(knight.history(), &vec![G1, F3, D4]);
    assert_eq!(knight.previous_index(), Some(F3));
    game.add_taken_piece(White, Piece::rook(Black));
    assert_eq!(game.score(White), 18);
}

#[test]
fn the_score_stops_at_255() {
    let mut game = Game::new();
    for _ in 0..28 {
        game.add_taken_piece(Black, Piece::queen(White));
    }
    assert_eq!(game.score(Black), 252);
    game.add_taken_piece(Black, Piece::king(White));
    assert_eq!(game.score(Black), 252);
    game.add_taken_piece(Black, Piece::queen(White));
    assert_eq!(game.score(Black), 255);
    game.add_taken_piece(Black, Piece::pawn(White));
    assert_eq!(game.score(Black), 255);
    assert_eq!(game.score(White), 0);
}

#[test]
fn a_move_that_cannot_be_made_is_refused_and_changes_nothing() {
    let game = Game::new();
    let refused = [
        (
            ChessMove::regular(E4, E5),
            MovePieceError::NoPieceToMove(E4),
        ),
        (ChessMove::regular(E1, E2), MovePieceError::OwnPieceAtTarget),
        (
            ChessMove::Castle(CastleMove::new(E4, G1, H1, F1)),
            MovePieceError::NoPieceToMove(E4),
        ),
        (
            ChessMove::Castle(CastleMove::new(E1, G1, H4, F1)),
            MovePieceError::NoPieceToMove(H4),
        ),
        (
            ChessMove::Castle(CastleMove::new(E1, G1, E1, F1)),
            MovePieceError::NoPieceToMove(E1),
        ),
        (
            ChessMove::Castle(CastleMove::new(E1, G1, H1, F1)),
            MovePieceError::TargetOccupied(G1),
        ),
        (
            ChessMove::Castle(CastleMove::new(E1, E4, H1, F1)),
            MovePieceError::TargetOccupied(F1),
        ),
        (
            ChessMove::promotion(E4, E5, PieceType::Queen),
            MovePieceError::NoPieceToMove(E4),
        ),
        (
            ChessMove::en_passant(E2, D2, D7),
            MovePieceError::TargetOccupied(D2),
        ),
        (
            ChessMove::en_passant(E4, E5, D7),
            MovePieceError::NoPieceToMove(E4),
        ),
        (
            ChessMove::en_passant(E2, E3, E4),
            MovePieceError::NoPawnToTake(E4),
        ),
        (
            ChessMove::en_passant(E2, E3, D8),
            MovePieceError::NoPawnToTake(D8),
        ),
        (
            ChessMove::en_passant(E2, E3, E2),
            MovePieceError::NoPawnToTake(E2),
        ),
    ];
    for (chess_move, error) in refused {
        let mut played = game.clone();
        assert_eq!(played.execute_move(chess_move), Err(error), "{:?}", chess_move);
        assert!(same_pieces(played.board(), game.board()));
        assert_eq!(played.history_len(), 0);
        assert!(played.taken_pieces(White).is_empty());
        assert!(played.taken_pieces(Black).is_empty());
        assert_eq!(played.king_index(White), E1);
        assert!(!game.is_move_valid(chess_move));
        assert!(!game.is_legal(chess_move));
    }
}

#[test]
fn only_a_legal_move_is_made() {
    let mut game = Game::new();
    let jump = ChessMove::regular(A1, A5);
    assert_eq!(game.execute_move(jump), Ok(()));
    let mut game = Game::new();
    assert_eq!(game.make_move(jump), Err(IllegalMoveError(jump)));
    assert!(same_pieces(game.board(), Game::new().board()));
    assert_eq!(game.history_len(), 0);
    let nothing = ChessMove::regular(E4, E5);
    assert_eq!(game.make_move(nothing), Err(IllegalMoveError(nothing)));

    assert_eq!(game.make_move(ChessMove::regular(E2, E4)), Ok(()));
    assert_eq!(game.history_len(), 1);
    assert!(game.board().piece_at(E2).is_none());
    assert_eq!(game.board().piece_at(E4).unwrap().history(), &vec![E2, E4]);
    assert!(same_pieces(game.last_board().unwrap(), Game::new().board()));
}

#[test]
fn a_piece_may_be_put_down_where_it_stands() {
    let mut game = Game::new();
    assert_eq!(game.execute_move(ChessMove::regular(E1, E1)), Ok(()));
    assert_eq!(game.board().piece_at(E1).unwrap().history(), &vec![E1, E1]);
    assert!(game.taken_pieces(White).is_empty());
    assert_eq!(game.king_index(White), E1);
    assert_eq!(game.history_len(), 1);
}

#[test]
fn the_errors_of_execution_print() {
    assert_eq!(
        MovePieceError::NoPieceToMove(E4).to_string(),
        "no piece at e4"
    );
    assert_eq!(
        MovePieceError::OwnPieceAtTarget.to_string(),
        "can't move to a square you occupy"
    );
    assert_eq!(
        MovePieceError::TargetOccupied(G1).to_string(),
        "can't move to g1, which is occupied"
    );
    assert_eq!(
        MovePieceError::NoPawnToTake(D8).to_string(),
        "no pawn to take at d8"
    );
    assert_eq!(
        CanCastleError::SquareInCheck(G1).to_string(),
        "can't castle because g1 is in check"
    );
    assert_eq!(
        CanCastleError::WrongPieces.to_string(),
        "can't castle because at least one of the given squares was wrong"
    );
    assert_eq!(
        CanCastleError::PiecesBetween.to_string(),
        "can't castle because there are pieces between the king and rook"
    );
    assert_eq!(
        CanCastleError::PieceHasMadeMove(H1).to_string(),
        "can't castle because the piece at h1 has already moved"
    );
}

#[test]
fn a_game_from_a_board_finds_the_kings() {
    let game = bare_game(vec![
        (C3, Piece::king(Black)),
        (G7, Piece::king(White)),
        (H8, Piece::king(White)),
        (A1, Piece::rook(White)),
    ]);
    assert_eq!(game.king_index(Black), C3);
    assert_eq!(game.king_index(White), G7);
    assert_eq!(game.history_len(), 0);
    assert!(game.taken_pieces(White).is_empty());
    assert_eq!(game.board().piece_at(A1).unwrap().history(), &vec![A1]);
    assert_eq!(game.is_king_checked(Black), Ok(false));

    let game = bare_game(vec![(A1, Piece::rook(White))]);
    assert_eq!(game.king_index(White), E1);
    assert_eq!(game.king_index(Black), E8);
    assert_eq!(game.is_king_checked(White), Err(MissingKingError(White)));
}

#[test]
fn a_missing_king_is_an_error_of_its_own() {
    let mut game = Game::new();
    game.board_mut().take_piece(E8);
    assert_eq!(game.is_king_checked(Black), Err(MissingKingError(Black)));
    assert_eq!(game.is_king_checked(White), Ok(false));
    assert_eq!(game.find_king(Black), None);
    // without its king a side has no legal move
    assert_eq!(game.pseudo_legal_moves(E7).len(), 2);
    assert_eq!(game.valid_moves_from(E7), vec![]);
    assert_eq!(game.valid_moves_from(E2).len(), 2);

    // a king that stands elsewhere than the game has it is missing too
    let mut game = Game::new();
    let king = game.board_mut().take_piece(E1).unwrap();
    game.board_mut().set_piece(E4, king);
    assert_eq!(game.king_index(White), E1);
    assert_eq!(game.find_king(White), Some(E4));
    assert_eq!(game.is_king_checked(White), Err(MissingKingError(White)));
}

#[test]
fn attacks_do_not_depend_on_whose_turn_it_is() {
    let game = bare_game(vec![
        (E4, Piece::king(White)),
        (H7, Piece::bishop(Black)),
        (E8, Piece::king(Black)),
    ]);
    assert!(game.is_checked(E4, White));
    assert!(game.is_checked(G6, White));
    assert!(!game.is_checked(E4, Black));
    assert_eq!(game.is_checked_by_bishop(E4, White), Some(H7));
    assert_eq!(game.is_king_checked(White), Ok(true));
    assert_eq!(game.is_king_checked(Black), Ok(false));
    // a king does not give check
    assert!(!game.is_checked(E7, White));
    assert!(!game.is_checked(D5, Black));
}

#[test]
fn pawns_attack_forward_on_the_diagonals_only() {
    let game = bare_game(vec![(D5, Piece::pawn(Black)), (D3, Piece::pawn(White))]);
    assert_eq!(game.is_checked_by_pawn(E4, White), Some(D5));
    assert_eq!(game.is_checked_by_pawn(C4, White), Some(D5));
    assert_eq!(game.is_checked_by_pawn(D4, White), None);
    assert_eq!(game.is_checked_by_pawn(E6, White), None);
    assert_eq!(game.is_checked_by_pawn(E4, Black), Some(D3));
    assert_eq!(game.is_checked_by_pawn(C4, Black), Some(D3));
    assert_eq!(game.is_checked_by_pawn(E2, Black), None);
    assert_eq!(game.is_checked_by_pawn(A1, White), None);
    assert_eq!(game.is_checked_by_pawn(H8, Black), None);
}

#[test]
fn the_first_attacker_in_the_order_of_the_search_is_named() {
    let game = bare_game(vec![
        (E4, Piece::king(White)),
        (A4, Piece::rook(Black)),
        (E8, Piece::rook(Black)),
        (H4, Piece::queen(Black)),
        (H1, Piece::queen(Black)),
        (F6, Piece::knight(Black)),
        (D2, Piece::knight(Black)),
        (B7, Piece::bishop(Black)),
        (C2, Piece::bishop(Black)),
    ]);
    assert_eq!(game.is_checked_by_rook(E4, White), Some(A4));
    assert_eq!(game.is_checked_by_queen(E4, White), Some(H4));
    assert_eq!(game.is_checked_by_knight(E4, White), Some(F6));
    assert_eq!(game.is_checked_by_bishop(E4, White), Some(B7));
    assert_eq!(game.is_checked_by_rook(E4, Black), None);
}

#[test]
fn a_slide_in_no_direction_gives_no_move() {
    let game = Game::new();
    assert_eq!(game.moves_to_opponents_piece(E4, 0, 0, White), vec![]);
    assert_eq!(game.moves_to_opponents_piece(E2, 0, 0, White), vec![]);
    assert_eq!(
        game.moves_to_opponents_piece(A3, 2, 1, White),
        vec![
            ChessMove::regular(A3, C4),
            ChessMove::regular(A3, E5),
            ChessMove::regular(A3, G6)
        ]
    );
    assert_eq!(
        game.moves_to_opponents_piece(E4, i32::MAX, i32::MIN, White),
        vec![]
    );
    assert_eq!(
        game.moves_to_opponents_piece(A3, 7, 0, Black),
        vec![ChessMove::regular(A3, H3)]
    );
}

#[test]
fn pawns_move_one_way_only() {
    let game = bare_game(vec![
        (E8, Piece::pawn(White)),
        (A1, Piece::pawn(Black)),
        (C7, Piece::pawn(Black)),
        (C6, Piece::knight(White)),
        (D3, Piece::pawn(White)),
        (D4, Piece::pawn(Black)),
        (G7, Piece::pawn(Black)),
        (G5, Piece::bishop(White)),
    ]);
    assert_eq!(game.valid_pawn_moves_from(E8, White), vec![]);
    assert_eq!(game.valid_pawn_moves_from(A1, Black), vec![]);
    assert_eq!(game.valid_pawn_moves_from(C7, Black), vec![]);
    assert_eq!(game.valid_pawn_moves_from(D3, White), vec![]);
    assert_eq!(game.valid_pawn_moves_from(D4, Black), vec![]);
    assert_eq!(
        game.valid_pawn_moves_from(G7, Black),
        vec![ChessMove::regular(G7, G6)]
    );
}

#[test]
fn the_board_as_white_sees_it() {
    let game = Game::new();
    let expected = "   a   b   c   d   e   f   g   h  \n \
┌───┬───┬───┬───┬───┬───┬───┬───┐\n\
8│ ♜ │ ♞ │ ♝ │ ♛ │ ♚ │ ♝ │ ♞ │ ♜ │\n \
├───┼───┼───┼───┼───┼───┼───┼───┤\n\
7│ ♟︎ │ ♟︎ │ ♟︎ │ ♟︎ │ ♟︎ │ ♟︎ │ ♟︎ │ ♟︎ │\n \
├───┼───┼───┼───┼───┼───┼───┼───┤\n\
6│   │   │   │   │   │   │   │   │\n \
├───┼───┼───┼───┼───┼───┼───┼───┤\n\
5│   │   │   │   │   │   │   │   │\n \
├───┼───┼───┼───┼───┼───┼───┼───┤\n\
4│   │   │   │ X  │   │   │   │   │\n \
├───┼───┼───┼───┼───┼───┼───┼───┤\n\
3│   │   │   │ X  │   │   │   │   │\n \
├───┼───┼───┼───┼───┼───┼───┼───┤\n\
2│ ♙ │ ♙ │ ♙ │ ♙ │ ♙ │ ♙ │ ♙ │ ♙ │\n \
├───┼───┼───┼───┼───┼───┼───┼───┤\n\
1│ ♖ │ ♘ │ ♗ │ ♕ │ ♔ │ ♗ │ ♘ │ ♖ │\n \
└───┴───┴───┴───┴───┴───┴───┴───┘";
    let expected = expected.replace("│ X  │", "│X  │");
    let highlighted: Vec<ChessIndex> = game
        .valid_moves_from(D2)
        .iter()
        .map(|m| m.to_idx())
        .collect();
    assert_eq!(highlighted, vec![D3, D4]);
    assert_eq!(whites_perspective(game.board(), &highlighted), expected);
    assert_eq!(get_perspective(game.board(), White, &highlighted), expected);
    assert_eq!(
        whites_perspective(game.board(), &Vec::new()),
        expected.replace("X", " ")
    );
}

#[test]
fn the_board_as_black_sees_it() {
    let mut game = Game::new();
    game.execute_move(ChessMove::regular(E2, E4)).unwrap();
    let picture = blacks_perspective(game.board(), &vec![E4, A8]);
    let lines: Vec<&str> = picture.split('\n').collect();
    assert_eq!(lines.len(), 18);
    assert_eq!(lines[0], "   h   g   f   e   d   c   b   a  ");
    assert_eq!(lines[1], " ┌───┬───┬───┬───┬───┬───┬───┬───┐");
    assert_eq!(lines[2], "1│ ♖ │ ♘ │ ♗ │ ♔ │ ♕ │ ♗ │ ♘ │ ♖ │");
    assert_eq!(lines[3], " ├───┼───┼───┼───┼───┼───┼───┼───┤");
    assert_eq!(lines[4], "2│ ♙ │ ♙ │ ♙ │   │ ♙ │ ♙ │ ♙ │ ♙ │");
    assert_eq!(lines[8], "4│   │   │   │X♙ │   │   │   │   │");
    assert_eq!(lines[16], "8│ ♜ │ ♞ │ ♝ │ ♚ │ ♛ │ ♝ │ ♞ │X♜ │");
    assert_eq!(lines[17], " └───┴───┴───┴───┴───┴───┴───┴───┘");
    assert_eq!(picture, get_perspective(game.board(), Black, &vec![A8, E4]));
}

#[test]
fn each_side_sees_the_board_from_its_own_edge() {
    assert_eq!(
        color_rank(White),
        RankIter::start_at(Rank::Eighth).collect_rev()
    );
    assert_eq!(color_rank(Black), RankIter::start_at(Rank::First).collect());
    assert_eq!(color_file(White), FileIter::start_at(File::A).collect());
    assert_eq!(
        color_file(Black),
        FileIter::start_at(File::H).collect_rev()
    );
    assert_eq!(color_rank(White)[0], Rank::Eighth);
    assert_eq!(color_file(Black)[0], File::H);
}
