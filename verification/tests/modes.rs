use game::fmt::{blacks_perspective, whites_perspective};
use game::Color::{Black, White};
use game::{
    CastleMove, ChessIndex, ChessMove, ComputerPlayer, File, Game, LocalPlayer, PieceType,
    PlayLocalMode, PlayLocalOpts, Rank,
};
use std::str::FromStr;

const A6: ChessIndex = ChessIndex(File::A, Rank::Sixth);
const A7: ChessIndex = ChessIndex(File::A, Rank::Seventh);
const A8: ChessIndex = ChessIndex(File::A, Rank::Eighth);
const B8: ChessIndex = ChessIndex(File::B, Rank::Eighth);
const C6: ChessIndex = ChessIndex(File::C, Rank::Sixth);
const D5: ChessIndex = ChessIndex(File::D, Rank::Fifth);
const E1: ChessIndex = ChessIndex(File::E, Rank::First);
const E2: ChessIndex = ChessIndex(File::E, Rank::Second);
const E4: ChessIndex = ChessIndex(File::E, Rank::Fourth);
const E5: ChessIndex = ChessIndex(File::E, Rank::Fifth);
const E6: ChessIndex = ChessIndex(File::E, Rank::Sixth);
const F1: ChessIndex = ChessIndex(File::F, Rank::First);
const F3: ChessIndex = ChessIndex(File::F, Rank::Third);
const G1: ChessIndex = ChessIndex(File::G, Rank::First);
const G8: ChessIndex = ChessIndex(File::G, Rank::Eighth);
const H1: ChessIndex = ChessIndex(File::H, Rank::First);
const H3: ChessIndex = ChessIndex(File::H, Rank::Third);

#[test]
fn a_mode_is_named_in_any_case() {
    assert_eq!(PlayLocalMode::parse("vs-human"), Ok(PlayLocalMode::VsHuman));
    assert_eq!(PlayLocalMode::parse("VS-HUMAN"), Ok(PlayLocalMode::VsHuman));
    assert_eq!(
        PlayLocalMode::parse("Vs-Computer-As-Black"),
        Ok(PlayLocalMode::VsComputerAsBlack)
    );
    assert_eq!(
        PlayLocalMode::from_str("vs-computer-as-white"),
        Ok(PlayLocalMode::VsComputerAsWhite)
    );
    assert_eq!(
        "VS-COMPUTER-AS-WHITE".parse::<PlayLocalMode>(),
        Ok(PlayLocalMode::VsComputerAsWhite)
    );
}

#[test]
fn an_unknown_mode_is_quoted_in_lower_case() {
    assert_eq!(
        PlayLocalMode::parse("Vs-Nobody"),
        Err("invalid mode: 'vs-nobody'".to_string())
    );
    assert_eq!(PlayLocalMode::parse(""), Err("invalid mode: ''".to_string()));
    assert_eq!(
        PlayLocalMode::parse(" vs-human"),
        Err("invalid mode: ' vs-human'".to_string())
    );
}

#[test]
fn a_name_is_taken_as_it_stands_when_it_is_said_to_be_lower_case() {
    assert_eq!(
        PlayLocalMode::from_lowercase("vs-human"),
        Ok(PlayLocalMode::VsHuman)
    );
    assert_eq!(
        PlayLocalMode::from_lowercase("vs-computer-as-black"),
        Ok(PlayLocalMode::VsComputerAsBlack)
    );
    assert_eq!(
        PlayLocalMode::from_lowercase("vs-computer-as-white"),
        Ok(PlayLocalMode::VsComputerAsWhite)
    );
    assert_eq!(
        PlayLocalMode::from_lowercase("VS-HUMAN"),
        Err("invalid mode: 'VS-HUMAN'".to_string())
    );
}

#[test]
fn the_options_hold_the_mode() {
    let opts = PlayLocalOpts::new(PlayLocalMode::VsComputerAsBlack);
    assert_eq!(opts.mode(), PlayLocalMode::VsComputerAsBlack);
    assert_eq!(
        PlayLocalOpts::new(PlayLocalMode::VsHuman).mode(),
        PlayLocalMode::VsHuman
    );
}

#[test]
fn a_player_can_choose_a_piece_of_its_own_side_only() {
    let game = Game::new();
    assert!(LocalPlayer::can_choose(&game, White, E2));
    assert!(!LocalPlayer::can_choose(&game, Black, E2));
    assert!(LocalPlayer::can_choose(&game, Black, G8));
    assert!(!LocalPlayer::can_choose(&game, White, E4));
    assert!(!LocalPlayer::can_choose(&game, Black, E4));
}

#[test]
fn a_move_is_chosen_by_the_square_it_arrives_on() {
    let _player = LocalPlayer::new();
    let game = Game::new();
    let moves = game.valid_moves_from(G1);
    assert_eq!(
        LocalPlayer::choose_move(&moves, F3),
        Some(ChessMove::regular(G1, F3))
    );
    assert_eq!(
        LocalPlayer::choose_move(&moves, H3),
        Some(ChessMove::regular(G1, H3))
    );
    assert_eq!(LocalPlayer::choose_move(&moves, E2), None);
    assert_eq!(LocalPlayer::choose_move(&Vec::new(), F3), None);

    // of the promotions of one pawn the last that is listed
    let mut moves = ChessMove::promotions(A7, A8);
    moves.append(&mut ChessMove::promotions(A7, B8));
    assert_eq!(
        LocalPlayer::choose_move(&moves, A8),
        Some(ChessMove::promotion(A7, A8, PieceType::Bishop))
    );
    assert_eq!(
        LocalPlayer::choose_move(&moves, B8),
        Some(ChessMove::promotion(A7, B8, PieceType::Bishop))
    );

    // castling is chosen by the king's square
    let castle = ChessMove::Castle(CastleMove::new(E1, G1, H1, F1));
    let moves = vec![ChessMove::regular(E1, F1), castle];
    assert_eq!(LocalPlayer::choose_move(&moves, G1), Some(castle));
    assert_eq!(LocalPlayer::choose_move(&moves, H1), None);
}

#[test]
fn the_squares_to_highlight_are_where_the_moves_arrive() {
    let moves = vec![
        ChessMove::regular(E2, E4),
        ChessMove::Castle(CastleMove::new(E1, G1, H1, F1)),
        ChessMove::promotion(A7, B8, PieceType::Queen),
        ChessMove::en_passant(D5, E6, E5),
        ChessMove::regular(E2, E4),
    ];
    assert_eq!(
        LocalPlayer::highlighted_squares(&moves),
        vec![E4, G1, B8, E6, E4]
    );
    assert_eq!(LocalPlayer::highlighted_squares(&Vec::new()), vec![]);

    let game = Game::new();
    let moves = game.valid_moves_from(B8);
    assert_eq!(
        LocalPlayer::highlighted(Black, &game, &moves),
        blacks_perspective(game.board(), &vec![C6, A6])
    );
    assert_eq!(
        LocalPlayer::highlighted(White, &game, &moves),
        whites_perspective(game.board(), &vec![A6, C6])
    );
    assert!(LocalPlayer::highlighted(White, &game, &moves).contains("6│X  │   │X  │   │"));
}

#[test]
fn a_computer_player_keeps_its_strategy() {
    let player = ComputerPlayer::new(7_u8);
    assert_eq!(*player.strategy(), 7);
    let player = ComputerPlayer::new("material");
    assert_eq!(*player.strategy(), "material");
}
