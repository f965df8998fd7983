use std::str::FromStr;

use shallow_nnue::bit_move::{orient, piece_index, BitMove, MoveType, PieceMove, PieceValueChange};
use shallow_nnue::board::{Board, ChessMove, Color, Piece, Square};
use shallow_nnue::shallow_nnue::ShallowNNUE;

fn color(color: chess::Color) -> Color {
    match color {
        chess::Color::White => Color::White,
        chess::Color::Black => Color::Black,
    }
}

fn piece(piece: chess::Piece) -> Piece {
    match piece {
        chess::Piece::Pawn => Piece::Pawn,
        chess::Piece::Knight => Piece::Knight,
        chess::Piece::Bishop => Piece::Bishop,
        chess::Piece::Rook => Piece::Rook,
        chess::Piece::Queen => Piece::Queen,
        chess::Piece::King => Piece::King,
    }
}

fn square(square: chess::Square) -> Square {
    Square::new(square.to_int()).unwrap()
}

fn chess_move(mve: chess::ChessMove) -> ChessMove {
    ChessMove::new(square(mve.get_source()), square(mve.get_dest()), mve.get_promotion().map(piece))
}

/// The placement of `board`, to be encoded from the side `turn`.
fn board_seen_by(board: &chess::Board, turn: chess::Color) -> Board {
    let mut model = Board::empty(color(turn));
    for sq in chess::ALL_SQUARES {
        if let Some(kind) = board.piece_on(sq) {
            let side = board.color_on(sq).unwrap();
            model.set_piece(piece(kind), color(side), square(sq));
        }
    }
    model
}

fn board(board: &chess::Board) -> Board {
    board_seen_by(board, board.side_to_move())
}

fn encoding(board: Board) -> [u8; 768] {
    let mut nnue = ShallowNNUE::new();
    nnue.set_board_hard(board).unwrap();
    *nnue.encoding()
}

fn files_apart(mve: chess::ChessMove) -> usize {
    let from = mve.get_source().get_file().to_index();
    let to = mve.get_dest().get_file().to_index();
    from.max(to) - from.min(to)
}

struct Tally {
    quiet: usize,
    capture: usize,
    promotion: usize,
    castle: usize,
    en_passant: usize,
}

/// Classifies `mve` on `position` and holds the result against what the move
/// does on the board of the `chess` crate.
fn check_move(position: &chess::Board, mve: chess::ChessMove, tally: &mut Tally) {
    let turn = position.side_to_move();
    let before = board(position);
    let bitmove = BitMove::new(chess_move(mve), color(turn), before).unwrap();
    let mover = position.piece_on(mve.get_source()).unwrap();
    let captured = position.piece_on(mve.get_dest());
    let castles = mover == chess::Piece::King && files_apart(mve) == 2;
    let en_passant =
        mover == chess::Piece::Pawn && files_apart(mve) == 1 && captured.is_none();

    match bitmove.mve() {
        MoveType::Castle(_) => assert!(castles),
        MoveType::Promote(_) => assert!(!castles && mve.get_promotion().is_some()),
        MoveType::Capture(_) => {
            assert!(!castles && mve.get_promotion().is_none() && captured.is_some())
        }
        MoveType::NonCapture(_) => {
            assert!(!castles && mve.get_promotion().is_none() && captured.is_none())
        }
    }

    let mut nnue = ShallowNNUE::new();
    nnue.set_board_hard(before).unwrap();
    let start = *nnue.encoding();
    nnue.make_move(bitmove);
    let applied = *nnue.encoding();
    nnue.unmake_move(bitmove);
    let restored = *nnue.encoding();
    let after = encoding(board_seen_by(&position.make_move_new(mve), turn));

    let black_castle = castles && turn == chess::Color::Black;
    let capturing_promotion = mve.get_promotion().is_some() && captured.is_some();
    if black_castle {
        assert_ne!(applied, after);
        assert_ne!(restored, start);
    } else if en_passant || capturing_promotion {
        assert_ne!(applied, after);
        assert_eq!(restored, start);
    } else {
        assert_eq!(applied, after);
        assert_eq!(restored, start);
    }

    if castles {
        tally.castle += 1;
    } else if en_passant {
        tally.en_passant += 1;
    } else if mve.get_promotion().is_some() {
        tally.promotion += 1;
    } else if captured.is_some() {
        tally.capture += 1;
    } else {
        tally.quiet += 1;
    }
}

fn check_all_moves(fen: &str, tally: &mut Tally) {
    let position = chess::Board::from_str(fen).unwrap();
    for mve in chess::MoveGen::new_legal(&position) {
        check_move(&position, mve, tally);
    }
}

#[test]
fn pieces_have_the_ordinals_of_chess() {
    for kind in chess::ALL_PIECES {
        assert_eq!(piece(kind).to_index(), kind.to_index());
        assert_eq!(piece_index(piece(kind), true) as usize, kind.to_index());
        assert_eq!(piece_index(piece(kind), false) as usize, kind.to_index() + 6);
    }
}

#[test]
fn squares_are_numbered_as_in_chess() {
    assert_eq!(square(chess::Square::A1).to_int(), 0);
    assert_eq!(square(chess::Square::E2).to_int(), 12);
    assert_eq!(square(chess::Square::E4).to_int(), 28);
    assert_eq!(square(chess::Square::H8).to_int(), 63);
    assert_eq!(
        chess::Square::A1.to_int() as i16,
        orient(square(chess::Square::H8), color(chess::Color::Black))
    );
    assert_eq!(
        chess::Square::A1.to_int() as i16,
        orient(square(chess::Square::A1), color(chess::Color::White))
    );
    for sq in chess::ALL_SQUARES {
        assert_eq!(orient(square(sq), Color::White), sq.to_int() as i16);
        assert_eq!(orient(square(sq), Color::Black), 63 - sq.to_int() as i16);
    }
}

#[test]
fn starting_position_is_that_of_chess() {
    let theirs = board(&chess::Board::default());
    let ours = Board::default();
    assert_eq!(theirs.side_to_move(), ours.side_to_move());
    for sq in chess::ALL_SQUARES {
        assert_eq!(theirs.piece_on(square(sq)), ours.piece_on(square(sq)));
        assert_eq!(theirs.color_on(square(sq)), ours.color_on(square(sq)));
    }
}

#[test]
fn first_move_of_the_king_pawn() {
    let position = chess::Board::default();
    let mve = chess::ChessMove::new(chess::Square::E2, chess::Square::E4, None);
    let bitmove =
        BitMove::new(chess_move(mve), color(position.side_to_move()), board(&position)).unwrap();
    assert!(matches!(bitmove.mve(), MoveType::NonCapture(..)));
    if let MoveType::NonCapture(piece_indicies) = bitmove.mve() {
        assert_eq!(piece_indicies[1], PieceMove { index: 12, value: PieceValueChange::Remove });
        assert_eq!(piece_indicies[0], PieceMove { index: 28, value: PieceValueChange::Place });
    }
}

#[test]
fn castles_of_chess_are_classified_as_castles() {
    let mut tally = Tally { quiet: 0, capture: 0, promotion: 0, castle: 0, en_passant: 0 };
    check_all_moves("r3k2r/pppppppp/8/8/8/8/PPPPPPPP/R3K2R w KQkq - 0 1", &mut tally);
    assert_eq!(tally.castle, 2);
    check_all_moves("r3k2r/pppppppp/8/8/8/8/PPPPPPPP/R3K2R b KQkq - 0 1", &mut tally);
    assert_eq!(tally.castle, 4);
}

#[test]
fn promotions_and_en_passant_of_chess() {
    let mut tally = Tally { quiet: 0, capture: 0, promotion: 0, castle: 0, en_passant: 0 };
    check_all_moves("1n2k3/P7/8/8/8/8/8/4K3 w - - 0 1", &mut tally);
    assert_eq!(tally.promotion, 8);
    check_all_moves("4k3/8/8/8/8/8/p7/1N2K3 b - - 0 1", &mut tally);
    assert_eq!(tally.promotion, 16);
    check_all_moves("4k3/8/8/3pP3/8/8/8/4K3 w - d6 0 1", &mut tally);
    assert_eq!(tally.en_passant, 1);
}

#[test]
fn moves_of_random_games_are_tracked() {
    let mut tally = Tally { quiet: 0, capture: 0, promotion: 0, castle: 0, en_passant: 0 };
    let mut state: u64 = 0x9e3779b97f4a7c15;
    for _game in 0..40 {
        let mut position = chess::Board::default();
        for _ply in 0..120 {
            let moves: Vec<chess::ChessMove> = chess::MoveGen::new_legal(&position).collect();
            if moves.is_empty() {
                break;
            }
            for mve in &moves {
                check_move(&position, *mve, &mut tally);
            }
            state = state.wrapping_mul(6364136223846793005).wrapping_add(1442695040888963407);
            let pick = ((state >> 33) as usize) % moves.len();
            position = position.make_move_new(moves[pick]);
        }
    }
    assert!(tally.quiet > 1000);
    assert!(tally.capture > 100);
}
