//! Laws of the incremental update: what applying and taking back a classified
//! move does to the encoding of the position it was classified against.

use vstd::prelude::*;
use crate::bit_move::{
    back_rank_square,
    classify,
    feature_index,
    in_range,
    is_castle,
    is_kingside_castle,
    orient_spec,
    pairwise_distinct,
    PieceMove,
    PieceValueChange,
    FILE_A,
    FILE_C,
    FILE_D,
    FILE_E,
    FILE_F,
    FILE_G,
    FILE_H,
};
use crate::board::{Color, Piece, Placement};
use crate::shallow_nnue::{
    agrees,
    applied_bit,
    apply_deltas,
    encode,
    is_active,
    occupant_feature,
    revert_deltas,
    reverted_bit,
};

verus! {

/// The colour of a piece whose ownership is seen from the side `turn`.
pub open spec fn owner(own_piece: bool, turn: Color) -> Color {
    if own_piece {
        turn
    } else {
        turn.opponent()
    }
}

/// What the last delta that names `feature` does, if any names it.
pub open spec fn last_touch(deltas: Seq<PieceMove>, feature: int) -> Option<PieceValueChange>
    decreases deltas.len(),
{
    if deltas.len() == 0 {
        None
    } else if deltas.last().index == feature {
        Some(deltas.last().value)
    } else {
        last_touch(deltas.drop_last(), feature)
    }
}

/// An entry of the encoding is 1 exactly when the feature's piece stands on
/// the feature's square.
pub proof fn lemma_encode_at(
    board: Placement,
    turn: Color,
    piece: Piece,
    own_piece: bool,
    sq_reoriented: int,
)
    requires
        board.len() == 64,
        0 <= sq_reoriented < 64,
    ensures
        encode(board, turn).len() == 768,
        encode(board, turn)[feature_index(piece, own_piece, sq_reoriented)] == (if board[orient_spec(
            sq_reoriented,
            turn,
        )] == Some((piece, owner(own_piece, turn))) {
            1u8
        } else {
            0u8
        }),
{
    let feature = feature_index(piece, own_piece, sq_reoriented);
    let sq = orient_spec(sq_reoriented, turn);
    if is_active(board, turn, feature) {
        let w = choose|w: int|
            0 <= w < 64 && (#[trigger] board[w]) is Some && occupant_feature(
                board[w].unwrap(),
                w,
                turn,
            ) == feature;
        assert(w == sq);
    }
}

/// Every index below 768 is the index of exactly one feature.
pub proof fn lemma_feature_of_index(feature: int)
    requires
        0 <= feature < 768,
    ensures
        feature == feature_index(
            Piece::from_ordinal((feature / 64) % 6),
            feature / 64 < 6,
            feature % 64,
        ),
        0 <= feature % 64 < 64,
{
}

/// After the deltas are applied, an entry holds what the last delta that
/// names it wrote, and what it held before if none names it.
pub proof fn lemma_apply_deltas_at(vector: Seq<u8>, deltas: Seq<PieceMove>, feature: int)
    requires
        vector.len() == 768,
        in_range(deltas),
        0 <= feature < 768,
    ensures
        apply_deltas(vector, deltas).len() == 768,
        apply_deltas(vector, deltas)[feature] == match last_touch(deltas, feature) {
            Some(change) => applied_bit(change),
            None => vector[feature],
        },
    decreases deltas.len(),
{
    if deltas.len() > 0 {
        lemma_apply_deltas_at(vector, deltas.drop_last(), feature);
    }
}

/// After the deltas are taken back, an entry holds what the last delta that
/// names it restored, and what it held before if none names it.
pub proof fn lemma_revert_deltas_at(vector: Seq<u8>, deltas: Seq<PieceMove>, feature: int)
    requires
        vector.len() == 768,
        in_range(deltas),
        0 <= feature < 768,
    ensures
        revert_deltas(vector, deltas).len() == 768,
        revert_deltas(vector, deltas)[feature] == match last_touch(deltas, feature) {
            Some(change) => reverted_bit(change),
            None => vector[feature],
        },
    decreases deltas.len(),
{
    if deltas.len() > 0 {
        lemma_revert_deltas_at(vector, deltas.drop_last(), feature);
    }
}

proof fn lemma_last_touch_is_a_delta(deltas: Seq<PieceMove>, feature: int)
    ensures
        last_touch(deltas, feature) matches Some(change) ==> exists|k: int|
            0 <= k < deltas.len() && (#[trigger] deltas[k]).index == feature && deltas[k].value
                == change,
    decreases deltas.len(),
{
    if deltas.len() > 0 {
        if deltas.last().index == feature {
            assert(deltas[deltas.len() - 1] == deltas.last());
        } else {
            lemma_last_touch_is_a_delta(deltas.drop_last(), feature);
            if last_touch(deltas, feature) is Some {
                let change = last_touch(deltas, feature).unwrap();
                let k = choose|k: int|
                    0 <= k < deltas.drop_last().len() && (#[trigger] deltas.drop_last()[k]).index
                        == feature && deltas.drop_last()[k].value == change;
                assert(deltas[k] == deltas.drop_last()[k]);
            }
        }
    }
}

/// Applying deltas and taking them back restores the vector, entry for
/// entry, whenever each delta found its feature off where it places and on
/// where it removes.
pub proof fn lemma_revert_undoes_apply(vector: Seq<u8>, deltas: Seq<PieceMove>)
    requires
        vector.len() == 768,
        in_range(deltas),
        agrees(vector, deltas),
    ensures
        revert_deltas(apply_deltas(vector, deltas), deltas) == vector,
{
    let applied = apply_deltas(vector, deltas);
    let restored = revert_deltas(applied, deltas);
    assert forall|i: int| 0 <= i < 768 implies restored[i] == vector[i] by {
        lemma_apply_deltas_at(vector, deltas, i);
        lemma_revert_deltas_at(applied, deltas, i);
        lemma_last_touch_is_a_delta(deltas, i);
    }
    lemma_apply_deltas_at(vector, deltas, 0);
    lemma_revert_deltas_at(applied, deltas, 0);
}

/// Whether the piece on `source` belongs to the side `turn`.
pub open spec fn mover_on_source(board: Placement, source: int, turn: Color) -> bool {
    board[source] matches Some(occupant) && occupant.1 == turn
}

/// The reoriented squares that a castle's deltas name: where the king lands,
/// where the rook leaves and where the rook lands.
pub open spec fn castle_squares(kingside: bool) -> (int, int, int) {
    if kingside {
        (FILE_G as int, FILE_H as int, FILE_F as int)
    } else {
        (FILE_C as int, FILE_A as int, FILE_D as int)
    }
}

/// Whether the squares that a castle's deltas name hold, seen from the mover,
/// the king and the rook where they leave and neither where they land.
///
/// For White the first three hold of every castle that is classified. For
/// Black the deltas name the squares d8, b8, a8, c8 (or d8, f8, h8, e8), not
/// those of the move.
pub open spec fn castle_fits(board: Placement, turn: Color, kingside: bool) -> bool {
    let (king_to, rook_from, rook_to) = castle_squares(kingside);
    &&& board[orient_spec(FILE_E as int, turn)] == Some((Piece::King, turn))
    &&& board[orient_spec(king_to, turn)] != Some((Piece::King, turn))
    &&& board[orient_spec(rook_from, turn)] == Some((Piece::Rook, turn))
    &&& board[orient_spec(rook_to, turn)] != Some((Piece::Rook, turn))
}

/// The deltas of a move classified against a board agree with the encoding
/// of that board, name features of the vector and name no feature twice,
/// provided that the moving piece is the mover's and, for a castle, that the
/// squares its deltas name hold the king and the rook.
pub proof fn lemma_classified_agrees(
    board: Placement,
    source: int,
    dest: int,
    promotion: Option<Piece>,
    turn: Color,
)
    requires
        board.len() == 64,
        0 <= source < 64,
        0 <= dest < 64,
        mover_on_source(board, source, turn),
        is_castle(board, source, dest, turn) ==> castle_fits(
            board,
            turn,
            is_kingside_castle(board, dest, turn),
        ),
    ensures
        match classify(board, source, dest, promotion, turn) {
            Ok(shape) => {
                &&& in_range(shape.deltas())
                &&& pairwise_distinct(shape.deltas())
                &&& agrees(encode(board, turn), shape.deltas())
            },
            Err(_) => true,
        },
{
    let from = orient_spec(source, turn);
    let to = orient_spec(dest, turn);
    if classify(board, source, dest, promotion, turn) is Ok {
        let moving = board[source].unwrap().0;
        if is_castle(board, source, dest, turn) {
            let (king_to, rook_from, rook_to) = castle_squares(
                is_kingside_castle(board, dest, turn),
            );
            lemma_encode_at(board, turn, Piece::King, true, FILE_E as int);
            lemma_encode_at(board, turn, Piece::King, true, king_to);
            lemma_encode_at(board, turn, Piece::Rook, true, rook_from);
            lemma_encode_at(board, turn, Piece::Rook, true, rook_to);
        } else if promotion is Some {
            lemma_encode_at(board, turn, moving, true, from);
            lemma_encode_at(board, turn, promotion.unwrap(), true, to);
        } else if board[dest] is Some {
            lemma_encode_at(board, turn, board[dest].unwrap().0, false, to);
            lemma_encode_at(board, turn, moving, true, to);
            lemma_encode_at(board, turn, moving, true, from);
        } else {
            lemma_encode_at(board, turn, moving, true, to);
            lemma_encode_at(board, turn, moving, true, from);
        }
    }
}

/// Round trip: a move classified against a board, applied to the encoding of
/// that board and taken back, leaves the encoding as it was.
pub proof fn lemma_classified_round_trip(
    board: Placement,
    source: int,
    dest: int,
    promotion: Option<Piece>,
    turn: Color,
)
    requires
        board.len() == 64,
        0 <= source < 64,
        0 <= dest < 64,
        mover_on_source(board, source, turn),
        is_castle(board, source, dest, turn) ==> castle_fits(
            board,
            turn,
            is_kingside_castle(board, dest, turn),
        ),
    ensures
        match classify(board, source, dest, promotion, turn) {
            Ok(shape) => revert_deltas(
                apply_deltas(encode(board, turn), shape.deltas()),
                shape.deltas(),
            ) == encode(board, turn),
            Err(_) => true,
        },
{
    lemma_classified_agrees(board, source, dest, promotion, turn);
    match classify(board, source, dest, promotion, turn) {
        Ok(shape) => {
            lemma_revert_undoes_apply(encode(board, turn), shape.deltas());
        },
        Err(_) => {},
    }
}

/// The placement after the move: the moving piece, or the piece it is
/// promoted to, stands on `dest` and `source` is empty; in a castle the rook
/// has moved from its corner to the king's other side as well.
pub open spec fn moved(
    board: Placement,
    source: int,
    dest: int,
    promotion: Option<Piece>,
    turn: Color,
) -> Placement {
    if is_castle(board, source, dest, turn) {
        let (_king_to, rook_from, rook_to) = castle_squares(is_kingside_castle(board, dest, turn));
        board.update(source, None).update(back_rank_square(turn, rook_from), None).update(
            dest,
            Some((Piece::King, turn)),
        ).update(back_rank_square(turn, rook_to), Some((Piece::Rook, turn)))
    } else {
        let mover = board[source].unwrap();
        let arrived = match promotion {
            Some(piece) => (piece, mover.1),
            None => mover,
        };
        board.update(source, None).update(dest, Some(arrived))
    }
}

/// Whether the deltas of the move account for every change on the board.
///
/// They do not where a promotion captures, where a castle is Black's, where
/// a castling king lands on a piece, or where the rook lands on a piece other
/// than a rook of its own side.
pub open spec fn deltas_cover_move(
    board: Placement,
    source: int,
    dest: int,
    promotion: Option<Piece>,
    turn: Color,
) -> bool {
    if is_castle(board, source, dest, turn) {
        let (_king_to, _rook_from, rook_to) = castle_squares(is_kingside_castle(board, dest, turn));
        let landing = board[back_rank_square(turn, rook_to)];
        &&& turn == Color::White
        &&& board[dest] is None
        &&& (landing is None || landing == Some((Piece::Rook, turn)))
    } else if promotion is Some {
        board[dest] is None
    } else {
        true
    }
}

proof fn lemma_classified_in_range(
    board: Placement,
    source: int,
    dest: int,
    promotion: Option<Piece>,
    turn: Color,
)
    requires
        board.len() == 64,
        0 <= source < 64,
        0 <= dest < 64,
    ensures
        classify(board, source, dest, promotion, turn) matches Ok(shape) ==> in_range(
            shape.deltas(),
        ),
{
}

/// One step of the equivalence of incremental and full encoding: applying the
/// deltas of a move to the encoding of the board gives the encoding of the
/// board after the move, both seen from the mover.
pub proof fn lemma_apply_tracks_move(
    board: Placement,
    source: int,
    dest: int,
    promotion: Option<Piece>,
    turn: Color,
)
    requires
        board.len() == 64,
        0 <= source < 64,
        0 <= dest < 64,
        mover_on_source(board, source, turn),
        deltas_cover_move(board, source, dest, promotion, turn),
    ensures
        match classify(board, source, dest, promotion, turn) {
            Ok(shape) => apply_deltas(encode(board, turn), shape.deltas()) == encode(
                moved(board, source, dest, promotion, turn),
                turn,
            ),
            Err(_) => true,
        },
{
    match classify(board, source, dest, promotion, turn) {
        Ok(shape) => {
            let before = encode(board, turn);
            let after = moved(board, source, dest, promotion, turn);
            let applied = apply_deltas(before, shape.deltas());
            lemma_classified_in_range(board, source, dest, promotion, turn);
            assert forall|i: int| 0 <= i < 768 implies applied[i] == encode(after, turn)[i] by {
                let piece = Piece::from_ordinal((i / 64) % 6);
                let own_piece = i / 64 < 6;
                lemma_feature_of_index(i);
                lemma_encode_at(board, turn, piece, own_piece, i % 64);
                lemma_encode_at(after, turn, piece, own_piece, i % 64);
                lemma_apply_deltas_at(before, shape.deltas(), i);
                reveal_with_fuel(last_touch, 5);
            }
            lemma_apply_deltas_at(before, shape.deltas(), 0);
        },
        Err(_) => {},
    }
}

/// A move as plain numbers: its squares and the piece promoted to.
pub struct Step {
    pub source: int,
    pub dest: int,
    pub promotion: Option<Piece>,
}

/// Whether a step by the side `turn` can be classified on the board, moves a
/// piece of that side, and is covered by its deltas.
pub open spec fn step_tracked(board: Placement, step: Step, turn: Color) -> bool {
    &&& 0 <= step.source < 64
    &&& 0 <= step.dest < 64
    &&& classify(board, step.source, step.dest, step.promotion, turn) is Ok
    &&& mover_on_source(board, step.source, turn)
    &&& deltas_cover_move(board, step.source, step.dest, step.promotion, turn)
}

/// The placement after the steps have been played in order.
pub open spec fn played(board: Placement, steps: Seq<Step>, turn: Color) -> Placement
    decreases steps.len(),
{
    if steps.len() == 0 {
        board
    } else {
        let step = steps.last();
        moved(played(board, steps.drop_last(), turn), step.source, step.dest, step.promotion, turn)
    }
}

/// Whether each step is tracked on the board that the steps before it lead to.
pub open spec fn steps_tracked(board: Placement, steps: Seq<Step>, turn: Color) -> bool
    decreases steps.len(),
{
    steps.len() == 0 || (steps_tracked(board, steps.drop_last(), turn) && step_tracked(
        played(board, steps.drop_last(), turn),
        steps.last(),
        turn,
    ))
}

/// The vector after each step has been classified on the board that the
/// steps before it lead to and applied, none being taken back.
pub open spec fn applied_in_turn(
    vector: Seq<u8>,
    board: Placement,
    steps: Seq<Step>,
    turn: Color,
) -> Seq<u8>
    decreases steps.len(),
{
    if steps.len() == 0 {
        vector
    } else {
        let step = steps.last();
        let so_far = applied_in_turn(vector, board, steps.drop_last(), turn);
        match classify(
            played(board, steps.drop_last(), turn),
            step.source,
            step.dest,
            step.promotion,
            turn,
        ) {
            Ok(shape) => apply_deltas(so_far, shape.deltas()),
            Err(_) => so_far,
        }
    }
}

/// Equivalence of incremental and full encoding: starting from the encoding
/// of a board and applying the classification of each step in turn gives the
/// encoding of the board that the steps lead to. The encodings are those seen
/// from the side that makes the steps.
pub proof fn lemma_incremental_matches_resync(board: Placement, steps: Seq<Step>, turn: Color)
    requires
        board.len() == 64,
        steps_tracked(board, steps, turn),
    ensures
        played(board, steps, turn).len() == 64,
        applied_in_turn(encode(board, turn), board, steps, turn) == encode(
            played(board, steps, turn),
            turn,
        ),
    decreases steps.len(),
{
    if steps.len() > 0 {
        let step = steps.last();
        lemma_incremental_matches_resync(board, steps.drop_last(), turn);
        lemma_apply_tracks_move(
            played(board, steps.drop_last(), turn),
            step.source,
            step.dest,
            step.promotion,
            turn,
        );
    }
}

} // verus!
