//! The feature vector of a position and its incremental update.
//!
//! The vector has one entry per feature, 1 where the feature is present and 0
//! where it is not. A classified move is applied by writing its deltas, and
//! taken back by writing their opposites.

use vstd::prelude::*;
use crate::bit_move::{
    classify,
    feature_index,
    get_index,
    in_range,
    orient,
    orient_spec,
    BitMove,
    MoveError,
    MoveType,
    PieceMove,
    PieceValueChange,
};
use crate::board::{initial_placement, Board, ChessMove, Color, Piece, Placement, Square};
use crate::incremental::lemma_revert_undoes_apply;

verus! {

/// The entry that a delta writes when it is applied.
pub open spec fn applied_bit(change: PieceValueChange) -> u8 {
    match change {
        PieceValueChange::Place => 1,
        PieceValueChange::Remove => 0,
    }
}

/// The entry that a delta writes when it is taken back.
pub open spec fn reverted_bit(change: PieceValueChange) -> u8 {
    match change {
        PieceValueChange::Place => 0,
        PieceValueChange::Remove => 1,
    }
}

/// The vector after the deltas have been applied one by one, in order.
pub open spec fn apply_deltas(vector: Seq<u8>, deltas: Seq<PieceMove>) -> Seq<u8>
    decreases deltas.len(),
{
    if deltas.len() == 0 {
        vector
    } else {
        apply_deltas(vector, deltas.drop_last()).update(
            deltas.last().index as int,
            applied_bit(deltas.last().value),
        )
    }
}

/// The vector after the deltas have been taken back one by one, in order.
pub open spec fn revert_deltas(vector: Seq<u8>, deltas: Seq<PieceMove>) -> Seq<u8>
    decreases deltas.len(),
{
    if deltas.len() == 0 {
        vector
    } else {
        revert_deltas(vector, deltas.drop_last()).update(
            deltas.last().index as int,
            reverted_bit(deltas.last().value),
        )
    }
}

/// The feature of a piece on a square, seen from the side `turn`.
pub open spec fn occupant_feature(occupant: (Piece, Color), sq: int, turn: Color) -> int {
    feature_index(occupant.0, occupant.1 == turn, orient_spec(sq, turn))
}

/// Whether some occupied square below `limit` gives the feature `feature`.
pub open spec fn active_below(board: Placement, turn: Color, limit: int, feature: int) -> bool {
    exists|sq: int|
        0 <= sq < limit && (#[trigger] board[sq]) is Some && occupant_feature(
            board[sq].unwrap(),
            sq,
            turn,
        ) == feature
}

/// Whether some occupied square of the board gives the feature `feature`.
pub open spec fn is_active(board: Placement, turn: Color, feature: int) -> bool {
    active_below(board, turn, 64, feature)
}

/// The encoding of a position from the side `turn`: the entries that hold 1
/// are exactly the features of the pieces on the board.
pub open spec fn encode(board: Placement, turn: Color) -> Seq<u8> {
    Seq::new(
        768,
        |feature: int|
            if is_active(board, turn, feature) {
                1u8
            } else {
                0u8
            },
    )
}

/// The encoding of the squares below `limit`.
pub open spec fn encode_below(board: Placement, turn: Color, limit: int) -> Seq<u8> {
    Seq::new(
        768,
        |feature: int|
            if active_below(board, turn, limit, feature) {
                1u8
            } else {
                0u8
            },
    )
}

/// Every entry is 0 or 1.
pub open spec fn is_binary(vector: Seq<u8>) -> bool {
    forall|i: int| 0 <= i < vector.len() ==> (#[trigger] vector[i]) <= 1
}

/// Every delta finds its feature in the state that taking it back restores:
/// off where it places, on where it removes.
pub open spec fn agrees(vector: Seq<u8>, deltas: Seq<PieceMove>) -> bool {
    forall|k: int|
        0 <= k < deltas.len() ==> vector[(#[trigger] deltas[k]).index as int] == reverted_bit(
            deltas[k].value,
        )
}

/// Why an evaluation failed.
#[derive(Debug)]
pub enum ForwardError<E> {
    /// The move could not be classified.
    Move(MoveError),
    /// The oracle failed; its error is handed on as it came.
    Oracle(E),
}

/// What an evaluation returns for an answer of the oracle: the score cut to
/// 16 bits, or the oracle's error.
pub open spec fn outcome<E>(answer: Result<i64, E>) -> Result<i16, ForwardError<E>> {
    match answer {
        Ok(score) => Ok(score as i16),
        Err(error) => Err(ForwardError::Oracle(error)),
    }
}

/// Turns an answer of the oracle into the result of an evaluation.
pub fn conclude<E>(answer: Result<i64, E>) -> (r: Result<i16, ForwardError<E>>)
    ensures
        r == outcome(answer),
{
    match answer {
        Ok(score) => Ok(
            #[verifier::truncate]
            (score as i16),
        ),
        Err(error) => Err(ForwardError::Oracle(error)),
    }
}

/// A position together with its feature vector.
#[derive(Debug)]
pub struct ShallowNNUE {
    board: Board,
    encoding: [u8; 768],
}

impl ShallowNNUE {
    #[verifier::type_invariant]
    spec fn binary(self) -> bool {
        is_binary(self.encoding@)
    }

    /// The feature vector: 768 entries, each 0 or 1.
    pub closed spec fn features(&self) -> Seq<u8> {
        self.encoding@
    }

    /// The position that the vector was last rebuilt from.
    pub closed spec fn position(&self) -> Board {
        self.board
    }

    /// The vector has 768 entries.
    pub proof fn lemma_features_len(&self)
        ensures
            self.features().len() == 768,
    {
    }

    /// The starting position with an empty vector.
    pub fn new() -> (r: ShallowNNUE)
        ensures
            r.features().len() == 768,
            forall|i: int| 0 <= i < 768 ==> r.features()[i] == 0,
            r.position().cells@ == initial_placement(),
            r.position().side_to_move == Color::White,
    {
        ShallowNNUE { board: Board::default(), encoding: [0u8;768] }
    }

    /// The feature vector.
    pub fn encoding(&self) -> (r: &[u8; 768])
        ensures
            r@ == self.features(),
            is_binary(r@),
    {
        proof {
            use_type_invariant(self);
        }
        &self.encoding
    }

    /// The position that the vector was last rebuilt from.
    pub fn board(&self) -> (r: Board)
        ensures
            r == self.position(),
    {
        self.board
    }

    fn write(&mut self, deltas: &[PieceMove], undo: bool)
        requires
            in_range(deltas@),
        ensures
            final(self).features() == if undo {
                revert_deltas(old(self).features(), deltas@)
            } else {
                apply_deltas(old(self).features(), deltas@)
            },
            final(self).position() == old(self).position(),
    {
        let mut k: usize = 0;
        while k < deltas.len()
            invariant
                k <= deltas.len(),
                in_range(deltas@),
                self.board == old(self).board,
                self.encoding@ == if undo {
                    revert_deltas(old(self).encoding@, deltas@.take(k as int))
                } else {
                    apply_deltas(old(self).encoding@, deltas@.take(k as int))
                },
            decreases deltas.len() - k,
        {
            let delta = deltas[k];
            let bit: u8 = match delta.value {
                PieceValueChange::Place => if undo {
                    0
                } else {
                    1
                },
                PieceValueChange::Remove => if undo {
                    1
                } else {
                    0
                },
            };
            proof {
                use_type_invariant(&*self);
                assert(deltas@.take(k + 1).drop_last() =~= deltas@.take(k as int));
            }
            self.encoding[delta.index as usize] = bit;
            k = k + 1;
        }
        proof {
            assert(deltas@.take(k as int) =~= deltas@);
        }
    }

    /// Applies a classified move: each delta in order sets its feature to 1 if
    /// it places and to 0 if it removes.
    pub fn make_move(&mut self, bitmove: BitMove)
        ensures
            final(self).features() == apply_deltas(old(self).features(), bitmove@.deltas()),
            final(self).position() == old(self).position(),
    {
        match bitmove.mve() {
            MoveType::NonCapture(indicies) => self.write(indicies.as_slice(), false),
            MoveType::Promote(indicies) => self.write(indicies.as_slice(), false),
            MoveType::Capture(indicies) => self.write(indicies.as_slice(), false),
            MoveType::Castle(indicies) => self.write(indicies.as_slice(), false),
        }
    }

    /// Takes a classified move back: each delta in order sets its feature to 0
    /// if it places and to 1 if it removes.
    pub fn unmake_move(&mut self, bitmove: BitMove)
        ensures
            final(self).features() == revert_deltas(old(self).features(), bitmove@.deltas()),
            final(self).position() == old(self).position(),
    {
        match bitmove.mve() {
            MoveType::NonCapture(indicies) => self.write(indicies.as_slice(), true),
            MoveType::Promote(indicies) => self.write(indicies.as_slice(), true),
            MoveType::Capture(indicies) => self.write(indicies.as_slice(), true),
            MoveType::Castle(indicies) => self.write(indicies.as_slice(), true),
        }
    }

    /// Takes over a position and rebuilds the vector from it, seen from the
    /// side to move.
    pub fn set_board_hard(&mut self, board: Board) -> (r: Result<(), ()>)
        ensures
            r is Ok,
            final(self).position() == board,
            final(self).features() == encode(board.cells@, board.side_to_move),
    {
        proof {
            use_type_invariant(&*self);
        }
        self.board = board;
        self.encoding = [0u8;768];
        let colour = board.side_to_move();
        let mut k: u8 = 0;
        while k < 64
            invariant
                k <= 64,
                self.board == board,
                colour == board.side_to_move,
                self.encoding@ =~= encode_below(board.cells@, colour, k as int),
            decreases 64 - k,
        {
            let cell = board.cells[k as usize];
            match cell {
                Some(occupant) => {
                    let sq = Square::new(k).unwrap();
                    let own_piece: bool = occupant.1 == colour;
                    let index = get_index(occupant.0, own_piece, orient(sq, colour));
                    proof {
                        use_type_invariant(&*self);
                    }
                    self.encoding[index as usize] = 1;
                },
                None => {},
            }
            k = k + 1;
        }
        proof {
            assert(self.encoding@ =~= encode(board.cells@, colour));
        }
        Ok(())
    }

    /// Evaluates the position after a move: classifies the move against the
    /// position, applies it to the vector, asks `oracle` for the score of the
    /// vector, and takes the move back. A move that cannot be classified leaves
    /// the vector as it was; an error of the oracle is handed on once the move
    /// has been taken back.
    pub fn forward<E, F: FnOnce(&[u8; 768]) -> Result<i64, E>>(
        &mut self,
        chess_move: ChessMove,
        oracle: F,
    ) -> (r: Result<i16, ForwardError<E>>)
        requires
            forall|input: &[u8; 768]| is_binary(input@) ==> call_requires(oracle, (input,)),
        ensures
            final(self).position() == old(self).position(),
            match classify(
                old(self).position().cells@,
                chess_move.source.index(),
                chess_move.dest.index(),
                chess_move.promotion,
                old(self).position().side_to_move,
            ) {
                Ok(shape) => {
                    let applied = apply_deltas(old(self).features(), shape.deltas());
                    &&& final(self).features() == revert_deltas(applied, shape.deltas())
                    &&& agrees(old(self).features(), shape.deltas()) ==> final(self).features()
                        == old(self).features()
                    &&& exists|input: &[u8; 768], answer: Result<i64, E>|
                        input@ == applied && call_ensures(oracle, (input,), answer) && r
                            == outcome(answer)
                },
                Err(error) => {
                    &&& r matches Err(ForwardError::Move(e)) && e == error
                    &&& final(self).features() == old(self).features()
                },
            },
    {
        let turn = self.board.side_to_move();
        let bitmove = match BitMove::new(chess_move, turn, self.board) {
            Ok(bitmove) => bitmove,
            Err(error) => {
                return Err(ForwardError::Move(error));
            },
        };
        let ghost before = self.encoding@;
        self.make_move(bitmove);
        proof {
            use_type_invariant(&*self);
        }
        let answer = oracle(&self.encoding);
        let ghost input = &self.encoding;
        self.unmake_move(bitmove);
        proof {
            if agrees(before, bitmove@.deltas()) {
                lemma_revert_undoes_apply(before, bitmove@.deltas());
            }
            assert(input@ == apply_deltas(before, bitmove@.deltas()));
        }
        conclude(answer)
    }
}

impl Clone for ShallowNNUE {
    fn clone(&self) -> (r: Self)
        ensures
            r.features() == self.features(),
            r.position() == self.position(),
    {
        proof {
            use_type_invariant(self);
        }
        ShallowNNUE { board: self.board, encoding: self.encoding }
    }
}

} // verus!
