//! Feature indexing and the classification of a move into feature deltas.
//!
//! A feature is a triple (piece kind, ownership relative to the side being
//! encoded, reoriented square); its index lies in `0..768`. A move on a known
//! board changes a few features, and `BitMove::new` says which.

use vstd::prelude::*;
use crate::board::{Board, ChessMove, Color, Piece, Placement, Square};

verus! {

/// A square index seen from the side being encoded.
pub type ReorientedSq = i16;

/// The a-file, where the queenside rook starts. Files count from 0.
pub const FILE_A: u8 = 0;

/// The c-file, where the king lands in a queenside castle.
pub const FILE_C: u8 = 2;

/// The d-file, where the rook lands in a queenside castle.
pub const FILE_D: u8 = 3;

/// The e-file, where the king starts.
pub const FILE_E: u8 = 4;

/// The f-file, where the rook lands in a kingside castle.
pub const FILE_F: u8 = 5;

/// The g-file, where the king lands in a kingside castle.
pub const FILE_G: u8 = 6;

/// The h-file, where the kingside rook starts.
pub const FILE_H: u8 = 7;

/// A square seen from `colour`: unchanged for White, reflected through the
/// centre of the board for Black.
pub open spec fn orient_spec(sq: int, colour: Color) -> int {
    match colour {
        Color::White => sq,
        Color::Black => 63 - sq,
    }
}

/// The feature class of a piece kind: its ordinal when the piece belongs to the
/// side being encoded, its ordinal plus 6 otherwise.
pub open spec fn piece_index_spec(piece: Piece, own_piece: bool) -> int {
    if own_piece {
        piece.ordinal()
    } else {
        piece.ordinal() + 6
    }
}

/// The index of the feature (piece, ownership, reoriented square).
pub open spec fn feature_index(piece: Piece, own_piece: bool, sq_reoriented: int) -> int {
    piece_index_spec(piece, own_piece) * 64 + sq_reoriented
}

/// The square as the side `colour` sees it: the same square for White, the
/// square opposite through the centre of the board for Black.
pub fn orient(sq: Square, colour: Color) -> (r: ReorientedSq)
    ensures
        r == orient_spec(sq.index(), colour),
        colour == Color::White ==> r == sq.index(),
        colour == Color::Black ==> r == 63 - sq.index(),
        0 <= r < 64,
{
    let index: i16 = sq.to_int() as i16;
    match colour {
        Color::White => index,
        Color::Black => 63 - index,
    }
}

/// The feature class of a piece: its ordinal if it is the encoded side's own,
/// its ordinal plus 6 if it is not.
pub fn piece_index(piece: Piece, own_piece: bool) -> (r: u16)
    ensures
        r == piece_index_spec(piece, own_piece),
        own_piece ==> r == piece.ordinal() && r <= 5,
        !own_piece ==> r == piece.ordinal() + 6 && 6 <= r <= 11,
{
    let ordinal: u16 = piece.to_index() as u16;
    if own_piece {
        ordinal
    } else {
        ordinal + 6
    }
}

/// The index of the feature (piece, ownership, reoriented square): 64 times
/// the feature class, plus the square.
pub fn get_index(piece: Piece, own_piece: bool, sq_reoriented: ReorientedSq) -> (r: u16)
    requires
        0 <= sq_reoriented < 64,
    ensures
        r == feature_index(piece, own_piece, sq_reoriented as int),
        r < 768,
{
    piece_index(piece, own_piece) * 64 + (sq_reoriented as u16)
}

/// The class of a piece that is not the encoded side's own lies 6 above the
/// class of the same piece when it is, and the latter is one of 0..=5.
pub proof fn lemma_piece_index_ownership(piece: Piece)
    ensures
        piece_index_spec(piece, false) == piece_index_spec(piece, true) + 6,
        0 <= piece_index_spec(piece, true) <= 5,
{
}

/// Every feature index lies in `0..768`.
pub proof fn lemma_feature_index_range(piece: Piece, own_piece: bool, sq_reoriented: int)
    requires
        0 <= sq_reoriented < 64,
    ensures
        0 <= feature_index(piece, own_piece, sq_reoriented) < 768,
{
}

/// Two features with the same index are the same feature.
pub proof fn lemma_feature_index_injective(
    piece_a: Piece,
    own_a: bool,
    sq_a: int,
    piece_b: Piece,
    own_b: bool,
    sq_b: int,
)
    requires
        0 <= sq_a < 64,
        0 <= sq_b < 64,
        feature_index(piece_a, own_a, sq_a) == feature_index(piece_b, own_b, sq_b),
    ensures
        piece_a == piece_b,
        own_a == own_b,
        sq_a == sq_b,
{
}

/// Whether a delta switches a feature on or off.
#[derive(Debug, Clone, Copy, PartialEq, Eq, Structural)]
pub enum PieceValueChange {
    Place,
    Remove,
}

impl PieceValueChange {
    /// The change as a signed unit: 1 for `Place`, -1 for `Remove`.
    pub open spec fn signum(self) -> int {
        match self {
            PieceValueChange::Place => 1,
            PieceValueChange::Remove => -1,
        }
    }

    /// The change as a signed unit: 1 for `Place`, -1 for `Remove`.
    pub fn value(&self) -> (r: i8)
        ensures
            r == self.signum(),
    {
        match self {
            PieceValueChange::Place => 1,
            PieceValueChange::Remove => -1,
        }
    }
}

/// One change to the feature vector: a feature index and what happens to it.
#[derive(Debug, Clone, Copy, PartialEq, Eq, Structural)]
pub struct PieceMove {
    pub index: u16,
    pub value: PieceValueChange,
}

/// The delta that switches on the feature (piece, ownership, reoriented square).
pub open spec fn place(piece: Piece, own_piece: bool, sq_reoriented: int) -> PieceMove {
    PieceMove {
        index: feature_index(piece, own_piece, sq_reoriented) as u16,
        value: PieceValueChange::Place,
    }
}

/// The delta that switches off the feature (piece, ownership, reoriented square).
pub open spec fn remove(piece: Piece, own_piece: bool, sq_reoriented: int) -> PieceMove {
    PieceMove {
        index: feature_index(piece, own_piece, sq_reoriented) as u16,
        value: PieceValueChange::Remove,
    }
}

/// The shape of a move, with its deltas in the order in which they are applied.
#[derive(Debug, Clone, Copy)]
pub enum MoveType {
    /// A move to an empty square: the mover appears on the destination and
    /// leaves the source.
    NonCapture([PieceMove; 2]),
    /// A promotion: the mover leaves the source and the promoted piece appears
    /// on the destination.
    Promote([PieceMove; 2]),
    /// A capture: the captured piece leaves the destination, the mover appears
    /// there and leaves the source.
    Capture([PieceMove; 3]),
    /// A castle: the king leaves its home and appears on its castled square,
    /// then the rook does the same.
    Castle([PieceMove; 4]),
}

impl MoveType {
    /// The deltas of the move, in order.
    pub open spec fn deltas(self) -> Seq<PieceMove> {
        match self {
            MoveType::NonCapture(d) => d@,
            MoveType::Promote(d) => d@,
            MoveType::Capture(d) => d@,
            MoveType::Castle(d) => d@,
        }
    }
}

/// Every delta names a feature of the vector.
pub open spec fn in_range(deltas: Seq<PieceMove>) -> bool {
    forall|k: int| 0 <= k < deltas.len() ==> (#[trigger] deltas[k]).index < 768
}

/// No two deltas name the same feature.
pub open spec fn pairwise_distinct(deltas: Seq<PieceMove>) -> bool {
    forall|j: int, k: int|
        0 <= j < k < deltas.len() ==> (#[trigger] deltas[j]).index != (#[trigger] deltas[k]).index
}

/// Why a move could not be classified.
#[derive(Debug, Clone, Copy, PartialEq, Eq, Structural)]
pub enum MoveError {
    /// The destination holds a piece of the mover's own colour.
    IllegalMove,
    /// The source square, which must hold the moving piece, is empty.
    InconsistentBoard,
}

/// The kind of the piece on an occupied square.
pub open spec fn piece_at(board: Placement, sq: int) -> Piece {
    board[sq].unwrap().0
}

/// Whether the mover's own piece stands on `dest`.
pub open spec fn own_piece_on(board: Placement, dest: int, turn: Color) -> bool {
    board[dest] matches Some(occupant) && occupant.1 == turn
}

/// The square of the mover's back rank on the given file.
pub open spec fn back_rank_square(turn: Color, file: int) -> int {
    turn.back_rank() * 8 + file
}

/// A castle is a move of the mover's king from its home square two files along
/// the back rank, with the mover's rook standing in the corner on that side.
pub open spec fn is_castle(board: Placement, source: int, dest: int, turn: Color) -> bool {
    &&& source == back_rank_square(turn, FILE_E as int)
    &&& board[source] == Some((Piece::King, turn))
    &&& (is_kingside_castle(board, dest, turn) || is_queenside_castle(board, dest, turn))
}

/// The king lands on the g-file and the rook stands on the h-file.
pub open spec fn is_kingside_castle(board: Placement, dest: int, turn: Color) -> bool {
    &&& dest == back_rank_square(turn, FILE_G as int)
    &&& board[back_rank_square(turn, FILE_H as int)] == Some((Piece::Rook, turn))
}

/// The king lands on the c-file and the rook stands on the a-file.
pub open spec fn is_queenside_castle(board: Placement, dest: int, turn: Color) -> bool {
    &&& dest == back_rank_square(turn, FILE_C as int)
    &&& board[back_rank_square(turn, FILE_A as int)] == Some((Piece::Rook, turn))
}

/// The deltas of a castle. They are the same for both sides: the king's and
/// the rook's squares are those of White's first rank, taken as they are.
pub open spec fn castle_deltas(kingside: bool) -> MoveType {
    if kingside {
        MoveType::Castle(
            [
                remove(Piece::King, true, FILE_E as int),
                place(Piece::King, true, FILE_G as int),
                remove(Piece::Rook, true, FILE_H as int),
                place(Piece::Rook, true, FILE_F as int),
            ],
        )
    } else {
        MoveType::Castle(
            [
                remove(Piece::King, true, FILE_E as int),
                place(Piece::King, true, FILE_C as int),
                remove(Piece::Rook, true, FILE_A as int),
                place(Piece::Rook, true, FILE_D as int),
            ],
        )
    }
}

/// A castle has four deltas on four different features: the king leaves its
/// home square and lands two files away, and the rook leaves its corner and
/// lands on the square that the king passed.
pub proof fn lemma_castle_deltas(kingside: bool)
    ensures
        castle_deltas(kingside) is Castle,
        castle_deltas(kingside).deltas().len() == 4,
        in_range(castle_deltas(kingside).deltas()),
        pairwise_distinct(castle_deltas(kingside).deltas()),
        castle_deltas(kingside).deltas() == if kingside {
            seq![
                remove(Piece::King, true, FILE_E as int),
                place(Piece::King, true, FILE_G as int),
                remove(Piece::Rook, true, FILE_H as int),
                place(Piece::Rook, true, FILE_F as int),
            ]
        } else {
            seq![
                remove(Piece::King, true, FILE_E as int),
                place(Piece::King, true, FILE_C as int),
                remove(Piece::Rook, true, FILE_A as int),
                place(Piece::Rook, true, FILE_D as int),
            ]
        },
{
}

/// The classification of the move from `source` to `dest` by the side `turn`
/// on the board as it stands before the move.
///
/// A move onto the mover's own piece is illegal, and a move from an empty
/// square contradicts the board. Of the others, the first shape that fits is
/// taken: castle, promotion, capture, plain move. A promotion onto an occupied
/// square has no delta for the piece that stood there.
pub open spec fn classify(
    board: Placement,
    source: int,
    dest: int,
    promotion: Option<Piece>,
    turn: Color,
) -> Result<MoveType, MoveError> {
    if own_piece_on(board, dest, turn) {
        Err(MoveError::IllegalMove)
    } else if board[source] is None {
        Err(MoveError::InconsistentBoard)
    } else {
        let moving = piece_at(board, source);
        let from = orient_spec(source, turn);
        let to = orient_spec(dest, turn);
        if is_castle(board, source, dest, turn) {
            Ok(castle_deltas(is_kingside_castle(board, dest, turn)))
        } else if promotion is Some {
            Ok(MoveType::Promote([remove(moving, true, from), place(promotion->0, true, to)]))
        } else if board[dest] is Some {
            Ok(
                MoveType::Capture(
                    [
                        remove(piece_at(board, dest), false, to),
                        place(moving, true, to),
                        remove(moving, true, from),
                    ],
                ),
            )
        } else {
            Ok(MoveType::NonCapture([place(moving, true, to), remove(moving, true, from)]))
        }
    }
}

/// A classified move. Every delta of it names a feature of the vector.
#[derive(Debug, Clone, Copy)]
pub struct BitMove {
    mve: MoveType,
}

impl View for BitMove {
    type V = MoveType;

    closed spec fn view(&self) -> MoveType {
        self.mve
    }
}

fn holds(board: &Board, index: u8, piece: Piece, color: Color) -> (r: bool)
    requires
        index < 64,
    ensures
        r == (board.cells@[index as int] == Some((piece, color))),
{
    match board.cells[index as usize] {
        Some(occupant) => occupant.0 == piece && occupant.1 == color,
        None => false,
    }
}

fn placed(piece: Piece, own_piece: bool, sq_reoriented: ReorientedSq) -> (r: PieceMove)
    requires
        0 <= sq_reoriented < 64,
    ensures
        r == place(piece, own_piece, sq_reoriented as int),
        r.index < 768,
{
    PieceMove { index: get_index(piece, own_piece, sq_reoriented), value: PieceValueChange::Place }
}

fn removed(piece: Piece, own_piece: bool, sq_reoriented: ReorientedSq) -> (r: PieceMove)
    requires
        0 <= sq_reoriented < 64,
    ensures
        r == remove(piece, own_piece, sq_reoriented as int),
        r.index < 768,
{
    PieceMove { index: get_index(piece, own_piece, sq_reoriented), value: PieceValueChange::Remove }
}

impl BitMove {
    #[verifier::type_invariant]
    spec fn within_vector(self) -> bool {
        in_range(self.mve.deltas())
    }

    /// Classifies a move against the board as it stands before the move.
    pub fn new(chess_move: ChessMove, turn: Color, pre_move_board: Board) -> (r: Result<
        BitMove,
        MoveError,
    >)
        ensures
            match classify(
                pre_move_board.cells@,
                chess_move.source.index(),
                chess_move.dest.index(),
                chess_move.promotion,
                turn,
            ) {
                Ok(shape) => r matches Ok(bitmove) && bitmove@ == shape,
                Err(error) => r matches Err(e) && e == error,
            },
            r is Err <==> own_piece_on(pre_move_board.cells@, chess_move.dest.index(), turn)
                || pre_move_board.cells@[chess_move.source.index()] is None,
            r matches Err(e) ==> (e == MoveError::IllegalMove <==> own_piece_on(
                pre_move_board.cells@,
                chess_move.dest.index(),
                turn,
            )),
            r matches Ok(bitmove) ==> in_range(bitmove@.deltas()),
            r matches Ok(bitmove) ==> (chess_move.source.index() != chess_move.dest.index()
                ==> pairwise_distinct(bitmove@.deltas())),
            r matches Ok(bitmove) ==> (bitmove@ is Castle ==> pairwise_distinct(bitmove@.deltas())),
    {
        let source = chess_move.get_source();
        let dest = chess_move.get_dest();
        let from: ReorientedSq = orient(source, turn);
        let to: ReorientedSq = orient(dest, turn);
        let captured = pre_move_board.piece_on(dest);
        match pre_move_board.color_on(dest) {
            Some(color) => {
                if color == turn {
                    return Err(MoveError::IllegalMove);
                }
            },
            None => {},
        }
        let moving = match pre_move_board.piece_on(source) {
            Some(piece) => piece,
            None => {
                return Err(MoveError::InconsistentBoard);
            },
        };
        let home: u8 = match turn {
            Color::White => 0,
            Color::Black => 56,
        };
        if source.to_int() == home + FILE_E && holds(
            &pre_move_board,
            source.to_int(),
            Piece::King,
            turn,
        ) {
            if dest.to_int() == home + FILE_G && holds(
                &pre_move_board,
                home + FILE_H,
                Piece::Rook,
                turn,
            ) {
                let mve = MoveType::Castle(
                    [
                        removed(Piece::King, true, FILE_E as i16),
                        placed(Piece::King, true, FILE_G as i16),
                        removed(Piece::Rook, true, FILE_H as i16),
                        placed(Piece::Rook, true, FILE_F as i16),
                    ],
                );
                return Ok(BitMove { mve });
            }
            if dest.to_int() == home + FILE_C && holds(
                &pre_move_board,
                home + FILE_A,
                Piece::Rook,
                turn,
            ) {
                let mve = MoveType::Castle(
                    [
                        removed(Piece::King, true, FILE_E as i16),
                        placed(Piece::King, true, FILE_C as i16),
                        removed(Piece::Rook, true, FILE_A as i16),
                        placed(Piece::Rook, true, FILE_D as i16),
                    ],
                );
                return Ok(BitMove { mve });
            }
        }
        match chess_move.get_promotion() {
            Some(promotion_piece) => {
                let mve = MoveType::Promote(
                    [removed(moving, true, from), placed(promotion_piece, true, to)],
                );
                return Ok(BitMove { mve });
            },
            None => {},
        }
        match captured {
            Some(captured_piece) => {
                let mve = MoveType::Capture(
                    [
                        removed(captured_piece, false, to),
                        placed(moving, true, to),
                        removed(moving, true, from),
                    ],
                );
                Ok(BitMove { mve })
            },
            None => {
                let mve = MoveType::NonCapture(
                    [placed(moving, true, to), removed(moving, true, from)],
                );
                Ok(BitMove { mve })
            },
        }
    }

    /// The shape of the move with its deltas.
    pub fn mve(&self) -> (r: MoveType)
        ensures
            r == self@,
            in_range(r.deltas()),
    {
        proof {
            use_type_invariant(self);
        }
        self.mve
    }
}

} // verus!
