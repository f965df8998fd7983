//! The board model: colours, piece kinds, squares, moves and piece placement.
//!
//! These are plain values. A position is a sequence of 64 cells indexed by
//! square, with a1 = 0, b1 = 1, ..., h1 = 7, a2 = 8, ..., h8 = 63.

use vstd::prelude::*;

verus! {

/// One of the two sides.
#[derive(Clone, Copy, Debug, PartialEq, Eq, Structural)]
pub enum Color {
    White,
    Black,
}

impl Color {
    /// The other side.
    pub open spec fn opponent(self) -> Color {
        match self {
            Color::White => Color::Black,
            Color::Black => Color::White,
        }
    }

    /// Index of the rank on which this side's king and rooks start.
    pub open spec fn back_rank(self) -> int {
        match self {
            Color::White => 0,
            Color::Black => 7,
        }
    }
}

/// One of the six piece kinds, independent of colour.
#[derive(Clone, Copy, Debug, PartialEq, Eq, Structural)]
pub enum Piece {
    Pawn,
    Knight,
    Bishop,
    Rook,
    Queen,
    King,
}

impl Piece {
    /// The fixed ordinal of a piece kind, 0 for the pawn up to 5 for the king.
    pub open spec fn ordinal(self) -> int {
        match self {
            Piece::Pawn => 0,
            Piece::Knight => 1,
            Piece::Bishop => 2,
            Piece::Rook => 3,
            Piece::Queen => 4,
            Piece::King => 5,
        }
    }

    /// The piece kind with the given ordinal; the king for anything above 4.
    pub open spec fn from_ordinal(n: int) -> Piece {
        if n == 0 {
            Piece::Pawn
        } else if n == 1 {
            Piece::Knight
        } else if n == 2 {
            Piece::Bishop
        } else if n == 3 {
            Piece::Rook
        } else if n == 4 {
            Piece::Queen
        } else {
            Piece::King
        }
    }

    /// The ordinal as a table index.
    pub fn to_index(&self) -> (r: usize)
        ensures
            r == self.ordinal(),
    {
        match self {
            Piece::Pawn => 0,
            Piece::Knight => 1,
            Piece::Bishop => 2,
            Piece::Rook => 3,
            Piece::Queen => 4,
            Piece::King => 5,
        }
    }
}

/// A board cell, identified by an index in 0..64.
#[derive(Clone, Copy, Debug, PartialEq, Eq, Structural)]
pub struct Square {
    index: u8,
}

impl Square {
    #[verifier::type_invariant]
    spec fn on_board(self) -> bool {
        self.index < 64
    }

    /// The index of the square.
    pub closed spec fn index(self) -> int {
        self.index as int
    }

    /// The square with the given index, if there is one.
    pub fn new(index: u8) -> (r: Option<Square>)
        ensures
            index < 64 ==> (r matches Some(sq) && sq.index() == index),
            index >= 64 ==> r is None,
    {
        if index < 64 {
            Some(Square { index })
        } else {
            None
        }
    }

    /// The index of the square, always below 64.
    pub fn to_int(&self) -> (r: u8)
        ensures
            r == self.index(),
            r < 64,
    {
        proof {
            use_type_invariant(self);
        }
        self.index
    }
}

/// A move as its endpoints and, for a promotion, the piece promoted to.
#[derive(Clone, Copy, Debug, PartialEq, Eq, Structural)]
pub struct ChessMove {
    pub source: Square,
    pub dest: Square,
    pub promotion: Option<Piece>,
}

impl ChessMove {
    /// The move from `source` to `dest`, promoting to `promotion` if any.
    pub fn new(source: Square, dest: Square, promotion: Option<Piece>) -> (r: ChessMove)
        ensures
            r == (ChessMove { source, dest, promotion }),
    {
        ChessMove { source, dest, promotion }
    }

    /// The square the piece is on before the move.
    pub fn get_source(&self) -> (r: Square)
        ensures
            r == self.source,
    {
        self.source
    }

    /// The square the piece is on after the move.
    pub fn get_dest(&self) -> (r: Square)
        ensures
            r == self.dest,
    {
        self.dest
    }

    /// The piece promoted to, if the move is a promotion.
    pub fn get_promotion(&self) -> (r: Option<Piece>)
        ensures
            r == self.promotion,
    {
        self.promotion
    }
}

/// What stands on each of the 64 squares: `None` for an empty square.
pub type Placement = Seq<Option<(Piece, Color)>>;

/// The piece kind that starts on the given file of a back rank.
pub open spec fn back_rank_piece(file: int) -> Piece {
    if file == 0 || file == 7 {
        Piece::Rook
    } else if file == 1 || file == 6 {
        Piece::Knight
    } else if file == 2 || file == 5 {
        Piece::Bishop
    } else if file == 3 {
        Piece::Queen
    } else {
        Piece::King
    }
}

/// What stands on a square at the start of a game.
pub open spec fn initial_cell(sq: int) -> Option<(Piece, Color)> {
    if 0 <= sq < 8 {
        Some((back_rank_piece(sq), Color::White))
    } else if 8 <= sq < 16 {
        Some((Piece::Pawn, Color::White))
    } else if 48 <= sq < 56 {
        Some((Piece::Pawn, Color::Black))
    } else if 56 <= sq < 64 {
        Some((back_rank_piece(sq - 56), Color::Black))
    } else {
        None
    }
}

/// The placement at the start of a game.
pub open spec fn initial_placement() -> Placement {
    Seq::new(64, |sq: int| initial_cell(sq))
}

/// A position: the placement of the pieces and the side to move.
#[derive(Clone, Copy, Debug)]
pub struct Board {
    pub cells: [Option<(Piece, Color)>; 64],
    pub side_to_move: Color,
}

fn starting_piece(file: u8) -> (r: Piece)
    ensures
        r == back_rank_piece(file as int),
{
    if file == 0 || file == 7 {
        Piece::Rook
    } else if file == 1 || file == 6 {
        Piece::Knight
    } else if file == 2 || file == 5 {
        Piece::Bishop
    } else if file == 3 {
        Piece::Queen
    } else {
        Piece::King
    }
}

impl Board {
    /// A board without pieces.
    pub fn empty(side_to_move: Color) -> (r: Board)
        ensures
            r.side_to_move == side_to_move,
            forall|sq: int| 0 <= sq < 64 ==> r.cells@[sq] is None,
    {
        Board { cells: [None;64], side_to_move }
    }

    /// The kind of the piece on a square.
    pub fn piece_on(&self, square: Square) -> (r: Option<Piece>)
        ensures
            r == match self.cells@[square.index()] {
                Some(occupant) => Some(occupant.0),
                None => None,
            },
    {
        match self.cells[square.to_int() as usize] {
            Some(occupant) => Some(occupant.0),
            None => None,
        }
    }

    /// The colour of the piece on a square.
    pub fn color_on(&self, square: Square) -> (r: Option<Color>)
        ensures
            r == match self.cells@[square.index()] {
                Some(occupant) => Some(occupant.1),
                None => None,
            },
    {
        match self.cells[square.to_int() as usize] {
            Some(occupant) => Some(occupant.1),
            None => None,
        }
    }

    /// The side whose turn it is.
    pub fn side_to_move(&self) -> (r: Color)
        ensures
            r == self.side_to_move,
    {
        self.side_to_move
    }

    /// Puts a piece on a square, replacing what stood there.
    pub fn set_piece(&mut self, piece: Piece, color: Color, square: Square)
        ensures
            final(self).cells@ == old(self).cells@.update(square.index(), Some((piece, color))),
            final(self).side_to_move == old(self).side_to_move,
    {
        self.cells[square.to_int() as usize] = Some((piece, color));
    }

    /// Empties a square.
    pub fn clear_square(&mut self, square: Square)
        ensures
            final(self).cells@ == old(self).cells@.update(square.index(), None),
            final(self).side_to_move == old(self).side_to_move,
    {
        self.cells[square.to_int() as usize] = None;
    }
}

impl Default for Board {
    /// The position at the start of a game, White to move.
    fn default() -> (r: Board)
        ensures
            r.cells@ == initial_placement(),
            r.side_to_move == Color::White,
    {
        let mut cells: [Option<(Piece, Color)>; 64] = [None;64];
        let mut file: u8 = 0;
        while file < 8
            invariant
                file <= 8,
                forall|sq: int|
                    0 <= sq < 64 ==> cells@[sq] == if sq % 8 < file {
                        initial_cell(sq)
                    } else {
                        None
                    },
            decreases 8 - file,
        {
            let piece = starting_piece(file);
            let f: usize = file as usize;
            cells[f] = Some((piece, Color::White));
            cells[f + 8] = Some((Piece::Pawn, Color::White));
            cells[f + 48] = Some((Piece::Pawn, Color::Black));
            cells[f + 56] = Some((piece, Color::Black));
            file = file + 1;
        }
        assert(cells@ =~= initial_placement());
        Board { cells, side_to_move: Color::White }
    }
}

} // verus!
