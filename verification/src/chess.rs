use vstd::prelude::*;

verus! {

/// Square indices, a1 = 0 through h8 = 63, rank-major.
pub const A1: u8 = 0;
pub const C1: u8 = 2;
pub const E1: u8 = 4;
pub const G1: u8 = 6;
pub const H1: u8 = 7;
pub const A8: u8 = 56;
pub const C8: u8 = 58;
pub const E8: u8 = 60;
pub const G8: u8 = 62;
pub const H8: u8 = 63;

/// The name of a square, such as `e4`.
pub open spec fn square_name(sq: int) -> Seq<char> {
    seq![(97 + sq % 8) as char, (49 + sq / 8) as char]
}

/// The square named by the two bytes `file rank` (`a`..`h`, `1`..`8`).
pub open spec fn parse_square_spec(file: u8, rank: u8) -> Option<u8> {
    if 97 <= file <= 104 && 49 <= rank <= 56 {
        Some(((rank - 49) * 8 + (file - 97)) as u8)
    } else {
        None
    }
}

/// Parses a square from its file byte and rank byte.
pub fn parse_square(file: u8, rank: u8) -> (r: Option<u8>)
    ensures
        r == parse_square_spec(file, rank),
        r matches Some(sq) ==> sq < 64,
{
    if 97 <= file && file <= 104 && 49 <= rank && rank <= 56 {
        Some((rank - 49) * 8 + (file - 97))
    } else {
        None
    }
}

#[derive(Clone, Copy, Debug, PartialEq, Eq, Structural)]
pub enum Color {
    White,
    Black,
}

impl Color {
    pub open spec fn spec_ordinal(self) -> u8 {
        match self {
            Color::White => 0,
            Color::Black => 1,
        }
    }

    /// White is 0, Black is 1.
    pub fn ordinal(&self) -> (r: u8)
        ensures
            r == self.spec_ordinal(),
            r <= 1,
            Self::spec_from_ordinal(r) == *self,
    {
        match self {
            Color::White => 0,
            Color::Black => 1,
        }
    }

    pub open spec fn spec_from_ordinal(value: u8) -> Color {
        if value == 0 {
            Color::White
        } else {
            Color::Black
        }
    }

    /// The colour of ordinal `value` (0 White, 1 Black).
    pub fn from_ordinal(value: u8) -> (c: Color)
        requires
            value <= 1,
        ensures
            c == Self::spec_from_ordinal(value),
            c.spec_ordinal() == value,
    {
        if value == 0 {
            Color::White
        } else {
            Color::Black
        }
    }
}

/// Piece types; `Empty` stands for no piece.
#[derive(Clone, Copy, Debug, PartialEq, Eq, Structural)]
pub enum PieceType {
    Pawn,
    Knight,
    Bishop,
    Rook,
    Queen,
    King,
    Empty,
}

impl PieceType {
    pub open spec fn spec_ordinal(self) -> u8 {
        match self {
            PieceType::Pawn => 0,
            PieceType::Knight => 1,
            PieceType::Bishop => 2,
            PieceType::Rook => 3,
            PieceType::Queen => 4,
            PieceType::King => 5,
            PieceType::Empty => 6,
        }
    }

    /// Pawn 0, Knight 1, Bishop 2, Rook 3, Queen 4, King 5, Empty 6.
    pub fn ordinal(&self) -> (r: u8)
        ensures
            r == self.spec_ordinal(),
            r <= 6,
            Self::spec_from_ordinal(r) == *self,
    {
        match self {
            PieceType::Pawn => 0,
            PieceType::Knight => 1,
            PieceType::Bishop => 2,
            PieceType::Rook => 3,
            PieceType::Queen => 4,
            PieceType::King => 5,
            PieceType::Empty => 6,
        }
    }

    pub open spec fn spec_from_ordinal(value: u8) -> PieceType {
        if value == 0 {
            PieceType::Pawn
        } else if value == 1 {
            PieceType::Knight
        } else if value == 2 {
            PieceType::Bishop
        } else if value == 3 {
            PieceType::Rook
        } else if value == 4 {
            PieceType::Queen
        } else if value == 5 {
            PieceType::King
        } else {
            PieceType::Empty
        }
    }

    /// The piece type of ordinal `value`.
    pub fn from_ordinal(value: u8) -> (p: PieceType)
        requires
            value <= 6,
        ensures
            p == Self::spec_from_ordinal(value),
            p.spec_ordinal() == value,
    {
        if value == 0 {
            PieceType::Pawn
        } else if value == 1 {
            PieceType::Knight
        } else if value == 2 {
            PieceType::Bishop
        } else if value == 3 {
            PieceType::Rook
        } else if value == 4 {
            PieceType::Queen
        } else if value == 5 {
            PieceType::King
        } else {
            PieceType::Empty
        }
    }
}

/// A piece: its type and colour. The empty square is `Piece::none()`.
#[derive(Clone, Copy, Debug, PartialEq, Eq, Structural)]
pub struct Piece {
    pub piece_type: PieceType,
    pub color: Color,
}

pub open spec fn no_piece() -> Piece {
    Piece { piece_type: PieceType::Empty, color: Color::White }
}

impl Piece {
    /// The value that stands for an empty square.
    pub fn none() -> (p: Piece)
        ensures
            p == no_piece(),
    {
        Piece { piece_type: PieceType::Empty, color: Color::White }
    }

    pub fn new(piece_type: PieceType, color: Color) -> (p: Piece)
        ensures
            p.piece_type == piece_type,
            p.color == color,
    {
        Piece { piece_type, color }
    }

    pub fn piece_type(&self) -> (t: PieceType)
        ensures
            t == self.piece_type,
    {
        self.piece_type
    }

    pub fn color(&self) -> (c: Color)
        ensures
            c == self.color,
    {
        self.color
    }
}

/// Kinds of move in the Stockfish binpack move encoding.
#[derive(Clone, Copy, Debug, PartialEq, Eq, Structural)]
pub enum MoveType {
    Normal,
    Promotion,
    Castle,
    EnPassant,
}

impl MoveType {
    pub open spec fn spec_ordinal(self) -> u8 {
        match self {
            MoveType::Normal => 0,
            MoveType::Promotion => 1,
            MoveType::Castle => 2,
            MoveType::EnPassant => 3,
        }
    }

    pub open spec fn spec_from_ordinal(value: u8) -> MoveType {
        if value == 0 {
            MoveType::Normal
        } else if value == 1 {
            MoveType::Promotion
        } else if value == 2 {
            MoveType::Castle
        } else {
            MoveType::EnPassant
        }
    }

    pub fn ordinal(&self) -> (r: u8)
        ensures
            r == self.spec_ordinal(),
            Self::spec_from_ordinal(r) == *self,
    {
        match self {
            MoveType::Normal => 0,
            MoveType::Promotion => 1,
            MoveType::Castle => 2,
            MoveType::EnPassant => 3,
        }
    }
}

/// A move in the Stockfish binpack encoding. Castling is written as the
/// king capturing its own rook (e1g1 is stored as e1h1).
#[derive(Clone, Copy, Debug, PartialEq, Eq, Structural)]
pub struct SfMove {
    pub from: u8,
    pub to: u8,
    pub move_type: MoveType,
    pub promoted_piece: Piece,
}

/// Castling rights of a Stockfish binpack position.
#[derive(Clone, Copy, Debug, PartialEq, Eq, Structural)]
pub struct SfCastling {
    pub white_king_side: bool,
    pub white_queen_side: bool,
    pub black_king_side: bool,
    pub black_queen_side: bool,
}

/// Promotion character of a piece type in UCI notation.
pub open spec fn promo_char(t: PieceType) -> char {
    match t {
        PieceType::Queen => 'q',
        PieceType::Rook => 'r',
        PieceType::Bishop => 'b',
        _ => 'n',
    }
}

pub open spec fn is_promotion_type(t: PieceType) -> bool {
    t == PieceType::Knight || t == PieceType::Bishop || t == PieceType::Rook || t == PieceType::Queen
}

/// The square to which the king goes when it castles from `from` towards
/// the rook on `to`.
pub open spec fn castle_king_destination(from: u8, to: u8) -> u8 {
    if to % 8 == 7 {
        if from / 8 == 0 { G1 } else { G8 }
    } else {
        if from / 8 == 0 { C1 } else { C8 }
    }
}

impl SfMove {
    /// Whether the binpack library can write this move in UCI notation.
    pub open spec fn printable(self) -> bool {
        &&& self.from < 64
        &&& self.to < 64
        &&& self.move_type == MoveType::Promotion ==> is_promotion_type(self.promoted_piece.piece_type)
        &&& self.move_type == MoveType::Castle ==> (self.to % 8 == 0 || self.to % 8 == 7)
    }

    /// The UCI text of the move: castling is shown by the king's destination.
    pub open spec fn uci_text(self) -> Seq<char> {
        if self.move_type == MoveType::Castle {
            square_name(self.from as int) + square_name(castle_king_destination(self.from, self.to) as int)
        } else if self.move_type == MoveType::Promotion {
            square_name(self.from as int) + square_name(self.to as int)
                + seq![promo_char(self.promoted_piece.piece_type)]
        } else {
            square_name(self.from as int) + square_name(self.to as int)
        }
    }

    /// Checks `printable`.
    pub fn is_printable(&self) -> (r: bool)
        ensures
            r == self.printable(),
    {
        let promotion_ok = match self.move_type {
            MoveType::Promotion => match self.promoted_piece.piece_type {
                PieceType::Knight | PieceType::Bishop | PieceType::Rook | PieceType::Queen => true,
                _ => false,
            },
            _ => true,
        };
        let castle_ok = match self.move_type {
            MoveType::Castle => self.to % 8 == 0 || self.to % 8 == 7,
            _ => true,
        };
        self.from < 64 && self.to < 64 && promotion_ok && castle_ok
    }

    pub fn new(from: u8, to: u8, move_type: MoveType, promoted_piece: Piece) -> (m: SfMove)
        ensures
            m == (SfMove { from, to, move_type, promoted_piece }),
    {
        SfMove { from, to, move_type, promoted_piece }
    }

    pub fn from(&self) -> (r: u8)
        ensures
            r == self.from,
    {
        self.from
    }

    pub fn to(&self) -> (r: u8)
        ensures
            r == self.to,
    {
        self.to
    }

    pub fn mtype(&self) -> (r: MoveType)
        ensures
            r == self.move_type,
    {
        self.move_type
    }

    pub fn promoted_piece(&self) -> (r: Piece)
        ensures
            r == self.promoted_piece,
    {
        self.promoted_piece
    }
}

/// Flags of a viriformat move.
#[derive(Clone, Copy, Debug, PartialEq, Eq, Structural)]
pub enum MoveFlags {
    Promotion,
    EnPassant,
    Castle,
}

/// What kind of move a viriformat move is.
#[derive(Clone, Copy, Debug, PartialEq, Eq, Structural)]
pub enum ViriMoveKind {
    Normal,
    EnPassant,
    Castle,
    Promotion(PieceType),
}

/// A move in the viriformat encoding. Castling is written as the king
/// moving onto its own rook.
#[derive(Clone, Copy, Debug, PartialEq, Eq, Structural)]
pub struct ViriMove {
    pub from: u8,
    pub to: u8,
    pub kind: ViriMoveKind,
}

impl ViriMove {
    pub fn new(from: u8, to: u8) -> (m: ViriMove)
        ensures
            m == (ViriMove { from, to, kind: ViriMoveKind::Normal }),
    {
        ViriMove { from, to, kind: ViriMoveKind::Normal }
    }

    /// A move with the given flag; a promotion flag without a piece type
    /// stands for a knight promotion, as in the packed encoding.
    pub fn new_with_flags(from: u8, to: u8, flags: MoveFlags) -> (m: ViriMove)
        ensures
            m.from == from,
            m.to == to,
            m.kind == match flags {
                MoveFlags::Promotion => ViriMoveKind::Promotion(PieceType::Knight),
                MoveFlags::EnPassant => ViriMoveKind::EnPassant,
                MoveFlags::Castle => ViriMoveKind::Castle,
            },
    {
        let kind = match flags {
            MoveFlags::Promotion => ViriMoveKind::Promotion(PieceType::Knight),
            MoveFlags::EnPassant => ViriMoveKind::EnPassant,
            MoveFlags::Castle => ViriMoveKind::Castle,
        };
        ViriMove { from, to, kind }
    }

    pub fn new_with_promo(from: u8, to: u8, promotion: PieceType) -> (m: ViriMove)
        ensures
            m == (ViriMove { from, to, kind: ViriMoveKind::Promotion(promotion) }),
    {
        ViriMove { from, to, kind: ViriMoveKind::Promotion(promotion) }
    }

    pub fn from(&self) -> (r: u8)
        ensures
            r == self.from,
    {
        self.from
    }

    pub fn to(&self) -> (r: u8)
        ensures
            r == self.to,
    {
        self.to
    }

    pub fn is_castle(&self) -> (r: bool)
        ensures
            r == (self.kind == ViriMoveKind::Castle),
    {
        match self.kind {
            ViriMoveKind::Castle => true,
            _ => false,
        }
    }

    pub fn is_ep(&self) -> (r: bool)
        ensures
            r == (self.kind == ViriMoveKind::EnPassant),
    {
        match self.kind {
            ViriMoveKind::EnPassant => true,
            _ => false,
        }
    }

    pub fn promotion_type(&self) -> (r: Option<PieceType>)
        ensures
            r == match self.kind {
                ViriMoveKind::Promotion(t) => Some(t),
                _ => None::<PieceType>,
            },
    {
        match self.kind {
            ViriMoveKind::Promotion(t) => Some(t),
            _ => None,
        }
    }
}

/// Castling rights of a viriformat board: the rook square of each right.
#[derive(Clone, Copy, Debug, PartialEq, Eq, Structural)]
pub struct ViriCastling {
    pub wk: Option<u8>,
    pub wq: Option<u8>,
    pub bk: Option<u8>,
    pub bq: Option<u8>,
}

/// How a viriformat game was won.
#[derive(Clone, Copy, Debug, PartialEq, Eq, Structural)]
pub enum WinType {
    Mate,
    TB,
    Adjudication,
}

/// How a viriformat game was drawn.
#[derive(Clone, Copy, Debug, PartialEq, Eq, Structural)]
pub enum DrawType {
    TB,
    FiftyMoves,
    Repetition,
    Stalemate,
    InsufficientMaterial,
    Adjudication,
}

/// The outcome recorded in a viriformat game.
#[derive(Clone, Copy, Debug, PartialEq, Eq, Structural)]
pub enum GameOutcome {
    WhiteWin(WinType),
    BlackWin(WinType),
    Draw(DrawType),
    Ongoing,
}

} // verus!
