//! Piece kinds, their colours and shape tables, and rotation.
use vstd::prelude::*;

verus! {

/// A 4x4 occupancy matrix: row 0 is the top of the piece's bounding box and
/// a 1 marks a cell taken by the piece.
pub type Shape = [[u8; 4]; 4];

/// The seven piece kinds.
#[derive(Clone, Copy, Debug, PartialEq, Eq, Structural)]
pub enum TetriminoType {
    I,
    O,
    T,
    S,
    Z,
    J,
    L,
}

/// A colour as red, green and blue components.
#[derive(Clone, Copy, Debug, PartialEq, Eq, Structural)]
pub struct Color {
    pub r: u8,
    pub g: u8,
    pub b: u8,
}

/// The colour that each kind is drawn with.
pub open spec fn color_of(kind: TetriminoType) -> Color {
    match kind {
        TetriminoType::I => Color { r: 0, g: 255, b: 255 },
        TetriminoType::O => Color { r: 255, g: 255, b: 0 },
        TetriminoType::T => Color { r: 128, g: 0, b: 128 },
        TetriminoType::S => Color { r: 0, g: 128, b: 0 },
        TetriminoType::Z => Color { r: 255, g: 0, b: 0 },
        TetriminoType::J => Color { r: 0, g: 0, b: 255 },
        TetriminoType::L => Color { r: 255, g: 165, b: 0 },
    }
}

/// The shape of `kind` in rotation state `rotation` (taken in `[0, 4)`).
pub open spec fn shape_of(kind: TetriminoType, rotation: int) -> Shape {
    match kind {
        TetriminoType::I => {
            if rotation == 0 {
                [[0, 0, 0, 0], [1, 1, 1, 1], [0, 0, 0, 0], [0, 0, 0, 0]]
            } else if rotation == 1 {
                [[0, 0, 1, 0], [0, 0, 1, 0], [0, 0, 1, 0], [0, 0, 1, 0]]
            } else if rotation == 2 {
                [[0, 0, 0, 0], [0, 0, 0, 0], [1, 1, 1, 1], [0, 0, 0, 0]]
            } else {
                [[0, 1, 0, 0], [0, 1, 0, 0], [0, 1, 0, 0], [0, 1, 0, 0]]
            }
        },
        TetriminoType::O => [[0, 1, 1, 0], [0, 1, 1, 0], [0, 0, 0, 0], [0, 0, 0, 0]],
        TetriminoType::T => {
            if rotation == 0 {
                [[0, 1, 0, 0], [1, 1, 1, 0], [0, 0, 0, 0], [0, 0, 0, 0]]
            } else if rotation == 1 {
                [[0, 1, 0, 0], [0, 1, 1, 0], [0, 1, 0, 0], [0, 0, 0, 0]]
            } else if rotation == 2 {
                [[0, 0, 0, 0], [1, 1, 1, 0], [0, 1, 0, 0], [0, 0, 0, 0]]
            } else {
                [[0, 1, 0, 0], [1, 1, 0, 0], [0, 1, 0, 0], [0, 0, 0, 0]]
            }
        },
        TetriminoType::S => {
            if rotation == 0 {
                [[0, 1, 1, 0], [1, 1, 0, 0], [0, 0, 0, 0], [0, 0, 0, 0]]
            } else if rotation == 1 {
                [[0, 1, 0, 0], [0, 1, 1, 0], [0, 0, 1, 0], [0, 0, 0, 0]]
            } else if rotation == 2 {
                [[0, 0, 0, 0], [0, 1, 1, 0], [1, 1, 0, 0], [0, 0, 0, 0]]
            } else {
                [[1, 0, 0, 0], [1, 1, 0, 0], [0, 1, 0, 0], [0, 0, 0, 0]]
            }
        },
        TetriminoType::Z => {
            if rotation == 0 {
                [[1, 1, 0, 0], [0, 1, 1, 0], [0, 0, 0, 0], [0, 0, 0, 0]]
            } else if rotation == 1 {
                [[0, 0, 1, 0], [0, 1, 1, 0], [0, 1, 0, 0], [0, 0, 0, 0]]
            } else if rotation == 2 {
                [[0, 0, 0, 0], [1, 1, 0, 0], [0, 1, 1, 0], [0, 0, 0, 0]]
            } else {
                [[0, 1, 0, 0], [1, 1, 0, 0], [1, 0, 0, 0], [0, 0, 0, 0]]
            }
        },
        TetriminoType::J => {
            if rotation == 0 {
                [[1, 0, 0, 0], [1, 1, 1, 0], [0, 0, 0, 0], [0, 0, 0, 0]]
            } else if rotation == 1 {
                [[0, 1, 1, 0], [0, 1, 0, 0], [0, 1, 0, 0], [0, 0, 0, 0]]
            } else if rotation == 2 {
                [[0, 0, 0, 0], [1, 1, 1, 0], [0, 0, 1, 0], [0, 0, 0, 0]]
            } else {
                [[0, 1, 0, 0], [0, 1, 0, 0], [1, 1, 0, 0], [0, 0, 0, 0]]
            }
        },
        TetriminoType::L => {
            if rotation == 0 {
                [[0, 0, 1, 0], [1, 1, 1, 0], [0, 0, 0, 0], [0, 0, 0, 0]]
            } else if rotation == 1 {
                [[0, 1, 0, 0], [0, 1, 0, 0], [0, 1, 1, 0], [0, 0, 0, 0]]
            } else if rotation == 2 {
                [[1, 1, 1, 0], [1, 0, 0, 0], [0, 0, 0, 0], [0, 0, 0, 0]]
            } else {
                [[1, 1, 0, 0], [0, 1, 0, 0], [0, 1, 0, 0], [0, 0, 0, 0]]
            }
        },
    }
}

/// Every cell of `b` is 0 or 1, and at least one is 1.
pub open spec fn is_piece_shape(b: Shape) -> bool {
    &&& forall|r: int, c: int| 0 <= r < 4 && 0 <= c < 4 ==> #[trigger] b[r][c] <= 1
    &&& exists|r: int, c: int| 0 <= r < 4 && 0 <= c < 4 && #[trigger] b[r][c] == 1
}

/// Rotation state after one clockwise turn.
pub open spec fn clockwise(rotation: int) -> int {
    if rotation == 0 {
        3
    } else {
        rotation - 1
    }
}

/// Rotation state after one counter-clockwise turn.
pub open spec fn counter_clockwise(rotation: int) -> int {
    if rotation == 3 {
        0
    } else {
        rotation + 1
    }
}

/// Each shape in the table is a 0/1 matrix with at least one set cell.
pub proof fn lemma_shape_nonempty(kind: TetriminoType, rotation: int)
    requires
        0 <= rotation < 4,
    ensures
        is_piece_shape(shape_of(kind, rotation)),
{
    let b = shape_of(kind, rotation);
    assert forall|r: int, c: int| 0 <= r < 4 && 0 <= c < 4 implies #[trigger] b[r][c] <= 1 by {
        assert(r == 0 || r == 1 || r == 2 || r == 3);
        assert(c == 0 || c == 1 || c == 2 || c == 3);
    }
    assert(b[1][1] == 1 || b[1][2] == 1 || b[2][1] == 1 || b[0][1] == 1);
}

impl TetriminoType {
    /// The colour of this kind.
    pub fn get_color(&self) -> (r: Color)
        ensures
            r == color_of(*self),
    {
        match self {
            TetriminoType::I => Color { r: 0, g: 255, b: 255 },
            TetriminoType::O => Color { r: 255, g: 255, b: 0 },
            TetriminoType::T => Color { r: 128, g: 0, b: 128 },
            TetriminoType::S => Color { r: 0, g: 128, b: 0 },
            TetriminoType::Z => Color { r: 255, g: 0, b: 0 },
            TetriminoType::J => Color { r: 0, g: 0, b: 255 },
            TetriminoType::L => Color { r: 255, g: 165, b: 0 },
        }
    }

    /// The shape of this kind in rotation state `state`.
    pub fn get_block(&self, state: usize) -> (r: Shape)
        requires
            state < 4,
        ensures
            r == shape_of(*self, state as int),
            is_piece_shape(r),
    {
        proof {
            lemma_shape_nonempty(*self, state as int);
        }

        match self {
            TetriminoType::I => {
                if state == 0 {
                    [[0, 0, 0, 0], [1, 1, 1, 1], [0, 0, 0, 0], [0, 0, 0, 0]]
                } else if state == 1 {
                    [[0, 0, 1, 0], [0, 0, 1, 0], [0, 0, 1, 0], [0, 0, 1, 0]]
                } else if state == 2 {
                    [[0, 0, 0, 0], [0, 0, 0, 0], [1, 1, 1, 1], [0, 0, 0, 0]]
                } else {
                    [[0, 1, 0, 0], [0, 1, 0, 0], [0, 1, 0, 0], [0, 1, 0, 0]]
                }
            },
            TetriminoType::O => [[0, 1, 1, 0], [0, 1, 1, 0], [0, 0, 0, 0], [0, 0, 0, 0]],
            TetriminoType::T => {
                if state == 0 {
                    [[0, 1, 0, 0], [1, 1, 1, 0], [0, 0, 0, 0], [0, 0, 0, 0]]
                } else if state == 1 {
                    [[0, 1, 0, 0], [0, 1, 1, 0], [0, 1, 0, 0], [0, 0, 0, 0]]
                } else if state == 2 {
                    [[0, 0, 0, 0], [1, 1, 1, 0], [0, 1, 0, 0], [0, 0, 0, 0]]
                } else {
                    [[0, 1, 0, 0], [1, 1, 0, 0], [0, 1, 0, 0], [0, 0, 0, 0]]
                }
            },
            TetriminoType::S => {
                if state == 0 {
                    [[0, 1, 1, 0], [1, 1, 0, 0], [0, 0, 0, 0], [0, 0, 0, 0]]
                } else if state == 1 {
                    [[0, 1, 0, 0], [0, 1, 1, 0], [0, 0, 1, 0], [0, 0, 0, 0]]
                } else if state == 2 {
                    [[0, 0, 0, 0], [0, 1, 1, 0], [1, 1, 0, 0], [0, 0, 0, 0]]
                } else {
                    [[1, 0, 0, 0], [1, 1, 0, 0], [0, 1, 0, 0], [0, 0, 0, 0]]
                }
            },
            TetriminoType::Z => {
                if state == 0 {
                    [[1, 1, 0, 0], [0, 1, 1, 0], [0, 0, 0, 0], [0, 0, 0, 0]]
                } else if state == 1 {
                    [[0, 0, 1, 0], [0, 1, 1, 0], [0, 1, 0, 0], [0, 0, 0, 0]]
                } else if state == 2 {
                    [[0, 0, 0, 0], [1, 1, 0, 0], [0, 1, 1, 0], [0, 0, 0, 0]]
                } else {
                    [[0, 1, 0, 0], [1, 1, 0, 0], [1, 0, 0, 0], [0, 0, 0, 0]]
                }
            },
            TetriminoType::J => {
                if state == 0 {
                    [[1, 0, 0, 0], [1, 1, 1, 0], [0, 0, 0, 0], [0, 0, 0, 0]]
                } else if state == 1 {
                    [[0, 1, 1, 0], [0, 1, 0, 0], [0, 1, 0, 0], [0, 0, 0, 0]]
                } else if state == 2 {
                    [[0, 0, 0, 0], [1, 1, 1, 0], [0, 0, 1, 0], [0, 0, 0, 0]]
                } else {
                    [[0, 1, 0, 0], [0, 1, 0, 0], [1, 1, 0, 0], [0, 0, 0, 0]]
                }
            },
            TetriminoType::L => {
                if state == 0 {
                    [[0, 0, 1, 0], [1, 1, 1, 0], [0, 0, 0, 0], [0, 0, 0, 0]]
                } else if state == 1 {
                    [[0, 1, 0, 0], [0, 1, 0, 0], [0, 1, 1, 0], [0, 0, 0, 0]]
                } else if state == 2 {
                    [[1, 1, 1, 0], [1, 0, 0, 0], [0, 0, 0, 0], [0, 0, 0, 0]]
                } else {
                    [[1, 1, 0, 0], [0, 1, 0, 0], [0, 1, 0, 0], [0, 0, 0, 0]]
                }
            },
        }
    }
}

/// A piece: a kind and a rotation state in `[0, 4)`.
#[derive(Clone, Copy, Debug)]
pub struct Tetrimino {
    ttype: TetriminoType,
    state: usize,
}

impl Tetrimino {
    /// The kind of this piece.
    pub closed spec fn kind(self) -> TetriminoType {
        self.ttype
    }

    /// The rotation state held.
    pub closed spec fn rotation(self) -> int {
        self.state as int
    }

    /// The rotation state lies in `[0, 4)`.
    pub closed spec fn wf(self) -> bool {
        self.state < 4
    }

    /// The shape that this piece occupies.
    pub open spec fn shape(self) -> Shape {
        shape_of(self.kind(), self.rotation())
    }

    /// A piece of kind `ttype` in rotation state 0.
    pub fn new(ttype: TetriminoType) -> (r: Self)
        ensures
            r.wf(),
            r.kind() == ttype,
            r.rotation() == 0,
    {
        Tetrimino { ttype, state: 0 }
    }

    /// The kind.
    pub fn ttype(&self) -> (r: TetriminoType)
        ensures
            r == self.kind(),
    {
        self.ttype
    }

    /// The rotation state.
    pub fn state(&self) -> (r: usize)
        requires
            self.wf(),
        ensures
            r == self.rotation(),
            r < 4,
    {
        self.state
    }

    /// The colour of this piece's kind.
    pub fn get_color(&self) -> (r: Color)
        ensures
            r == color_of(self.kind()),
    {
        self.ttype.get_color()
    }

    /// The colour of this piece's kind (same as `get_color`).
    pub fn to_color(&self) -> (r: Color)
        ensures
            r == color_of(self.kind()),
    {
        self.get_color()
    }

    /// The shape of this piece in its current rotation state.
    pub fn get_block(&self) -> (r: Shape)
        requires
            self.wf(),
        ensures
            r == self.shape(),
            is_piece_shape(r),
    {
        self.ttype.get_block(self.state)
    }

    /// The shape of this piece in its current rotation state (same as `get_block`).
    pub fn to_block(&self) -> (r: Shape)
        requires
            self.wf(),
        ensures
            r == self.shape(),
            is_piece_shape(r),
    {
        self.get_block()
    }

    /// The same kind turned clockwise: the rotation state goes down by one, from 0 to 3.
    pub fn rotate_clockwise(&self) -> (r: Self)
        requires
            self.wf(),
        ensures
            r.wf(),
            r.kind() == self.kind(),
            r.rotation() == clockwise(self.rotation()),
    {
        if self.state == 0 {
            Tetrimino { ttype: self.ttype, state: 3 }
        } else {
            Tetrimino { ttype: self.ttype, state: self.state - 1 }
        }
    }

    /// The same kind turned counter-clockwise: the rotation state goes up by one, from 3 to 0.
    pub fn rotate_counter_clockwise(&self) -> (r: Self)
        requires
            self.wf(),
        ensures
            r.wf(),
            r.kind() == self.kind(),
            r.rotation() == counter_clockwise(self.rotation()),
    {
        if self.state == 3 {
            Tetrimino { ttype: self.ttype, state: 0 }
        } else {
            Tetrimino { ttype: self.ttype, state: self.state + 1 }
        }
    }

    /// Four clockwise turns give back the starting rotation state, and a clockwise
    /// turn followed by a counter-clockwise one (or the reverse) undoes itself.
    pub proof fn lemma_rotation_cycle(t: Tetrimino)
        requires
            t.wf(),
        ensures
            0 <= t.rotation() < 4,
            clockwise(clockwise(clockwise(clockwise(t.rotation())))) == t.rotation(),
            counter_clockwise(clockwise(t.rotation())) == t.rotation(),
            clockwise(counter_clockwise(t.rotation())) == t.rotation(),
    {
    }
}

} // verus!
