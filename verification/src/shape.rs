//! The shape catalog: the seven tetromino kinds, their four rotation states
//! as sets of cell offsets, and the geometry of a placed piece.

use vstd::prelude::*;

verus! {

/// One of the seven classic tetromino kinds.
#[derive(Clone, Copy, PartialEq, Eq, Structural, Debug)]
pub enum Kind {
    I,
    O,
    T,
    S,
    Z,
    J,
    L,
}

/// A grid position: column then row, both 0-indexed. The row may be negative
/// for cells of a freshly spawned piece that still sit above the field.
#[derive(Clone, Copy, PartialEq, Eq, Structural, Debug)]
pub struct Pos {
    pub col: i32,
    pub row: i32,
}

/// The active piece: a kind, a rotation state in `0..4`, and the anchor from
/// which the four cell offsets are measured.
#[derive(Clone, Copy, PartialEq, Eq, Structural, Debug)]
pub struct Shape {
    pub kind: Kind,
    pub rot: u8,
    pub anchor: Pos,
}

/// The four cell offsets of one rotation state, relative to the anchor.
/// Every offset component lies in `0..4`.
pub open spec fn offsets_spec(kind: Kind, rot: u8) -> ((i32, i32), (i32, i32), (i32, i32), (i32, i32)) {
    match kind {
        Kind::I => if rot == 0 {
            ((0i32, 1i32), (1i32, 1i32), (2i32, 1i32), (3i32, 1i32))
        } else if rot == 1 {
            ((2i32, 0i32), (2i32, 1i32), (2i32, 2i32), (2i32, 3i32))
        } else if rot == 2 {
            ((0i32, 2i32), (1i32, 2i32), (2i32, 2i32), (3i32, 2i32))
        } else {
            ((1i32, 0i32), (1i32, 1i32), (1i32, 2i32), (1i32, 3i32))
        },
        Kind::O => ((1i32, 0i32), (2i32, 0i32), (1i32, 1i32), (2i32, 1i32)),
        Kind::T => if rot == 0 {
            ((1i32, 0i32), (0i32, 1i32), (1i32, 1i32), (2i32, 1i32))
        } else if rot == 1 {
            ((1i32, 0i32), (1i32, 1i32), (2i32, 1i32), (1i32, 2i32))
        } else if rot == 2 {
            ((0i32, 1i32), (1i32, 1i32), (2i32, 1i32), (1i32, 2i32))
        } else {
            ((1i32, 0i32), (0i32, 1i32), (1i32, 1i32), (1i32, 2i32))
        },
        Kind::S => if rot == 0 {
            ((1i32, 0i32), (2i32, 0i32), (0i32, 1i32), (1i32, 1i32))
        } else if rot == 1 {
            ((1i32, 0i32), (1i32, 1i32), (2i32, 1i32), (2i32, 2i32))
        } else if rot == 2 {
            ((1i32, 1i32), (2i32, 1i32), (0i32, 2i32), (1i32, 2i32))
        } else {
            ((0i32, 0i32), (0i32, 1i32), (1i32, 1i32), (1i32, 2i32))
        },
        Kind::Z => if rot == 0 {
            ((0i32, 0i32), (1i32, 0i32), (1i32, 1i32), (2i32, 1i32))
        } else if rot == 1 {
            ((2i32, 0i32), (1i32, 1i32), (2i32, 1i32), (1i32, 2i32))
        } else if rot == 2 {
            ((0i32, 1i32), (1i32, 1i32), (1i32, 2i32), (2i32, 2i32))
        } else {
            ((1i32, 0i32), (0i32, 1i32), (1i32, 1i32), (0i32, 2i32))
        },
        Kind::J => if rot == 0 {
            ((0i32, 0i32), (0i32, 1i32), (1i32, 1i32), (2i32, 1i32))
        } else if rot == 1 {
            ((1i32, 0i32), (2i32, 0i32), (1i32, 1i32), (1i32, 2i32))
        } else if rot == 2 {
            ((0i32, 1i32), (1i32, 1i32), (2i32, 1i32), (2i32, 2i32))
        } else {
            ((1i32, 0i32), (1i32, 1i32), (0i32, 2i32), (1i32, 2i32))
        },
        Kind::L => if rot == 0 {
            ((2i32, 0i32), (0i32, 1i32), (1i32, 1i32), (2i32, 1i32))
        } else if rot == 1 {
            ((1i32, 0i32), (1i32, 1i32), (1i32, 2i32), (2i32, 2i32))
        } else if rot == 2 {
            ((0i32, 1i32), (1i32, 1i32), (2i32, 1i32), (0i32, 2i32))
        } else {
            ((0i32, 0i32), (1i32, 0i32), (1i32, 1i32), (1i32, 2i32))
        },
    }
}

/// The catalog lookup: the four offsets of `(kind, rot)`.
pub fn offsets(kind: Kind, rot: u8) -> (r: ((i32, i32), (i32, i32), (i32, i32), (i32, i32)))
    requires
        rot < 4,
    ensures
        r == offsets_spec(kind, rot),
{
    match kind {
        Kind::I => if rot == 0 {
            ((0, 1), (1, 1), (2, 1), (3, 1))
        } else if rot == 1 {
            ((2, 0), (2, 1), (2, 2), (2, 3))
        } else if rot == 2 {
            ((0, 2), (1, 2), (2, 2), (3, 2))
        } else {
            ((1, 0), (1, 1), (1, 2), (1, 3))
        },
        Kind::O => ((1, 0), (2, 0), (1, 1), (2, 1)),
        Kind::T => if rot == 0 {
            ((1, 0), (0, 1), (1, 1), (2, 1))
        } else if rot == 1 {
            ((1, 0), (1, 1), (2, 1), (1, 2))
        } else if rot == 2 {
            ((0, 1), (1, 1), (2, 1), (1, 2))
        } else {
            ((1, 0), (0, 1), (1, 1), (1, 2))
        },
        Kind::S => if rot == 0 {
            ((1, 0), (2, 0), (0, 1), (1, 1))
        } else if rot == 1 {
            ((1, 0), (1, 1), (2, 1), (2, 2))
        } else if rot == 2 {
            ((1, 1), (2, 1), (0, 2), (1, 2))
        } else {
            ((0, 0), (0, 1), (1, 1), (1, 2))
        },
        Kind::Z => if rot == 0 {
            ((0, 0), (1, 0), (1, 1), (2, 1))
        } else if rot == 1 {
            ((2, 0), (1, 1), (2, 1), (1, 2))
        } else if rot == 2 {
            ((0, 1), (1, 1), (1, 2), (2, 2))
        } else {
            ((1, 0), (0, 1), (1, 1), (0, 2))
        },
        Kind::J => if rot == 0 {
            ((0, 0), (0, 1), (1, 1), (2, 1))
        } else if rot == 1 {
            ((1, 0), (2, 0), (1, 1), (1, 2))
        } else if rot == 2 {
            ((0, 1), (1, 1), (2, 1), (2, 2))
        } else {
            ((1, 0), (1, 1), (0, 2), (1, 2))
        },
        Kind::L => if rot == 0 {
            ((2, 0), (0, 1), (1, 1), (2, 1))
        } else if rot == 1 {
            ((1, 0), (1, 1), (1, 2), (2, 2))
        } else if rot == 2 {
            ((0, 1), (1, 1), (2, 1), (0, 2))
        } else {
            ((0, 0), (1, 0), (1, 1), (1, 2))
        },
    }
}

/// Every offset of every rotation state lies inside the 4 x 4 box at the
/// anchor: both components are in `0..4`.
pub proof fn lemma_offsets_in_box(kind: Kind, rot: u8)
    ensures
        ({
            let o = offsets_spec(kind, rot);
            &&& 0 <= o.0.0 <= 3 && 0 <= o.0.1 <= 3
            &&& 0 <= o.1.0 <= 3 && 0 <= o.1.1 <= 3
            &&& 0 <= o.2.0 <= 3 && 0 <= o.2.1 <= 3
            &&& 0 <= o.3.0 <= 3 && 0 <= o.3.1 <= 3
        }),
{
}

/// Whether the piece's four absolute cells include `(col, row)`.
pub open spec fn covers(s: Shape, col: int, row: int) -> bool {
    let o = offsets_spec(s.kind, s.rot);
    ||| (col == s.anchor.col + o.0.0 && row == s.anchor.row + o.0.1)
    ||| (col == s.anchor.col + o.1.0 && row == s.anchor.row + o.1.1)
    ||| (col == s.anchor.col + o.2.0 && row == s.anchor.row + o.2.1)
    ||| (col == s.anchor.col + o.3.0 && row == s.anchor.row + o.3.1)
}

impl Shape {
    /// Whether this piece occupies `pos`. Computed in 64-bit arithmetic so
    /// that it is total over every anchor.
    pub fn has_position(&self, pos: Pos) -> (r: bool)
        requires
            self.rot < 4,
        ensures
            r == covers(*self, pos.col as int, pos.row as int),
    {
        let o = offsets(self.kind, self.rot);
        let ac = self.anchor.col as i64;
        let ar = self.anchor.row as i64;
        let pc = pos.col as i64;
        let pr = pos.row as i64;
        (pc == ac + o.0.0 as i64 && pr == ar + o.0.1 as i64)
            || (pc == ac + o.1.0 as i64 && pr == ar + o.1.1 as i64)
            || (pc == ac + o.2.0 as i64 && pr == ar + o.2.1 as i64)
            || (pc == ac + o.3.0 as i64 && pr == ar + o.3.1 as i64)
    }
}

/// The same piece anchored at another row: how gravity moves a shape.
pub open spec fn at_row(s: Shape, row: i32) -> Shape {
    Shape { kind: s.kind, rot: s.rot, anchor: Pos { col: s.anchor.col, row: row } }
}

} // verus!
