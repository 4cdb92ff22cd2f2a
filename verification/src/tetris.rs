//! The game engine: one grid, one active piece, and the rules for gravity,
//! movement, rotation, locking, spawning and loss detection.

use vstd::prelude::*;
use crate::grid::{Grid, lemma_index_in_range};
use crate::shape::{at_row, covers, offsets, offsets_spec, lemma_offsets_in_box, Kind, Pos, Shape};

verus! {

/// A horizontal move request.
#[derive(Clone, Copy, PartialEq, Eq, Structural, Debug)]
pub enum Direction {
    Left,
    Right,
}

/// The fixed spawn sequence: the kind used for the `i`-th spawn, cycling
/// through all seven kinds. The selection is kept apart from the collision
/// and locking rules, so another policy can replace it.
pub open spec fn kind_at_spec(i: u8) -> Kind {
    if i == 0 {
        Kind::I
    } else if i == 1 {
        Kind::O
    } else if i == 2 {
        Kind::T
    } else if i == 3 {
        Kind::S
    } else if i == 4 {
        Kind::Z
    } else if i == 5 {
        Kind::J
    } else {
        Kind::L
    }
}

/// The spawn kind for sequence index `i`.
pub fn kind_at(i: u8) -> (k: Kind)
    ensures
        k == kind_at_spec(i),
{
    if i == 0 {
        Kind::I
    } else if i == 1 {
        Kind::O
    } else if i == 2 {
        Kind::T
    } else if i == 3 {
        Kind::S
    } else if i == 4 {
        Kind::Z
    } else if i == 5 {
        Kind::J
    } else {
        Kind::L
    }
}

/// The fixed spawn column: the piece's 4-wide box sits centered at the top
/// of the field (pushed to the wall when the field is narrower than the box).
pub open spec fn spawn_col_spec(width: i32) -> i32 {
    if width >= 4 {
        ((width - 4) / 2) as i32
    } else {
        0i32
    }
}

/// The piece placed by the `i`-th spawn: rotation state 0 at the fixed
/// spawn anchor.
pub open spec fn spawn_spec(width: i32, kind: Kind) -> Shape {
    Shape { kind, rot: 0u8, anchor: Pos { col: spawn_col_spec(width), row: 0i32 } }
}

/// The piece moved down one row: one step of gravity.
pub open spec fn down_spec(s: Shape) -> Shape {
    at_row(s, (s.anchor.row + 1) as i32)
}

/// The piece moved one column towards `d`.
pub open spec fn shifted_spec(s: Shape, d: Direction) -> Shape {
    let col = match d {
        Direction::Left => (s.anchor.col - 1) as i32,
        Direction::Right => (s.anchor.col + 1) as i32,
    };
    Shape { kind: s.kind, rot: s.rot, anchor: Pos { col, row: s.anchor.row } }
}

/// The piece turned to its successor rotation state, same anchor.
pub open spec fn rotated_spec(s: Shape) -> Shape {
    Shape { kind: s.kind, rot: ((s.rot + 1) % 4) as u8, anchor: s.anchor }
}

/// The whole game state: the field, the active piece (absent exactly when
/// the game is lost), and the position in the spawn sequence.
pub struct Tetris {
    pub grid: Grid,
    pub current: Option<Shape>,
    pub lost: bool,
    pub bag_index: u8,
}

impl Tetris {
    /// Whether `(col, row)` is a place the piece may not occupy: outside a
    /// side wall, below the floor, or on a locked block. Rows above the field
    /// (negative) are allowed as long as the column is in range.
    pub open spec fn cell_bad(self, col: int, row: int) -> bool {
        ||| !(0 <= col < self.grid.width)
        ||| row >= self.grid.height
        ||| (row >= 0 && self.grid.cell(col, row) is Some)
    }

    /// Whether the piece, placed as it is, collides with a wall, the floor,
    /// or a locked block.
    pub open spec fn collides_spec(self, s: Shape) -> bool {
        let o = offsets_spec(s.kind, s.rot);
        ||| self.cell_bad(s.anchor.col + o.0.0, s.anchor.row + o.0.1)
        ||| self.cell_bad(s.anchor.col + o.1.0, s.anchor.row + o.1.1)
        ||| self.cell_bad(s.anchor.col + o.2.0, s.anchor.row + o.2.1)
        ||| self.cell_bad(s.anchor.col + o.3.0, s.anchor.row + o.3.1)
    }

    /// The engine's invariant: a consistent grid, a spawn index inside the
    /// sequence, a piece exactly while the game runs, and an active piece
    /// that never collides.
    pub open spec fn wf(self) -> bool {
        &&& self.grid.wf()
        &&& self.bag_index < 7
        &&& (self.lost <==> self.current is None)
        &&& (self.current matches Some(s) ==> s.rot < 4 && !self.collides_spec(s))
    }

    /// What the merged query surface reports at `(col, row)`: the active
    /// piece's kind where the piece stands, else the locked block, else
    /// nothing.
    pub open spec fn get_spec(self, col: int, row: int) -> Option<Kind> {
        match self.current {
            Some(s) => if covers(s, col, row) {
                Some(s.kind)
            } else {
                self.grid.cell(col, row)
            },
            None => self.grid.cell(col, row),
        }
    }

    /// Whether `l` is where `s` comes to rest under gravity: the same piece,
    /// at or below its present row, with every intermediate step free and the
    /// next step down blocked.
    pub open spec fn is_landing_of(self, s: Shape, l: Shape) -> bool {
        &&& l.kind == s.kind
        &&& l.rot == s.rot
        &&& l.anchor.col == s.anchor.col
        &&& l.anchor.row >= s.anchor.row
        &&& forall|row: i32|
            s.anchor.row <= row <= l.anchor.row ==> !self.collides_spec(#[trigger] at_row(s, row))
        &&& self.collides_spec(at_row(s, (l.anchor.row + 1) as i32))
    }
}

/// A piece that does not collide has its anchor inside (or just left of)
/// the walls and above the floor, because every offset is non-negative.
pub proof fn lemma_anchor_bounds(t: Tetris, s: Shape)
    requires
        !t.collides_spec(s),
    ensures
        -3 <= s.anchor.col < t.grid.width,
        s.anchor.row < t.grid.height,
{
    lemma_offsets_in_box(s.kind, s.rot);
}

impl Tetris {
    /// Whether the piece, computed in 64-bit arithmetic, collides.
    fn collides(&self, s: &Shape) -> (r: bool)
        requires
            self.grid.wf(),
            s.rot < 4,
        ensures
            r == self.collides_spec(*s),
    {
        let o = offsets(s.kind, s.rot);
        let ac = s.anchor.col as i64;
        let ar = s.anchor.row as i64;
        self.bad_cell(ac + o.0.0 as i64, ar + o.0.1 as i64)
            || self.bad_cell(ac + o.1.0 as i64, ar + o.1.1 as i64)
            || self.bad_cell(ac + o.2.0 as i64, ar + o.2.1 as i64)
            || self.bad_cell(ac + o.3.0 as i64, ar + o.3.1 as i64)
    }

    /// Whether one absolute cell is a place a piece may not occupy.
    fn bad_cell(&self, col: i64, row: i64) -> (r: bool)
        requires
            self.grid.wf(),
        ensures
            r == self.cell_bad(col as int, row as int),
    {
        if col < 0 || col >= self.grid.width as i64 {
            true
        } else if row >= self.grid.height as i64 {
            true
        } else if row >= 0 {
            self.grid.occupant_at(Pos { col: col as i32, row: row as i32 }).is_some()
        } else {
            false
        }
    }

    /// Starts a game: an empty field of the given extent and the first piece
    /// of the spawn sequence at the spawn anchor. In the pathological case of
    /// a field too narrow for that piece, the game begins already lost.
    pub fn new(width: u32, height: u32) -> (t: Tetris)
        requires
            1 <= width <= 0x4000,
            1 <= height <= 0x4000,
        ensures
            t.wf(),
            t.grid.width == width as i32,
            t.grid.height == height as i32,
            forall|col: int, row: int|
                t.grid.in_bounds(col, row) ==> #[trigger] t.grid.cell(col, row) is None,
            t.bag_index == 1,
            t.lost == t.collides_spec(spawn_spec(width as i32, kind_at_spec(0))),
            t.current == (if t.collides_spec(spawn_spec(width as i32, kind_at_spec(0))) {
                None::<Shape>
            } else {
                Some(spawn_spec(width as i32, kind_at_spec(0)))
            }),
    {
        let grid = Grid::new(width as i32, height as i32);
        let mut t = Tetris { grid, current: None, lost: true, bag_index: 1 };
        let s = Shape {
            kind: kind_at(0),
            rot: 0,
            anchor: Pos { col: spawn_col(t.grid.width), row: 0 },
        };
        if !t.collides(&s) {
            t.current = Some(s);
            t.lost = false;
        }
        t
    }
}

impl Tetris {
    /// Moves the active piece one column towards `direction` if nothing is
    /// in the way; a blocked move, or a lost game, changes nothing.
    pub fn shift(&mut self, direction: Direction)
        requires
            old(self).wf(),
        ensures
            final(self).wf(),
            final(self).grid == old(self).grid,
            final(self).lost == old(self).lost,
            final(self).bag_index == old(self).bag_index,
            old(self).lost ==> *final(self) == *old(self),
            old(self).current matches Some(s) ==> {
                let cand = shifted_spec(s, direction);
                &&& old(self).collides_spec(cand) ==> *final(self) == *old(self)
                &&& !old(self).collides_spec(cand) ==> final(self).current == Some(cand)
            },
    {
        if self.lost {
            return;
        }
        let s = self.current.unwrap();
        proof {
            lemma_anchor_bounds(*self, s);
        }
        let col = match direction {
            Direction::Left => s.anchor.col - 1,
            Direction::Right => s.anchor.col + 1,
        };
        let cand = Shape { kind: s.kind, rot: s.rot, anchor: Pos { col, row: s.anchor.row } };
        if !self.collides(&cand) {
            self.current = Some(cand);
        }
    }

    /// Turns the active piece to its successor rotation state, anchor held,
    /// if the turned piece fits; a blocked turn, or a lost game, changes
    /// nothing. There is no wall-kick: the turn happens in place or not at
    /// all.
    pub fn rotate(&mut self)
        requires
            old(self).wf(),
        ensures
            final(self).wf(),
            final(self).grid == old(self).grid,
            final(self).lost == old(self).lost,
            final(self).bag_index == old(self).bag_index,
            old(self).lost ==> *final(self) == *old(self),
            old(self).current matches Some(s) ==> {
                let cand = rotated_spec(s);
                &&& old(self).collides_spec(cand) ==> *final(self) == *old(self)
                &&& !old(self).collides_spec(cand) ==> final(self).current == Some(cand)
            },
    {
        if self.lost {
            return;
        }
        let s = self.current.unwrap();
        let cand = Shape { kind: s.kind, rot: (s.rot + 1) % 4, anchor: s.anchor };
        if !self.collides(&cand) {
            self.current = Some(cand);
        }
    }

    /// One step of gravity. The active piece moves down one row if nothing
    /// blocks it. Otherwise the piece locks into the grid where it stands,
    /// and the next piece of the spawn sequence appears at the spawn anchor;
    /// if even that fresh piece collides, the game is lost. A lost game
    /// changes nothing.
    pub fn tick(&mut self)
        requires
            old(self).wf(),
        ensures
            final(self).wf(),
            final(self).grid.width == old(self).grid.width,
            final(self).grid.height == old(self).grid.height,
            old(self).lost ==> *final(self) == *old(self),
            old(self).current matches Some(s) ==> {
                let moved = down_spec(s);
                &&& !old(self).collides_spec(moved) ==> {
                    &&& final(self).grid == old(self).grid
                    &&& final(self).current == Some(moved)
                    &&& final(self).lost == false
                    &&& final(self).bag_index == old(self).bag_index
                }
                &&& old(self).collides_spec(moved) ==> {
                    let sp = spawn_spec(old(self).grid.width, kind_at_spec(old(self).bag_index));
                    &&& forall|col: int, row: int|
                        final(self).grid.in_bounds(col, row)
                            ==> #[trigger] final(self).grid.cell(col, row) == (if covers(s, col, row) {
                                Some(s.kind)
                            } else {
                                old(self).grid.cell(col, row)
                            })
                    &&& final(self).bag_index == (old(self).bag_index + 1) % 7
                    &&& final(self).lost == final(self).collides_spec(sp)
                    &&& final(self).current == (if final(self).collides_spec(sp) {
                        None::<Shape>
                    } else {
                        Some(sp)
                    })
                }
            },
    {
        if self.lost {
            return;
        }
        let s = self.current.unwrap();
        proof {
            lemma_anchor_bounds(*self, s);
            lemma_offsets_in_box(s.kind, s.rot);
        }
        let moved = Shape {
            kind: s.kind,
            rot: s.rot,
            anchor: Pos { col: s.anchor.col, row: s.anchor.row + 1 },
        };
        if !self.collides(&moved) {
            self.current = Some(moved);
            return;
        }
        // The piece cannot fall: lock its visible cells into the grid.
        let ghost g0 = self.grid;
        let o = offsets(s.kind, s.rot);
        let c0 = s.anchor.col + o.0.0;
        let r0 = s.anchor.row + o.0.1;
        if r0 >= 0 {
            self.grid.lock(Pos { col: c0, row: r0 }, s.kind);
        }
        let ghost g1 = self.grid;
        let c1 = s.anchor.col + o.1.0;
        let r1 = s.anchor.row + o.1.1;
        if r1 >= 0 {
            self.grid.lock(Pos { col: c1, row: r1 }, s.kind);
        }
        let ghost g2 = self.grid;
        let c2 = s.anchor.col + o.2.0;
        let r2 = s.anchor.row + o.2.1;
        if r2 >= 0 {
            self.grid.lock(Pos { col: c2, row: r2 }, s.kind);
        }
        let ghost g3 = self.grid;
        let c3 = s.anchor.col + o.3.0;
        let r3 = s.anchor.row + o.3.1;
        if r3 >= 0 {
            self.grid.lock(Pos { col: c3, row: r3 }, s.kind);
        }
        proof {
            assert forall|col: int, row: int| self.grid.in_bounds(col, row)
                implies #[trigger] self.grid.cell(col, row) == (if covers(s, col, row) {
                    Some(s.kind)
                } else {
                    g0.cell(col, row)
                }) by {
                assert(g1.cell(col, row) == (if col == c0 && row == r0 && r0 >= 0 {
                    Some(s.kind)
                } else {
                    g0.cell(col, row)
                }));
                assert(g2.cell(col, row) == (if col == c1 && row == r1 && r1 >= 0 {
                    Some(s.kind)
                } else {
                    g1.cell(col, row)
                }));
                assert(g3.cell(col, row) == (if col == c2 && row == r2 && r2 >= 0 {
                    Some(s.kind)
                } else {
                    g2.cell(col, row)
                }));
                assert(self.grid.cell(col, row) == (if col == c3 && row == r3 && r3 >= 0 {
                    Some(s.kind)
                } else {
                    g3.cell(col, row)
                }));
            }
        }
        // Spawn the next piece of the sequence; if it cannot be placed, the
        // game is over.
        let k = kind_at(self.bag_index);
        self.bag_index = (self.bag_index + 1) % 7;
        let sp = Shape { kind: k, rot: 0, anchor: Pos { col: spawn_col(self.grid.width), row: 0 } };
        if self.collides(&sp) {
            self.current = None;
            self.lost = true;
        } else {
            self.current = Some(sp);
        }
    }

    /// Whether the game has reached its terminal state.
    pub fn is_lost(&self) -> (r: bool)
        ensures
            r == self.lost,
    {
        self.lost
    }

    /// Where the active piece would come to rest if it fell uninterrupted
    /// from where it stands: the ghost piece. Reads the state and changes
    /// nothing; `None` exactly when the game is lost.
    pub fn predict_landing_position(&self) -> (r: Option<Shape>)
        requires
            self.wf(),
        ensures
            r is Some <==> self.current is Some,
            self.current matches Some(s) ==> r matches Some(l) && self.is_landing_of(s, l),
    {
        let s = match self.current {
            Some(s) => s,
            None => {
                return None;
            },
        };
        let mut cand = s;
        proof {
            lemma_anchor_bounds(*self, cand);
            assert(at_row(s, s.anchor.row) == s);
        }
        let mut next = Shape {
            kind: cand.kind,
            rot: cand.rot,
            anchor: Pos { col: cand.anchor.col, row: cand.anchor.row + 1 },
        };
        while !self.collides(&next)
            invariant
                self.wf(),
                self.current == Some(s),
                cand.kind == s.kind,
                cand.rot == s.rot,
                cand.anchor.col == s.anchor.col,
                cand.anchor.row >= s.anchor.row,
                !self.collides_spec(cand),
                cand.anchor.row < self.grid.height,
                next == down_spec(cand),
                forall|row: i32|
                    s.anchor.row <= row <= cand.anchor.row
                        ==> !self.collides_spec(#[trigger] at_row(s, row)),
            decreases self.grid.height - cand.anchor.row,
        {
            cand = next;
            proof {
                lemma_anchor_bounds(*self, cand);
                assert(at_row(s, cand.anchor.row) == cand);
            }
            next = Shape {
                kind: cand.kind,
                rot: cand.rot,
                anchor: Pos { col: cand.anchor.col, row: cand.anchor.row + 1 },
            };
        }
        proof {
            assert(at_row(s, (cand.anchor.row + 1) as i32) == next);
        }
        Some(cand)
    }
}

impl Tetris {
    /// What is visible at `pos`: the active piece's kind where the piece
    /// stands, else the locked block's kind, else nothing. The position must
    /// be pre-validated to lie inside the extent.
    pub fn get(&self, pos: Pos) -> (r: Option<Kind>)
        requires
            self.wf(),
            self.grid.in_bounds(pos.col as int, pos.row as int),
        ensures
            r == self.get_spec(pos.col as int, pos.row as int),
    {
        if let Some(s) = self.current {
            if s.has_position(pos) {
                return Some(s.kind);
            }
        }
        self.grid.occupant_at(pos)
    }

    /// Whether the active piece occupies `pos`.
    pub fn is_current_shape_at_position(&self, pos: Pos) -> (r: bool)
        requires
            self.wf(),
        ensures
            r == (self.current matches Some(s) && covers(s, pos.col as int, pos.row as int)),
    {
        match &self.current {
            Some(s) => s.has_position(pos),
            None => false,
        }
    }

    /// Whether the grid holds a locked block at `pos`; used after a loss to
    /// point at the cells that blocked the failed spawn. The position must be
    /// pre-validated to lie inside the extent.
    pub fn is_colliding_with_position(&self, pos: Pos) -> (r: bool)
        requires
            self.wf(),
            self.grid.in_bounds(pos.col as int, pos.row as int),
        ensures
            r == (self.grid.cell(pos.col as int, pos.row as int) is Some),
    {
        self.grid.occupant_at(pos).is_some()
    }

    /// Every position of the field, row-major: left to right within a row,
    /// top row first. The result is rebuilt on every call.
    pub fn iter_positions(&self) -> (r: Vec<Pos>)
        requires
            self.wf(),
        ensures
            r@.len() == self.grid.height * self.grid.width,
            forall|col: int, row: int|
                self.grid.in_bounds(col, row)
                    ==> r@[row * self.grid.width + col] == (Pos {
                        col: col as i32,
                        row: row as i32,
                    }),
    {
        let w = self.grid.width;
        let h = self.grid.height;
        let mut r: Vec<Pos> = Vec::new();
        let mut row: i32 = 0;
        while row < h
            invariant
                0 < w <= 0x4000,
                0 < h <= 0x4000,
                0 <= row <= h,
                r@.len() == row * w,
                forall|c2: int, r2: int|
                    0 <= c2 < w && 0 <= r2 < row
                        ==> r@[#[trigger] (r2 * w + c2)] == (Pos { col: c2 as i32, row: r2 as i32 }),
            decreases h - row,
        {
            let mut col: i32 = 0;
            while col < w
                invariant
                    0 < w <= 0x4000,
                    0 < h <= 0x4000,
                    0 <= row < h,
                    0 <= col <= w,
                    r@.len() == row * w + col,
                    forall|c2: int, r2: int|
                        0 <= c2 < w && 0 <= r2 < row
                            ==> r@[#[trigger] (r2 * w + c2)] == (Pos { col: c2 as i32, row: r2 as i32 }),
                    forall|c2: int|
                        0 <= c2 < col ==> r@[#[trigger] (row * w + c2)] == (Pos {
                            col: c2 as i32,
                            row: row as i32,
                        }),
                decreases w - col,
            {
                proof {
                    assert forall|c2: int, r2: int| 0 <= c2 < w && 0 <= r2 < row
                        implies 0 <= #[trigger] (r2 * w + c2) < row * w by {
                        lemma_index_in_range(w as int, row as int, c2, r2);
                    }
                }
                r.push(Pos { col, row });
                col = col + 1;
            }
            proof {
                assert(row * w + w == (row + 1) * w) by (nonlinear_arith);
            }
            row = row + 1;
        }
        proof {
            assert forall|col: int, rw: int| self.grid.in_bounds(col, rw)
                implies r@[rw * w + col] == (Pos { col: col as i32, row: rw as i32 }) by {
                lemma_index_in_range(w as int, h as int, col, rw);
            }
        }
        r
    }
}

/// How one cell of the field should be drawn.
#[derive(Clone, Copy, PartialEq, Eq, Debug)]
pub enum CellLook {
    /// After a loss, a cell of the failed piece standing on a locked block.
    /// Under the locking rules the piece that fails to spawn is never the
    /// current piece, so this is kept only as a best-effort highlight.
    Collided,
    /// A cell of the ghost piece: where the active piece would land. Carries
    /// what the merged query reports there.
    Preview(Option<Kind>),
    /// Any other cell, with what the merged query reports there.
    Plain(Option<Kind>),
}

impl Tetris {
    /// The drawing decision for one cell: the ghost-piece marker where the
    /// predicted landing lies (and the active piece does not), otherwise the
    /// plain merged view. The position must be pre-validated to lie inside
    /// the extent.
    pub fn cell_look(&self, pos: Pos) -> (r: CellLook)
        requires
            self.wf(),
            self.grid.in_bounds(pos.col as int, pos.row as int),
        ensures
            ({
                let g = self.get_spec(pos.col as int, pos.row as int);
                match self.current {
                    None => r == CellLook::Plain(g),
                    Some(s) => exists|l: Shape|
                        #[trigger] self.is_landing_of(s, l) && r == (if covers(
                            l,
                            pos.col as int,
                            pos.row as int,
                        ) && !covers(s, pos.col as int, pos.row as int) {
                            CellLook::Preview(g)
                        } else {
                            CellLook::Plain(g)
                        }),
                }
            }),
    {
        if self.is_lost() && self.is_current_shape_at_position(pos)
            && self.is_colliding_with_position(pos) {
            return CellLook::Collided;
        }
        let typ = self.get(pos);
        if let Some(l) = self.predict_landing_position() {
            if l.has_position(pos) && !self.is_current_shape_at_position(pos) {
                return CellLook::Preview(typ);
            }
        }
        CellLook::Plain(typ)
    }
}

/// A piece with a cell in column 0 cannot move left: the moved piece would
/// put that cell at column -1, outside the wall, so `shift(Left)` rejects
/// the move and (by `shift`'s contract) leaves the whole state unchanged.
pub proof fn lemma_left_wall_blocks_shift(t: Tetris, s: Shape)
    requires
        t.wf(),
        t.current == Some(s),
        exists|row: int| covers(s, 0, row),
    ensures
        t.collides_spec(shifted_spec(s, Direction::Left)),
{
    lemma_anchor_bounds(t, s);
}

/// The landing position is unique: any two pieces that both satisfy
/// `is_landing_of` for the same state and piece are equal. With
/// `predict_landing_position`'s contract this makes the prediction
/// deterministic: two calls with no command in between return the same
/// ghost piece, and neither reads mutably.
pub proof fn lemma_landing_unique(t: Tetris, s: Shape, l1: Shape, l2: Shape)
    requires
        t.wf(),
        t.is_landing_of(s, l1),
        t.is_landing_of(s, l2),
    ensures
        l1 == l2,
{
    assert(at_row(s, l1.anchor.row) == l1);
    assert(at_row(s, l2.anchor.row) == l2);
    lemma_anchor_bounds(t, l1);
    lemma_anchor_bounds(t, l2);
    if l1.anchor.row < l2.anchor.row {
        let step = (l1.anchor.row + 1) as i32;
        assert(s.anchor.row <= step <= l2.anchor.row);
        assert(!t.collides_spec(at_row(s, step)));
    } else if l2.anchor.row < l1.anchor.row {
        let step = (l2.anchor.row + 1) as i32;
        assert(s.anchor.row <= step <= l1.anchor.row);
        assert(!t.collides_spec(at_row(s, step)));
    }
    assert(l1.anchor == l2.anchor);
}

/// The fixed spawn column for a field of this width.
fn spawn_col(width: i32) -> (c: i32)
    requires
        0 < width <= 0x4000,
    ensures
        c == spawn_col_spec(width),
{
    if width >= 4 {
        (width - 4) / 2
    } else {
        0
    }
}

} // verus!

