//! The moving piece: the per-type, per-orientation shape table and the
//! collision, bounds and rotation rules a piece obeys against the grid.

use vstd::prelude::*;

use crate::graphic::ConsoleColor;
use crate::graphic::Grid;
use crate::rng::rand_below;

verus! {

/// One of the four discrete rotation states of a piece, cyclic under
/// rotate-left and rotate-right.
#[derive(Clone, Copy, PartialEq, Eq, Structural, Debug)]
pub enum Rotation {
    D0,
    D90,
    D180,
    D270,
}

impl Rotation {
    /// The cyclic successor: one quarter turn to the right.
    pub open spec fn clockwise(self) -> Rotation {
        match self {
            Rotation::D0 => Rotation::D90,
            Rotation::D90 => Rotation::D180,
            Rotation::D180 => Rotation::D270,
            Rotation::D270 => Rotation::D0,
        }
    }

    /// The cyclic predecessor: one quarter turn to the left.
    pub open spec fn counter_clockwise(self) -> Rotation {
        match self {
            Rotation::D0 => Rotation::D270,
            Rotation::D90 => Rotation::D0,
            Rotation::D180 => Rotation::D90,
            Rotation::D270 => Rotation::D180,
        }
    }

    /// A uniform draw over the four orientations.
    pub fn random() -> Rotation {
        match rand_below(4) {
            0u32 => Rotation::D0,
            1u32 => Rotation::D90,
            2u32 => Rotation::D180,
            _ => Rotation::D270,
        }
    }
}

/// A quarter turn in one direction followed by one in the other is a
/// no-op, and four quarter turns in the same direction come back around.
pub proof fn lemma_rotation_cycle(r: Rotation)
    ensures
        r.clockwise().counter_clockwise() == r,
        r.counter_clockwise().clockwise() == r,
        r.clockwise().clockwise().clockwise().clockwise() == r,
        r.counter_clockwise().counter_clockwise().counter_clockwise().counter_clockwise() == r,
{
}

/// A cell offset relative to a piece's anchor: `x` along the vertical
/// (gravity) axis, `y` along the lateral axis.
#[derive(Clone, Copy, PartialEq, Eq, Structural, Debug)]
pub struct Rectangle {
    pub x: i8,
    pub y: i8,
}

/// One of the seven canonical tetromino shapes.
#[derive(Clone, Copy, PartialEq, Eq, Structural, Debug)]
pub enum BlockType {
    T,
    I,
    O,
    J,
    L,
    S,
    Z,
}

/// The shape table: the four cells a piece of the given type occupies in
/// the given orientation, as offsets from its anchor. The I, S, Z and O
/// shapes have only two visually distinct states, so their orientations
/// fold pairwise onto shared offset lists.
pub open spec fn offsets(t: BlockType, rotation: Rotation) -> Seq<Rectangle> {
    match t {
        BlockType::T => match rotation {
            Rotation::D0 => seq![
                Rectangle { x: -1i8, y: 0 },
                Rectangle { x: 0, y: 0 },
                Rectangle { x: 1, y: 0 },
                Rectangle { x: 0, y: 1 },
            ],
            Rotation::D90 => seq![
                Rectangle { x: 0, y: -1i8 },
                Rectangle { x: 0, y: 0 },
                Rectangle { x: 0, y: 1 },
                Rectangle { x: 1, y: 0 },
            ],
            Rotation::D180 => seq![
                Rectangle { x: -1i8, y: 0 },
                Rectangle { x: 0, y: 0 },
                Rectangle { x: 1, y: 0 },
                Rectangle { x: 0, y: -1i8 },
            ],
            Rotation::D270 => seq![
                Rectangle { x: 0, y: -1i8 },
                Rectangle { x: 0, y: 0 },
                Rectangle { x: 0, y: 1 },
                Rectangle { x: -1i8, y: 0 },
            ],
        },
        BlockType::I => match rotation {
            Rotation::D0 | Rotation::D180 => seq![
                Rectangle { x: -1i8, y: 0 },
                Rectangle { x: 0, y: 0 },
                Rectangle { x: 1, y: 0 },
                Rectangle { x: 2, y: 0 },
            ],
            Rotation::D90 | Rotation::D270 => seq![
                Rectangle { x: 0, y: -1i8 },
                Rectangle { x: 0, y: 0 },
                Rectangle { x: 0, y: 1 },
                Rectangle { x: 0, y: 2 },
            ],
        },
        BlockType::O => seq![
            Rectangle { x: 0, y: 0 },
            Rectangle { x: 0, y: 1 },
            Rectangle { x: 1, y: 0 },
            Rectangle { x: 1, y: 1 },
        ],
        BlockType::J => match rotation {
            Rotation::D0 => seq![
                Rectangle { x: -1i8, y: 1 },
                Rectangle { x: -1i8, y: 0 },
                Rectangle { x: 0, y: 0 },
                Rectangle { x: 1, y: 0 },
            ],
            Rotation::D90 => seq![
                Rectangle { x: 0, y: 0 },
                Rectangle { x: 1, y: 0 },
                Rectangle { x: 0, y: -1i8 },
                Rectangle { x: 0, y: -2i8 },
            ],
            Rotation::D180 => seq![
                Rectangle { x: -1i8, y: 0 },
                Rectangle { x: 0, y: 0 },
                Rectangle { x: 1, y: 0 },
                Rectangle { x: 1, y: -1i8 },
            ],
            Rotation::D270 => seq![
                Rectangle { x: -1i8, y: 0 },
                Rectangle { x: 0, y: 0 },
                Rectangle { x: 0, y: 1 },
                Rectangle { x: 0, y: 2 },
            ],
        },
        BlockType::L => match rotation {
            Rotation::D0 => seq![
                Rectangle { x: 0, y: 0 },
                Rectangle { x: 1, y: 0 },
                Rectangle { x: 0, y: 1 },
                Rectangle { x: 0, y: 2 },
            ],
            Rotation::D90 => seq![
                Rectangle { x: -1i8, y: 0 },
                Rectangle { x: 0, y: 0 },
                Rectangle { x: -1i8, y: -1i8 },
                Rectangle { x: 1, y: 0 },
            ],
            Rotation::D180 => seq![
                Rectangle { x: -1i8, y: 0 },
                Rectangle { x: 0, y: 0 },
                Rectangle { x: 0, y: -1i8 },
                Rectangle { x: 0, y: -2i8 },
            ],
            Rotation::D270 => seq![
                Rectangle { x: -1i8, y: 0 },
                Rectangle { x: 0, y: 0 },
                Rectangle { x: 1, y: 0 },
                Rectangle { x: 1, y: 1 },
            ],
        },
        BlockType::S => match rotation {
            Rotation::D0 | Rotation::D180 => seq![
                Rectangle { x: -1i8, y: 0 },
                Rectangle { x: 0, y: 0 },
                Rectangle { x: 0, y: 1 },
                Rectangle { x: 1, y: 1 },
            ],
            Rotation::D90 | Rotation::D270 => seq![
                Rectangle { x: 0, y: 1 },
                Rectangle { x: 0, y: 0 },
                Rectangle { x: 1, y: 0 },
                Rectangle { x: 1, y: -1i8 },
            ],
        },
        BlockType::Z => match rotation {
            Rotation::D0 | Rotation::D180 => seq![
                Rectangle { x: -1i8, y: 1 },
                Rectangle { x: 0, y: 1 },
                Rectangle { x: 0, y: 0 },
                Rectangle { x: 1, y: 0 },
            ],
            Rotation::D90 | Rotation::D270 => seq![
                Rectangle { x: 1, y: 1 },
                Rectangle { x: 1, y: 0 },
                Rectangle { x: 0, y: 0 },
                Rectangle { x: 0, y: -1i8 },
            ],
        },
    }
}

/// Every shape in every orientation is exactly 4 pairwise distinct
/// relative cells.
pub proof fn lemma_offsets_distinct(t: BlockType, rotation: Rotation)
    ensures
        offsets(t, rotation).len() == 4,
        forall|i: int, j: int|
            0 <= i < j < 4 ==> #[trigger] offsets(t, rotation)[i] != #[trigger] offsets(
                t,
                rotation,
            )[j],
{
}

/// Every offset of every shape stays within one cell above the anchor,
/// two below, and two to either side.
pub proof fn lemma_offsets_range(t: BlockType, rotation: Rotation)
    ensures
        offsets(t, rotation).len() == 4,
        forall|i: int|
            0 <= i < 4 ==> -1 <= (#[trigger] offsets(t, rotation)[i]).x <= 2 && -2 <= offsets(
                t,
                rotation,
            )[i].y <= 2,
{
}

/// Coordinates the collision and bounds probes accept: far enough from
/// the i32 limits that adding a shape offset cannot overflow.
pub open spec fn coord_ok(v: int) -> bool {
    -0x1000_0000 <= v <= 0x1000_0000
}

/// Anchor coordinates a piece in flight keeps: one step tighter than
/// `coord_ok`, so probing any neighbouring position stays in range.
pub open spec fn anchor_ok(v: int) -> bool {
    -0xFFF_FFFF <= v <= 0xFFF_FFFF
}

/// Whether the cell at row `r`, column `c` stops a piece on a grid of
/// `w` columns and `h` rows with contents `g`: cells at or below the
/// floor and cells beyond either side do, settled cells do, and empty
/// cells above the visible field do not.
pub open spec fn blocked(
    g: Seq<Seq<Option<ConsoleColor>>>,
    w: int,
    h: int,
    r: int,
    c: int,
) -> bool {
    if r >= h {
        true
    } else if c < 0 || c >= w {
        true
    } else if r < 0 {
        false
    } else {
        g[r][c].is_some()
    }
}

/// Whether a piece of type `t` in orientation `rotation`, anchored at
/// row `x` and column `y`, has any of its four cells blocked.
pub open spec fn collides(
    g: Seq<Seq<Option<ConsoleColor>>>,
    w: int,
    h: int,
    t: BlockType,
    rotation: Rotation,
    x: int,
    y: int,
) -> bool {
    exists|i: int|
        0 <= i < 4 && blocked(
            g,
            w,
            h,
            x + (#[trigger] offsets(t, rotation)[i]).x,
            y + offsets(t, rotation)[i].y,
        )
}

/// Whether any cell of the piece would leave the lateral bounds of a
/// field `w` columns wide when its anchor column is `y`.
pub open spec fn out_of_bounds(w: int, t: BlockType, rotation: Rotation, y: int) -> bool {
    exists|i: int|
        0 <= i < 4 && !(0 <= y + (#[trigger] offsets(t, rotation)[i]).y < w)
}

/// Whether any cell of the piece lies above the top of the field when
/// its anchor row is `x`: the game-over condition at lock time.
pub open spec fn spec_over(t: BlockType, rotation: Rotation, x: int) -> bool {
    exists|i: int| 0 <= i < 4 && x + (#[trigger] offsets(t, rotation)[i]).x < 0
}

/// Whether the cell at row `r`, column `c` is one of the piece's four.
pub open spec fn covers(
    t: BlockType,
    rotation: Rotation,
    x: int,
    y: int,
    r: int,
    c: int,
) -> bool {
    exists|i: int|
        0 <= i < 4 && r == x + (#[trigger] offsets(t, rotation)[i]).x && c == y + offsets(
            t,
            rotation,
        )[i].y
}

/// Whether one of the first `k` table entries of the shape sits at row
/// `r`, column `c`: the prefix of `covers` a partial painting reaches.
pub open spec fn covers_upto(
    t: BlockType,
    rotation: Rotation,
    x: int,
    y: int,
    r: int,
    c: int,
    k: int,
) -> bool {
    exists|i: int|
        0 <= i < k && r == x + (#[trigger] offsets(t, rotation)[i]).x && c == y + offsets(
            t,
            rotation,
        )[i].y
}

/// The grid contents after the piece's cells are painted with `color`:
/// cells the piece covers take the color, every other cell is kept, and
/// piece cells outside the field change nothing.
pub open spec fn draw_cells(
    g: Seq<Seq<Option<ConsoleColor>>>,
    t: BlockType,
    rotation: Rotation,
    x: int,
    y: int,
    color: ConsoleColor,
) -> Seq<Seq<Option<ConsoleColor>>> {
    Seq::new(
        g.len(),
        |r: int|
            Seq::new(
                g[r].len(),
                |c: int|
                    if covers(t, rotation, x, y, r, c) {
                        Some(color)
                    } else {
                        g[r][c]
                    },
            ),
    )
}

impl BlockType {
    /// The shape table, as the code consults it: the four anchor-relative
    /// cells of this shape in the given orientation.
    pub fn rectangles(&self, rotation: Rotation) -> (r: [Rectangle; 4])
        ensures
            r@ == offsets(*self, rotation),
    {
        match *self {
            BlockType::T => match rotation {
                Rotation::D0 => [
                    Rectangle { x: -1, y: 0 },
                    Rectangle { x: 0, y: 0 },
                    Rectangle { x: 1, y: 0 },
                    Rectangle { x: 0, y: 1 },
                ],
                Rotation::D90 => [
                    Rectangle { x: 0, y: -1 },
                    Rectangle { x: 0, y: 0 },
                    Rectangle { x: 0, y: 1 },
                    Rectangle { x: 1, y: 0 },
                ],
                Rotation::D180 => [
                    Rectangle { x: -1, y: 0 },
                    Rectangle { x: 0, y: 0 },
                    Rectangle { x: 1, y: 0 },
                    Rectangle { x: 0, y: -1 },
                ],
                Rotation::D270 => [
                    Rectangle { x: 0, y: -1 },
                    Rectangle { x: 0, y: 0 },
                    Rectangle { x: 0, y: 1 },
                    Rectangle { x: -1, y: 0 },
                ],
            },
            BlockType::I => match rotation {
                Rotation::D0 | Rotation::D180 => [
                    Rectangle { x: -1, y: 0 },
                    Rectangle { x: 0, y: 0 },
                    Rectangle { x: 1, y: 0 },
                    Rectangle { x: 2, y: 0 },
                ],
                Rotation::D90 | Rotation::D270 => [
                    Rectangle { x: 0, y: -1 },
                    Rectangle { x: 0, y: 0 },
                    Rectangle { x: 0, y: 1 },
                    Rectangle { x: 0, y: 2 },
                ],
            },
            BlockType::O => [
                Rectangle { x: 0, y: 0 },
                Rectangle { x: 0, y: 1 },
                Rectangle { x: 1, y: 0 },
                Rectangle { x: 1, y: 1 },
            ],
            BlockType::J => match rotation {
                Rotation::D0 => [
                    Rectangle { x: -1, y: 1 },
                    Rectangle { x: -1, y: 0 },
                    Rectangle { x: 0, y: 0 },
                    Rectangle { x: 1, y: 0 },
                ],
                Rotation::D90 => [
                    Rectangle { x: 0, y: 0 },
                    Rectangle { x: 1, y: 0 },
                    Rectangle { x: 0, y: -1 },
                    Rectangle { x: 0, y: -2 },
                ],
                Rotation::D180 => [
                    Rectangle { x: -1, y: 0 },
                    Rectangle { x: 0, y: 0 },
                    Rectangle { x: 1, y: 0 },
                    Rectangle { x: 1, y: -1 },
                ],
                Rotation::D270 => [
                    Rectangle { x: -1, y: 0 },
                    Rectangle { x: 0, y: 0 },
                    Rectangle { x: 0, y: 1 },
                    Rectangle { x: 0, y: 2 },
                ],
            },
            BlockType::L => match rotation {
                Rotation::D0 => [
                    Rectangle { x: 0, y: 0 },
                    Rectangle { x: 1, y: 0 },
                    Rectangle { x: 0, y: 1 },
                    Rectangle { x: 0, y: 2 },
                ],
                Rotation::D90 => [
                    Rectangle { x: -1, y: 0 },
                    Rectangle { x: 0, y: 0 },
                    Rectangle { x: -1, y: -1 },
                    Rectangle { x: 1, y: 0 },
                ],
                Rotation::D180 => [
                    Rectangle { x: -1, y: 0 },
                    Rectangle { x: 0, y: 0 },
                    Rectangle { x: 0, y: -1 },
                    Rectangle { x: 0, y: -2 },
                ],
                Rotation::D270 => [
                    Rectangle { x: -1, y: 0 },
                    Rectangle { x: 0, y: 0 },
                    Rectangle { x: 1, y: 0 },
                    Rectangle { x: 1, y: 1 },
                ],
            },
            BlockType::S => match rotation {
                Rotation::D0 | Rotation::D180 => [
                    Rectangle { x: -1, y: 0 },
                    Rectangle { x: 0, y: 0 },
                    Rectangle { x: 0, y: 1 },
                    Rectangle { x: 1, y: 1 },
                ],
                Rotation::D90 | Rotation::D270 => [
                    Rectangle { x: 0, y: 1 },
                    Rectangle { x: 0, y: 0 },
                    Rectangle { x: 1, y: 0 },
                    Rectangle { x: 1, y: -1 },
                ],
            },
            BlockType::Z => match rotation {
                Rotation::D0 | Rotation::D180 => [
                    Rectangle { x: -1, y: 1 },
                    Rectangle { x: 0, y: 1 },
                    Rectangle { x: 0, y: 0 },
                    Rectangle { x: 1, y: 0 },
                ],
                Rotation::D90 | Rotation::D270 => [
                    Rectangle { x: 1, y: 1 },
                    Rectangle { x: 1, y: 0 },
                    Rectangle { x: 0, y: 0 },
                    Rectangle { x: 0, y: -1 },
                ],
            },
        }
    }

    /// Paints this shape's cells onto the grid with the given color,
    /// anchored at row `x`, column `y`. Cells outside the field are
    /// ignored; the caller's collision checks keep a settling piece's
    /// cells inside it.
    pub fn draw(&self, x: i32, y: i32, rotation: Rotation, color: ConsoleColor, grid: &mut Grid)
        requires
            old(grid).wf(),
            coord_ok(x as int),
            coord_ok(y as int),
        ensures
            final(grid).wf(),
            final(grid).spec_width() == old(grid).spec_width(),
            final(grid).spec_height() == old(grid).spec_height(),
            final(grid)@ == draw_cells(old(grid)@, *self, rotation, x as int, y as int, color),
    {
        let rects = self.rectangles(rotation);
        let w = grid.width();
        let h = grid.height();
        let mut i: usize = 0;
        while i < 4
            invariant
                grid.wf(),
                grid.spec_width() == old(grid).spec_width(),
                grid.spec_height() == old(grid).spec_height(),
                i <= 4,
                rects@ == offsets(*self, rotation),
                w == grid.spec_width(),
                h == grid.spec_height(),
                coord_ok(x as int),
                coord_ok(y as int),
                grid@.len() == old(grid)@.len(),
                forall|r: int|
                    0 <= r < grid@.len() ==> (#[trigger] grid@[r]).len() == old(grid)@[r].len(),
                forall|r: int, c: int|
                    0 <= r < grid@.len() && 0 <= c < grid@[r].len() ==> grid@[r][c] == (
                    if covers_upto(*self, rotation, x as int, y as int, r, c, i as int) {
                        Some(color)
                    } else {
                        old(grid)@[r][c]
                    }),
            decreases 4 - i,
        {
            let row = x + (rects[i].x as i32);
            let col = y + (rects[i].y as i32);
            let ghost prev = grid@;
            if 0 <= row && row < (h as i32) && 0 <= col && col < (w as i32) {
                grid.set(row as u32, col as u32, color);
            }
            proof {
                assert forall|r: int, c: int|
                    0 <= r < grid@.len() && 0 <= c < grid@[r].len() implies grid@[r][c] == (
                    if covers_upto(*self, rotation, x as int, y as int, r, c, i + 1) {
                        Some(color)
                    } else {
                        old(grid)@[r][c]
                    }) by {
                    if covers_upto(*self, rotation, x as int, y as int, r, c, i + 1) {
                        let k = choose|k: int|
                            0 <= k < i + 1 && r == x + (#[trigger] offsets(*self, rotation)[k]).x
                                && c == y + offsets(*self, rotation)[k].y;
                        if k < i {
                            assert(covers_upto(*self, rotation, x as int, y as int, r, c, i as int));
                        }
                    } else {
                        assert(!covers_upto(*self, rotation, x as int, y as int, r, c, i as int));
                    }
                }
            }
            i = i + 1;
        }
        proof {
            assert forall|r: int, c: int|
                0 <= r < grid@.len() && 0 <= c < grid@[r].len() implies covers_upto(
                *self,
                rotation,
                x as int,
                y as int,
                r,
                c,
                4,
            ) == covers(*self, rotation, x as int, y as int, r, c) by {}
            assert(grid@ =~~= draw_cells(old(grid)@, *self, rotation, x as int, y as int, color));
        }
    }

    /// Whether this shape, anchored at row `x` and column `y` in the
    /// given orientation, is stopped: some cell reaches the floor, leaves
    /// the sides, or lands on a settled cell.
    pub fn collison(&self, x: i32, y: i32, rotation: Rotation, grid: &Grid) -> (b: bool)
        requires
            grid.wf(),
            coord_ok(x as int),
            coord_ok(y as int),
        ensures
            b == collides(grid@, grid.spec_width(), grid.spec_height(), *self, rotation, x as int, y as int),
    {
        let rects = self.rectangles(rotation);
        let w = grid.width();
        let h = grid.height();
        let mut i: usize = 0;
        while i < 4
            invariant
                grid.wf(),
                i <= 4,
                rects@ == offsets(*self, rotation),
                w == grid.spec_width(),
                h == grid.spec_height(),
                coord_ok(x as int),
                coord_ok(y as int),
                forall|j: int|
                    0 <= j < i ==> !blocked(
                        grid@,
                        grid.spec_width(),
                        grid.spec_height(),
                        x + (#[trigger] offsets(*self, rotation)[j]).x,
                        y + offsets(*self, rotation)[j].y,
                    ),
            decreases 4 - i,
        {
            let row = x + (rects[i].x as i32);
            let col = y + (rects[i].y as i32);
            if row >= (h as i32) {
                return true;
            }
            if col < 0 || col >= (w as i32) {
                return true;
            }
            if row >= 0 && grid.check(row as u32, col as u32) {
                return true;
            }
            i = i + 1;
        }
        false
    }

    /// Whether this shape, with its anchor in column `y`, would leave
    /// the lateral bounds of the grid in the given orientation.
    pub fn bounds(&self, y: i32, rotation: Rotation, grid: &Grid) -> (b: bool)
        requires
            grid.wf(),
            coord_ok(y as int),
        ensures
            b == out_of_bounds(grid.spec_width(), *self, rotation, y as int),
    {
        let rects = self.rectangles(rotation);
        let w = grid.width();
        let mut i: usize = 0;
        while i < 4
            invariant
                grid.wf(),
                i <= 4,
                rects@ == offsets(*self, rotation),
                w == grid.spec_width(),
                coord_ok(y as int),
                forall|j: int|
                    0 <= j < i ==> 0 <= y + (#[trigger] offsets(*self, rotation)[j]).y < w,
            decreases 4 - i,
        {
            let col = y + (rects[i].y as i32);
            if col < 0 || col >= (w as i32) {
                return true;
            }
            i = i + 1;
        }
        false
    }

    /// Whether this shape, with its anchor in row `x`, has a cell above
    /// the top of the field in the given orientation.
    pub fn over(&self, x: i32, rotation: Rotation) -> (b: bool)
        requires
            coord_ok(x as int),
        ensures
            b == spec_over(*self, rotation, x as int),
    {
        let rects = self.rectangles(rotation);
        let mut i: usize = 0;
        while i < 4
            invariant
                i <= 4,
                rects@ == offsets(*self, rotation),
                coord_ok(x as int),
                forall|j: int| 0 <= j < i ==> x + (#[trigger] offsets(*self, rotation)[j]).x >= 0,
            decreases 4 - i,
        {
            let row = x + (rects[i].x as i32);
            if row < 0 {
                return true;
            }
            i = i + 1;
        }
        false
    }

    /// A uniform draw over the seven shapes.
    pub fn random() -> BlockType {
        match rand_below(7) {
            0u32 => BlockType::T,
            1u32 => BlockType::I,
            2u32 => BlockType::O,
            3u32 => BlockType::J,
            4u32 => BlockType::L,
            5u32 => BlockType::S,
            _ => BlockType::Z,
        }
    }
}

/// A piece in flight: its shape, its anchor position in grid
/// coordinates (`x` the row, `y` the column), its orientation and the
/// color it will settle with.
#[derive(Clone, Copy, PartialEq, Eq, Structural, Debug)]
pub struct Block {
    pub block_type: BlockType,
    pub x: i32,
    pub y: i32,
    pub rotation: Rotation,
    pub color: ConsoleColor,
}

/// Whether the candidate orientation `cand` is refused for the piece at
/// its current position: it would leave the lateral bounds or land on a
/// blocked cell.
pub open spec fn rotation_blocked(
    b: Block,
    cand: Rotation,
    g: Seq<Seq<Option<ConsoleColor>>>,
    w: int,
    h: int,
) -> bool {
    out_of_bounds(w, b.block_type, cand, b.y as int) || collides(
        g,
        w,
        h,
        b.block_type,
        cand,
        b.x as int,
        b.y as int,
    )
}

/// The outcome of one rotate-right request: the piece turns clockwise
/// in place when the candidate orientation is unobstructed, and is left
/// exactly as it was otherwise.
pub open spec fn rotated_right(
    pre: Block,
    post: Block,
    g: Seq<Seq<Option<ConsoleColor>>>,
    w: int,
    h: int,
) -> bool {
    post == (if rotation_blocked(pre, pre.rotation.clockwise(), g, w, h) {
        pre
    } else {
        Block { rotation: pre.rotation.clockwise(), ..pre }
    })
}

/// The outcome of one rotate-left request, the mirror of
/// `rotated_right`.
pub open spec fn rotated_left(
    pre: Block,
    post: Block,
    g: Seq<Seq<Option<ConsoleColor>>>,
    w: int,
    h: int,
) -> bool {
    post == (if rotation_blocked(pre, pre.rotation.counter_clockwise(), g, w, h) {
        pre
    } else {
        Block { rotation: pre.rotation.counter_clockwise(), ..pre }
    })
}

/// The outcome of one lateral step by `dy` (one column left or right):
/// committed exactly when the prospective column keeps every cell inside
/// the lateral bounds and off every blocked cell at the current row.
pub open spec fn moved_laterally(
    pre: Block,
    post: Block,
    dy: int,
    g: Seq<Seq<Option<ConsoleColor>>>,
    w: int,
    h: int,
) -> bool {
    post == (if out_of_bounds(w, pre.block_type, pre.rotation, pre.y + dy) || collides(
        g,
        w,
        h,
        pre.block_type,
        pre.rotation,
        pre.x as int,
        pre.y + dy,
    ) {
        pre
    } else {
        Block { y: (pre.y + dy) as i32, ..pre }
    })
}

/// The outcome of one hard drop: the anchor row advances through free
/// positions only, and stops exactly one step short of the first
/// colliding one.
pub open spec fn smacked(
    pre: Block,
    post: Block,
    g: Seq<Seq<Option<ConsoleColor>>>,
    w: int,
    h: int,
) -> bool {
    &&& post.block_type == pre.block_type
    &&& post.y == pre.y
    &&& post.rotation == pre.rotation
    &&& post.color == pre.color
    &&& pre.x <= post.x
    &&& forall|k: int|
        pre.x <= k <= post.x ==> !collides(g, w, h, pre.block_type, pre.rotation, k, pre.y as int)
    &&& collides(g, w, h, pre.block_type, pre.rotation, post.x + 1, pre.y as int)
}

/// A piece whose next step down is already blocked cannot drop any
/// further: a second hard drop directly after a first is a no-op.
pub proof fn lemma_smack_idempotent(
    b0: Block,
    b1: Block,
    b2: Block,
    g: Seq<Seq<Option<ConsoleColor>>>,
    w: int,
    h: int,
)
    requires
        smacked(b0, b1, g, w, h),
        smacked(b1, b2, g, w, h),
    ensures
        b2 == b1,
{
    if b2.x > b1.x {
        assert(!collides(g, w, h, b1.block_type, b1.rotation, b1.x + 1, b1.y as int));
    }
}

/// Four unobstructed rotations to the right bring a piece back to its
/// original orientation, and its position never moved.
pub proof fn lemma_rotate_right_round_trip(
    b0: Block,
    b1: Block,
    b2: Block,
    b3: Block,
    b4: Block,
    g: Seq<Seq<Option<ConsoleColor>>>,
    w: int,
    h: int,
)
    requires
        rotated_right(b0, b1, g, w, h),
        rotated_right(b1, b2, g, w, h),
        rotated_right(b2, b3, g, w, h),
        rotated_right(b3, b4, g, w, h),
        !rotation_blocked(b0, b0.rotation.clockwise(), g, w, h),
        !rotation_blocked(b1, b1.rotation.clockwise(), g, w, h),
        !rotation_blocked(b2, b2.rotation.clockwise(), g, w, h),
        !rotation_blocked(b3, b3.rotation.clockwise(), g, w, h),
    ensures
        b4 == b0,
{
    lemma_rotation_cycle(b0.rotation);
}

/// Four unobstructed rotations to the left bring a piece back to its
/// original orientation, and its position never moved.
pub proof fn lemma_rotate_left_round_trip(
    b0: Block,
    b1: Block,
    b2: Block,
    b3: Block,
    b4: Block,
    g: Seq<Seq<Option<ConsoleColor>>>,
    w: int,
    h: int,
)
    requires
        rotated_left(b0, b1, g, w, h),
        rotated_left(b1, b2, g, w, h),
        rotated_left(b2, b3, g, w, h),
        rotated_left(b3, b4, g, w, h),
        !rotation_blocked(b0, b0.rotation.counter_clockwise(), g, w, h),
        !rotation_blocked(b1, b1.rotation.counter_clockwise(), g, w, h),
        !rotation_blocked(b2, b2.rotation.counter_clockwise(), g, w, h),
        !rotation_blocked(b3, b3.rotation.counter_clockwise(), g, w, h),
    ensures
        b4 == b0,
{
    lemma_rotation_cycle(b0.rotation);
}

impl Block {
    /// A fresh piece at row `x`, column `y`, with shape, orientation and
    /// color drawn at random.
    pub fn new(x: u32, y: u32) -> (b: Block)
        requires
            x <= 0x1000_0000,
            y <= 0x1000_0000,
        ensures
            b.x == x,
            b.y == y,
    {
        Block {
            block_type: BlockType::random(),
            rotation: Rotation::random(),
            color: ConsoleColor::random(),
            x: x as i32,
            y: y as i32,
        }
    }

    /// Paints this piece's four cells onto the grid with its color.
    pub fn draw(&self, grid: &mut Grid)
        requires
            old(grid).wf(),
            anchor_ok(self.x as int),
            anchor_ok(self.y as int),
        ensures
            final(grid).wf(),
            final(grid).spec_width() == old(grid).spec_width(),
            final(grid).spec_height() == old(grid).spec_height(),
            final(grid)@ == draw_cells(
                old(grid)@,
                self.block_type,
                self.rotation,
                self.x as int,
                self.y as int,
                self.color,
            ),
    {
        self.block_type.draw(self.x, self.y, self.rotation, self.color, grid)
    }

    /// Turns the piece one quarter to the right if the turned shape fits
    /// at its current position; otherwise leaves it unchanged.
    pub fn rotate_right(&mut self, grid: &Grid)
        requires
            grid.wf(),
            anchor_ok(old(self).x as int),
            anchor_ok(old(self).y as int),
        ensures
            rotated_right(*old(self), *final(self), grid@, grid.spec_width(), grid.spec_height()),
    {
        let rotation = match self.rotation {
            Rotation::D0 => Rotation::D90,
            Rotation::D90 => Rotation::D180,
            Rotation::D180 => Rotation::D270,
            Rotation::D270 => Rotation::D0,
        };
        if !(self.block_type.bounds(self.y, rotation, grid) || self.block_type.collison(
            self.x,
            self.y,
            rotation,
            grid,
        )) {
            self.rotation = rotation;
        }
    }

    /// Turns the piece one quarter to the left if the turned shape fits
    /// at its current position; otherwise leaves it unchanged.
    pub fn rotate_left(&mut self, grid: &Grid)
        requires
            grid.wf(),
            anchor_ok(old(self).x as int),
            anchor_ok(old(self).y as int),
        ensures
            rotated_left(*old(self), *final(self), grid@, grid.spec_width(), grid.spec_height()),
    {
        let rotation = match self.rotation {
            Rotation::D0 => Rotation::D270,
            Rotation::D90 => Rotation::D0,
            Rotation::D180 => Rotation::D90,
            Rotation::D270 => Rotation::D180,
        };
        if !(self.block_type.bounds(self.y, rotation, grid) || self.block_type.collison(
            self.x,
            self.y,
            rotation,
            grid,
        )) {
            self.rotation = rotation;
        }
    }

    /// Advances the piece one row toward the floor. When the advanced
    /// position collides the piece stays where it was and the move
    /// reports failure.
    pub fn move_down(&mut self, grid: &Grid) -> (moved: bool)
        requires
            grid.wf(),
            anchor_ok(old(self).x as int),
            anchor_ok(old(self).y as int),
        ensures
            moved == !collides(
                grid@,
                grid.spec_width(),
                grid.spec_height(),
                old(self).block_type,
                old(self).rotation,
                old(self).x + 1,
                old(self).y as int,
            ),
            *final(self) == (if moved {
                Block { x: (old(self).x + 1) as i32, ..*old(self) }
            } else {
                *old(self)
            }),
    {
        if self.block_type.collison(self.x + 1, self.y, self.rotation, grid) {
            false
        } else {
            self.x = self.x + 1;
            true
        }
    }

    /// Steps the piece one column toward the low-column side, unless the
    /// prospective column is out of bounds or blocked at the current row.
    pub fn move_left(&mut self, grid: &Grid) -> (moved: bool)
        requires
            grid.wf(),
            anchor_ok(old(self).x as int),
            anchor_ok(old(self).y as int),
        ensures
            moved_laterally(
                *old(self),
                *final(self),
                -1,
                grid@,
                grid.spec_width(),
                grid.spec_height(),
            ),
            moved == (final(self).y != old(self).y),
    {
        if self.block_type.bounds(self.y - 1, self.rotation, grid) || self.block_type.collison(
            self.x,
            self.y - 1,
            self.rotation,
            grid,
        ) {
            false
        } else {
            self.y = self.y - 1;
            true
        }
    }

    /// Steps the piece one column toward the high-column side, unless the
    /// prospective column is out of bounds or blocked at the current row.
    pub fn move_right(&mut self, grid: &Grid) -> (moved: bool)
        requires
            grid.wf(),
            anchor_ok(old(self).x as int),
            anchor_ok(old(self).y as int),
        ensures
            moved_laterally(
                *old(self),
                *final(self),
                1,
                grid@,
                grid.spec_width(),
                grid.spec_height(),
            ),
            moved == (final(self).y != old(self).y),
    {
        if self.block_type.bounds(self.y + 1, self.rotation, grid) || self.block_type.collison(
            self.x,
            self.y + 1,
            self.rotation,
            grid,
        ) {
            false
        } else {
            self.y = self.y + 1;
            true
        }
    }

    /// The hard drop: advances the piece toward the floor until the next
    /// step would collide, settling one step short of it.
    pub fn smack(&mut self, grid: &Grid)
        requires
            grid.wf(),
            anchor_ok(old(self).x as int),
            anchor_ok(old(self).y as int),
            !collides(
                grid@,
                grid.spec_width(),
                grid.spec_height(),
                old(self).block_type,
                old(self).rotation,
                old(self).x as int,
                old(self).y as int,
            ),
        ensures
            smacked(*old(self), *final(self), grid@, grid.spec_width(), grid.spec_height()),
            final(self).x <= grid.spec_height(),
    {
        proof {
            lemma_offsets_range(self.block_type, self.rotation);
            assert(!blocked(
                grid@,
                grid.spec_width(),
                grid.spec_height(),
                self.x + offsets(self.block_type, self.rotation)[0].x,
                self.y + offsets(self.block_type, self.rotation)[0].y,
            ));
        }
        while !self.block_type.collison(self.x + 1, self.y, self.rotation, grid)
            invariant
                grid.wf(),
                self.block_type == old(self).block_type,
                self.y == old(self).y,
                self.rotation == old(self).rotation,
                self.color == old(self).color,
                old(self).x <= self.x,
                anchor_ok(old(self).x as int),
                anchor_ok(old(self).y as int),
                self.x <= grid.spec_height(),
                forall|k: int|
                    old(self).x <= k <= self.x ==> !collides(
                        grid@,
                        grid.spec_width(),
                        grid.spec_height(),
                        old(self).block_type,
                        old(self).rotation,
                        k,
                        old(self).y as int,
                    ),
            decreases grid.spec_height() + 1 - self.x,
        {
            self.x = self.x + 1;
            proof {
                lemma_offsets_range(self.block_type, self.rotation);
                assert(offsets(self.block_type, self.rotation)[0].x >= -1);
                assert(!blocked(
                    grid@,
                    grid.spec_width(),
                    grid.spec_height(),
                    self.x + offsets(self.block_type, self.rotation)[0].x,
                    self.y + offsets(self.block_type, self.rotation)[0].y,
                ));
            }
        }
    }

    /// Whether the piece has a cell above the top of the field: the
    /// game-over condition when it can no longer fall.
    pub fn over(&self) -> (b: bool)
        requires
            anchor_ok(self.x as int),
        ensures
            b == spec_over(self.block_type, self.rotation, self.x as int),
    {
        self.block_type.over(self.x, self.rotation)
    }
}

} // verus!
