//! The playfield grid: a fixed-size store of settled, colored cells,
//! owning the row-completion and line-clear compaction logic.

use vstd::prelude::*;

use crate::rng::rand_below;

verus! {

/// One of the eight terminal colors a settled cell can carry. The core
/// only assigns and compares these tags; a renderer maps them to codes.
#[derive(Clone, Copy, PartialEq, Eq, Structural, Debug)]
pub enum ConsoleColor {
    Black,
    Red,
    Green,
    Orange,
    Blue,
    Purple,
    Cyan,
    LightGray,
}

impl ConsoleColor {
    /// A uniform draw over the eight color tags.
    pub fn random() -> ConsoleColor {
        match rand_below(8) {
            0u32 => ConsoleColor::Black,
            1u32 => ConsoleColor::Red,
            2u32 => ConsoleColor::Green,
            3u32 => ConsoleColor::Orange,
            4u32 => ConsoleColor::Blue,
            5u32 => ConsoleColor::Purple,
            6u32 => ConsoleColor::Cyan,
            _ => ConsoleColor::LightGray,
        }
    }
}

/// A grid of `height` rows by `width` columns; row indices grow toward
/// the floor. Each cell is empty or holds the color of a settled piece.
pub struct Grid {
    width: u32,
    height: u32,
    field: Vec<Vec<Option<ConsoleColor>>>,
}

impl View for Grid {
    type V = Seq<Seq<Option<ConsoleColor>>>;

    closed spec fn view(&self) -> Seq<Seq<Option<ConsoleColor>>> {
        self.field@.map_values(|row: Vec<Option<ConsoleColor>>| row@)
    }
}

/// A row is complete when every one of its cells is occupied.
pub open spec fn row_complete(row: Seq<Option<ConsoleColor>>) -> bool {
    forall|j: int| 0 <= j < row.len() ==> (#[trigger] row[j]).is_some()
}

/// A fully empty row of the given width.
pub open spec fn empty_row(width: nat) -> Seq<Option<ConsoleColor>> {
    Seq::new(width, |j: int| None)
}

/// The rows of `g` that are not complete, kept in their original order.
pub open spec fn incomplete_rows(g: Seq<Seq<Option<ConsoleColor>>>) -> Seq<
    Seq<Option<ConsoleColor>>,
>
    decreases g.len(),
{
    if g.len() == 0 {
        Seq::empty()
    } else if row_complete(g.last()) {
        incomplete_rows(g.drop_last())
    } else {
        incomplete_rows(g.drop_last()).push(g.last())
    }
}

/// How many rows of `g` are complete.
pub open spec fn cleared_count(g: Seq<Seq<Option<ConsoleColor>>>) -> int {
    g.len() - incomplete_rows(g).len()
}

/// The grid after one line-clear pass: the incomplete rows of `g` are
/// shifted toward the floor in their original order, and fully empty
/// rows of width `width` fill the vacated space at the top.
pub open spec fn cleared_view(g: Seq<Seq<Option<ConsoleColor>>>, width: nat) -> Seq<
    Seq<Option<ConsoleColor>>,
> {
    Seq::new(cleared_count(g) as nat, |i: int| empty_row(width)) + incomplete_rows(g)
}

/// Dropping complete rows can only shorten a grid.
pub proof fn lemma_incomplete_rows_len(g: Seq<Seq<Option<ConsoleColor>>>)
    ensures
        incomplete_rows(g).len() <= g.len(),
    decreases g.len(),
{
    if g.len() > 0 {
        lemma_incomplete_rows_len(g.drop_last());
    }
}

impl Grid {
    /// The lateral size, fixed at construction.
    pub closed spec fn spec_width(&self) -> int {
        self.width as int
    }

    /// The vertical size, fixed at construction.
    pub closed spec fn spec_height(&self) -> int {
        self.height as int
    }

    /// The grid's shape never changes: `height` rows of `width` cells,
    /// both positive and small enough for untroubled index arithmetic.
    pub open spec fn wf(&self) -> bool {
        &&& self@.len() == self.spec_height()
        &&& forall|i: int| 0 <= i < self@.len() ==> (#[trigger] self@[i]).len() == self.spec_width()
        &&& 0 < self.spec_width() <= 0x1000
        &&& 0 < self.spec_height() <= 0x1000
    }

    /// A grid of the given dimensions with every cell empty.
    pub fn new(width: u32, height: u32) -> (g: Grid)
        requires
            0 < width <= 0x1000,
            0 < height <= 0x1000,
        ensures
            g.wf(),
            g.spec_width() == width,
            g.spec_height() == height,
            forall|i: int| 0 <= i < height ==> #[trigger] g@[i] == empty_row(width as nat),
    {
        let mut field: Vec<Vec<Option<ConsoleColor>>> = Vec::new();
        for i in 0..height
            invariant
                field@.len() == i,
                forall|k: int| 0 <= k < i ==> (#[trigger] field@[k])@ == empty_row(width as nat),
        {
            let mut row: Vec<Option<ConsoleColor>> = Vec::new();
            for j in 0..width
                invariant
                    row@.len() == j,
                    forall|k: int| 0 <= k < j ==> (#[trigger] row@[k]) is None,
            {
                row.push(None);
            }
            proof {
                assert(row@ =~= empty_row(width as nat));
            }
            field.push(row);
        }
        Grid { width, height, field }
    }

    /// Marks one cell occupied with the given color. Callers must have
    /// checked the coordinates already; out-of-range access is a bug.
    pub fn set(&mut self, x: u32, y: u32, color: ConsoleColor)
        requires
            old(self).wf(),
            x < old(self).spec_height(),
            y < old(self).spec_width(),
        ensures
            final(self).wf(),
            final(self).spec_width() == old(self).spec_width(),
            final(self).spec_height() == old(self).spec_height(),
            final(self)@ == old(self)@.update(
                x as int,
                old(self)@[x as int].update(y as int, Some(color)),
            ),
    {
        proof {
            assert(self@[x as int] == self.field@[x as int]@);
        }
        let row: &mut Vec<Option<ConsoleColor>> = &mut self.field[x as usize];
        row[y as usize] = Some(color);
        proof {
            assert(self@ =~~= old(self)@.update(
                x as int,
                old(self)@[x as int].update(y as int, Some(color)),
            ));
        }
    }

    /// Reads one cell.
    pub fn get(&self, x: u32, y: u32) -> (c: &Option<ConsoleColor>)
        requires
            self.wf(),
            x < self.spec_height(),
            y < self.spec_width(),
        ensures
            *c == self@[x as int][y as int],
    {
        &self.field[x as usize][y as usize]
    }

    /// Whether one cell is occupied.
    pub fn check(&self, x: u32, y: u32) -> (b: bool)
        requires
            self.wf(),
            x < self.spec_height(),
            y < self.spec_width(),
        ensures
            b == self@[x as int][y as int].is_some(),
    {
        self.field[x as usize][y as usize].is_some()
    }

    /// The number of rows.
    pub fn height(&self) -> (h: u32)
        requires
            self.wf(),
        ensures
            h == self.spec_height(),
    {
        self.height
    }

    /// The number of columns.
    pub fn width(&self) -> (w: u32)
        requires
            self.wf(),
        ensures
            w == self.spec_width(),
    {
        self.width
    }

    /// An independent copy of the grid with the same contents.
    pub fn duplicate(&self) -> (g: Grid)
        requires
            self.wf(),
        ensures
            g.wf(),
            g.spec_width() == self.spec_width(),
            g.spec_height() == self.spec_height(),
            g@ == self@,
    {
        let mut field: Vec<Vec<Option<ConsoleColor>>> = Vec::new();
        let mut i: usize = 0;
        while i < self.field.len()
            invariant
                self.wf(),
                i <= self@.len(),
                field@.len() == i,
                forall|k: int| 0 <= k < i ==> (#[trigger] field@[k])@ == self@[k],
            decreases self@.len() - i,
        {
            proof {
                assert(self@[i as int] == self.field@[i as int]@);
            }
            field.push(copy_row(&self.field[i]));
            i = i + 1;
        }
        let g = Grid { width: self.width, height: self.height, field };
        proof {
            assert(g@ =~~= self@);
        }
        g
    }

    /// One line-clear pass: removes every complete row, shifts the rows
    /// that remain toward the floor in their original order, fills the
    /// vacated top rows with empty ones, and reports how many rows went.
    pub fn clear_completed_rows(&mut self) -> (cleared: u32)
        requires
            old(self).wf(),
        ensures
            final(self).wf(),
            final(self).spec_width() == old(self).spec_width(),
            final(self).spec_height() == old(self).spec_height(),
            cleared as int == cleared_count(old(self)@),
            final(self)@ == cleared_view(old(self)@, old(self).spec_width() as nat),
    {
        let ghost g0 = self@;
        let height = self.height;
        let width = self.width;
        let mut kept: Vec<Vec<Option<ConsoleColor>>> = Vec::new();
        let mut i: usize = 0;
        while i < height as usize
            invariant
                self.wf(),
                self@ == g0,
                height == self.spec_height(),
                width == self.spec_width(),
                i <= height,
                kept@.map_values(|row: Vec<Option<ConsoleColor>>| row@) == incomplete_rows(
                    g0.subrange(0, i as int),
                ),
                kept@.len() <= i,
                forall|j: int| 0 <= j < kept@.len() ==> (#[trigger] kept@[j])@.len() == width,
            decreases height - i,
        {
            proof {
                assert(self@[i as int] == self.field@[i as int]@);
                assert(g0.subrange(0, i + 1).drop_last() =~= g0.subrange(0, i as int));
                assert(g0.subrange(0, i + 1).last() == g0[i as int]);
            }
            if !row_filled(&self.field[i]) {
                kept.push(copy_row(&self.field[i]));
                proof {
                    assert(kept@.map_values(|row: Vec<Option<ConsoleColor>>| row@)
                        =~= incomplete_rows(g0.subrange(0, i + 1)));
                }
            }
            i = i + 1;
        }
        proof {
            assert(g0.subrange(0, height as int) =~= g0);
            lemma_incomplete_rows_len(g0);
        }
        let removed: usize = height as usize - kept.len();
        let mut field: Vec<Vec<Option<ConsoleColor>>> = Vec::new();
        let mut k: usize = 0;
        while k < removed
            invariant
                0 < width <= 0x1000,
                field@.len() == k,
                k <= removed,
                forall|j: int| 0 <= j < k ==> (#[trigger] field@[j])@ == empty_row(width as nat),
            decreases removed - k,
        {
            let mut row: Vec<Option<ConsoleColor>> = Vec::new();
            let mut j: usize = 0;
            while j < width as usize
                invariant
                    row@.len() == j,
                    j <= width,
                    forall|m: int| 0 <= m < j ==> (#[trigger] row@[m]) is None,
                decreases width - j,
            {
                row.push(None);
                j = j + 1;
            }
            proof {
                assert(row@ =~= empty_row(width as nat));
            }
            field.push(row);
            k = k + 1;
        }
        let mut n: usize = 0;
        while n < kept.len()
            invariant
                n <= kept@.len(),
                field@.len() == removed + n,
                removed == field@.len() - n,
                forall|j: int|
                    0 <= j < removed ==> (#[trigger] field@[j])@ == empty_row(width as nat),
                forall|j: int|
                    removed <= j < field@.len() ==> (#[trigger] field@[j])@ == kept@[j - removed]@,
            decreases kept@.len() - n,
        {
            field.push(copy_row(&kept[n]));
            n = n + 1;
        }
        self.field = field;
        proof {
            let cv = cleared_view(g0, width as nat);
            assert(kept@.map_values(|row: Vec<Option<ConsoleColor>>| row@) == incomplete_rows(g0));
            assert(kept@.len() == incomplete_rows(g0).len());
            assert(self@.len() == removed + kept@.len());
            assert forall|j: int| 0 <= j < self@.len() implies self@[j] == cv[j] by {
                assert(self@[j] == self.field@[j]@);
                if j < removed {
                    assert(self.field@[j]@ == empty_row(width as nat));
                    assert(cv[j] == empty_row(width as nat));
                } else {
                    assert(self.field@[j]@ == kept@[j - removed]@);
                    assert(kept@.map_values(|row: Vec<Option<ConsoleColor>>| row@)[j - removed]
                        == kept@[j - removed]@);
                    assert(cv[j] == incomplete_rows(g0)[j - removed]);
                }
            }
            assert(self@ =~= cv);
        }
        removed as u32
    }
}

/// Whether every cell of the row is occupied.
fn row_filled(row: &Vec<Option<ConsoleColor>>) -> (b: bool)
    ensures
        b == row_complete(row@),
{
    let mut j: usize = 0;
    while j < row.len()
        invariant
            j <= row@.len(),
            forall|k: int| 0 <= k < j ==> (#[trigger] row@[k]).is_some(),
        decreases row@.len() - j,
    {
        if row[j].is_none() {
            return false;
        }
        j = j + 1;
    }
    true
}

/// An independent copy of one row.
fn copy_row(row: &Vec<Option<ConsoleColor>>) -> (r: Vec<Option<ConsoleColor>>)
    ensures
        r@ == row@,
{
    let mut r: Vec<Option<ConsoleColor>> = Vec::new();
    let mut j: usize = 0;
    while j < row.len()
        invariant
            j <= row@.len(),
            r@ == row@.subrange(0, j as int),
        decreases row@.len() - j,
    {
        r.push(row[j]);
        proof {
            assert(r@ =~= row@.subrange(0, j + 1));
        }
        j = j + 1;
    }
    proof {
        assert(row@.subrange(0, row@.len() as int) =~= row@);
    }
    r
}

/// Every row kept by a line-clear pass was incomplete to begin with.
pub proof fn lemma_incomplete_rows_not_complete(g: Seq<Seq<Option<ConsoleColor>>>)
    ensures
        forall|i: int|
            0 <= i < incomplete_rows(g).len() ==> !row_complete(#[trigger] incomplete_rows(g)[i]),
    decreases g.len(),
{
    if g.len() > 0 {
        lemma_incomplete_rows_not_complete(g.drop_last());
        if !row_complete(g.last()) {
            let kept = incomplete_rows(g);
            assert forall|i: int| 0 <= i < kept.len() implies !row_complete(
                #[trigger] kept[i],
            ) by {
                if i < incomplete_rows(g.drop_last()).len() {
                    assert(kept[i] == incomplete_rows(g.drop_last())[i]);
                } else {
                    assert(kept[i] == g.last());
                }
            }
        }
    }
}

/// A grid with no complete row keeps every row where it is.
pub proof fn lemma_incomplete_rows_id(g: Seq<Seq<Option<ConsoleColor>>>)
    requires
        forall|i: int| 0 <= i < g.len() ==> !row_complete(#[trigger] g[i]),
    ensures
        incomplete_rows(g) == g,
    decreases g.len(),
{
    if g.len() > 0 {
        assert(g.last() == g[g.len() - 1]);
        lemma_incomplete_rows_id(g.drop_last());
        assert(incomplete_rows(g.drop_last()).push(g.last()) =~= g);
    }
}

/// A line-clear pass over a grid with no complete rows clears nothing
/// and leaves the grid unchanged.
pub proof fn lemma_clear_no_complete(g: Seq<Seq<Option<ConsoleColor>>>, width: nat)
    requires
        forall|i: int| 0 <= i < g.len() ==> !row_complete(#[trigger] g[i]),
    ensures
        cleared_count(g) == 0,
        cleared_view(g, width) == g,
{
    lemma_incomplete_rows_id(g);
    assert(cleared_view(g, width) =~= g);
}

/// A second line-clear pass directly after a first clears nothing more
/// and changes nothing more: one pass already converges.
pub proof fn lemma_clear_idempotent(g: Seq<Seq<Option<ConsoleColor>>>, width: nat)
    requires
        0 < width,
    ensures
        cleared_count(cleared_view(g, width)) == 0,
        cleared_view(cleared_view(g, width), width) == cleared_view(g, width),
{
    let cv = cleared_view(g, width);
    lemma_incomplete_rows_len(g);
    lemma_incomplete_rows_not_complete(g);
    assert forall|i: int| 0 <= i < cv.len() implies !row_complete(#[trigger] cv[i]) by {
        if i < cleared_count(g) {
            assert(cv[i] == empty_row(width));
            assert(cv[i][0] is None);
        } else {
            assert(cv[i] == incomplete_rows(g)[i - cleared_count(g)]);
        }
    }
    lemma_clear_no_complete(cv, width);
}

/// When the floor row is complete and no other row is, one pass clears
/// exactly that row: a fresh empty row appears at the top and every
/// other row shifts one step toward the floor, contents and order kept.
pub proof fn lemma_clear_bottom_row(g: Seq<Seq<Option<ConsoleColor>>>, width: nat)
    requires
        g.len() > 0,
        row_complete(g.last()),
        forall|i: int| 0 <= i < g.len() - 1 ==> !row_complete(#[trigger] g[i]),
    ensures
        cleared_count(g) == 1,
        cleared_view(g, width) == seq![empty_row(width)] + g.drop_last(),
{
    assert forall|i: int| 0 <= i < g.drop_last().len() implies !row_complete(
        #[trigger] g.drop_last()[i],
    ) by {
        assert(g.drop_last()[i] == g[i]);
    }
    lemma_incomplete_rows_id(g.drop_last());
    assert(cleared_view(g, width) =~= seq![empty_row(width)] + g.drop_last());
}

} // verus!
