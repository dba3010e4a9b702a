//! The game session: one grid, at most one piece in flight, and a score
//! that grows by one for every cleared row.

use vstd::prelude::*;

use crate::FIELD_HEIGHT;
use crate::FIELD_WIDTH;
use crate::blocks::Block;
use crate::blocks::anchor_ok;
use crate::blocks::collides;
use crate::blocks::draw_cells;
use crate::blocks::moved_laterally;
use crate::blocks::rotated_left;
use crate::blocks::rotated_right;
use crate::blocks::smacked;
use crate::blocks::spec_over;
use crate::graphic::Grid;
use crate::graphic::cleared_count;
use crate::graphic::cleared_view;
use crate::graphic::empty_row;

verus! {

/// One game in progress.
pub struct Game {
    pub grid: Grid,
    pub moving_block: Option<Block>,
    pub score: u32,
}

/// The outcome of one gravity step for the piece `b`: it falls one row
/// if it can; otherwise, either it has a cell above the top of the field
/// and the game is over, or it settles into the grid, completed rows are
/// cleared and scored, and the session is left without a piece.
pub open spec fn fall_post(pre: Game, b: Block, post: Game, game_over: bool) -> bool {
    let w = pre.grid.spec_width();
    let h = pre.grid.spec_height();
    if !collides(pre.grid@, w, h, b.block_type, b.rotation, b.x + 1, b.y as int) {
        &&& !game_over
        &&& post.grid@ == pre.grid@
        &&& post.grid.spec_width() == w
        &&& post.grid.spec_height() == h
        &&& post.score == pre.score
        &&& post.moving_block == Some(Block { x: (b.x + 1) as i32, ..b })
    } else if spec_over(b.block_type, b.rotation, b.x as int) {
        &&& game_over
        &&& post.grid@ == pre.grid@
        &&& post.grid.spec_width() == w
        &&& post.grid.spec_height() == h
        &&& post.score == pre.score
        &&& post.moving_block == Some(b)
    } else {
        let settled = draw_cells(pre.grid@, b.block_type, b.rotation, b.x as int, b.y as int, b.color);
        &&& !game_over
        &&& post.grid@ == cleared_view(settled, w as nat)
        &&& post.grid.spec_width() == w
        &&& post.grid.spec_height() == h
        &&& post.score == pre.score + cleared_count(settled)
        &&& post.moving_block is None
    }
}

impl Game {
    /// A session is always a well-shaped standard field, and any piece
    /// in flight keeps anchor coordinates near the field, so no probe of
    /// a neighbouring position can overflow.
    pub open spec fn wf(&self) -> bool {
        &&& self.grid.wf()
        &&& self.grid.spec_width() == FIELD_WIDTH
        &&& self.grid.spec_height() == FIELD_HEIGHT
        &&& (self.moving_block matches Some(b) ==> anchor_ok(b.x as int) && anchor_ok(b.y as int))
    }

    /// A fresh session: an empty standard field, no piece, score zero.
    pub fn new() -> (g: Game)
        ensures
            g.wf(),
            g.score == 0,
            g.moving_block is None,
            forall|i: int|
                0 <= i < FIELD_HEIGHT ==> #[trigger] g.grid@[i] == empty_row(FIELD_WIDTH as nat),
    {
        Game { grid: Grid::new(FIELD_WIDTH, FIELD_HEIGHT), moving_block: None, score: 0 }
    }

    /// One timer tick: spawns a piece at the top of the field if none is
    /// in flight, then applies one gravity step to it. Reports whether
    /// the game ended on this tick.
    pub fn update(&mut self) -> (game_over: bool)
        requires
            old(self).wf(),
            old(self).score + FIELD_HEIGHT <= u32::MAX,
        ensures
            final(self).wf(),
            (old(self).moving_block matches Some(b) ==> fall_post(
                *old(self),
                b,
                *final(self),
                game_over,
            )),
            old(self).moving_block is None ==> (exists|b: Block|
                #![auto]
                b.x == 0 && b.y == 5 && fall_post(*old(self), b, *final(self), game_over)),
    {
        if self.moving_block.is_none() {
            let b = Block::new(0, 5);
            self.moving_block = Some(b);
        }
        let ghost mid = *self;
        let game_over = self.move_down();
        proof {
            if old(self).moving_block is None {
                let b = mid.moving_block->0;
                assert(b.x == 0 && b.y == 5 && fall_post(*old(self), b, *self, game_over));
            }
        }
        game_over
    }

    /// One gravity step for the piece in flight, locking it into the
    /// grid when it can no longer fall; a no-op without a piece.
    pub fn move_down(&mut self) -> (game_over: bool)
        requires
            old(self).wf(),
            old(self).score + FIELD_HEIGHT <= u32::MAX,
        ensures
            final(self).wf(),
            old(self).moving_block is None ==> !game_over && *final(self) == *old(self),
            (old(self).moving_block matches Some(b) ==> fall_post(
                *old(self),
                b,
                *final(self),
                game_over,
            )),
    {
        match self.moving_block {
            Some(first) => {
                let mut block = first;
                if !block.move_down(&self.grid) {
                    if block.over() {
                        return true;
                    }
                    block.draw(&mut self.grid);
                    self.check_lines();
                    self.moving_block = None;
                    false
                } else {
                    proof {
                        crate::blocks::lemma_offsets_range(first.block_type, first.rotation);
                        assert(!crate::blocks::blocked(
                            self.grid@,
                            self.grid.spec_width(),
                            self.grid.spec_height(),
                            block.x + crate::blocks::offsets(first.block_type, first.rotation)[0].x,
                            block.y + crate::blocks::offsets(first.block_type, first.rotation)[0].y,
                        ));
                    }
                    self.moving_block = Some(block);
                    false
                }
            },
            None => false,
        }
    }

    /// Turns the piece in flight one quarter to the right when the
    /// turned shape fits; a no-op otherwise or without a piece.
    pub fn rotate_right(&mut self)
        requires
            old(self).wf(),
        ensures
            final(self).wf(),
            final(self).grid@ == old(self).grid@,
            final(self).grid.spec_width() == old(self).grid.spec_width(),
            final(self).grid.spec_height() == old(self).grid.spec_height(),
            final(self).score == old(self).score,
            old(self).moving_block is None ==> final(self).moving_block is None,
            (old(self).moving_block matches Some(b) ==> final(self).moving_block matches Some(b2)
                && rotated_right(
                b,
                b2,
                old(self).grid@,
                old(self).grid.spec_width(),
                old(self).grid.spec_height(),
            )),
    {
        match self.moving_block {
            Some(first) => {
                let mut block = first;
                block.rotate_right(&self.grid);
                self.moving_block = Some(block);
            },
            None => {},
        }
    }

    /// Turns the piece in flight one quarter to the left when the
    /// turned shape fits; a no-op otherwise or without a piece.
    pub fn rotate_left(&mut self)
        requires
            old(self).wf(),
        ensures
            final(self).wf(),
            final(self).grid@ == old(self).grid@,
            final(self).grid.spec_width() == old(self).grid.spec_width(),
            final(self).grid.spec_height() == old(self).grid.spec_height(),
            final(self).score == old(self).score,
            old(self).moving_block is None ==> final(self).moving_block is None,
            (old(self).moving_block matches Some(b) ==> final(self).moving_block matches Some(b2)
                && rotated_left(
                b,
                b2,
                old(self).grid@,
                old(self).grid.spec_width(),
                old(self).grid.spec_height(),
            )),
    {
        match self.moving_block {
            Some(first) => {
                let mut block = first;
                block.rotate_left(&self.grid);
                self.moving_block = Some(block);
            },
            None => {},
        }
    }

    /// Steps the piece in flight one column toward the low-column side
    /// when that position is free; a no-op otherwise or without a piece.
    pub fn move_left(&mut self)
        requires
            old(self).wf(),
        ensures
            final(self).wf(),
            final(self).grid@ == old(self).grid@,
            final(self).grid.spec_width() == old(self).grid.spec_width(),
            final(self).grid.spec_height() == old(self).grid.spec_height(),
            final(self).score == old(self).score,
            old(self).moving_block is None ==> final(self).moving_block is None,
            (old(self).moving_block matches Some(b) ==> final(self).moving_block matches Some(b2)
                && moved_laterally(
                b,
                b2,
                -1,
                old(self).grid@,
                old(self).grid.spec_width(),
                old(self).grid.spec_height(),
            )),
    {
        match self.moving_block {
            Some(first) => {
                let mut block = first;
                block.move_left(&self.grid);
                proof {
                    if block.y != first.y {
                        crate::blocks::lemma_offsets_range(first.block_type, first.rotation);
                        assert(0 <= block.y + crate::blocks::offsets(
                            first.block_type,
                            first.rotation,
                        )[0].y < self.grid.spec_width());
                    }
                }
                self.moving_block = Some(block);
            },
            None => {},
        }
    }

    /// Steps the piece in flight one column toward the high-column side
    /// when that position is free; a no-op otherwise or without a piece.
    pub fn move_right(&mut self)
        requires
            old(self).wf(),
        ensures
            final(self).wf(),
            final(self).grid@ == old(self).grid@,
            final(self).grid.spec_width() == old(self).grid.spec_width(),
            final(self).grid.spec_height() == old(self).grid.spec_height(),
            final(self).score == old(self).score,
            old(self).moving_block is None ==> final(self).moving_block is None,
            (old(self).moving_block matches Some(b) ==> final(self).moving_block matches Some(b2)
                && moved_laterally(
                b,
                b2,
                1,
                old(self).grid@,
                old(self).grid.spec_width(),
                old(self).grid.spec_height(),
            )),
    {
        match self.moving_block {
            Some(first) => {
                let mut block = first;
                block.move_right(&self.grid);
                proof {
                    if block.y != first.y {
                        crate::blocks::lemma_offsets_range(first.block_type, first.rotation);
                        assert(0 <= block.y + crate::blocks::offsets(
                            first.block_type,
                            first.rotation,
                        )[0].y < self.grid.spec_width());
                    }
                }
                self.moving_block = Some(block);
            },
            None => {},
        }
    }

    /// Hard-drops the piece in flight to its lowest free position; the
    /// next gravity tick will lock it there. A no-op without a piece or
    /// when the piece is already stuck.
    pub fn smack(&mut self)
        requires
            old(self).wf(),
        ensures
            final(self).wf(),
            final(self).grid@ == old(self).grid@,
            final(self).grid.spec_width() == old(self).grid.spec_width(),
            final(self).grid.spec_height() == old(self).grid.spec_height(),
            final(self).score == old(self).score,
            old(self).moving_block is None ==> final(self).moving_block is None,
            (old(self).moving_block matches Some(b) ==> final(self).moving_block matches Some(b2)
                && (if collides(
                old(self).grid@,
                old(self).grid.spec_width(),
                old(self).grid.spec_height(),
                b.block_type,
                b.rotation,
                b.x as int,
                b.y as int,
            ) {
                b2 == b
            } else {
                smacked(
                    b,
                    b2,
                    old(self).grid@,
                    old(self).grid.spec_width(),
                    old(self).grid.spec_height(),
                )
            })),
    {
        match self.moving_block {
            Some(first) => {
                let mut block = first;
                if !block.block_type.collison(block.x, block.y, block.rotation, &self.grid) {
                    block.smack(&self.grid);
                }
                self.moving_block = Some(block);
            },
            None => {},
        }
    }

    /// Adds a line-clear pass over the settled grid to the score: every
    /// complete row is removed, the rest shift toward the floor, and the
    /// score grows by the number of rows removed.
    pub fn check_lines(&mut self)
        requires
            old(self).wf(),
            old(self).score + FIELD_HEIGHT <= u32::MAX,
        ensures
            final(self).wf(),
            final(self).moving_block == old(self).moving_block,
            final(self).grid@ == cleared_view(old(self).grid@, FIELD_WIDTH as nat),
            final(self).score == old(self).score + cleared_count(old(self).grid@),
    {
        proof {
            crate::graphic::lemma_incomplete_rows_len(self.grid@);
        }
        let cleared = self.grid.clear_completed_rows();
        self.score = self.score + cleared;
    }

    /// A rendering snapshot: the settled grid with the piece in flight,
    /// if any, drawn on top. The session itself is untouched.
    pub fn compose(&self) -> (g: Grid)
        requires
            self.wf(),
        ensures
            g.wf(),
            g.spec_width() == self.grid.spec_width(),
            g.spec_height() == self.grid.spec_height(),
            self.moving_block is None ==> g@ == self.grid@,
            (self.moving_block matches Some(b) ==> g@ == draw_cells(
                self.grid@,
                b.block_type,
                b.rotation,
                b.x as int,
                b.y as int,
                b.color,
            )),
    {
        let mut grid = self.grid.duplicate();
        match self.moving_block {
            Some(block) => block.draw(&mut grid),
            None => {},
        }
        grid
    }
}

} // verus!
