//! The playing field: a fixed grid of cells, placement checks, committing a
//! piece and clearing full rows.
use vstd::prelude::*;

use crate::tetrimino::{Color, Shape};

verus! {

/// Number of columns.
pub const BOARD_WIDTH: usize = 10;

/// Number of rows; row 0 is the top.
pub const BOARD_HEIGHT: usize = 20;

/// One cell of the grid.
#[derive(Clone, Copy, Debug, PartialEq, Eq, Structural)]
pub enum Block {
    Free,
    Occupied(Color),
}

/// The grid has `BOARD_HEIGHT` rows of `BOARD_WIDTH` cells.
pub open spec fn grid_shaped(rows: Seq<Seq<Block>>) -> bool {
    &&& rows.len() == BOARD_HEIGHT
    &&& forall|y: int| 0 <= y < rows.len() ==> (#[trigger] rows[y]).len() == BOARD_WIDTH
}

/// `(x, y)` names a cell of the grid.
pub open spec fn on_board(x: int, y: int) -> bool {
    0 <= x < BOARD_WIDTH && 0 <= y < BOARD_HEIGHT
}

/// Every cell of the row is occupied.
pub open spec fn is_full_row(row: Seq<Block>) -> bool {
    forall|i: int| 0 <= i < row.len() ==> #[trigger] row[i] is Occupied
}

/// A row with every cell free.
pub open spec fn free_row() -> Seq<Block> {
    Seq::new(BOARD_WIDTH as nat, |i: int| Block::Free)
}

/// `n` free rows.
pub open spec fn free_rows(n: nat) -> Seq<Seq<Block>> {
    Seq::new(n, |i: int| free_row())
}

/// The rows that are not full, in their order.
pub open spec fn kept_rows(rows: Seq<Seq<Block>>) -> Seq<Seq<Block>>
    decreases rows.len(),
{
    if rows.len() == 0 {
        Seq::empty()
    } else if is_full_row(rows.last()) {
        kept_rows(rows.drop_last())
    } else {
        kept_rows(rows.drop_last()).push(rows.last())
    }
}

/// How many rows are full.
pub open spec fn full_row_count(rows: Seq<Seq<Block>>) -> nat
    decreases rows.len(),
{
    if rows.len() == 0 {
        0
    } else if is_full_row(rows.last()) {
        full_row_count(rows.drop_last()) + 1
    } else {
        full_row_count(rows.drop_last())
    }
}

/// The grid after its full rows are removed: the rows that remain keep their
/// order and sink to the bottom, and as many free rows as were removed fill the top.
pub open spec fn cleared(rows: Seq<Seq<Block>>) -> Seq<Seq<Block>> {
    free_rows(full_row_count(rows)) + kept_rows(rows)
}

/// The shape placed with its top-left corner at `(x, y)` has a set cell at `(bx, by)`.
pub open spec fn covers(x: int, y: int, shape: Shape, bx: int, by: int) -> bool {
    0 <= bx - x < 4 && 0 <= by - y < 4 && shape[by - y][bx - x] == 1
}

/// Every set cell of the shape placed at `(x, y)` lies on the grid and is free.
pub open spec fn fits(rows: Seq<Seq<Block>>, x: int, y: int, shape: Shape) -> bool {
    forall|r: int, c: int|
        0 <= r < 4 && 0 <= c < 4 && #[trigger] shape[r][c] == 1 ==> on_board(x + c, y + r)
            && rows[y + r][x + c] is Free
}

/// The grid with every cell that the shape placed at `(x, y)` covers set to
/// `Occupied(color)`; cells off the grid are dropped.
pub open spec fn committed(rows: Seq<Seq<Block>>, x: int, y: int, shape: Shape, color: Color) -> Seq<
    Seq<Block>,
> {
    Seq::new(
        rows.len(),
        |by: int|
            Seq::new(
                rows[by].len(),
                |bx: int|
                    if covers(x, y, shape, bx, by) {
                        Block::Occupied(color)
                    } else {
                        rows[by][bx]
                    },
            ),
    )
}

/// The grid: `BOARD_HEIGHT` rows of `BOARD_WIDTH` cells.
pub struct Board {
    blocks: Vec<[Block; BOARD_WIDTH]>,
}

impl View for Board {
    type V = Seq<Seq<Block>>;

    closed spec fn view(&self) -> Seq<Seq<Block>> {
        self.blocks@.map_values(|row: [Block; BOARD_WIDTH]| row@)
    }
}

impl Board {
    /// The grid has its fixed dimensions.
    pub open spec fn wf(&self) -> bool {
        grid_shaped(self@)
    }

    /// An empty grid.
    pub fn new() -> (r: Board)
        ensures
            r.wf(),
            r@ == free_rows(BOARD_HEIGHT as nat),
    {
        let mut blocks: Vec<[Block; BOARD_WIDTH]> = Vec::new();
        let mut i: usize = 0;
        while i < BOARD_HEIGHT
            invariant
                i <= BOARD_HEIGHT,
                blocks@.len() == i,
                forall|j: int| 0 <= j < i ==> (#[trigger] blocks@[j])@ == free_row(),
            decreases BOARD_HEIGHT - i,
        {
            let row = [Block::Free; BOARD_WIDTH];
            assert(row@ =~= free_row());
            blocks.push(row);
            i = i + 1;
        }
        let r = Board { blocks };
        assert(r@ =~= free_rows(BOARD_HEIGHT as nat));
        r
    }

    /// The cell at column `x`, row `y`.
    pub fn get_cell(&self, x: usize, y: usize) -> (r: Block)
        requires
            self.wf(),
            x < BOARD_WIDTH,
            y < BOARD_HEIGHT,
        ensures
            r == self@[y as int][x as int],
    {
        self.blocks[y][x]
    }

    /// Whether the cell at column `x`, row `y` is occupied.
    pub fn is_occupied(&self, x: usize, y: usize) -> (r: bool)
        requires
            self.wf(),
            x < BOARD_WIDTH,
            y < BOARD_HEIGHT,
        ensures
            r == self@[y as int][x as int] is Occupied,
    {
        match self.blocks[y][x] {
            Block::Free => false,
            Block::Occupied(_) => true,
        }
    }

    /// Whether the shape placed with its top-left corner at `(x, y)` fits:
    /// each of its set cells lies on the grid and is free.
    pub fn can_fit(&self, x: isize, y: isize, shape: &Shape) -> (r: bool)
        requires
            self.wf(),
        ensures
            r == fits(self@, x as int, y as int, *shape),
    {
        let mut r: usize = 0;
        while r < 4
            invariant
                self.wf(),
                r <= 4,
                forall|rr: int, cc: int|
                    0 <= rr < r && 0 <= cc < 4 && #[trigger] shape[rr][cc] == 1 ==> on_board(
                        x + cc,
                        y + rr,
                    ) && self@[y + rr][x + cc] is Free,
            decreases 4 - r,
        {
            let mut c: usize = 0;
            while c < 4
                invariant
                    self.wf(),
                    r < 4,
                    c <= 4,
                    forall|rr: int, cc: int|
                        0 <= rr < 4 && 0 <= cc < 4 && (rr < r || (rr == r && cc < c))
                            && #[trigger] shape[rr][cc] == 1 ==> on_board(x + cc, y + rr)
                            && self@[y + rr][x + cc] is Free,
                decreases 4 - c,
            {
                if shape[r][c] == 1 {
                    let ci = c as isize;
                    let ri = r as isize;
                    if x < -ci || x >= BOARD_WIDTH as isize - ci || y < -ri || y
                        >= BOARD_HEIGHT as isize - ri {
                        return false;
                    }
                    let bx = (x + ci) as usize;
                    let by = (y + ri) as usize;
                    if self.is_occupied(bx, by) {
                        return false;
                    }
                }
                c = c + 1;
            }
            r = r + 1;
        }
        true
    }

    /// Sets every cell that the shape placed at `(x, y)` covers to
    /// `Occupied(color)`. Set cells that fall off the grid are skipped, so a
    /// placement that was not checked with `can_fit` cannot break the grid.
    pub fn commit(&mut self, x: isize, y: isize, shape: &Shape, color: Color)
        requires
            old(self).wf(),
        ensures
            final(self).wf(),
            final(self)@ == committed(old(self)@, x as int, y as int, *shape, color),
    {
        let ghost start = self@;
        let mut r: usize = 0;
        while r < 4
            invariant
                self.wf(),
                r <= 4,
                grid_shaped(start),
                forall|by: int, bx: int|
                    0 <= by < BOARD_HEIGHT && 0 <= bx < BOARD_WIDTH ==> #[trigger] self@[by][bx]
                        == if covers(x as int, y as int, *shape, bx, by) && by - y < r {
                        Block::Occupied(color)
                    } else {
                        start[by][bx]
                    },
            decreases 4 - r,
        {
            let mut c: usize = 0;
            while c < 4
                invariant
                    self.wf(),
                    r < 4,
                    c <= 4,
                    grid_shaped(start),
                    forall|by: int, bx: int|
                        0 <= by < BOARD_HEIGHT && 0 <= bx < BOARD_WIDTH ==> #[trigger] self@[by][bx]
                            == if covers(x as int, y as int, *shape, bx, by) && (by - y < r || (by
                            - y == r && bx - x < c)) {
                            Block::Occupied(color)
                        } else {
                            start[by][bx]
                        },
                decreases 4 - c,
            {
                let ci = c as isize;
                let ri = r as isize;
                if shape[r][c] == 1 && x >= -ci && x < BOARD_WIDTH as isize - ci && y >= -ri && y
                    < BOARD_HEIGHT as isize - ri {
                    let bx = (x + ci) as usize;
                    let by = (y + ri) as usize;
                    self.set_cell(bx, by, Block::Occupied(color));
                }
                c = c + 1;
            }
            r = r + 1;
        }
        assert(self@ =~~= committed(start, x as int, y as int, *shape, color));
    }

    /// Sets the cell at column `x`, row `y`.
    fn set_cell(&mut self, x: usize, y: usize, b: Block)
        requires
            old(self).wf(),
            x < BOARD_WIDTH,
            y < BOARD_HEIGHT,
        ensures
            final(self).wf(),
            final(self)@ == old(self)@.update(y as int, old(self)@[y as int].update(x as int, b)),
    {
        let mut row = self.blocks[y];
        row[x] = b;
        self.blocks.set(y, row);
        assert(self@ =~= old(self)@.update(y as int, old(self)@[y as int].update(x as int, b)));
    }

    /// Whether every cell of row `y` is occupied.
    pub fn can_erase_row(&self, y: usize) -> (r: bool)
        requires
            self.wf(),
            y < BOARD_HEIGHT,
        ensures
            r == is_full_row(self@[y as int]),
    {
        let mut x: usize = 0;
        while x < BOARD_WIDTH
            invariant
                self.wf(),
                y < BOARD_HEIGHT,
                x <= BOARD_WIDTH,
                forall|i: int| 0 <= i < x ==> #[trigger] self@[y as int][i] is Occupied,
            decreases BOARD_WIDTH - x,
        {
            if !self.is_occupied(x, y) {
                return false;
            }
            x = x + 1;
        }
        true
    }

    /// Removes every full row: scanning from the top, each full row is taken
    /// out, the rows above it move down by one, and a free row enters at the
    /// top. Returns how many rows were removed.
    pub fn clear_full_rows(&mut self) -> (count: usize)
        requires
            old(self).wf(),
        ensures
            final(self).wf(),
            count == full_row_count(old(self)@),
            final(self)@ == cleared(old(self)@),
    {
        let ghost start = self@;
        let mut count: usize = 0;
        let mut y: usize = 0;
        while y < BOARD_HEIGHT
            invariant
                self.wf(),
                grid_shaped(start),
                y <= BOARD_HEIGHT,
                count == full_row_count(start.subrange(0, y as int)),
                self@ == cleared(start.subrange(0, y as int)) + start.subrange(
                    y as int,
                    BOARD_HEIGHT as int,
                ),
            decreases BOARD_HEIGHT - y,
        {
            let ghost done = start.subrange(0, y as int);
            let ghost next = start.subrange(0, y as int + 1);
            proof {
                lemma_cleared_len(done);
                assert(next.drop_last() =~= done);
                assert(self@[y as int] == start[y as int]);
            }
            if self.can_erase_row(y) {
                self.remove_row(y);
                count = count + 1;
                proof {
                    assert(self@ =~= cleared(next) + start.subrange(y as int + 1, BOARD_HEIGHT as int));
                }
            } else {
                proof {
                    assert(self@ =~= cleared(next) + start.subrange(y as int + 1, BOARD_HEIGHT as int));
                }
            }
            y = y + 1;
        }
        assert(start.subrange(0, BOARD_HEIGHT as int) =~= start);
        assert(self@ =~= cleared(start));
        count
    }

    /// Takes out row `y` and puts a free row on top.
    fn remove_row(&mut self, y: usize)
        requires
            old(self).wf(),
            y < BOARD_HEIGHT,
        ensures
            final(self).wf(),
            final(self)@ == seq![free_row()] + old(self)@.remove(y as int),
    {
        self.blocks.remove(y);
        let row = [Block::Free; BOARD_WIDTH];
        assert(row@ =~= free_row());
        self.blocks.insert(0, row);
        assert(self@ =~= seq![free_row()] + old(self)@.remove(y as int));
    }
}

/// Counting full rows and keeping the others both split over a concatenation.
pub proof fn lemma_split_rows(a: Seq<Seq<Block>>, b: Seq<Seq<Block>>)
    ensures
        full_row_count(a + b) == full_row_count(a) + full_row_count(b),
        kept_rows(a + b) == kept_rows(a) + kept_rows(b),
    decreases b.len(),
{
    if b.len() == 0 {
        assert(a + b =~= a);
        assert(kept_rows(a) + kept_rows(b) =~= kept_rows(a));
    } else {
        lemma_split_rows(a, b.drop_last());
        assert((a + b).drop_last() =~= a + b.drop_last());
        assert((a + b).last() == b.last());
        assert(kept_rows(a + b) =~= kept_rows(a) + kept_rows(b));
    }
}

/// A row that is not full sits in the kept rows at its own index less the
/// number of full rows above it.
pub proof fn lemma_kept_index(rows: Seq<Seq<Block>>, y: int)
    requires
        0 <= y < rows.len(),
        !is_full_row(rows[y]),
    ensures
        y - full_row_count(rows.subrange(0, y)) >= 0,
        kept_rows(rows)[y - full_row_count(rows.subrange(0, y))] == rows[y],
{
    let above = rows.subrange(0, y);
    let below = rows.subrange(y + 1, rows.len() as int);
    let one = seq![rows[y]];
    lemma_cleared_len(above);
    lemma_split_rows(above, one);
    lemma_split_rows(above + one, below);
    assert(rows =~= above + one + below);
    lemma_single_row(rows[y]);
}

/// A single row that is not full is kept and counts no full row.
proof fn lemma_single_row(row: Seq<Block>)
    requires
        !is_full_row(row),
    ensures
        kept_rows(seq![row]) == seq![row],
        full_row_count(seq![row]) == 0,
{
    let one = seq![row];
    let none = Seq::<Seq<Block>>::empty();
    assert(one.drop_last() =~= none);
    assert(kept_rows(none) == none);
    assert(full_row_count(none) == 0);
    assert(kept_rows(one) =~= one);
}

/// Clearing a grid with `k` full rows removes exactly those rows: the top
/// `k` rows become free, every other row keeps its content and moves down by
/// the number of full rows beneath it, and the grid keeps its dimensions.
pub proof fn lemma_clear_shifts(rows: Seq<Seq<Block>>)
    requires
        grid_shaped(rows),
    ensures
        grid_shaped(cleared(rows)),
        kept_rows(rows).len() == BOARD_HEIGHT - full_row_count(rows),
        forall|i: int| 0 <= i < full_row_count(rows) ==> #[trigger] cleared(rows)[i] == free_row(),
        forall|i: int|
            0 <= i < BOARD_HEIGHT && !is_full_row(#[trigger] rows[i]) ==> cleared(rows)[i
                + full_row_count(rows.subrange(i + 1, BOARD_HEIGHT as int))] == rows[i],
{
    lemma_cleared_grid(rows);
    lemma_cleared_len(rows);
    let k = full_row_count(rows);
    assert forall|i: int|
        0 <= i < BOARD_HEIGHT && !is_full_row(#[trigger] rows[i]) implies cleared(rows)[i
        + full_row_count(rows.subrange(i + 1, BOARD_HEIGHT as int))] == rows[i] by {
        let above = rows.subrange(0, i);
        let below = rows.subrange(i + 1, BOARD_HEIGHT as int);
        lemma_kept_index(rows, i);
        lemma_split_rows(above, seq![rows[i]]);
        lemma_split_rows(above + seq![rows[i]], below);
        assert(rows =~= above + seq![rows[i]] + below);
        lemma_single_row(rows[i]);
        lemma_cleared_len(above);
        lemma_cleared_len(below);
        let j = i - full_row_count(above);
        assert(cleared(rows)[k + j] == kept_rows(rows)[j]);
    }
}

/// Committing a shape and then clearing the full rows: with `k` the number of
/// full rows once the shape is in, clearing removes exactly `k` rows, the top
/// `k` rows become free, every other row keeps its content and moves down by
/// the number of full rows beneath it, and the grid keeps its dimensions.
pub proof fn lemma_commit_then_clear(
    rows: Seq<Seq<Block>>,
    x: int,
    y: int,
    shape: Shape,
    color: Color,
)
    requires
        grid_shaped(rows),
    ensures
        ({
            let after = committed(rows, x, y, shape, color);
            let k = full_row_count(after);
            &&& grid_shaped(after)
            &&& grid_shaped(cleared(after))
            &&& kept_rows(after).len() == BOARD_HEIGHT - k
            &&& forall|i: int| 0 <= i < k ==> #[trigger] cleared(after)[i] == free_row()
            &&& forall|i: int|
                0 <= i < BOARD_HEIGHT && !is_full_row(#[trigger] after[i]) ==> cleared(after)[i
                    + full_row_count(after.subrange(i + 1, BOARD_HEIGHT as int))] == after[i]
        }),
{
    lemma_clear_shifts(committed(rows, x, y, shape, color));
}

/// Clearing keeps the grid's dimensions.
pub proof fn lemma_cleared_grid(rows: Seq<Seq<Block>>)
    requires
        grid_shaped(rows),
    ensures
        grid_shaped(cleared(rows)),
{
    lemma_cleared_len(rows);
    lemma_kept_rows_from(rows);
}

/// Each kept row is one of the given rows.
proof fn lemma_kept_rows_from(rows: Seq<Seq<Block>>)
    ensures
        forall|i: int|
            0 <= i < kept_rows(rows).len() ==> exists|j: int|
                0 <= j < rows.len() && #[trigger] kept_rows(rows)[i] == rows[j],
    decreases rows.len(),
{
    if rows.len() > 0 {
        lemma_kept_rows_from(rows.drop_last());
        let rest = rows.drop_last();
        assert forall|i: int| 0 <= i < kept_rows(rows).len() implies exists|j: int|
            0 <= j < rows.len() && #[trigger] kept_rows(rows)[i] == rows[j] by {
            if i < kept_rows(rest).len() {
                let j = choose|j: int| 0 <= j < rest.len() && #[trigger] kept_rows(rest)[i] == rest[j];
                assert(rows[j] == rest[j]);
            } else {
                assert(kept_rows(rows)[i] == rows[rows.len() - 1]);
            }
        }
    }
}

/// A placement is refused when some set cell falls off the grid or onto an
/// occupied cell.
pub proof fn lemma_fits_rejects(rows: Seq<Seq<Block>>, x: int, y: int, shape: Shape, r: int, c: int)
    requires
        grid_shaped(rows),
        0 <= r < 4,
        0 <= c < 4,
        shape[r][c] == 1,
        !on_board(x + c, y + r) || rows[y + r][x + c] is Occupied,
    ensures
        !fits(rows, x, y, shape),
{
}

/// A shape with no set cell fits anywhere.
pub proof fn lemma_empty_shape_fits(rows: Seq<Seq<Block>>, x: int, y: int)
    ensures
        fits(rows, x, y, [[0, 0, 0, 0], [0, 0, 0, 0], [0, 0, 0, 0], [0, 0, 0, 0]]),
{
    let empty: Shape = [[0, 0, 0, 0], [0, 0, 0, 0], [0, 0, 0, 0], [0, 0, 0, 0]];
    assert forall|rr: int, cc: int| 0 <= rr < 4 && 0 <= cc < 4 implies #[trigger] empty[rr][cc] == 0 by {
        assert(rr == 0 || rr == 1 || rr == 2 || rr == 3);
    }
}

/// The cleared grid has as many rows as the grid it came from.
pub proof fn lemma_cleared_len(rows: Seq<Seq<Block>>)
    ensures
        full_row_count(rows) + kept_rows(rows).len() == rows.len(),
        cleared(rows).len() == rows.len(),
    decreases rows.len(),
{
    if rows.len() > 0 {
        lemma_cleared_len(rows.drop_last());
    }
}

} // verus!
