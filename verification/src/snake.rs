//! The snake: an ordered body of grid cells, a heading, and the per-tick
//! movement, growth and self-collision algorithms.

use vstd::prelude::*;
use crate::grid::{GRID_SIZE, GridPosition, pos_in_range, wrap_coord};
use crate::direction::{SnakeDirection, dir_dx, dir_dy};

verus! {

/// The snake's body from head (front) to tail (back), and its heading.
pub struct Snake {
    pub body: Vec<GridPosition>,
    pub direction: SnakeDirection,
}

/// The head cell displaced one unit along the heading's axis, each coordinate
/// wrapped back onto the grid.
pub open spec fn spec_moved_head(h: GridPosition, d: SnakeDirection) -> GridPosition {
    GridPosition {
        x: wrap_coord(h.x + dir_dx(d)) as i32,
        y: wrap_coord(h.y + dir_dy(d)) as i32,
    }
}

/// The body after one movement step: the moved head in front, the old tail
/// cell dropped, every other cell shifted back by one place.
pub open spec fn spec_moved_body(body: Seq<GridPosition>, d: SnakeDirection) -> Seq<GridPosition> {
    seq![spec_moved_head(body[0], d)] + body.take(body.len() - 1)
}

/// The head cell coincides with some later cell of the body.
pub open spec fn spec_snake_died(body: Seq<GridPosition>) -> bool {
    exists|i: int| 1 <= i < body.len() && #[trigger] body[i] == body[0]
}

/// `body` with `k` duplicates of its tail cell appended: the effect of `k`
/// growth steps on a body whose tail cell is `body.last()`.
pub open spec fn spec_grown(body: Seq<GridPosition>, k: nat) -> Seq<GridPosition>
    decreases k,
{
    if k == 0 {
        body
    } else {
        spec_grown(body, (k - 1) as nat) + seq![body.last()]
    }
}

/// Growth never disturbs the front of the body, keeps every cell that was
/// there, and only repeats the tail cell.
pub proof fn lemma_grown_shape(body: Seq<GridPosition>, k: nat)
    requires
        body.len() >= 1,
    ensures
        spec_grown(body, k).len() == body.len() + k,
        spec_grown(body, k)[0] == body[0],
        spec_grown(body, k).last() == body.last(),
        forall|i: int| 0 <= i < body.len() ==> #[trigger] spec_grown(body, k)[i] == body[i],
        forall|i: int|
            body.len() <= i < spec_grown(body, k).len() ==> #[trigger] spec_grown(body, k)[i]
                == body.last(),
    decreases k,
{
    if k > 0 {
        lemma_grown_shape(body, (k - 1) as nat);
    }
}

impl Snake {
    /// Well-formed: at least two body cells, all of them on the grid.
    pub open spec fn wf(self) -> bool {
        self.body@.len() >= 2 && forall|i: int|
            0 <= i < self.body@.len() ==> pos_in_range(#[trigger] self.body@[i])
    }

    /// Compute the next head cell: one step along the heading, wrapped.
    fn moved_head(&self) -> (r: GridPosition)
        requires
            self.body@.len() >= 1,
            pos_in_range(self.body@[0]),
        ensures
            r == spec_moved_head(self.body@[0], self.direction),
            pos_in_range(r),
    {
        let mut x = self.body[0].x;
        let mut y = self.body[0].y;
        match self.direction {
            SnakeDirection::Right => x = x + 1,
            SnakeDirection::Left => x = x - 1,
            SnakeDirection::Up => y = y - 1,
            SnakeDirection::Down => y = y + 1,
        }
        if x < 0 {
            x = GRID_SIZE - 1;
        } else if x > GRID_SIZE - 1 {
            x = 0;
        }
        if y < 0 {
            y = GRID_SIZE - 1;
        } else if y > GRID_SIZE - 1 {
            y = 0;
        }
        GridPosition { x, y }
    }

    /// One movement step: insert the moved head at the front and drop the old
    /// tail cell, leaving the length unchanged.
    pub fn update(&mut self)
        requires
            old(self).wf(),
        ensures
            final(self).wf(),
            final(self).direction == old(self).direction,
            final(self).body@ == spec_moved_body(old(self).body@, old(self).direction),
    {
        let new_head = self.moved_head();
        self.body.insert(0, new_head);
        self.body.pop();
        proof {
            assert(self.body@ =~= spec_moved_body(old(self).body@, old(self).direction));
        }
    }

    /// Append a duplicate of the tail cell, so that the next movement step's
    /// tail drop is offset and the body comes out one cell longer.
    pub fn increase_body_size(&mut self)
        requires
            old(self).body@.len() >= 1,
        ensures
            final(self).direction == old(self).direction,
            final(self).body@ == old(self).body@ + seq![old(self).body@.last()],
    {
        let tail = self.body[self.body.len() - 1];
        self.body.push(tail);
    }

    /// Whether the head revisits any other cell of the body.
    pub fn snake_died(&self) -> (r: bool)
        requires
            self.body@.len() >= 1,
        ensures
            r == spec_snake_died(self.body@),
    {
        let head = self.body[0];
        let mut i: usize = 1;
        while i < self.body.len()
            invariant
                1 <= i <= self.body@.len(),
                head == self.body@[0],
                forall|j: int| 1 <= j < i ==> #[trigger] self.body@[j] != self.body@[0],
            decreases self.body@.len() - i,
        {
            if self.body[i] == head {
                return true;
            }
            i = i + 1;
        }
        false
    }
}

} // verus!
