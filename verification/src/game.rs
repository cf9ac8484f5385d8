//! Orchestration: one key-press event, one tick event, and the read-only
//! render snapshot, over one snake, a collection of fruits, and the one-way
//! terminal flag.

use vstd::prelude::*;
use crate::grid::{GridPosition, pos_in_range};
use crate::direction::{InputKey, SnakeDirection, apply_key, spec_apply_key};
use crate::fruit::Fruit;
use crate::snake::{
    Snake, lemma_grown_shape, spec_grown, spec_moved_body, spec_moved_head, spec_snake_died,
};

verus! {

/// The whole game state: the snake, the fruits, and whether the game has
/// ended. `end_game` moves from false to true once, on self-collision, and
/// never back.
pub struct Game {
    pub snake: Snake,
    pub fruits: Vec<Fruit>,
    pub end_game: bool,
}

/// How many of the first `i` fruits sit on the cell `head`.
pub open spec fn spec_eaten_before(fruits: Seq<Fruit>, head: GridPosition, i: int) -> nat
    decreases i,
{
    if i <= 0 {
        0
    } else {
        spec_eaten_before(fruits, head, i - 1) + (if fruits[i - 1].pos == head {
            1nat
        } else {
            0nat
        })
    }
}

/// How many fruits sit on the cell `head`: the number of growth steps one
/// tick applies.
pub open spec fn spec_eaten(fruits: Seq<Fruit>, head: GridPosition) -> nat {
    spec_eaten_before(fruits, head, fruits.len() as int)
}

/// The head cell after one movement step of `g`'s snake.
pub open spec fn spec_new_head(g: Game) -> GridPosition {
    spec_moved_head(g.snake.body@[0], g.snake.direction)
}

/// The snake body one tick of `g` commits: the moved body, grown by one tail
/// duplicate per consumed fruit.
pub open spec fn spec_post_tick_body(g: Game) -> Seq<GridPosition> {
    spec_grown(
        spec_moved_body(g.snake.body@, g.snake.direction),
        spec_eaten(g.fruits@, spec_new_head(g)),
    )
}

/// What one tick does to one fruit, given the committed head cell: a consumed
/// fruit moves to a cell of the grid that differs from its previous cell on
/// both axes; any other fruit stands unchanged.
pub open spec fn spec_fruit_outcome(before: Fruit, after: Fruit, head: GridPosition) -> bool {
    if before.pos == head {
        pos_in_range(after.pos) && after.pos.x != before.pos.x && after.pos.y != before.pos.y
    } else {
        after == before
    }
}

/// What a render request reads, and all it reads: the body cells from head to
/// tail, the fruit cells, and whether the game has ended.
pub open spec fn spec_snapshot(g: Game) -> (Seq<GridPosition>, Seq<GridPosition>, bool) {
    (g.snake.body@, g.fruits@.map_values(|f: Fruit| f.pos), g.end_game)
}

/// Rendering is a pure read: any two snapshots of one state, with no input or
/// tick between them, are identical.
pub proof fn lemma_snapshot_idempotent(
    g: Game,
    first: (Seq<GridPosition>, Seq<GridPosition>, bool),
    second: (Seq<GridPosition>, Seq<GridPosition>, bool),
)
    requires
        first == spec_snapshot(g),
        second == spec_snapshot(g),
    ensures
        first == second,
{
}

/// Wrap invariant: from any well-formed state, every body cell a tick commits
/// lies in `[0, GRID_SIZE - 1]` on both axes.
pub proof fn lemma_tick_body_in_range(g: Game)
    requires
        g.wf(),
    ensures
        spec_post_tick_body(g).len() >= 2,
        forall|i: int|
            0 <= i < spec_post_tick_body(g).len() ==> pos_in_range(
                #[trigger] spec_post_tick_body(g)[i],
            ),
{
    let moved = spec_moved_body(g.snake.body@, g.snake.direction);
    assert(forall|i: int| 0 <= i < moved.len() ==> pos_in_range(#[trigger] moved[i]));
    lemma_grown_shape(moved, spec_eaten(g.fruits@, spec_new_head(g)));
}

impl Game {
    /// Well-formed: the snake is well-formed and every fruit lies on the grid.
    pub open spec fn wf(self) -> bool {
        self.snake.wf() && forall|i: int|
            0 <= i < self.fruits@.len() ==> pos_in_range(#[trigger] self.fruits@[i].pos)
    }

    /// The starting state: a two-cell snake at the origin heading right, one
    /// fruit at the center of the grid, game running.
    pub fn new() -> (g: Game)
        ensures
            g.wf(),
            g.snake.body@ == seq![
                GridPosition { x: 0, y: 0 },
                GridPosition { x: 0, y: 0 },
            ],
            g.snake.direction == SnakeDirection::Right,
            g.fruits@ == seq![Fruit { pos: GridPosition { x: 5, y: 5 } }],
            !g.end_game,
    {
        let mut body: Vec<GridPosition> = Vec::new();
        body.push(GridPosition { x: 0, y: 0 });
        body.push(GridPosition { x: 0, y: 0 });
        let mut fruits: Vec<Fruit> = Vec::new();
        fruits.push(Fruit { pos: GridPosition { x: 5, y: 5 } });
        proof {
            assert(body@ =~= seq![GridPosition { x: 0, y: 0 }, GridPosition { x: 0, y: 0 }]);
            assert(fruits@ =~= seq![Fruit { pos: GridPosition { x: 5, y: 5 } }]);
        }
        Game { snake: Snake { body, direction: SnakeDirection::Right }, fruits, end_game: false }
    }

    /// One key-press event: while the game runs, update the heading under the
    /// no-reversal rule; once ended, the event changes nothing.
    pub fn pressed_event(&mut self, key: InputKey)
        ensures
            old(self).end_game ==> *final(self) == *old(self),
            !old(self).end_game ==> final(self).snake.direction == spec_apply_key(
                old(self).snake.direction,
                key,
            ),
            final(self).snake.body@ == old(self).snake.body@,
            final(self).fruits@ == old(self).fruits@,
            final(self).end_game == old(self).end_game,
    {
        if !self.end_game {
            self.snake.direction = apply_key(self.snake.direction, key);
        }
    }

    /// One tick event. While the game runs: move the snake one step with wrap;
    /// relocate each consumed fruit and grow the snake by one tail duplicate
    /// for it; then end the game iff the committed head revisits the body.
    /// Once ended, the event changes nothing.
    pub fn update_event(&mut self, rng: &mut rand::rngs::ThreadRng)
        requires
            old(self).wf(),
        ensures
            final(self).wf(),
            old(self).end_game ==> *final(self) == *old(self),
            !old(self).end_game ==> {
                &&& final(self).snake.direction == old(self).snake.direction
                &&& final(self).snake.body@ == spec_post_tick_body(*old(self))
                &&& final(self).fruits@.len() == old(self).fruits@.len()
                &&& forall|i: int|
                    0 <= i < old(self).fruits@.len() ==> spec_fruit_outcome(
                        old(self).fruits@[i],
                        #[trigger] final(self).fruits@[i],
                        spec_new_head(*old(self)),
                    )
                &&& final(self).end_game == spec_snake_died(spec_post_tick_body(*old(self)))
            },
    {
        if self.end_game {
            return ;
        }
        let ghost g0 = *self;
        self.snake.update();
        let ghost moved = self.snake.body@;
        let ghost head = spec_new_head(g0);
        proof {
            assert(moved[0] == head);
        }
        let mut i: usize = 0;
        while i < self.fruits.len()
            invariant
                i <= self.fruits@.len(),
                self.fruits@.len() == g0.fruits@.len(),
                self.snake.direction == g0.snake.direction,
                moved == spec_moved_body(g0.snake.body@, g0.snake.direction),
                moved.len() >= 2,
                moved[0] == head,
                forall|k: int| 0 <= k < moved.len() ==> pos_in_range(#[trigger] moved[k]),
                self.snake.body@ == spec_grown(moved, spec_eaten_before(g0.fruits@, head, i as int)),
                forall|j: int| i <= j < g0.fruits@.len() ==> #[trigger] self.fruits@[j]
                    == g0.fruits@[j],
                forall|j: int|
                    0 <= j < i ==> spec_fruit_outcome(
                        g0.fruits@[j],
                        #[trigger] self.fruits@[j],
                        head,
                    ),
                forall|j: int| 0 <= j < g0.fruits@.len() ==> pos_in_range(
                    #[trigger] g0.fruits@[j].pos,
                ),
                !self.end_game,
            decreases self.fruits@.len() - i,
        {
            let ghost eaten_so_far = spec_eaten_before(g0.fruits@, head, i as int);
            proof {
                lemma_grown_shape(moved, eaten_so_far);
            }
            if self.fruits[i].snake_can_eat(&self.snake) {
                let mut fruit = self.fruits[i];
                fruit.set_rand_position(rng);
                self.fruits[i] = fruit;
                self.snake.increase_body_size();
                proof {
                    assert(self.snake.body@ =~= spec_grown(moved, eaten_so_far + 1));
                }
            }
            i = i + 1;
        }
        proof {
            lemma_grown_shape(moved, spec_eaten(g0.fruits@, head));
            assert forall|j: int| 0 <= j < self.fruits@.len() implies pos_in_range(
                #[trigger] self.fruits@[j].pos,
            ) by {
                assert(spec_fruit_outcome(g0.fruits@[j], self.fruits@[j], head));
            };
        }
        if self.snake.snake_died() {
            self.end_game = true;
        }
    }

    /// Read the renderable state without mutation: the body cells from head
    /// to tail, the fruit cells, and the terminal flag.
    pub fn render_snapshot(&self) -> (r: (Vec<GridPosition>, Vec<GridPosition>, bool))
        ensures
            (r.0@, r.1@, r.2) == spec_snapshot(*self),
    {
        let mut body: Vec<GridPosition> = Vec::new();
        let mut i: usize = 0;
        while i < self.snake.body.len()
            invariant
                i <= self.snake.body@.len(),
                body@ == self.snake.body@.take(i as int),
            decreases self.snake.body@.len() - i,
        {
            body.push(self.snake.body[i]);
            proof {
                assert(body@ =~= self.snake.body@.take(i + 1));
            }
            i = i + 1;
        }
        let mut fruit_cells: Vec<GridPosition> = Vec::new();
        let mut j: usize = 0;
        while j < self.fruits.len()
            invariant
                j <= self.fruits@.len(),
                fruit_cells@.len() == j,
                forall|k: int| 0 <= k < j ==> #[trigger] fruit_cells@[k] == self.fruits@[k].pos,
            decreases self.fruits@.len() - j,
        {
            fruit_cells.push(self.fruits[j].pos);
            j = j + 1;
        }
        proof {
            assert(body@ =~= self.snake.body@);
            assert(fruit_cells@ =~= self.fruits@.map_values(|f: Fruit| f.pos));
        }
        (body, fruit_cells, self.end_game)
    }
}

} // verus!
