//! The fruit: one collectible grid cell, with the consumption check and the
//! random re-placement rule.

use vstd::prelude::*;
use crate::grid::{GridPosition, pos_in_range};
use crate::snake::Snake;

verus! {

/// The random source, owned by the orchestration layer and passed explicitly
/// to re-placement.
#[verifier::external_type_specification]
#[verifier::external_body]
pub struct ExThreadRng(rand::rngs::ThreadRng);

/// Relies on rand::Rng::gen_range over the range `0..9`: it returns a value of
/// that half-open range (uniformly), and panics only on an empty range, which
/// `0..9` is not.
#[verifier::external_body]
fn sample_coord_below_nine(rng: &mut rand::rngs::ThreadRng) -> (r: i32)
    ensures
        0 <= r < 9,
{
    rand::Rng::gen_range(rng, 0..9)
}

/// A collectible occupying one grid cell.
#[derive(Clone, Copy, PartialEq, Eq, Structural, Debug)]
pub struct Fruit {
    pub pos: GridPosition,
}

impl Fruit {
    /// Whether the snake consumes this fruit: true iff the fruit's cell equals
    /// the snake's head cell on both axes.
    pub fn snake_can_eat(&self, snake: &Snake) -> (r: bool)
        requires
            snake.body@.len() >= 1,
        ensures
            r == (self.pos == snake.body@[0]),
    {
        self.pos.x == snake.body[0].x && self.pos.y == snake.body[0].y
    }

    /// Relocate the fruit to a random cell that differs from its previous
    /// cell on both axes simultaneously.
    ///
    /// Each axis draws uniformly among the nine coordinates other than the
    /// previous one: a draw below the previous coordinate stands as it is, any
    /// other draw is shifted up by one past it. This realizes in one draw per
    /// axis the distribution of a rejection-sampling loop that re-rolls the
    /// whole cell until both axes differ from the previous cell's.
    pub fn set_rand_position(&mut self, rng: &mut rand::rngs::ThreadRng)
        requires
            pos_in_range(old(self).pos),
        ensures
            pos_in_range(final(self).pos),
            final(self).pos.x != old(self).pos.x,
            final(self).pos.y != old(self).pos.y,
    {
        let last_pos_x = self.pos.x;
        let last_pos_y = self.pos.y;
        let draw_x = sample_coord_below_nine(rng);
        let draw_y = sample_coord_below_nine(rng);
        let new_x = if draw_x < last_pos_x {
            draw_x
        } else {
            draw_x + 1
        };
        let new_y = if draw_y < last_pos_y {
            draw_y
        } else {
            draw_y + 1
        };
        self.pos = GridPosition { x: new_x, y: new_y };
    }
}

} // verus!
