use crate::direction::{steer, KeyPresses};
use crate::grid::{at, can_step, on_board, random_food_position, step_from, Position, CELL};
use crate::snake::{segments_after, spawned, Snake};
use vstd::prelude::*;

verus! {

/// Everything that play acts on: the snake, the one piece of food and the
/// window it lives in.
pub struct Game {
    pub snake: Snake,
    pub food: Position,
    pub width: u32,
    pub height: u32,
}

impl Game {
    /// The window holds at least one cell in each axis.
    pub open spec fn wf(&self) -> bool {
        self.width >= CELL && self.height >= CELL
    }

    /// A new round in a `width` × `height` window: the starting snake and
    /// food on a random cell.
    pub fn start(width: u32, height: u32) -> (g: Game)
        requires
            width >= CELL,
            height >= CELL,
        ensures
            g.wf(),
            g.width == width,
            g.height == height,
            spawned(g.snake, width, height),
            on_board(g.food, width as int, height as int),
    {
        let snake = Snake::spawn(width, height);
        let food = random_food_position(width, height);
        Game { snake, food, width, height }
    }

    /// Whether the head is on the food.
    pub fn food_reached(&self) -> (r: bool)
        ensures
            r == (self.snake.head == self.food),
    {
        self.snake.head == self.food
    }

    /// Where the head is on the food, the food goes to `fresh` and the snake
    /// gains one segment at the head; the segments it had stay where they are.
    /// Otherwise nothing changes.
    pub fn eat_food(&mut self, fresh: Position)
        ensures
            final(self).width == old(self).width,
            final(self).height == old(self).height,
            final(self).snake.head == old(self).snake.head,
            final(self).snake.direction == old(self).snake.direction,
            old(self).snake.head == old(self).food ==> final(self).food == fresh
                && final(self).snake.segments@ == old(self).snake.segments@.push(
                old(self).snake.head,
            ),
            old(self).snake.head != old(self).food ==> final(self).food == old(self).food
                && final(self).snake.segments@ == old(self).snake.segments@,
    {
        if self.food_reached() {
            self.food = fresh;
            self.snake.grow();
        }
    }

    /// Where the head is on the food, the food moves to a random cell and the
    /// snake gains one segment at the head. Otherwise nothing changes.
    pub fn handle_food_eaten(&mut self)
        requires
            old(self).wf(),
        ensures
            final(self).wf(),
            final(self).width == old(self).width,
            final(self).height == old(self).height,
            final(self).snake.head == old(self).snake.head,
            final(self).snake.direction == old(self).snake.direction,
            old(self).snake.head == old(self).food ==> on_board(
                final(self).food,
                old(self).width as int,
                old(self).height as int,
            ) && final(self).snake.segments@ == old(self).snake.segments@.push(
                old(self).snake.head,
            ),
            old(self).snake.head != old(self).food ==> final(self).food == old(self).food
                && final(self).snake.segments@ == old(self).snake.segments@,
    {
        if self.food_reached() {
            let fresh = random_food_position(self.width, self.height);
            self.eat_food(fresh);
        }
    }

    /// Whether the next frame's movement stays within `i64` after `keys`.
    pub fn can_update(&self, keys: KeyPresses) -> (r: bool)
        ensures
            r == can_step(self.snake.head, steer(self.snake.direction, keys)),
    {
        self.snake.head.can_step(self.snake.direction.steer(keys))
    }

    /// One frame of play: the key presses steer, the snake moves, and food
    /// under the new head is eaten.
    pub fn update(&mut self, keys: KeyPresses)
        requires
            old(self).wf(),
            can_step(old(self).snake.head, steer(old(self).snake.direction, keys)),
        ensures
            final(self).wf(),
            final(self).width == old(self).width,
            final(self).height == old(self).height,
            final(self).snake.direction == steer(old(self).snake.direction, keys),
            at(final(self).snake.head) == step_from(
                at(old(self).snake.head),
                steer(old(self).snake.direction, keys),
            ),
            ({
                let moved = segments_after(
                    steer(old(self).snake.direction, keys),
                    old(self).snake.head,
                    old(self).snake.segments@,
                );
                if final(self).snake.head == old(self).food {
                    &&& on_board(final(self).food, old(self).width as int, old(self).height as int)
                    &&& final(self).snake.segments@ == moved.push(final(self).snake.head)
                } else {
                    &&& final(self).food == old(self).food
                    &&& final(self).snake.segments@ == moved
                }
            }),
    {
        self.snake.handle_input(keys);
        self.snake.move_snake();
        self.handle_food_eaten();
    }
}

} // verus!
