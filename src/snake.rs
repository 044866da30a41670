use crate::direction::{dx, dy, steer, Direction, KeyPresses};
use crate::grid::{at, can_step, step_from, Position};
use vstd::prelude::*;

verus! {

/// The chain after the head left `lead`: the first segment takes `lead`,
/// every other one the place of the segment ahead of it.
pub open spec fn follow(lead: Position, segs: Seq<Position>) -> Seq<Position> {
    seq![lead].add(segs).take(segs.len() as int)
}

/// Head and trailing segments, ordered from the head backwards.
pub struct Snake {
    pub head: Position,
    pub direction: Direction,
    pub segments: Vec<Position>,
}

/// `s` is the snake that a `width` × `height` window starts with: the head at
/// the centre, standing still, and two segments in the cells below it.
pub open spec fn spawned(s: Snake, width: u32, height: u32) -> bool {
    let cx = (width / 2) as int;
    let cy = (height / 2) as int;
    &&& at(s.head) == (cx, cy)
    &&& s.direction == Direction::NONE
    &&& s.segments@.len() == 2
    &&& at(s.segments@[0]) == (cx, cy - 20)
    &&& at(s.segments@[1]) == (cx, cy - 40)
}

/// Segments after one movement tick in direction `d` from a head at `head`:
/// unchanged while the snake stands still, else following the head.
pub open spec fn segments_after(d: Direction, head: Position, segs: Seq<Position>) -> Seq<
    Position,
> {
    if d == Direction::NONE {
        segs
    } else {
        follow(head, segs)
    }
}

impl Snake {
    /// The snake at the start of play in a `width` × `height` window.
    pub fn spawn(width: u32, height: u32) -> (s: Snake)
        ensures
            spawned(s, width, height),
    {
        let cx = (width / 2) as i64;
        let cy = (height / 2) as i64;
        let mut segments: Vec<Position> = Vec::new();
        segments.push(Position { x: cx, y: cy - 20 });
        segments.push(Position { x: cx, y: cy - 40 });
        Snake { head: Position { x: cx, y: cy }, direction: Direction::NONE, segments }
    }

    /// Number of trailing segments.
    pub fn len(&self) -> (n: usize)
        ensures
            n == self.segments@.len(),
    {
        self.segments.len()
    }

    /// Whether the next movement tick stays within `i64`.
    pub fn can_move(&self) -> (r: bool)
        ensures
            r == can_step(self.head, self.direction),
    {
        self.head.can_step(self.direction)
    }

    /// Takes one frame's arrow key presses; a reversal is refused.
    pub fn handle_input(&mut self, keys: KeyPresses)
        ensures
            final(self).direction == steer(old(self).direction, keys),
            final(self).head == old(self).head,
            final(self).segments@ == old(self).segments@,
    {
        self.direction = self.direction.steer(keys);
    }

    /// One movement tick: the head moves one cell in its direction and each
    /// segment takes the place that the one ahead of it held before the tick.
    /// A snake without a direction does not move.
    pub fn move_snake(&mut self)
        requires
            can_step(old(self).head, old(self).direction),
        ensures
            final(self).direction == old(self).direction,
            at(final(self).head) == step_from(at(old(self).head), old(self).direction),
            final(self).segments@ == segments_after(
                old(self).direction,
                old(self).head,
                old(self).segments@,
            ),
    {
        if self.direction == Direction::NONE {
            return;
        }
        let before = self.head;
        self.head = self.head.step(self.direction);
        let ghost old_segs = self.segments@;
        let n = self.segments.len();
        let mut lead = before;
        let mut i: usize = 0;
        while i < n
            invariant
                n == old_segs.len(),
                self.segments@.len() == n,
                0 <= i <= n,
                at(self.head) == step_from(at(old(self).head), old(self).direction),
                self.direction == old(self).direction,
                lead == (if i == 0 { before } else { old_segs[i - 1] }),
                forall|j: int| 0 <= j < i ==> self.segments@[j] == follow(before, old_segs)[j],
                forall|j: int| i <= j < n ==> self.segments@[j] == old_segs[j],
            decreases n - i,
        {
            let here = self.segments[i];
            self.segments.set(i, lead);
            lead = here;
            i = i + 1;
        }
        assert(self.segments@ =~= follow(before, old_segs));
    }

    /// Appends a segment at the head's position.
    pub fn grow(&mut self)
        ensures
            final(self).segments@ == old(self).segments@.push(old(self).head),
            final(self).head == old(self).head,
            final(self).direction == old(self).direction,
    {
        self.segments.push(self.head);
    }
}

/// Where the head stands after `n` movement ticks in direction `d` from `p`.
pub open spec fn head_after(p: (int, int), d: Direction, n: nat) -> (int, int)
    decreases n,
{
    if n == 0 {
        p
    } else {
        step_from(head_after(p, d, (n - 1) as nat), d)
    }
}

/// After `n` ticks with a constant direction the head has moved `n` steps of
/// that direction from where it started.
pub proof fn lemma_head_after_ticks(p: (int, int), d: Direction, n: nat)
    ensures
        head_after(p, d, n) == (p.0 + n * dx(d), p.1 + n * dy(d)),
    decreases n,
{
    if n > 0 {
        lemma_head_after_ticks(p, d, (n - 1) as nat);
        assert((n - 1) * dx(d) + dx(d) == n * dx(d)) by (nonlinear_arith);
        assert((n - 1) * dy(d) + dy(d) == n * dy(d)) by (nonlinear_arith);
    }
}

/// In a moving snake every segment ends the tick where the entity ahead of
/// it (the head for the first, else the previous segment) was before it.
pub proof fn lemma_segments_follow_leader(d: Direction, head: Position, segs: Seq<Position>)
    requires
        d != Direction::NONE,
    ensures
        segments_after(d, head, segs).len() == segs.len(),
        segs.len() > 0 ==> segments_after(d, head, segs)[0] == head,
        forall|i: int|
            1 <= i < segs.len() ==> #[trigger] segments_after(d, head, segs)[i] == segs[i - 1],
{
}

} // verus!
