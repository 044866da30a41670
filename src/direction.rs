use vstd::prelude::*;

verus! {

/// Heading of the snake's head. `NONE` until the first arrow key: the head
/// does not move then.
#[derive(Clone, Copy, Debug, PartialEq, Eq, Structural)]
pub enum Direction {
    NONE,
    UP,
    DOWN,
    LEFT,
    RIGHT,
}

/// One of the four arrow keys.
#[derive(Clone, Copy, Debug, PartialEq, Eq, Structural)]
pub enum Arrow {
    Left,
    Right,
    Up,
    Down,
}

/// The arrow keys that went down during one frame (edge-triggered).
#[derive(Clone, Copy, Debug, PartialEq, Eq, Structural)]
pub struct KeyPresses {
    pub left: bool,
    pub right: bool,
    pub up: bool,
    pub down: bool,
}

/// The reverse of a heading; `NONE` has none but itself.
pub open spec fn opposite_of(d: Direction) -> Direction {
    match d {
        Direction::NONE => Direction::NONE,
        Direction::UP => Direction::DOWN,
        Direction::DOWN => Direction::UP,
        Direction::LEFT => Direction::RIGHT,
        Direction::RIGHT => Direction::LEFT,
    }
}

/// The heading an arrow key asks for.
pub open spec fn heading_of(a: Arrow) -> Direction {
    match a {
        Arrow::Left => Direction::LEFT,
        Arrow::Right => Direction::RIGHT,
        Arrow::Up => Direction::UP,
        Arrow::Down => Direction::DOWN,
    }
}

/// Heading after one arrow key: taken unless it is the reverse of `d`.
pub open spec fn turn_to(d: Direction, a: Arrow) -> Direction {
    if heading_of(a) == opposite_of(d) {
        d
    } else {
        heading_of(a)
    }
}

/// Heading after one frame's key presses, looked at in the order left, right,
/// up, down; each one that is pressed is a turn from the heading so far.
pub open spec fn steer(d: Direction, k: KeyPresses) -> Direction {
    let d1 = if k.left { turn_to(d, Arrow::Left) } else { d };
    let d2 = if k.right { turn_to(d1, Arrow::Right) } else { d1 };
    let d3 = if k.up { turn_to(d2, Arrow::Up) } else { d2 };
    if k.down { turn_to(d3, Arrow::Down) } else { d3 }
}

/// A frame in which exactly the key `a` was pressed.
pub open spec fn only(a: Arrow) -> KeyPresses {
    KeyPresses {
        left: a == Arrow::Left,
        right: a == Arrow::Right,
        up: a == Arrow::Up,
        down: a == Arrow::Down,
    }
}

/// Horizontal pixel offset of one move; the y axis points up.
pub open spec fn dx(d: Direction) -> int {
    match d {
        Direction::LEFT => -20,
        Direction::RIGHT => 20,
        _ => 0,
    }
}

/// Vertical pixel offset of one move; the y axis points up.
pub open spec fn dy(d: Direction) -> int {
    match d {
        Direction::UP => 20,
        Direction::DOWN => -20,
        _ => 0,
    }
}

impl Direction {
    pub fn opposite(self) -> (r: Direction)
        ensures
            r == opposite_of(self),
    {
        match self {
            Direction::NONE => Direction::NONE,
            Direction::UP => Direction::DOWN,
            Direction::DOWN => Direction::UP,
            Direction::LEFT => Direction::RIGHT,
            Direction::RIGHT => Direction::LEFT,
        }
    }

    /// The heading after pressing `a`: a reversal is refused.
    pub fn turn(self, a: Arrow) -> (r: Direction)
        ensures
            r == turn_to(self, a),
    {
        let wanted = a.heading();
        if wanted == self.opposite() {
            self
        } else {
            wanted
        }
    }

    /// The heading after one frame's key presses.
    pub fn steer(self, keys: KeyPresses) -> (r: Direction)
        ensures
            r == steer(self, keys),
    {
        let mut d = self;
        if keys.left {
            d = d.turn(Arrow::Left);
        }
        if keys.right {
            d = d.turn(Arrow::Right);
        }
        if keys.up {
            d = d.turn(Arrow::Up);
        }
        if keys.down {
            d = d.turn(Arrow::Down);
        }
        d
    }
}

impl Arrow {
    pub fn heading(self) -> (r: Direction)
        ensures
            r == heading_of(self),
    {
        match self {
            Arrow::Left => Direction::LEFT,
            Arrow::Right => Direction::RIGHT,
            Arrow::Up => Direction::UP,
            Arrow::Down => Direction::DOWN,
        }
    }
}

impl KeyPresses {
    /// A frame with no arrow key pressed.
    pub fn none() -> (k: KeyPresses)
        ensures
            !k.left && !k.right && !k.up && !k.down,
    {
        KeyPresses { left: false, right: false, up: false, down: false }
    }

    /// A frame in which only `a` was pressed.
    pub fn only(a: Arrow) -> (k: KeyPresses)
        ensures
            k == only(a),
    {
        KeyPresses {
            left: a == Arrow::Left,
            right: a == Arrow::Right,
            up: a == Arrow::Up,
            down: a == Arrow::Down,
        }
    }
}

/// Pressing the key that points exactly backwards leaves the heading as it
/// was, whichever of the four keys it is.
pub proof fn lemma_reversal_ignored(d: Direction, a: Arrow)
    requires
        heading_of(a) == opposite_of(d),
    ensures
        turn_to(d, a) == d,
        steer(d, only(a)) == d,
{
}

} // verus!
