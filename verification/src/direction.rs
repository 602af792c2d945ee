use vstd::prelude::*;

verus! {

/// The six faces of a block or of a chunk section.
#[derive(Clone, Copy, Debug, PartialEq, Eq, Structural)]
pub enum Direction {
    Up,
    Down,
    North,
    South,
    West,
    East,
}

impl Direction {
    /// The position of this direction in `Direction::all()`; used as a bit index.
    pub open spec fn spec_index(self) -> nat {
        match self {
            Direction::Up => 0,
            Direction::Down => 1,
            Direction::North => 2,
            Direction::South => 3,
            Direction::West => 4,
            Direction::East => 5,
        }
    }

    /// The unit step that moves one block towards this face.
    pub open spec fn spec_offset(self) -> (int, int, int) {
        match self {
            Direction::Up => (0, 1, 0),
            Direction::Down => (0, -1, 0),
            Direction::North => (0, 0, -1),
            Direction::South => (0, 0, 1),
            Direction::West => (-1, 0, 0),
            Direction::East => (1, 0, 0),
        }
    }

    /// The direction whose index is `i`.
    pub open spec fn from_index(i: int) -> Direction {
        if i == 0 {
            Direction::Up
        } else if i == 1 {
            Direction::Down
        } else if i == 2 {
            Direction::North
        } else if i == 3 {
            Direction::South
        } else if i == 4 {
            Direction::West
        } else {
            Direction::East
        }
    }

    pub fn index(&self) -> (i: usize)
        ensures
            i == self.spec_index(),
            i < 6,
    {
        match self {
            Direction::Up => 0,
            Direction::Down => 1,
            Direction::North => 2,
            Direction::South => 3,
            Direction::West => 4,
            Direction::East => 5,
        }
    }

    pub fn get_offset(&self) -> (o: (i32, i32, i32))
        ensures
            (o.0 as int, o.1 as int, o.2 as int) == self.spec_offset(),
    {
        match self {
            Direction::Up => (0, 1, 0),
            Direction::Down => (0, -1, 0),
            Direction::North => (0, 0, -1),
            Direction::South => (0, 0, 1),
            Direction::West => (-1, 0, 0),
            Direction::East => (1, 0, 0),
        }
    }

    /// All six directions, in index order.
    pub fn all() -> (v: Vec<Direction>)
        ensures
            v@ == seq![
                Direction::Up,
                Direction::Down,
                Direction::North,
                Direction::South,
                Direction::West,
                Direction::East,
            ],
            forall|i: int| 0 <= i < 6 ==> (#[trigger] v@[i]).spec_index() == i,
            forall|d: Direction| v@[d.spec_index() as int] == d,
    {
        vec![
            Direction::Up,
            Direction::Down,
            Direction::North,
            Direction::South,
            Direction::West,
            Direction::East,
        ]
    }
}

/// Indices identify directions.
pub proof fn lemma_index_injective(a: Direction, b: Direction)
    ensures
        a.spec_index() == b.spec_index() <==> a == b,
        Direction::from_index(a.spec_index() as int) == a,
{
}

} // verus!
