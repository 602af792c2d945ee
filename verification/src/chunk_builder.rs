use vstd::prelude::*;

use crate::direction::Direction;
use rand::SeedableRng;

verus! {

// ---------------------------------------------------------------------------
// The model of a chunk section: 16 x 16 x 16 blocks, each of which either
// culls the faces of its neighbours (it is opaque) or lets the view through.
// ---------------------------------------------------------------------------

/// A block position inside (or just outside) a section, as mathematical integers.
pub type Cell = (int, int, int);

/// What the culling computation reads of a captured section: for every block,
/// whether it should cull against its neighbours. The block at `(x, y, z)` is
/// stored at index `x + 16 * z + 256 * y`.
pub struct SectionSnapshot {
    pub culls: Vec<bool>,
}

impl SectionSnapshot {
    pub open spec fn wf(&self) -> bool {
        self.culls@.len() == 4096
    }
}

pub open spec fn in_section(c: Cell) -> bool {
    &&& 0 <= c.0 < 16
    &&& 0 <= c.1 < 16
    &&& 0 <= c.2 < 16
}

pub open spec fn cell_index(c: Cell) -> int {
    c.0 + 16 * c.2 + 256 * c.1
}

/// The cell stored at linear index `i`.
pub open spec fn cell_at(i: int) -> Cell {
    (i % 16, i / 256, (i / 16) % 16)
}

/// A cell of the section through which one can see.
pub open spec fn is_open(culls: Seq<bool>, c: Cell) -> bool {
    in_section(c) && !culls[cell_index(c)]
}

pub open spec fn neighbor(c: Cell, d: Direction) -> Cell {
    let o = d.spec_offset();
    (c.0 + o.0, c.1 + o.1, c.2 + o.2)
}

pub open spec fn opposite(d: Direction) -> Direction {
    match d {
        Direction::Up => Direction::Down,
        Direction::Down => Direction::Up,
        Direction::North => Direction::South,
        Direction::South => Direction::North,
        Direction::West => Direction::East,
        Direction::East => Direction::West,
    }
}

/// The cell lies on the face of the section that looks towards `d`.
pub open spec fn on_face(c: Cell, d: Direction) -> bool {
    match d {
        Direction::Up => c.1 == 15,
        Direction::Down => c.1 == 0,
        Direction::North => c.2 == 0,
        Direction::South => c.2 == 15,
        Direction::West => c.0 == 0,
        Direction::East => c.0 == 15,
    }
}

/// `t` can be reached from `s` by at most `n` steps between adjacent open cells.
pub open spec fn reach(culls: Seq<bool>, s: Cell, t: Cell, n: nat) -> bool
    decreases n,
{
    if n == 0 {
        s == t && is_open(culls, s)
    } else {
        ||| reach(culls, s, t, (n - 1) as nat)
        ||| is_open(culls, t) && exists|d: Direction|
            reach(culls, s, #[trigger] neighbor(t, d), (n - 1) as nat)
    }
}

/// `t` can be seen from `s` through open cells.
pub open spec fn connected(culls: Seq<bool>, s: Cell, t: Cell) -> bool {
    exists|n: nat| #[trigger] reach(culls, s, t, n)
}

/// The open region around `s` reaches the face `d` of the section.
pub open spec fn touches(culls: Seq<bool>, s: Cell, d: Direction) -> bool {
    exists|a: Cell| #[trigger] connected(culls, s, a) && on_face(a, d)
}

/// Some open region of the section reaches both face `d1` and face `d2`:
/// looking in through `d1` one may see out through `d2`.
pub open spec fn sees_through(culls: Seq<bool>, d1: Direction, d2: Direction) -> bool {
    exists|s: Cell|
        #![trigger touches(culls, s, d1), touches(culls, s, d2)]
        is_open(culls, s) && touches(culls, s, d1) && touches(culls, s, d2)
}

/// Every open visited cell has all its open neighbours visited as well.
pub open spec fn closed(culls: Seq<bool>, visited: Seq<bool>) -> bool {
    forall|c: Cell, d: Direction|
        #![trigger visited[cell_index(c)], neighbor(c, d)]
        in_section(c) && visited[cell_index(c)] && is_open(culls, c) && is_open(
            culls,
            neighbor(c, d),
        ) ==> visited[cell_index(neighbor(c, d))]
}

pub open spec fn u8_has_bit(t: u8, i: nat) -> bool {
    t & (1u8 << (i as u8)) != 0
}

// ---------------------------------------------------------------------------
// Lemmas on reachability.
// ---------------------------------------------------------------------------

proof fn lemma_reach_ends_open(culls: Seq<bool>, s: Cell, t: Cell, n: nat)
    requires
        reach(culls, s, t, n),
    ensures
        is_open(culls, s),
        is_open(culls, t),
    decreases n,
{
    if n > 0 {
        if reach(culls, s, t, (n - 1) as nat) {
            lemma_reach_ends_open(culls, s, t, (n - 1) as nat);
        } else {
            let d = choose|d: Direction| reach(culls, s, #[trigger] neighbor(t, d), (n - 1) as nat);
            lemma_reach_ends_open(culls, s, neighbor(t, d), (n - 1) as nat);
        }
    }
}

proof fn lemma_reach_step(culls: Seq<bool>, s: Cell, u: Cell, d: Direction, n: nat)
    requires
        reach(culls, s, u, n),
        is_open(culls, neighbor(u, d)),
    ensures
        reach(culls, s, neighbor(u, d), n + 1),
{
    let t = neighbor(u, d);
    let m: nat = n + 1;
    assert(neighbor(t, opposite(d)) == u);
    assert((m - 1) as nat == n);
    assert(reach(culls, s, neighbor(t, opposite(d)), (m - 1) as nat));
    assert(reach(culls, s, t, m));
}

proof fn lemma_reach_trans(culls: Seq<bool>, a: Cell, b: Cell, c: Cell, n: nat, m: nat)
    requires
        reach(culls, a, b, n),
        reach(culls, b, c, m),
    ensures
        connected(culls, a, c),
    decreases m,
{
    if m == 0 {
        assert(reach(culls, a, c, n));
    } else if reach(culls, b, c, (m - 1) as nat) {
        lemma_reach_trans(culls, a, b, c, n, (m - 1) as nat);
    } else {
        assert(is_open(culls, c) && exists|d: Direction|
            reach(culls, b, #[trigger] neighbor(c, d), (m - 1) as nat));
        let d = choose|d: Direction| reach(culls, b, #[trigger] neighbor(c, d), (m - 1) as nat);
        lemma_reach_trans(culls, a, b, neighbor(c, d), n, (m - 1) as nat);
        let k = choose|k: nat| #[trigger] reach(culls, a, neighbor(c, d), k);
        let k1: nat = k + 1;
        assert((k1 - 1) as nat == k);
        assert(reach(culls, a, neighbor(c, d), (k1 - 1) as nat));
        assert(reach(culls, a, c, k1));
    }
}

/// Whatever face the region of `t` touches, the region of `s` touches too when
/// `t` can be reached from `s`.
proof fn lemma_touches_trans(culls: Seq<bool>, s: Cell, t: Cell, d: Direction)
    requires
        connected(culls, s, t),
        touches(culls, t, d),
    ensures
        touches(culls, s, d),
{
    let n = choose|n: nat| #[trigger] reach(culls, s, t, n);
    let a = choose|a: Cell| #[trigger] connected(culls, t, a) && on_face(a, d);
    let m = choose|m: nat| #[trigger] reach(culls, t, a, m);
    lemma_reach_trans(culls, s, t, a, n, m);
}

proof fn lemma_u8_set_bit(t: u8, i: u8, j: u8)
    by (bit_vector)
    requires
        i < 8,
        j < 8,
    ensures
        ((t | (1u8 << i)) & (1u8 << j) != 0) == ((t & (1u8 << j) != 0) || i == j),
{
}

proof fn lemma_u8_below_64(t: u8, i: u8)
    by (bit_vector)
    requires
        t < 64,
        i < 6,
    ensures
        (t | (1u8 << i)) < 64,
{
}

proof fn lemma_u8_zero_bits(j: u8)
    by (bit_vector)
    requires
        j < 8,
    ensures
        0u8 & (1u8 << j) == 0,
{
}

proof fn lemma_u64_set_bit(t: u64, i: u64, j: u64)
    by (bit_vector)
    requires
        i < 64,
        j < 64,
    ensures
        ((t | (1u64 << i)) & (1u64 << j) != 0) == ((t & (1u64 << j) != 0) || i == j),
{
}

proof fn lemma_u64_bits_of_constants(j: u64)
    by (bit_vector)
    requires
        j < 64,
    ensures
        0u64 & (1u64 << j) == 0,
        0xFFFF_FFFF_FFFF_FFFFu64 & (1u64 << j) != 0,
{
}

// ---------------------------------------------------------------------------
// Visibility between the faces of a section.
// ---------------------------------------------------------------------------

/// For each ordered pair of faces, whether one can see from the first to the
/// second through the section.
#[derive(Clone, Copy, Default)]
pub struct CullInfo(pub u64);

pub open spec fn pair_bit(from: Direction, to: Direction) -> u64 {
    (from.spec_index() * 6 + to.spec_index()) as u64
}

impl CullInfo {
    /// The face `to` can be seen when looking in through the face `from`.
    pub open spec fn sees(self, from: Direction, to: Direction) -> bool {
        self.0 & (1u64 << pair_bit(from, to)) != 0
    }

    /// Nothing is visible.
    pub fn new() -> (r: CullInfo)
        ensures
            forall|a: Direction, b: Direction| !(#[trigger] r.sees(a, b)),
    {
        proof {
            assert forall|a: Direction, b: Direction| !(#[trigger] CullInfo(0).sees(a, b)) by {
                lemma_u64_bits_of_constants(pair_bit(a, b));
            }
        }
        CullInfo(0)
    }

    /// Every face is visible from every face.
    pub fn all_vis() -> (r: CullInfo)
        ensures
            forall|a: Direction, b: Direction| #[trigger] r.sees(a, b),
    {
        let r = CullInfo(0xFFFFFFFFFFFFFFFF);
        proof {
            assert forall|a: Direction, b: Direction| #[trigger] r.sees(a, b) by {
                lemma_u64_bits_of_constants(pair_bit(a, b));
            }
        }
        r
    }

    pub fn is_visible(&self, from: Direction, to: Direction) -> (b: bool)
        ensures
            b == self.sees(from, to),
    {
        let k = (from.index() * 6 + to.index()) as u64;
        (self.0 & (1u64 << k)) != 0
    }

    pub fn set_visible(&mut self, from: Direction, to: Direction)
        ensures
            forall|a: Direction, b: Direction|
                #[trigger] final(self).sees(a, b) == (old(self).sees(a, b) || (a == from && b
                    == to)),
    {
        let k = (from.index() * 6 + to.index()) as u64;
        let ghost before = *self;
        self.0 = self.0 | (1u64 << k);
        proof {
            assert forall|a: Direction, b: Direction|
                #[trigger] self.sees(a, b) == (before.sees(a, b) || (a == from && b == to)) by {
                lemma_u64_set_bit(before.0, k, pair_bit(a, b));
                if pair_bit(a, b) == k {
                    assert(a.spec_index() == from.spec_index());
                    assert(b.spec_index() == to.spec_index());
                    crate::direction::lemma_index_injective(a, from);
                    crate::direction::lemma_index_injective(b, to);
                }
            }
        }
    }
}


// ---------------------------------------------------------------------------
// Flood fill over the open cells of a section.
// ---------------------------------------------------------------------------

/// The cell was visited by this flood and not before it.
pub open spec fn newly(before: Seq<bool>, after: Seq<bool>, c: Cell) -> bool {
    in_section(c) && after[cell_index(c)] && !before[cell_index(c)]
}

pub open spec fn cell_of(p: (i32, i32, i32)) -> Cell {
    (p.0 as int, p.1 as int, p.2 as int)
}

pub open spec fn count_true(s: Seq<bool>) -> nat
    decreases s.len(),
{
    if s.len() == 0 {
        0
    } else {
        count_true(s.drop_last()) + if s.last() {
            1nat
        } else {
            0nat
        }
    }
}

proof fn lemma_count_true_le_len(s: Seq<bool>)
    ensures
        count_true(s) <= s.len(),
    decreases s.len(),
{
    if s.len() > 0 {
        lemma_count_true_le_len(s.drop_last());
    }
}

proof fn lemma_count_true_set(s: Seq<bool>, i: int)
    requires
        0 <= i < s.len(),
        !s[i],
    ensures
        count_true(s.update(i, true)) == count_true(s) + 1,
    decreases s.len(),
{
    let t = s.update(i, true);
    if i == s.len() - 1 {
        assert(t.drop_last() =~= s.drop_last());
    } else {
        assert(t.drop_last() =~= s.drop_last().update(i, true));
        lemma_count_true_set(s.drop_last(), i);
    }
}

/// Every open cell reachable from the start of a flood was visited by that flood,
/// given that the cells visited before and after the flood are closed sets.
proof fn lemma_flood_complete(
    culls: Seq<bool>,
    before: Seq<bool>,
    after: Seq<bool>,
    s0: Cell,
    t: Cell,
    n: nat,
)
    requires
        culls.len() == 4096,
        before.len() == 4096,
        after.len() == 4096,
        closed(culls, before),
        closed(culls, after),
        newly(before, after, s0),
        reach(culls, s0, t, n),
    ensures
        newly(before, after, t),
    decreases n,
{
    if n == 0 {
    } else if reach(culls, s0, t, (n - 1) as nat) {
        lemma_flood_complete(culls, before, after, s0, t, (n - 1) as nat);
    } else {
        let d = choose|d: Direction| reach(culls, s0, #[trigger] neighbor(t, d), (n - 1) as nat);
        let u = neighbor(t, d);
        lemma_flood_complete(culls, before, after, s0, u, (n - 1) as nat);
        lemma_reach_ends_open(culls, s0, u, (n - 1) as nat);
        assert(neighbor(u, opposite(d)) == t);
        assert(after[cell_index(u)]);
        assert(after[cell_index(t)]);
        if before[cell_index(t)] {
            assert(neighbor(t, d) == u);
            assert(before[cell_index(u)]);
        }
    }
}

proof fn lemma_cell_index_bounds(c: Cell)
    requires
        in_section(c),
    ensures
        0 <= cell_index(c) < 4096,
{
}

proof fn lemma_cell_index_injective(a: Cell, b: Cell)
    requires
        in_section(a),
        in_section(b),
        cell_index(a) == cell_index(b),
    ensures
        a == b,
{
}

proof fn lemma_u8_face_bit(t: u8, d: Direction, e: Direction)
    ensures
        u8_has_bit(t | (1u8 << (e.spec_index() as u8)), d.spec_index()) == (u8_has_bit(
            t,
            d.spec_index(),
        ) || d == e),
{
    lemma_u8_set_bit(t, e.spec_index() as u8, d.spec_index() as u8);
    crate::direction::lemma_index_injective(d, e);
}

/// What the flood sees as walls: the cells that cull against their
/// neighbours, and the cells that were already visited before it started.
pub open spec fn blocked(culls: Seq<bool>, visited: Seq<bool>) -> Seq<bool> {
    Seq::new(culls.len(), |i: int| culls[i] || visited[i])
}

/// Visits the open region around `(x, y, z)` (and the opaque cells bordering it)
/// and returns, as bits indexed by `Direction::index`, the faces of the section
/// that this region touches. Cells visited before the call stop the flood like
/// walls. A start outside the section, or one already visited, touches nothing
/// and visits nothing.
pub fn flood_fill(
    snapshot: &SectionSnapshot,
    visited: &mut Vec<bool>,
    x: i32,
    y: i32,
    z: i32,
) -> (touched: u8)
    requires
        snapshot.wf(),
        old(visited)@.len() == 4096,
    ensures
        final(visited)@.len() == 4096,
        touched < 64,
        !in_section((x as int, y as int, z as int)) || old(visited)@[cell_index(
            (x as int, y as int, z as int),
        )] ==> touched == 0 && final(visited)@ == old(visited)@,
        in_section((x as int, y as int, z as int)) && !old(visited)@[cell_index(
            (x as int, y as int, z as int),
        )] ==> {
            let walls = blocked(snapshot.culls@, old(visited)@);
            let s0 = (x as int, y as int, z as int);
            &&& final(visited)@[cell_index(s0)]
            &&& forall|i: int| 0 <= i < 4096 && old(visited)@[i] ==> final(visited)@[i]
            &&& forall|c: Cell|
                newly(old(visited)@, final(visited)@, c) && is_open(walls, c) ==> connected(
                    walls,
                    s0,
                    c,
                )
            &&& forall|c: Cell|
                connected(walls, s0, c) ==> newly(old(visited)@, final(visited)@, c)
            &&& forall|c: Cell|
                newly(old(visited)@, final(visited)@, c) ==> c == s0 || exists|d: Direction|
                    connected(walls, s0, #[trigger] neighbor(c, d))
            &&& forall|c: Cell, d: Direction|
                #![trigger connected(walls, s0, c), neighbor(c, d)]
                connected(walls, s0, c) && in_section(neighbor(c, d))
                    ==> final(visited)@[cell_index(neighbor(c, d))]
            &&& forall|d: Direction|
                u8_has_bit(touched, d.spec_index()) == touches(walls, s0, d)
        },
{
    if !(0 <= x && x <= 15) || !(0 <= y && y <= 15) || !(0 <= z && z <= 15) {
        return 0;
    }
    proof {
        lemma_cell_index_bounds((x as int, y as int, z as int));
    }
    let idx = (x + z * 16 + y * 256) as usize;
    if visited[idx] {
        return 0;
    }
    let ghost walls = blocked(snapshot.culls@, visited@);
    let mut culls: Vec<bool> = Vec::new();
    let mut i: usize = 0;
    while i < 4096
        invariant
            i <= 4096,
            snapshot.wf(),
            visited@.len() == 4096,
            walls == blocked(snapshot.culls@, visited@),
            culls@.len() == i,
            forall|j: int| 0 <= j < i ==> culls@[j] == walls[j],
        decreases 4096 - i,
    {
        culls.push(snapshot.culls[i] || visited[i]);
        i = i + 1;
    }
    let walled = SectionSnapshot { culls };
    proof {
        assert(walled.culls@ =~= walls);
        assert forall|c: Cell, d: Direction|
            #![trigger visited@[cell_index(c)], neighbor(c, d)]
            in_section(c) && visited@[cell_index(c)] && is_open(walls, c) && is_open(
                walls,
                neighbor(c, d),
            ) implies visited@[cell_index(neighbor(c, d))] by {
            lemma_cell_index_bounds(c);
        }
    }
    let ghost before = visited@;
    let touched = flood_unvisited(&walled, visited, x, y, z);
    proof {
        let s0: Cell = (x as int, y as int, z as int);
        assert forall|c: Cell, d: Direction|
            #![trigger connected(walls, s0, c), neighbor(c, d)]
            connected(walls, s0, c) && in_section(neighbor(c, d)) implies visited@[cell_index(
                neighbor(c, d),
            )] by {
            let m = choose|m: nat| #[trigger] reach(walls, s0, c, m);
            lemma_reach_ends_open(walls, s0, c, m);
            assert(newly(before, visited@, c));
        }
    }
    touched
}

/// Adds to `touched` the bits of the faces of the section that the cell
/// `(cx, cy, cz)` lies on.
fn add_face_bits(touched: u8, cx: i32, cy: i32, cz: i32) -> (t: u8)
    ensures
        forall|d: Direction|
            #[trigger] u8_has_bit(t, d.spec_index()) == (u8_has_bit(touched, d.spec_index())
                || on_face((cx as int, cy as int, cz as int), d)),
        touched < 64 ==> t < 64,
{
    let mut t = touched;
    let ghost t0 = t;
    if cx == 0 {
        t = t | (1u8 << (Direction::West.index() as u8));
    } else if cx == 15 {
        t = t | (1u8 << (Direction::East.index() as u8));
    }
    proof {
        if touched < 64 {
            if cx == 0 {
                lemma_u8_below_64(t0, Direction::West.spec_index() as u8);
            } else if cx == 15 {
                lemma_u8_below_64(t0, Direction::East.spec_index() as u8);
            }
        }
        assert forall|d: Direction|
            u8_has_bit(t, d.spec_index()) == (u8_has_bit(t0, d.spec_index()) || (cx == 0 && d
                == Direction::West) || (cx == 15 && d == Direction::East)) by {
            if cx == 0 {
                lemma_u8_face_bit(t0, d, Direction::West);
            } else if cx == 15 {
                lemma_u8_face_bit(t0, d, Direction::East);
            }
        }
    }
    let ghost t1 = t;
    if cy == 0 {
        t = t | (1u8 << (Direction::Down.index() as u8));
    } else if cy == 15 {
        t = t | (1u8 << (Direction::Up.index() as u8));
    }
    proof {
        if t1 < 64 {
            if cy == 0 {
                lemma_u8_below_64(t1, Direction::Down.spec_index() as u8);
            } else if cy == 15 {
                lemma_u8_below_64(t1, Direction::Up.spec_index() as u8);
            }
        }
        assert forall|d: Direction|
            u8_has_bit(t, d.spec_index()) == (u8_has_bit(t1, d.spec_index()) || (cy == 0 && d
                == Direction::Down) || (cy == 15 && d == Direction::Up)) by {
            if cy == 0 {
                lemma_u8_face_bit(t1, d, Direction::Down);
            } else if cy == 15 {
                lemma_u8_face_bit(t1, d, Direction::Up);
            }
        }
    }
    let ghost t2 = t;
    if cz == 0 {
        t = t | (1u8 << (Direction::North.index() as u8));
    } else if cz == 15 {
        t = t | (1u8 << (Direction::South.index() as u8));
    }
    proof {
        if t2 < 64 {
            if cz == 0 {
                lemma_u8_below_64(t2, Direction::North.spec_index() as u8);
            } else if cz == 15 {
                lemma_u8_below_64(t2, Direction::South.spec_index() as u8);
            }
        }
        assert forall|d: Direction|
            u8_has_bit(t, d.spec_index()) == (u8_has_bit(t2, d.spec_index()) || (cz == 0 && d
                == Direction::North) || (cz == 15 && d == Direction::South)) by {
            if cz == 0 {
                lemma_u8_face_bit(t2, d, Direction::North);
            } else if cz == 15 {
                lemma_u8_face_bit(t2, d, Direction::South);
            }
        }
    }
    t
}

#[verifier::rlimit(60)]
fn flood_unvisited(
    snapshot: &SectionSnapshot,
    visited: &mut Vec<bool>,
    x: i32,
    y: i32,
    z: i32,
) -> (touched: u8)
    requires
        snapshot.wf(),
        old(visited)@.len() == 4096,
        in_section((x as int, y as int, z as int)),
        !old(visited)@[cell_index((x as int, y as int, z as int))],
        closed(snapshot.culls@, old(visited)@),
    ensures
        final(visited)@.len() == 4096,
        final(visited)@[cell_index((x as int, y as int, z as int))],
        forall|i: int| 0 <= i < 4096 && old(visited)@[i] ==> final(visited)@[i],
        closed(snapshot.culls@, final(visited)@),
        forall|c: Cell|
            newly(old(visited)@, final(visited)@, c) && is_open(snapshot.culls@, c) ==> connected(
                snapshot.culls@,
                (x as int, y as int, z as int),
                c,
            ),
        forall|c: Cell|
            connected(snapshot.culls@, (x as int, y as int, z as int), c) ==> newly(
                old(visited)@,
                final(visited)@,
                c,
            ),
        forall|c: Cell|
            newly(old(visited)@, final(visited)@, c) ==> c == (x as int, y as int, z as int)
                || exists|d: Direction|
                connected(snapshot.culls@, (x as int, y as int, z as int), #[trigger] neighbor(c, d)),
        forall|c: Cell, d: Direction|
            #![trigger final(visited)@[cell_index(c)], neighbor(c, d)]
            newly(old(visited)@, final(visited)@, c) && is_open(snapshot.culls@, c) && in_section(
                neighbor(c, d),
            ) ==> final(visited)@[cell_index(neighbor(c, d))],
        forall|d: Direction|
            u8_has_bit(touched, d.spec_index()) == touches(
                snapshot.culls@,
                (x as int, y as int, z as int),
                d,
            ),
        touched < 64,
{
    let ghost culls = snapshot.culls@;
    let ghost s0: Cell = (x as int, y as int, z as int);
    let ghost before = visited@;
    let mut next_position: Vec<(i32, i32, i32)> = Vec::new();
    next_position.push((x, y, z));
    let mut head: usize = 0;
    let mut touched: u8 = 0;
    let ghost mut nvis: nat = 0;
    proof {
        lemma_count_true_le_len(before);
        assert forall|d: Direction| !u8_has_bit(0u8, d.spec_index()) by {
            lemma_u8_zero_bits(d.spec_index() as u8);
        }
    }
    while head < next_position.len()
        invariant
            snapshot.wf(),
            culls == snapshot.culls@,
            visited@.len() == 4096,
            before.len() == 4096,
            in_section(s0),
            s0 == (x as int, y as int, z as int),
            !before[cell_index(s0)],
            closed(culls, before),
            head <= next_position@.len(),
            next_position@.len() <= 1 + 6 * nvis,
            count_true(visited@) == count_true(before) + nvis,
            count_true(before) <= 4096,
            forall|i: int| 0 <= i < 4096 && before[i] ==> visited@[i],
            forall|k: int|
                0 <= k < next_position@.len() ==> -1 <= #[trigger] next_position@[k].0 <= 16 && -1
                    <= next_position@[k].1 <= 16 && -1 <= next_position@[k].2 <= 16,
            visited@[cell_index(s0)] || (head < next_position@.len() && cell_of(
                next_position@[head as int],
            ) == s0),
            forall|c: Cell|
                #![trigger visited@[cell_index(c)]]
                newly(before, visited@, c) && is_open(culls, c) ==> connected(culls, s0, c),
            forall|c: Cell|
                #![trigger visited@[cell_index(c)]]
                newly(before, visited@, c) ==> c == s0 || exists|d: Direction|
                    connected(culls, s0, #[trigger] neighbor(c, d)),
            forall|k: int|
                head <= k < next_position@.len() ==> cell_of(#[trigger] next_position@[k]) == s0
                    || exists|d: Direction|
                    newly(before, visited@, #[trigger] neighbor(cell_of(next_position@[k]), d))
                        && is_open(culls, neighbor(cell_of(next_position@[k]), d)) && connected(
                        culls,
                        s0,
                        neighbor(cell_of(next_position@[k]), d),
                    ),
            forall|c: Cell, d: Direction|
                #![trigger visited@[cell_index(c)], neighbor(c, d)]
                newly(before, visited@, c) && is_open(culls, c) && in_section(neighbor(c, d))
                    ==> visited@[cell_index(neighbor(c, d))] || exists|k: int|
                    head <= k < next_position@.len() && cell_of(#[trigger] next_position@[k])
                        == neighbor(c, d),
            forall|d: Direction|
                #![trigger u8_has_bit(touched, d.spec_index())]
                u8_has_bit(touched, d.spec_index()) <==> exists|c: Cell|
                    #![trigger visited@[cell_index(c)]]
                    newly(before, visited@, c) && is_open(culls, c) && on_face(c, d),
            touched < 64,
        decreases (4096 - nvis) * 7 + (next_position@.len() - head),
    {
        proof {
            lemma_count_true_le_len(visited@);
        }
        let (cx, cy, cz) = next_position[head];
        let ghost popped = head as int;
        let ghost c: Cell = (cx as int, cy as int, cz as int);
        head = head + 1;
        if !(0 <= cx && cx <= 15) || !(0 <= cy && cy <= 15) || !(0 <= cz && cz <= 15) {
            continue;
        }
        let idx = (cx + cz * 16 + cy * 256) as usize;
        if visited[idx] {
            continue;
        }
        let ghost v0 = visited@;
        visited.set(idx, true);
        proof {
            lemma_cell_index_bounds(c);
            lemma_count_true_set(v0, idx as int);
            nvis = nvis + 1;
            if c != s0 {
                let d = choose|d: Direction|
                    newly(before, v0, #[trigger] neighbor(c, d)) && is_open(culls, neighbor(c, d))
                        && connected(culls, s0, neighbor(c, d));
                let p = neighbor(c, d);
                assert(neighbor(p, opposite(d)) == c);
                if is_open(culls, c) {
                    let m = choose|m: nat| #[trigger] reach(culls, s0, p, m);
                    lemma_reach_step(culls, s0, p, opposite(d), m);
                    assert(reach(culls, s0, c, m + 1));
                }
            } else if is_open(culls, c) {
                assert(reach(culls, s0, c, 0));
            }
            assert(visited@ == v0.update(idx as int, true));
        }
        proof {
            lemma_count_true_le_len(visited@);
            assert forall|c2: Cell| c2 != c && in_section(c2) implies newly(before, visited@, c2)
                == newly(before, v0, c2) by {
                if cell_index(c2) == cell_index(c) {
                    lemma_cell_index_injective(c, c2);
                }
            }
        }
        if snapshot.culls[idx] {
            proof {
                assert forall|d: Direction| #![trigger u8_has_bit(touched, d.spec_index())]
                    u8_has_bit(touched, d.spec_index()) <==> exists|c2: Cell|
                        #![trigger visited@[cell_index(c2)]]
                        newly(before, visited@, c2) && is_open(culls, c2) && on_face(c2, d) by {
                    if u8_has_bit(touched, d.spec_index()) {
                        let c2 = choose|c2: Cell|
                            #![trigger v0[cell_index(c2)]]
                            newly(before, v0, c2) && is_open(culls, c2) && on_face(c2, d);
                        assert(visited@[cell_index(c2)]);
                    }
                }
            }
            continue;
        }
        let ghost t0 = touched;
        touched = add_face_bits(touched, cx, cy, cz);
        proof {
            assert forall|d: Direction| #![trigger u8_has_bit(touched, d.spec_index())]
                u8_has_bit(touched, d.spec_index()) <==> exists|c2: Cell|
                    #![trigger visited@[cell_index(c2)]]
                    newly(before, visited@, c2) && is_open(culls, c2) && on_face(c2, d) by {
                if u8_has_bit(t0, d.spec_index()) {
                    let c2 = choose|c2: Cell|
                        #![trigger v0[cell_index(c2)]]
                        newly(before, v0, c2) && is_open(culls, c2) && on_face(c2, d);
                    assert(visited@[cell_index(c2)]);
                }
                if on_face(c, d) {
                    assert(visited@[cell_index(c)]);
                }
                if exists|c2: Cell|
                    #![trigger visited@[cell_index(c2)]]
                    newly(before, visited@, c2) && is_open(culls, c2) && on_face(c2, d) {
                    let c2 = choose|c2: Cell|
                        #![trigger visited@[cell_index(c2)]]
                        newly(before, visited@, c2) && is_open(culls, c2) && on_face(c2, d);
                    if c2 != c {
                        assert(v0[cell_index(c2)]);
                    }
                }
            }
        }
        let ghost q0 = next_position@;
        let ghost head1 = head;
        proof {
            assert forall|j: int| 0 <= j < q0.len() implies -1 <= #[trigger] q0[j].0 <= 16 && -1
                <= q0[j].1 <= 16 && -1 <= q0[j].2 <= 16 by {
                assert(q0[j] == next_position@[j]);
            }
        }
        let dirs = Direction::all();
        let len0 = next_position.len();
        let mut k: usize = 0;
        while k < 6
            invariant
                0 <= k <= 6,
                0 <= cx <= 15,
                0 <= cy <= 15,
                0 <= cz <= 15,
                c == (cx as int, cy as int, cz as int),
                len0 == q0.len(),
                forall|j: int|
                    0 <= j < q0.len() ==> -1 <= #[trigger] q0[j].0 <= 16 && -1 <= q0[j].1 <= 16 && -1
                        <= q0[j].2 <= 16,
                dirs@ == seq![
                    Direction::Up,
                    Direction::Down,
                    Direction::North,
                    Direction::South,
                    Direction::West,
                    Direction::East,
                ],
                next_position@.len() == len0 + k,
                forall|j: int| 0 <= j < len0 ==> next_position@[j] == q0[j],
                forall|j: int|
                    0 <= j < k ==> cell_of(#[trigger] next_position@[len0 + j]) == neighbor(
                        c,
                        dirs@[j],
                    ),
            decreases 6 - k,
        {
            let d = dirs[k];
            let (ox, oy, oz) = d.get_offset();
            next_position.push((cx + ox, cy + oy, cz + oz));
            k = k + 1;
        }
        proof {
            assert forall|j: int| 0 <= j < 6 implies cell_of(#[trigger] next_position@[len0 + j])
                == neighbor(c, dirs@[j]) && next_position@[len0 + j] == next_position@[len0 + j]
                by {}
            assert forall|kk: int|
                0 <= kk < next_position@.len() implies -1 <= #[trigger] next_position@[kk].0 <= 16
                && -1 <= next_position@[kk].1 <= 16 && -1 <= next_position@[kk].2 <= 16 by {
                if kk >= len0 {
                    let j = kk - len0;
                    let dj = dirs@[j];
                    assert(cell_of(next_position@[len0 + j]) == neighbor(c, dj));
                    let o = dj.spec_offset();
                    assert(-1 <= o.0 <= 1 && -1 <= o.1 <= 1 && -1 <= o.2 <= 1);
                    assert(next_position@[kk].0 == c.0 + o.0);
                    assert(next_position@[kk].1 == c.1 + o.1);
                    assert(next_position@[kk].2 == c.2 + o.2);
                } else {
                    assert(next_position@[kk] == q0[kk]);
                    assert(-1 <= q0[kk].0 <= 16 && -1 <= q0[kk].1 <= 16 && -1 <= q0[kk].2 <= 16);
                }
            }
            assert forall|kk: int|
                head <= kk < next_position@.len() implies cell_of(#[trigger] next_position@[kk])
                == s0 || exists|d: Direction|
                newly(before, visited@, #[trigger] neighbor(cell_of(next_position@[kk]), d))
                    && is_open(culls, neighbor(cell_of(next_position@[kk]), d)) && connected(
                    culls,
                    s0,
                    neighbor(cell_of(next_position@[kk]), d),
                ) by {
                if kk >= len0 {
                    let j = kk - len0;
                    let dj = dirs@[j];
                    assert(cell_of(next_position@[len0 + j]) == neighbor(c, dj));
                    assert(neighbor(neighbor(c, dj), opposite(dj)) == c);
                    assert(visited@[cell_index(c)]);
                } else {
                    assert(next_position@[kk] == q0[kk]);
                    if cell_of(q0[kk]) != s0 {
                        let d = choose|d: Direction|
                            newly(before, v0, #[trigger] neighbor(cell_of(q0[kk]), d)) && is_open(
                                culls,
                                neighbor(cell_of(q0[kk]), d),
                            ) && connected(culls, s0, neighbor(cell_of(q0[kk]), d));
                        let p = neighbor(cell_of(q0[kk]), d);
                        assert(visited@[cell_index(p)]);
                    }
                }
            }
            assert forall|c2: Cell, d: Direction|
                newly(before, visited@, c2) && is_open(culls, c2) && in_section(neighbor(c2, d))
                implies #[trigger] visited@[cell_index(neighbor(c2, d))] || exists|kk: int|
                head <= kk < next_position@.len() && cell_of(#[trigger] next_position@[kk])
                    == neighbor(c2, d) by {
                if c2 == c {
                    let kk = len0 + d.spec_index();
                    assert(dirs@[d.spec_index() as int] == d);
                    assert(cell_of(next_position@[len0 + d.spec_index()]) == neighbor(c, d));
                    assert(cell_of(next_position@[kk]) == neighbor(c2, d));
                } else {
                    assert(v0[cell_index(c2)]);
                    if !v0[cell_index(neighbor(c2, d))] {
                        let kk = choose|kk: int|
                            head - 1 <= kk < q0.len() && cell_of(#[trigger] q0[kk]) == neighbor(
                                c2,
                                d,
                            );
                        if kk == head - 1 {
                            assert(neighbor(c2, d) == c);
                        } else {
                            assert(next_position@[kk] == q0[kk]);
                        }
                    }
                }
            }
        }
    }
    proof {
        assert forall|c: Cell, d: Direction|
            in_section(c) && #[trigger] visited@[cell_index(c)] && is_open(culls, c) && is_open(
                culls,
                #[trigger] neighbor(c, d),
            ) implies visited@[cell_index(neighbor(c, d))] by {
            if before[cell_index(c)] {
                lemma_cell_index_bounds(neighbor(c, d));
                assert(before[cell_index(neighbor(c, d))]);
            }
        }
        assert(closed(culls, visited@));
        assert forall|c: Cell| #[trigger] connected(culls, s0, c) implies newly(
            before,
            visited@,
            c,
        ) by {
            let n = choose|n: nat| #[trigger] reach(culls, s0, c, n);
            lemma_flood_complete(culls, before, visited@, s0, c, n);
        }
        assert forall|d: Direction|
            u8_has_bit(touched, d.spec_index()) == #[trigger] touches(culls, s0, d) by {
            if u8_has_bit(touched, d.spec_index()) {
                let c = choose|c: Cell|
                    #![trigger visited@[cell_index(c)]]
                    newly(before, visited@, c) && is_open(culls, c) && on_face(c, d);
                assert(connected(culls, s0, c));
            }
            if touches(culls, s0, d) {
                let a = choose|a: Cell| #[trigger] connected(culls, s0, a) && on_face(a, d);
                let n = choose|n: nat| #[trigger] reach(culls, s0, a, n);
                lemma_reach_ends_open(culls, s0, a, n);
                assert(newly(before, visited@, a));
            }
        }
    }
    touched
}

proof fn lemma_cell_at(i: int)
    requires
        0 <= i < 4096,
    ensures
        in_section(cell_at(i)),
        cell_index(cell_at(i)) == i,
{
}

/// Marks every ordered pair of the faces in `touched` as visible from each other.
fn mark_touched_pairs(info: &mut CullInfo, touched: u8)
    ensures
        forall|a: Direction, b: Direction|
            #[trigger] final(info).sees(a, b) == (old(info).sees(a, b) || (u8_has_bit(
                touched,
                a.spec_index(),
            ) && u8_has_bit(touched, b.spec_index()))),
{
    let ghost info0 = *info;
    let dirs = Direction::all();
    let mut i: usize = 0;
    while i < 6
        invariant
            0 <= i <= 6,
            dirs@ == seq![
                Direction::Up,
                Direction::Down,
                Direction::North,
                Direction::South,
                Direction::West,
                Direction::East,
            ],
            forall|a: Direction, b: Direction|
                #[trigger] info.sees(a, b) == (info0.sees(a, b) || (a.spec_index() < i
                    && u8_has_bit(touched, a.spec_index()) && u8_has_bit(touched, b.spec_index()))),
        decreases 6 - i,
    {
        let d1 = dirs[i];
        proof {
            assert(d1.spec_index() == i);
        }
        if (touched & (1u8 << (d1.index() as u8))) != 0 {
            let mut j: usize = 0;
            while j < 6
                invariant
                    0 <= j <= 6,
                    i < 6,
                    d1.spec_index() == i,
                    u8_has_bit(touched, d1.spec_index()),
                    dirs@ == seq![
                        Direction::Up,
                        Direction::Down,
                        Direction::North,
                        Direction::South,
                        Direction::West,
                        Direction::East,
                    ],
                    forall|a: Direction, b: Direction|
                        #[trigger] info.sees(a, b) == (info0.sees(a, b) || (a.spec_index() < i
                            && u8_has_bit(touched, a.spec_index()) && u8_has_bit(
                            touched,
                            b.spec_index(),
                        )) || (a == d1 && b.spec_index() < j && u8_has_bit(
                            touched,
                            b.spec_index(),
                        ))),
                decreases 6 - j,
            {
                let d2 = dirs[j];
                proof {
                    assert(d2.spec_index() == j);
                }
                if (touched & (1u8 << (d2.index() as u8))) != 0 {
                    info.set_visible(d1, d2);
                }
                proof {
                    assert forall|a: Direction, b: Direction|
                        #[trigger] info.sees(a, b) == (info0.sees(a, b) || (a.spec_index() < i
                            && u8_has_bit(touched, a.spec_index()) && u8_has_bit(
                            touched,
                            b.spec_index(),
                        )) || (a == d1 && b.spec_index() < j + 1 && u8_has_bit(
                            touched,
                            b.spec_index(),
                        ))) by {
                        crate::direction::lemma_index_injective(b, d2);
                    }
                }
                j = j + 1;
            }
            proof {
                assert forall|a: Direction, b: Direction|
                    #[trigger] info.sees(a, b) == (info0.sees(a, b) || (a.spec_index() < i + 1
                        && u8_has_bit(touched, a.spec_index()) && u8_has_bit(
                        touched,
                        b.spec_index(),
                    ))) by {
                    crate::direction::lemma_index_injective(a, d1);
                }
            }
        }
        i = i + 1;
    }
}

/// Whether a face can be seen through another does not depend on which of
/// the two one looks in through: the visibility a section's culling
/// information records is symmetric.
pub proof fn law_cull_visibility_symmetric(culls: Seq<bool>, a: Direction, b: Direction)
    ensures
        sees_through(culls, a, b) == sees_through(culls, b, a),
{
    if sees_through(culls, a, b) {
        let s = choose|s: Cell|
            #![trigger touches(culls, s, a), touches(culls, s, b)]
            is_open(culls, s) && touches(culls, s, a) && touches(culls, s, b);
        assert(touches(culls, s, b) && touches(culls, s, a));
    }
    if sees_through(culls, b, a) {
        let s = choose|s: Cell|
            #![trigger touches(culls, s, b), touches(culls, s, a)]
            is_open(culls, s) && touches(culls, s, b) && touches(culls, s, a);
        assert(touches(culls, s, a) && touches(culls, s, b));
    }
}

/// Marking a pair of faces visible makes that pair visible and leaves every
/// other pair as it was.
pub proof fn law_set_then_is_visible(
    before: CullInfo,
    after: CullInfo,
    from: Direction,
    to: Direction,
)
    requires
        forall|a: Direction, b: Direction|
            #[trigger] after.sees(a, b) == (before.sees(a, b) || (a == from && b == to)),
    ensures
        after.sees(from, to),
        forall|a: Direction, b: Direction|
            !(a == from && b == to) ==> #[trigger] after.sees(a, b) == before.sees(a, b),
{
    assert(after.sees(from, to) == (before.sees(from, to) || (from == from && to == to)));
}

/// Computes, for a captured section, which faces can be seen from which:
/// the pair `(from, to)` is visible exactly when one open region of the
/// section touches both faces. Without a snapshot everything is visible.
pub fn build_cull_info(snapshot: &Option<&SectionSnapshot>) -> (info: CullInfo)
    requires
        snapshot matches Some(s) ==> s.wf(),
    ensures
        snapshot is None ==> forall|a: Direction, b: Direction| #[trigger] info.sees(a, b),
        snapshot matches Some(s) ==> forall|a: Direction, b: Direction|
            #[trigger] info.sees(a, b) == sees_through(s.culls@, a, b),
{
    let snapshot: &SectionSnapshot = match snapshot {
        None => {
            return CullInfo::all_vis();
        },
        Some(s) => *s,
    };
    let ghost culls = snapshot.culls@;
    let mut visited: Vec<bool> = Vec::new();
    let mut n: usize = 0;
    while n < 4096
        invariant
            n <= 4096,
            visited@.len() == n,
            forall|j: int| 0 <= j < n ==> !visited@[j],
        decreases 4096 - n,
    {
        visited.push(false);
        n = n + 1;
    }
    let mut info = CullInfo::new();
    proof {
        assert forall|c: Cell, d: Direction|
            in_section(c) && #[trigger] visited@[cell_index(c)] && is_open(culls, c) && is_open(
                culls,
                #[trigger] neighbor(c, d),
            ) implies visited@[cell_index(neighbor(c, d))] by {
            lemma_cell_index_bounds(c);
        }
    }
    let mut i: usize = 0;
    while i < 4096
        invariant
            i <= 4096,
            snapshot.wf(),
            culls == snapshot.culls@,
            visited@.len() == 4096,
            closed(culls, visited@),
            forall|j: int| 0 <= j < i ==> visited@[j],
            forall|a: Direction, b: Direction|
                #[trigger] info.sees(a, b) ==> sees_through(culls, a, b),
            forall|t: Cell, a: Direction, b: Direction|
                #![trigger visited@[cell_index(t)], touches(culls, t, a), touches(culls, t, b)]
                in_section(t) && visited@[cell_index(t)] && is_open(culls, t) && touches(culls, t, a)
                    && touches(culls, t, b) ==> info.sees(a, b),
        decreases 4096 - i,
    {
        let y = (i / 256) as i32;
        let z = ((i / 16) % 16) as i32;
        let x = (i % 16) as i32;
        proof {
            lemma_cell_at(i as int);
            assert(cell_at(i as int) == (x as int, y as int, z as int));
        }
        if !visited[i] {
            let ghost v0 = visited@;
            let ghost info0 = info;
            let ghost c: Cell = (x as int, y as int, z as int);
            let touched = flood_unvisited(snapshot, &mut visited, x, y, z);
            if touched != 0 {
                mark_touched_pairs(&mut info, touched);
            }
            proof {
                if touched == 0 {
                    assert forall|d: Direction| !u8_has_bit(touched, d.spec_index()) by {
                        lemma_u8_zero_bits(d.spec_index() as u8);
                    }
                }
                assert forall|a: Direction, b: Direction|
                    #[trigger] info.sees(a, b) implies sees_through(culls, a, b) by {
                    if !info0.sees(a, b) {
                        assert(touches(culls, c, a));
                        assert(touches(culls, c, b));
                        let w = choose|w: Cell| #[trigger] connected(culls, c, w) && on_face(w, a);
                        let m = choose|m: nat| #[trigger] reach(culls, c, w, m);
                        lemma_reach_ends_open(culls, c, w, m);
                    }
                }
                assert forall|t: Cell, a: Direction, b: Direction|
                    in_section(t) && #[trigger] visited@[cell_index(t)] && is_open(culls, t)
                        && #[trigger] touches(culls, t, a) && #[trigger] touches(
                        culls,
                        t,
                        b,
                    ) implies info.sees(a, b) by {
                    if !v0[cell_index(t)] {
                        assert(newly(v0, visited@, t));
                        assert(connected(culls, c, t));
                        lemma_touches_trans(culls, c, t, a);
                        lemma_touches_trans(culls, c, t, b);
                    } else {
                        assert(info0.sees(a, b));
                    }
                }
            }
        }
        i = i + 1;
    }
    proof {
        assert forall|a: Direction, b: Direction|
            #[trigger] info.sees(a, b) == sees_through(culls, a, b) by {
            if sees_through(culls, a, b) {
                let s = choose|s: Cell|
                    #![trigger touches(culls, s, a), touches(culls, s, b)]
                    is_open(culls, s) && touches(culls, s, a) && touches(culls, s, b);
                lemma_cell_index_bounds(s);
                assert(visited@[cell_index(s)]);
            }
        }
    }
    info
}

// ---------------------------------------------------------------------------
// The random generator that picks block model variants in a section.
// ---------------------------------------------------------------------------

/// The four little-endian bytes of `v`.
pub open spec fn le_bytes(v: u32) -> Seq<u8> {
    seq![(v % 256) as u8, ((v / 256) % 256) as u8, ((v / 65536) % 256) as u8, (v / 16777216) as u8]
}

/// The seed for the section at `position`: the bits of x, y, z and of
/// `(x ^ z) | 1`, each as four little-endian bytes. The same section always
/// gets the same block variants.
pub open spec fn section_seed_of(position: (i32, i32, i32)) -> Seq<u8> {
    le_bytes(position.0 as u32) + le_bytes(position.1 as u32) + le_bytes(position.2 as u32)
        + le_bytes(((position.0 as u32) ^ (position.2 as u32)) | 1)
}

proof fn lemma_byte_parts(v: u32)
    by (bit_vector)
    ensures
        (v & 0xff) == v % 256,
        ((v >> 8) & 0xff) == (v / 256) % 256,
        ((v >> 16) & 0xff) == (v / 65536) % 256,
        (v >> 24) == v / 16777216,
{
}

/// The seed of the random generator for the section at `position`.
pub fn section_seed(position: (i32, i32, i32)) -> (seed: [u8; 16])
    ensures
        seed@ == section_seed_of(position),
{
    let x = position.0 as u32;
    let y = position.1 as u32;
    let z = position.2 as u32;
    let w = (x ^ z) | 1;
    proof {
        lemma_byte_parts(x);
        lemma_byte_parts(y);
        lemma_byte_parts(z);
        lemma_byte_parts(w);
    }
    let seed = [
        (x & 0xff) as u8,
        ((x >> 8) & 0xff) as u8,
        ((x >> 16) & 0xff) as u8,
        (x >> 24) as u8,
        (y & 0xff) as u8,
        ((y >> 8) & 0xff) as u8,
        ((y >> 16) & 0xff) as u8,
        (y >> 24) as u8,
        (z & 0xff) as u8,
        ((z >> 8) & 0xff) as u8,
        ((z >> 16) & 0xff) as u8,
        (z >> 24) as u8,
        (w & 0xff) as u8,
        ((w >> 8) & 0xff) as u8,
        ((w >> 16) & 0xff) as u8,
        (w >> 24) as u8,
    ];
    proof {
        assert(seed@ =~= section_seed_of(position));
    }
    seed
}

#[verifier::external_type_specification]
#[verifier::external_body]
pub struct ExPcg32(rand_pcg::Lcg64Xsh32);

/// The generator that `rand_pcg::Pcg32::from_seed` builds from `seed`.
pub uninterp spec fn pcg32_seeded(seed: Seq<u8>) -> rand_pcg::Lcg64Xsh32;

/// `<rand_pcg::Pcg32 as SeedableRng>::from_seed`: the claim is only that the
/// generator is a function of the seed (the crate reads the seed as two
/// little-endian words, state and increment, and takes one step); which
/// generator it is, is not stated.
#[verifier::external_body]
fn pcg32_from_seed(seed: [u8; 16]) -> (r: rand_pcg::Lcg64Xsh32)
    ensures
        r == pcg32_seeded(seed@),
{
    rand_pcg::Pcg32::from_seed(seed)
}

/// The random generator for the section at `position`, seeded by `section_seed`:
/// the same section always gets the same generator, and so the same block
/// variants.
pub fn section_rng(position: (i32, i32, i32)) -> (r: rand_pcg::Lcg64Xsh32)
    ensures
        r == pcg32_seeded(section_seed_of(position)),
{
    pcg32_from_seed(section_seed(position))
}
} // verus!
