//! The fixed board: a 48-cell ring shared by all colors, a private five-cell
//! home row per color and a shared center cell. Every color sees the board in
//! its own frame, a quarter turn clockwise from the previous color's.
use vstd::prelude::*;

verus! {

/// Number of cells on a track: the ring, the home row and the center.
pub const TRACK_LEN: usize = 54;
/// Number of cells of the ring shared by every color.
pub const RING_LEN: usize = 48;
/// Index a marble takes when it leaves its base.
pub const START_INDEX: usize = 0;
/// The shared center cell.
pub const CENTER_INDEX: usize = 53;
/// First cell of the private home row.
pub const FIRST_HOME_INDEX: usize = 48;
/// Last cell of the private home row.
pub const LAST_HOME_INDEX: usize = 52;
/// Ring cell a marble reaches when it steps off the center.
pub const CENTER_EXIT_INDEX: usize = 41;
/// Sentinel index of a marble that waits at its base, off the board.
pub const BASE_INDEX: usize = 54;
/// The three ring cells from which an exact roll leads into the center.
pub const CENTER_ENTRANCE_INDEXES: [usize; 3] = [5, 17, 29];

/// The four colors, in clockwise order around the board.
#[derive(Clone, Copy, PartialEq, Eq, Structural, Debug, Hash, PartialOrd, Ord)]
pub enum Player {
    Red,
    Green,
    Blue,
    Yellow,
}

/// How many quarter turns clockwise a color's frame is from the physical board.
pub open spec fn quarter_turns(p: Player) -> int {
    match p {
        Player::Red => 0,
        Player::Green => 1,
        Player::Blue => 2,
        Player::Yellow => 3,
    }
}

/// Turns a coordinate `k` quarter turns clockwise about the center cell.
pub open spec fn rotate_cw(c: (int, int), k: int) -> (int, int) {
    if k == 0 {
        c
    } else if k == 1 {
        (c.1, -c.0)
    } else if k == 2 {
        (-c.0, -c.1)
    } else {
        (-c.1, c.0)
    }
}

/// Coordinates of the first twelve ring cells; the other three quarters of the
/// ring are this segment turned clockwise.
pub open spec fn segment_coord(r: int) -> (int, int) {
    if r <= 5 {
        (r - 6, 1)
    } else if r <= 10 {
        (-1, r - 4)
    } else {
        (0, 6)
    }
}

/// Physical coordinate of track cell `i` in the red frame.
pub open spec fn cell_coord(i: int) -> (int, int) {
    if i < RING_LEN {
        rotate_cw(segment_coord(i % 12), i / 12)
    } else if i < CENTER_INDEX {
        (i - 53, 0)
    } else {
        (0, 0)
    }
}

/// Physical coordinate of cell `i` of `p`'s own track.
pub open spec fn physical_coord(p: Player, i: int) -> (int, int) {
    rotate_cw(cell_coord(i), quarter_turns(p))
}

pub open spec fn is_home(i: int) -> bool {
    FIRST_HOME_INDEX <= i <= LAST_HOME_INDEX
}

pub open spec fn is_entrance(i: int) -> bool {
    i == 5 || i == 17 || i == 29
}

/// A coordinate that can be negated in an `i32`.
pub open spec fn negatable(c: (i32, i32)) -> bool {
    c.0 > i32::MIN && c.1 > i32::MIN
}

pub open spec fn as_int_pair(c: (i32, i32)) -> (int, int) {
    (c.0 as int, c.1 as int)
}

impl Player {
    /// The color after this one, clockwise.
    pub fn next(self) -> (r: Player)
        ensures
            quarter_turns(r) == (quarter_turns(self) + 1) % 4,
    {
        match self {
            Player::Red => Player::Green,
            Player::Green => Player::Blue,
            Player::Blue => Player::Yellow,
            Player::Yellow => Player::Red,
        }
    }

    /// Position of this color in clockwise order, starting with red.
    pub fn index(self) -> (r: usize)
        ensures
            r as int == quarter_turns(self),
    {
        match self {
            Player::Red => 0,
            Player::Green => 1,
            Player::Blue => 2,
            Player::Yellow => 3,
        }
    }

    /// Maps a coordinate of this color's frame to the physical board.
    pub fn rotate_coords(self, c: (i32, i32)) -> (r: (i32, i32))
        requires
            negatable(c),
        ensures
            as_int_pair(r) == rotate_cw(as_int_pair(c), quarter_turns(self)),
            negatable(r),
    {
        match self {
            Player::Red => c,
            Player::Green => (c.1, -c.0),
            Player::Blue => (-c.0, -c.1),
            Player::Yellow => (-c.1, c.0),
        }
    }

    /// Maps a physical coordinate back into this color's frame.
    pub fn unrotate_coords(self, c: (i32, i32)) -> (r: (i32, i32))
        requires
            negatable(c),
        ensures
            rotate_cw(as_int_pair(r), quarter_turns(self)) == as_int_pair(c),
            negatable(r),
    {
        match self {
            Player::Red => c,
            Player::Green => (-c.1, c.0),
            Player::Blue => (-c.0, -c.1),
            Player::Yellow => (c.1, -c.0),
        }
    }

    /// Whether cell `i` of this color's track and cell `j` of `other`'s track
    /// are the same physical cell.
    pub fn is_same_index(self, i: usize, other: Player, j: usize) -> (r: bool)
        requires
            i < TRACK_LEN,
            j < TRACK_LEN,
        ensures
            r == (physical_coord(self, i as int) == physical_coord(other, j as int)),
    {
        let a = self.rotate_coords(board_coord(i));
        let b = other.rotate_coords(board_coord(j));
        a.0 == b.0 && a.1 == b.1
    }
}

/// Physical coordinate of track cell `i` in the red frame.
pub fn board_coord(i: usize) -> (r: (i32, i32))
    requires
        i < TRACK_LEN,
    ensures
        as_int_pair(r) == cell_coord(i as int),
        -6 <= r.0 <= 6,
        -6 <= r.1 <= 6,
{
    if i < RING_LEN {
        let k = i / 12;
        let s = i % 12;
        let seg: (i32, i32) = if s <= 5 {
            (s as i32 - 6, 1)
        } else if s <= 10 {
            (-1, s as i32 - 4)
        } else {
            (0, 6)
        };
        if k == 0 {
            seg
        } else if k == 1 {
            (seg.1, -seg.0)
        } else if k == 2 {
            (-seg.0, -seg.1)
        } else {
            (-seg.1, seg.0)
        }
    } else if i < CENTER_INDEX {
        (i as i32 - 53, 0)
    } else {
        (0, 0)
    }
}

/// The cell of `p`'s track found at physical coordinate `c`, the lowest
/// index where several match, or `None` where no cell lies there.
pub fn board_index_at(p: Player, c: (i32, i32)) -> (r: Option<usize>)
    ensures
        match r {
            Some(i) => i < TRACK_LEN && physical_coord(p, i as int) == as_int_pair(c)
                && forall|j: int| 0 <= j < i ==> physical_coord(p, j) != as_int_pair(c),
            None => forall|j: int| 0 <= j < TRACK_LEN ==> physical_coord(p, j) != as_int_pair(c),
        },
{
    let mut i: usize = 0;
    while i < TRACK_LEN
        invariant
            i <= TRACK_LEN,
            forall|j: int| 0 <= j < i ==> physical_coord(p, j) != as_int_pair(c),
        decreases TRACK_LEN - i,
    {
        let q = p.rotate_coords(board_coord(i));
        if q.0 == c.0 && q.1 == c.1 {
            return Some(i);
        }
        i += 1;
    }
    None
}

/// Whether `i` is a cell of the private home row.
pub fn is_home_index(i: usize) -> (r: bool)
    ensures
        r == is_home(i as int),
{
    FIRST_HOME_INDEX <= i && i <= LAST_HOME_INDEX
}

/// Whether `i` is the center cell.
pub fn is_center(i: usize) -> (r: bool)
    ensures
        r == (i == CENTER_INDEX),
{
    i == CENTER_INDEX
}

/// Whether `i` is one of the three entrances to the center.
pub fn is_center_entrance(i: usize) -> (r: bool)
    ensures
        r == is_entrance(i as int),
{
    i == CENTER_ENTRANCE_INDEXES[0] || i == CENTER_ENTRANCE_INDEXES[1]
        || i == CENTER_ENTRANCE_INDEXES[2]
}

/// The three entrances to the center, in track order.
pub fn entrance_indices() -> (r: [usize; 3])
    ensures
        r@ == seq![5usize, 17usize, 29usize],
{
    CENTER_ENTRANCE_INDEXES
}


/// The color whose quarter of the window holds a point: red top left, green
/// top right, blue bottom right, yellow bottom left.
pub fn color_of_quadrant(right: bool, top: bool) -> (r: Player)
    ensures
        r == (if right {
            if top {
                Player::Green
            } else {
                Player::Blue
            }
        } else if top {
            Player::Red
        } else {
            Player::Yellow
        }),
{
    if right {
        if top {
            Player::Green
        } else {
            Player::Blue
        }
    } else if top {
        Player::Red
    } else {
        Player::Yellow
    }
}


/// Turning by `a` and then by `b` quarter turns is turning by their sum.
pub proof fn lemma_rotate_compose(c: (int, int), a: int, b: int)
    requires
        0 <= a < 4,
        0 <= b < 4,
    ensures
        rotate_cw(rotate_cw(c, a), b) == rotate_cw(c, (a + b) % 4),
{
}

/// Cell `i` of a color's ring is cell `i + 12 * k` of the red ring, `k`
/// being the color's quarter turns.
pub proof fn lemma_ring_frames(p: Player, i: int)
    requires
        0 <= i < RING_LEN,
    ensures
        physical_coord(p, i) == cell_coord((i + 12 * quarter_turns(p)) % 48),
{
    let q = quarter_turns(p);
    let a = i / 12;
    let r = i % 12;
    let j = (i + 12 * q) % 48;
    assert(j / 12 == (a + q) % 4 && j % 12 == r);
    lemma_rotate_compose(segment_coord(r), a, q);
}

/// No two ring cells share a coordinate.
pub proof fn lemma_ring_cells_distinct(i: int, j: int)
    requires
        0 <= i < RING_LEN,
        0 <= j < RING_LEN,
        i != j,
    ensures
        cell_coord(i) != cell_coord(j),
{
    let a = i / 12;
    let b = j / 12;
    let r = i % 12;
    let s = j % 12;
    assert(i == 12 * a + r);
    assert(j == 12 * b + s);
}

} // verus!
