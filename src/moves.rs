//! Legal-move generation: raw candidates with their full paths per marble,
//! then the self-block filter and the projection onto destinations.
use vstd::prelude::*;
use crate::board::{
    is_entrance, is_home, Player, BASE_INDEX, CENTER_ENTRANCE_INDEXES, CENTER_EXIT_INDEX,
    CENTER_INDEX, FIRST_HOME_INDEX, LAST_HOME_INDEX, START_INDEX,
};
use crate::dice::{face_ok, Dice, WhichDie};
use crate::power::{distance, move_distance, valid_step, PowerUpStatus};

verus! {

/// A marble of some color: its cell on its owner's track (`BASE_INDEX` at
/// base) and the cell it stood on before its last move.
#[derive(Clone, Copy, PartialEq, Eq, Structural, Debug)]
pub struct Marble {
    pub player: Player,
    pub index: usize,
    pub prev_index: usize,
}

impl Marble {
    pub open spec fn wf(&self) -> bool {
        self.index <= BASE_INDEX && self.prev_index <= BASE_INDEX
    }
}

/// A candidate move before filtering: the marble, every cell it passes
/// through (the last is the destination) and the dice it consumes.
#[derive(Debug)]
pub struct Candidate {
    pub marble: usize,
    pub path: Vec<usize>,
    pub which: WhichDie,
}

impl View for Candidate {
    type V = (usize, Seq<usize>, WhichDie);

    open spec fn view(&self) -> (usize, Seq<usize>, WhichDie) {
        (self.marble, self.path@, self.which)
    }
}

/// The views of a list of candidates.
pub open spec fn cand_views(s: Seq<Candidate>) -> Seq<(usize, Seq<usize>, WhichDie)> {
    s.map_values(|c: Candidate| c@)
}

/// The cells `a`, `a + 1`, ..., `b`.
pub open spec fn steps(a: int, b: int) -> Seq<usize> {
    Seq::new((b - a + 1) as nat, |k: int| (a + k) as usize)
}

/// The path from `start` into the center, when `end` lies one past an
/// entrance: the cells up to the entrance, then the center.
pub open spec fn center_path(start: int, end: int) -> Option<Seq<usize>> {
    if is_entrance(end - 1) {
        Some(steps(start, end - 1).push(CENTER_INDEX))
    } else {
        None
    }
}

/// A face that lets a marble leave its base.
pub open spec fn is_exit_face(f: Option<u8>) -> bool {
    f == Some(1u8) || f == Some(6u8)
}

/// Leaving base with `face`, then optionally moving on with `other`.
pub open spec fn exit_with(
    face: Option<u8>,
    other: Option<u8>,
    w: WhichDie,
    mult: u8,
    e: usize,
    c: (usize, Seq<usize>, WhichDie),
) -> bool {
    is_exit_face(face) && (c == (e, seq![START_INDEX], w) || (other.is_some() && {
        let dest = other.unwrap() * mult;
        c == (e, steps(0, dest), WhichDie::Both) || (center_path(0, dest).is_some() && c == (
        e,
        center_path(0, dest).unwrap(),
        WhichDie::Both,
        ))
    }))
}

/// The candidates of marble `e` at its base.
pub open spec fn base_exit_move(d: Dice, e: usize, c: (usize, Seq<usize>, WhichDie)) -> bool {
    exit_with(d.one, d.two, WhichDie::One, d.multiplier, e, c) || exit_with(
        d.two,
        d.one,
        WhichDie::Two,
        d.multiplier,
        e,
        c,
    )
}

/// The candidates of marble `e` at the center: a one steps off onto the
/// center exit, and the other face may then carry on, as long as it ends in
/// the ring or the home row (the center is entered through an entrance only).
pub open spec fn center_exit_move(d: Dice, e: usize, c: (usize, Seq<usize>, WhichDie)) -> bool {
    let x = CENTER_EXIT_INDEX as int;
    let m = d.multiplier as int;
    if d.one == Some(1u8) && d.two == Some(1u8) {
        c == (e, seq![CENTER_EXIT_INDEX], WhichDie::One) || c == (
        e,
        seq![CENTER_EXIT_INDEX],
        WhichDie::Two,
        ) || c == (e, seq![CENTER_EXIT_INDEX, (x + m) as usize], WhichDie::Both)
    } else if d.one == Some(1u8) && d.two.is_some() {
        c == (e, seq![CENTER_EXIT_INDEX], WhichDie::One) || (x + d.two.unwrap() * m
            <= LAST_HOME_INDEX && c == (e, steps(x, x + d.two.unwrap() * m), WhichDie::Both))
    } else if d.one.is_some() && d.two == Some(1u8) {
        c == (e, seq![CENTER_EXIT_INDEX], WhichDie::Two) || (x + d.one.unwrap() * m
            <= LAST_HOME_INDEX && c == (e, steps(x, x + d.one.unwrap() * m), WhichDie::Both))
    } else if d.one == Some(1u8) && d.two.is_none() {
        c == (e, seq![CENTER_EXIT_INDEX], WhichDie::One)
    } else if d.one.is_none() && d.two == Some(1u8) {
        c == (e, seq![CENTER_EXIT_INDEX], WhichDie::Two)
    } else {
        false
    }
}

/// The candidates of marble `e` at cell `i` before the destination check.
pub open spec fn basic_raw(d: Dice, e: usize, i: int, c: (usize, Seq<usize>, WhichDie)) -> bool {
    let m = d.multiplier as int;
    if d.one.is_some() && d.two.is_some() {
        let d1 = d.one.unwrap() as int;
        let d2 = d.two.unwrap() as int;
        c == (e, steps(i + 1, i + d1 * m), WhichDie::One) || c == (
        e,
        steps(i + 1, i + d2 * m),
        WhichDie::Two,
        ) || c == (e, steps(i + 1, i + (d1 + d2) * m), WhichDie::Both) || (center_path(
            i,
            i + (d1 + d2) * m,
        ).is_some() && c == (e, center_path(i, i + (d1 + d2) * m).unwrap(), WhichDie::Both))
    } else if d.one.is_some() {
        c == (e, steps(i + 1, i + d.one.unwrap() * m), WhichDie::One)
    } else if d.two.is_some() {
        c == (e, steps(i + 1, i + d.two.unwrap() * m), WhichDie::Two)
    } else {
        false
    }
}

/// A path from cell `i` ends on the board: in the ring or home row, or in the
/// center without passing through the home row (and not from its last cell).
pub open spec fn lands_on_board(i: int, path: Seq<usize>) -> bool {
    path.len() > 0 && {
        let dest = path.last();
        dest <= LAST_HOME_INDEX || (dest == CENTER_INDEX && i != LAST_HOME_INDEX && forall|k: int|
            0 <= k < path.len() ==> !is_home(#[trigger] path[k] as int))
    }
}

/// The candidates of marble `e` at ring or home cell `i`.
pub open spec fn basic_move(d: Dice, e: usize, i: int, c: (usize, Seq<usize>, WhichDie)) -> bool {
    basic_raw(d, e, i, c) && lands_on_board(i, c.1)
}

/// A face times the multiplier stays within twice the face.
pub proof fn lemma_scaled(f: int, m: int)
    requires
        0 <= f,
        m == 1 || m == 2,
    ensures
        f <= f * m <= 2 * f,
{
    if m == 1 {
        assert(f * m == f);
    } else {
        assert(f * m == 2 * f);
    }
}

/// Whether two paths hold the same cells.
fn same_path(a: &Vec<usize>, b: &Vec<usize>) -> (r: bool)
    ensures
        r == (a@ == b@),
{
    if a.len() != b.len() {
        return false;
    }
    let mut k: usize = 0;
    while k < a.len()
        invariant
            a.len() == b.len(),
            k <= a.len(),
            forall|j: int| 0 <= j < k ==> a@[j] == b@[j],
        decreases a.len() - k,
    {
        if a[k] != b[k] {
            return false;
        }
        k += 1;
    }
    assert(a@ =~= b@);
    true
}

/// Adds `c` to `moves` unless an equal candidate is there already.
pub fn insert_candidate(moves: &mut Vec<Candidate>, c: Candidate)
    ensures
        forall|x| #[trigger]
            cand_views(final(moves)@).contains(x) <==> (cand_views(old(moves)@).contains(x) || x
                == c@),
        cand_views(old(moves)@).no_duplicates() ==> cand_views(final(moves)@).no_duplicates(),
{
    let ghost old_views = cand_views(moves@);
    let mut k: usize = 0;
    while k < moves.len()
        invariant
            cand_views(moves@) == old_views,
            k <= moves.len(),
            forall|j: int| 0 <= j < k ==> moves@[j]@ != c@,
        decreases moves.len() - k,
    {
        if moves[k].marble == c.marble && moves[k].which == c.which && same_path(
            &moves[k].path,
            &c.path,
        ) {
            assert(old_views[k as int] == c@);
            return;
        }
        k += 1;
    }
    let ghost cv = c@;
    moves.push(c);
    assert(cand_views(moves@) =~= old_views.push(cv));
    assert forall|x| #[trigger]
        cand_views(moves@).contains(x) <==> (old_views.contains(x) || x == cv) by {
        if old_views.contains(x) {
            let j = choose|j: int| 0 <= j < old_views.len() && old_views[j] == x;
            assert(cand_views(moves@)[j] == x);
        }
        if x == cv {
            assert(cand_views(moves@)[old_views.len() as int] == x);
        }
    }
}

/// The cells `a` to `b`.
fn steps_vec(a: usize, b: usize) -> (r: Vec<usize>)
    requires
        a <= b + 1,
        b < usize::MAX,
    ensures
        r@ == steps(a as int, b as int),
{
    let mut r: Vec<usize> = Vec::new();
    let mut k: usize = a;
    while k <= b
        invariant
            a <= k <= b + 1,
            b < usize::MAX,
            r@ == steps(a as int, k as int - 1),
        decreases b + 1 - k,
    {
        r.push(k);
        assert(r@ =~= steps(a as int, k as int));
        k += 1;
    }
    r
}

/// The path from `start` into the center when `end` is one past an entrance.
/// Using it takes both dice: the center is reached by an exact roll only.
pub fn enter_center_path(start: usize, end: usize) -> (r: Option<Vec<usize>>)
    requires
        1 <= end,
        start <= end,
    ensures
        match r {
            Some(p) => center_path(start as int, end as int) == Some(p@),
            None => center_path(start as int, end as int).is_none(),
        },
{
    let last = end - 1;
    if last == CENTER_ENTRANCE_INDEXES[0] || last == CENTER_ENTRANCE_INDEXES[1] || last
        == CENTER_ENTRANCE_INDEXES[2] {
        let mut path = steps_vec(start, last);
        path.push(CENTER_INDEX);
        Some(path)
    } else {
        None
    }
}


/// The candidate `(e, path, which)` added to `moves`.
fn add_move(moves: &mut Vec<Candidate>, e: usize, path: Vec<usize>, which: WhichDie)
    ensures
        forall|x| #[trigger]
            cand_views(final(moves)@).contains(x) <==> (cand_views(old(moves)@).contains(x) || x
                == (e, path@, which)),
        cand_views(old(moves)@).no_duplicates() ==> cand_views(final(moves)@).no_duplicates(),
{
    insert_candidate(moves, Candidate { marble: e, path, which });
}

/// Candidates for leaving base with `face` and moving on with `other`.
fn exit_rules(
    face: Option<u8>,
    other: Option<u8>,
    w: WhichDie,
    mult: u8,
    e: usize,
    moves: &mut Vec<Candidate>,
)
    requires
        face_ok(other),
        mult == 1 || mult == 2,
    ensures
        forall|x| #[trigger]
            cand_views(final(moves)@).contains(x) <==> (cand_views(old(moves)@).contains(x)
                || exit_with(face, other, w, mult, e, x)),
        cand_views(old(moves)@).no_duplicates() ==> cand_views(final(moves)@).no_duplicates(),
{
    let ghost v0 = cand_views(moves@);
    if face == Some(1u8) || face == Some(6u8) {
        let start = vec![START_INDEX];
        assert(start@ =~= seq![START_INDEX]);
        add_move(moves, e, start, w);
        let ghost v1 = cand_views(moves@);
        if other.is_some() {
            let o = other.unwrap();
            proof { lemma_scaled(o as int, mult as int); }
            let dest = START_INDEX + (o as usize) * (mult as usize);
            add_move(moves, e, steps_vec(START_INDEX, dest), WhichDie::Both);
            let ghost v2 = cand_views(moves@);
            if let Some(center) = enter_center_path(START_INDEX, dest) {
                add_move(moves, e, center, WhichDie::Both);
            }
            assert forall|x| #[trigger]
                cand_views(moves@).contains(x) <==> (v0.contains(x) || exit_with(
                    face,
                    other,
                    w,
                    mult,
                    e,
                    x,
                )) by {
                assert(v2.contains(x) <==> (v1.contains(x) || x == (
                e,
                steps(0, dest as int),
                WhichDie::Both,
                )));
            }
        }
    }
}

/// Candidates for marble `e` waiting at its base: a one or a six brings it to
/// the start cell, and the other face may carry it on, or into the center.
pub fn base_exit_rules(dice: &Dice, e: usize, moves: &mut Vec<Candidate>)
    requires
        dice.wf(),
    ensures
        forall|x| #[trigger]
            cand_views(final(moves)@).contains(x) <==> (cand_views(old(moves)@).contains(x)
                || base_exit_move(*dice, e, x)),
        cand_views(old(moves)@).no_duplicates() ==> cand_views(final(moves)@).no_duplicates(),
{
    exit_rules(dice.one, dice.two, WhichDie::One, dice.multiplier, e, moves);
    exit_rules(dice.two, dice.one, WhichDie::Two, dice.multiplier, e, moves);
}


/// Candidates for marble `e` at the center: a one steps off onto the center
/// exit, and the other face may then carry it on.
pub fn center_exit_rules(dice: &Dice, e: usize, moves: &mut Vec<Candidate>)
    requires
        dice.wf(),
    ensures
        forall|x| #[trigger]
            cand_views(final(moves)@).contains(x) <==> (cand_views(old(moves)@).contains(x)
                || center_exit_move(*dice, e, x)),
        cand_views(old(moves)@).no_duplicates() ==> cand_views(final(moves)@).no_duplicates(),
{
    let x = CENTER_EXIT_INDEX;
    let m = dice.multiplier as usize;
    let exit = vec![x];
    assert(exit@ =~= seq![CENTER_EXIT_INDEX]);
    if dice.one == Some(1u8) && dice.two == Some(1u8) {
        let exit2 = vec![x];
        assert(exit2@ =~= seq![CENTER_EXIT_INDEX]);
        let both = vec![x, x + m];
        assert(both@ =~= seq![CENTER_EXIT_INDEX, (x + m) as usize]);
        add_move(moves, e, exit, WhichDie::One);
        add_move(moves, e, exit2, WhichDie::Two);
        add_move(moves, e, both, WhichDie::Both);
    } else if dice.one == Some(1u8) && dice.two.is_some() {
        let d2 = dice.two.unwrap() as usize;
        proof { lemma_scaled(d2 as int, m as int); }
        add_move(moves, e, exit, WhichDie::One);
        if x + d2 * m <= LAST_HOME_INDEX {
            add_move(moves, e, steps_vec(x, x + d2 * m), WhichDie::Both);
        }
    } else if dice.one.is_some() && dice.two == Some(1u8) {
        let d1 = dice.one.unwrap() as usize;
        proof { lemma_scaled(d1 as int, m as int); }
        add_move(moves, e, exit, WhichDie::Two);
        if x + d1 * m <= LAST_HOME_INDEX {
            add_move(moves, e, steps_vec(x, x + d1 * m), WhichDie::Both);
        }
    } else if dice.one == Some(1u8) && dice.two.is_none() {
        add_move(moves, e, exit, WhichDie::One);
    } else if dice.one.is_none() && dice.two == Some(1u8) {
        add_move(moves, e, exit, WhichDie::Two);
    }
}

/// Whether a path from cell `i` ends on the board.
fn path_lands_on_board(i: usize, path: &Vec<usize>) -> (r: bool)
    ensures
        r == lands_on_board(i as int, path@),
{
    if path.len() == 0 {
        return false;
    }
    let dest = path[path.len() - 1];
    if dest <= LAST_HOME_INDEX {
        return true;
    }
    if dest != CENTER_INDEX || i == LAST_HOME_INDEX {
        return false;
    }
    let mut k: usize = 0;
    while k < path.len()
        invariant
            k <= path.len(),
            path.len() > 0,
            path@.last() == CENTER_INDEX,
            i != LAST_HOME_INDEX,
            forall|j: int| 0 <= j < k ==> !is_home(#[trigger] path@[j] as int),
        decreases path.len() - k,
    {
        if FIRST_HOME_INDEX <= path[k] && path[k] <= LAST_HOME_INDEX {
            assert(is_home(path@[k as int] as int));
            return false;
        }
        k += 1;
    }
    true
}

/// Adds `(e, path, which)` when the path from cell `i` ends on the board.
fn add_if_on_board(
    moves: &mut Vec<Candidate>,
    e: usize,
    i: usize,
    path: Vec<usize>,
    which: WhichDie,
)
    ensures
        forall|x| #[trigger]
            cand_views(final(moves)@).contains(x) <==> (cand_views(old(moves)@).contains(x) || (x
                == (e, path@, which) && lands_on_board(i as int, path@))),
        cand_views(old(moves)@).no_duplicates() ==> cand_views(final(moves)@).no_duplicates(),
{
    if path_lands_on_board(i, &path) {
        add_move(moves, e, path, which);
    }
}

/// Candidates for marble `e` on a ring or home cell: each face alone, both
/// faces together, or both together into the center; paths that leave the
/// board are dropped.
pub fn basic_rules(dice: &Dice, e: usize, marble: &Marble, moves: &mut Vec<Candidate>)
    requires
        dice.wf(),
        !dice.spec_is_empty(),
        marble.index < CENTER_INDEX,
    ensures
        forall|x| #[trigger]
            cand_views(final(moves)@).contains(x) <==> (cand_views(old(moves)@).contains(x)
                || basic_move(*dice, e, marble.index as int, x)),
        cand_views(old(moves)@).no_duplicates() ==> cand_views(final(moves)@).no_duplicates(),
{
    let ghost v0 = cand_views(moves@);
    let i = marble.index;
    let m = dice.multiplier as usize;
    if dice.one.is_some() && dice.two.is_some() {
        let d1 = dice.one.unwrap() as usize;
        let d2 = dice.two.unwrap() as usize;
        proof {
            lemma_scaled(d1 as int, m as int);
            lemma_scaled(d2 as int, m as int);
            lemma_scaled(d1 + d2, m as int);
        }
        let sum = (d1 + d2) * m;
        add_if_on_board(moves, e, i, steps_vec(i + 1, i + d1 * m), WhichDie::One);
        add_if_on_board(moves, e, i, steps_vec(i + 1, i + d2 * m), WhichDie::Two);
        add_if_on_board(moves, e, i, steps_vec(i + 1, i + sum), WhichDie::Both);
        if let Some(center) = enter_center_path(i, i + sum) {
            add_if_on_board(moves, e, i, center, WhichDie::Both);
        }
        assert forall|x| #[trigger]
            cand_views(moves@).contains(x) <==> (v0.contains(x) || basic_move(
                *dice,
                e,
                i as int,
                x,
            )) by {
            assert(((d1 + d2) * m) as int == (dice.one.unwrap() as int + dice.two.unwrap() as int)
                * (dice.multiplier as int));
        }
    } else if dice.one.is_some() {
        let d1 = dice.one.unwrap() as usize;
        proof { lemma_scaled(d1 as int, m as int); }
        add_if_on_board(moves, e, i, steps_vec(i + 1, i + d1 * m), WhichDie::One);
    } else {
        let d2 = dice.two.unwrap() as usize;
        proof { lemma_scaled(d2 as int, m as int); }
        add_if_on_board(moves, e, i, steps_vec(i + 1, i + d2 * m), WhichDie::Two);
    }
}


/// A legal move as offered to the chooser: where the marble ends, how many
/// cells that covers, and which dice it consumes.
#[derive(Clone, Copy, PartialEq, Eq, Structural, Debug)]
pub struct MarbleMove {
    pub destination: usize,
    pub distance: usize,
    pub which: WhichDie,
}

impl From<(usize, usize, WhichDie)> for MarbleMove {
    fn from(value: (usize, usize, WhichDie)) -> (r: MarbleMove) {
        MarbleMove { destination: value.0, distance: value.1, which: value.2 }
    }
}

impl vstd::std_specs::convert::FromSpecImpl<(usize, usize, WhichDie)> for MarbleMove {
    open spec fn obeys_from_spec() -> bool {
        true
    }

    open spec fn from_spec(value: (usize, usize, WhichDie)) -> MarbleMove {
        MarbleMove { destination: value.0, distance: value.1, which: value.2 }
    }
}

/// Marble `k` exists and belongs to `player`.
pub open spec fn own(marbles: Seq<Marble>, player: Player, k: int) -> bool {
    0 <= k < marbles.len() && marbles[k].player == player
}

/// Some marble of `player` stands on cell `i`.
pub open spec fn occupied(marbles: Seq<Marble>, player: Player, i: int) -> bool {
    exists|k: int| own(marbles, player, k) && #[trigger] marbles[k].index == i
}

/// A home-run candidate: with the flag set, a marble outside the home row
/// goes straight to any home cell none of its owner's marbles holds.
pub open spec fn home_run_move(
    status: PowerUpStatus,
    marbles: Seq<Marble>,
    player: Player,
    c: (usize, Seq<usize>, WhichDie),
) -> bool {
    &&& status.home_run
    &&& own(marbles, player, c.0 as int)
    &&& !is_home(marbles[c.0 as int].index as int)
    &&& c.2 == WhichDie::Neither
    &&& c.1.len() == 1
    &&& is_home(c.1[0] as int)
    &&& !occupied(marbles, player, c.1[0] as int)
}

/// A candidate that uses the dice, by where the marble stands.
pub open spec fn dice_move(
    dice: Dice,
    marbles: Seq<Marble>,
    player: Player,
    c: (usize, Seq<usize>, WhichDie),
) -> bool {
    &&& !dice.spec_is_empty()
    &&& own(marbles, player, c.0 as int)
    &&& {
        let i = marbles[c.0 as int].index;
        if i == BASE_INDEX {
            base_exit_move(dice, c.0, c)
        } else if i == CENTER_INDEX {
            center_exit_move(dice, c.0, c)
        } else {
            basic_move(dice, c.0, i as int, c)
        }
    }
}

/// Every candidate move of `player`'s marbles.
pub open spec fn candidate_move(
    dice: Dice,
    status: PowerUpStatus,
    marbles: Seq<Marble>,
    player: Player,
    c: (usize, Seq<usize>, WhichDie),
) -> bool {
    home_run_move(status, marbles, player, c) || dice_move(dice, marbles, player, c)
}

/// Another marble of the same player stands in the way: on any cell of the
/// path, or, when jumping over own marbles, on its last cell.
pub open spec fn blocked(
    marbles: Seq<Marble>,
    player: Player,
    jump: bool,
    c: (usize, Seq<usize>, WhichDie),
) -> bool {
    exists|k: int|
        #![trigger marbles[k]]
        own(marbles, player, k) && k != c.0 && (if jump {
            marbles[k].index == c.1.last()
        } else {
            c.1.contains(marbles[k].index)
        })
}

/// A legal move `(marble, destination, dice)`: some unblocked candidate of
/// that marble and those dice ends on that destination.
pub open spec fn legal_move(
    dice: Dice,
    status: PowerUpStatus,
    marbles: Seq<Marble>,
    player: Player,
    m: (usize, usize, WhichDie),
) -> bool {
    exists|p: Seq<usize>|
        {
            &&& #[trigger] candidate_move(dice, status, marbles, player, (m.0, p, m.2))
            &&& !blocked(marbles, player, status.jump_self_turns > 0, (m.0, p, m.2))
            &&& p.len() > 0
            &&& p.last() == m.1
        }
}

/// The view of an offered move: marble, destination, dice.
pub open spec fn move_view(m: (usize, MarbleMove)) -> (usize, usize, WhichDie) {
    (m.0, m.1.destination, m.1.which)
}

pub open spec fn move_views(s: Seq<(usize, MarbleMove)>) -> Seq<(usize, usize, WhichDie)> {
    s.map_values(|m: (usize, MarbleMove)| move_view(m))
}


/// Whether a marble of `player` stands on cell `i`.
fn is_occupied(marbles: &Vec<Marble>, player: Player, i: usize) -> (r: bool)
    ensures
        r == occupied(marbles@, player, i as int),
{
    let mut k: usize = 0;
    while k < marbles.len()
        invariant
            k <= marbles.len(),
            forall|j: int| 0 <= j < k ==> !(own(marbles@, player, j) && #[trigger] marbles@[j].index == i),
        decreases marbles.len() - k,
    {
        if marbles[k].player == player && marbles[k].index == i {
            assert(own(marbles@, player, k as int) && marbles@[k as int].index == i);
            return true;
        }
        k += 1;
    }
    false
}

/// The home cells that none of `player`'s marbles holds, in order.
pub fn open_home_indexes(marbles: &Vec<Marble>, player: Player) -> (r: Vec<usize>)
    ensures
        forall|h: usize| #[trigger]
            r@.contains(h) <==> (is_home(h as int) && !occupied(marbles@, player, h as int)),
{
    let mut r: Vec<usize> = Vec::new();
    let mut h: usize = FIRST_HOME_INDEX;
    while h <= LAST_HOME_INDEX
        invariant
            FIRST_HOME_INDEX <= h <= LAST_HOME_INDEX + 1,
            forall|x: usize| #[trigger]
                r@.contains(x) <==> (FIRST_HOME_INDEX <= x < h && !occupied(
                    marbles@,
                    player,
                    x as int,
                )),
        decreases LAST_HOME_INDEX + 1 - h,
    {
        if !is_occupied(marbles, player, h) {
            let ghost old_r = r@;
            r.push(h);
            assert forall|x: usize| #[trigger]
                r@.contains(x) <==> (old_r.contains(x) || x == h) by {
                if old_r.contains(x) {
                    let j = choose|j: int| 0 <= j < old_r.len() && old_r[j] == x;
                    assert(r@[j] == x);
                }
                if x == h {
                    assert(r@[old_r.len() as int] == x);
                }
            }
        }
        h += 1;
    }
    r
}

/// Home-run candidates: every marble of `player` outside the home row to
/// every open home cell.
fn home_run_rules(
    status: &PowerUpStatus,
    marbles: &Vec<Marble>,
    player: Player,
    moves: &mut Vec<Candidate>,
)
    requires
        status.home_run,
    ensures
        forall|x| #[trigger]
            cand_views(final(moves)@).contains(x) <==> (cand_views(old(moves)@).contains(x)
                || home_run_move(*status, marbles@, player, x)),
        cand_views(old(moves)@).no_duplicates() ==> cand_views(final(moves)@).no_duplicates(),
{
    let ghost v0 = cand_views(moves@);
    let open = open_home_indexes(marbles, player);
    let mut k: usize = 0;
    while k < marbles.len()
        invariant
            status.home_run,
            k <= marbles.len(),
            forall|h: usize| #[trigger]
                open@.contains(h) <==> (is_home(h as int) && !occupied(marbles@, player, h as int)),
            forall|x| #[trigger]
                cand_views(moves@).contains(x) <==> (v0.contains(x) || (home_run_move(
                    *status,
                    marbles@,
                    player,
                    x,
                ) && x.0 < k)),
            v0.no_duplicates() ==> cand_views(moves@).no_duplicates(),
        decreases marbles.len() - k,
    {
        let m = marbles[k];
        if m.player == player && !(FIRST_HOME_INDEX <= m.index && m.index <= LAST_HOME_INDEX) {
            let ghost vk = cand_views(moves@);
            let mut j: usize = 0;
            while j < open.len()
                invariant
                    status.home_run,
                    k < marbles.len(),
                    m == marbles@[k as int],
                    m.player == player,
                    !is_home(m.index as int),
                    j <= open.len(),
                    forall|h: usize| #[trigger]
                        open@.contains(h) <==> (is_home(h as int) && !occupied(
                            marbles@,
                            player,
                            h as int,
                        )),
                    forall|x| #[trigger]
                        cand_views(moves@).contains(x) <==> (vk.contains(x) || (x.0 == k && x.2
                            == WhichDie::Neither && x.1.len() == 1 && exists|t: int|
                            0 <= t < j && open@[t] == x.1[0])),
                    v0.no_duplicates() ==> vk.no_duplicates(),
                    vk.no_duplicates() ==> cand_views(moves@).no_duplicates(),
                decreases open.len() - j,
            {
                let cell = vec![open[j]];
                assert(cell@ =~= seq![open@[j as int]]);
                add_move(moves, k, cell, WhichDie::Neither);
                assert forall|x| #[trigger]
                    cand_views(moves@).contains(x) <==> (vk.contains(x) || (x.0 == k && x.2
                        == WhichDie::Neither && x.1.len() == 1 && exists|t: int|
                        0 <= t < j + 1 && open@[t] == x.1[0])) by {
                    if x.0 == k && x.2 == WhichDie::Neither && x.1.len() == 1 {
                        if x.1[0] == open@[j as int] {
                            assert(x.1 =~= seq![open@[j as int]]);
                        }
                        if exists|t: int| 0 <= t < j + 1 && open@[t] == x.1[0] {
                            let t = choose|t: int| 0 <= t < j + 1 && open@[t] == x.1[0];
                            if t < j {
                                assert(exists|t: int| 0 <= t < j && open@[t] == x.1[0]);
                            }
                        }
                    }
                }
                j += 1;
            }
            assert forall|x| #[trigger]
                cand_views(moves@).contains(x) <==> (v0.contains(x) || (home_run_move(
                    *status,
                    marbles@,
                    player,
                    x,
                ) && x.0 < k + 1)) by {
                if x.0 == k && x.2 == WhichDie::Neither && x.1.len() == 1 {
                    if open@.contains(x.1[0]) {
                        let t = choose|t: int| 0 <= t < open@.len() && open@[t] == x.1[0];
                        assert(exists|t: int| 0 <= t < j && open@[t] == x.1[0]);
                    }
                    if exists|t: int| 0 <= t < j && open@[t] == x.1[0] {
                        let t = choose|t: int| 0 <= t < j && open@[t] == x.1[0];
                        assert(open@.contains(open@[t]));
                    }
                }
            }
        }
        k += 1;
    }
}

/// Every candidate of `player`'s marbles: the home-run moves when that flag
/// is set, and the dice moves while a die is left.
pub fn calc_candidates(
    dice: &Dice,
    status: &PowerUpStatus,
    marbles: &Vec<Marble>,
    player: Player,
) -> (r: Vec<Candidate>)
    requires
        dice.wf(),
        forall|k: int| 0 <= k < marbles@.len() ==> (#[trigger] marbles@[k]).wf(),
    ensures
        forall|x| #[trigger]
            cand_views(r@).contains(x) <==> candidate_move(*dice, *status, marbles@, player, x),
        cand_views(r@).no_duplicates(),
{
    let mut moves: Vec<Candidate> = Vec::new();
    assert(cand_views(moves@) =~= Seq::empty());
    if status.home_run {
        home_run_rules(status, marbles, player, &mut moves);
    }
    let ghost v0 = cand_views(moves@);
    assert(forall|x| #[trigger] v0.contains(x) <==> home_run_move(*status, marbles@, player, x));
    if !dice.is_empty() {
        let mut k: usize = 0;
        while k < marbles.len()
            invariant
                dice.wf(),
                !dice.spec_is_empty(),
                k <= marbles.len(),
                forall|k: int| 0 <= k < marbles@.len() ==> (#[trigger] marbles@[k]).wf(),
                forall|x| #[trigger]
                    cand_views(moves@).contains(x) <==> (v0.contains(x) || (dice_move(
                        *dice,
                        marbles@,
                        player,
                        x,
                    ) && x.0 < k)),
                cand_views(moves@).no_duplicates(),
            decreases marbles.len() - k,
        {
            let m = marbles[k];
            if m.player == player {
                if m.index == BASE_INDEX {
                    base_exit_rules(dice, k, &mut moves);
                } else if m.index == CENTER_INDEX {
                    center_exit_rules(dice, k, &mut moves);
                } else {
                    basic_rules(dice, k, &m, &mut moves);
                }
            }
            k += 1;
        }
    }
    moves
}


/// The path of every candidate is non-empty and its move is one the scoring
/// rules can measure.
pub proof fn lemma_candidate_step(
    dice: Dice,
    status: PowerUpStatus,
    marbles: Seq<Marble>,
    player: Player,
    c: (usize, Seq<usize>, WhichDie),
)
    requires
        dice.wf(),
        forall|k: int| 0 <= k < marbles.len() ==> (#[trigger] marbles[k]).wf(),
        candidate_move(dice, status, marbles, player, c),
    ensures
        c.1.len() > 0,
        valid_step(marbles[c.0 as int].index as int, c.1.last() as int),
        c.1.last() == CENTER_INDEX ==> c.2 == WhichDie::Both,
{
    let i = marbles[c.0 as int].index as int;
    assert(marbles[c.0 as int].wf());
    let m = dice.multiplier as int;
    if dice.one.is_some() {
        lemma_scaled(dice.one.unwrap() as int, m);
    }
    if dice.two.is_some() {
        lemma_scaled(dice.two.unwrap() as int, m);
    }
    if dice.one.is_some() && dice.two.is_some() {
        lemma_scaled(dice.one.unwrap() + dice.two.unwrap(), m);
    }
    if !home_run_move(status, marbles, player, c) && i != BASE_INDEX && i != CENTER_INDEX {
        if c.1.last() == CENTER_INDEX && c.1[0] == i + 1 {
            assert(c.1[51 - i] == 52);
        }
    }
}

/// Whether `path` passes through cell `v`.
fn path_contains(path: &Vec<usize>, v: usize) -> (r: bool)
    ensures
        r == path@.contains(v),
{
    let mut k: usize = 0;
    while k < path.len()
        invariant
            k <= path.len(),
            forall|j: int| 0 <= j < k ==> path@[j] != v,
        decreases path.len() - k,
    {
        if path[k] == v {
            assert(path@[k as int] == v);
            return true;
        }
        k += 1;
    }
    false
}

/// Whether another marble of `player` blocks candidate `c`.
fn is_blocked(marbles: &Vec<Marble>, player: Player, jump: bool, c: &Candidate) -> (r: bool)
    requires
        c.path@.len() > 0,
    ensures
        r == blocked(marbles@, player, jump, c@),
{
    let dest = c.path[c.path.len() - 1];
    let mut k: usize = 0;
    while k < marbles.len()
        invariant
            k <= marbles.len(),
            c.path@.len() > 0,
            dest == c.path@.last(),
            forall|j: int|
                #![trigger marbles@[j]]
                0 <= j < k ==> !(own(marbles@, player, j) && j != c.marble && (if jump {
                    marbles@[j].index == c.path@.last()
                } else {
                    c.path@.contains(marbles@[j].index)
                })),
        decreases marbles.len() - k,
    {
        if k != c.marble && marbles[k].player == player {
            let hit = if jump {
                marbles[k].index == dest
            } else {
                path_contains(&c.path, marbles[k].index)
            };
            if hit {
                assert(own(marbles@, player, k as int));
                return true;
            }
        }
        k += 1;
    }
    false
}

/// Adds `(e, mv)` unless a move of that marble to that destination with
/// those dice is there already.
fn push_unique_move(out: &mut Vec<(usize, MarbleMove)>, e: usize, mv: MarbleMove)
    ensures
        forall|t| #[trigger]
            move_views(final(out)@).contains(t) <==> (move_views(old(out)@).contains(t) || t == (
            e,
            mv.destination,
            mv.which,
            )),
        move_views(old(out)@).no_duplicates() ==> move_views(final(out)@).no_duplicates(),
        final(out)@ == old(out)@ || final(out)@ == old(out)@.push((e, mv)),
{
    let ghost old_views = move_views(out@);
    let mut k: usize = 0;
    while k < out.len()
        invariant
            move_views(out@) == old_views,
            k <= out.len(),
            forall|j: int| 0 <= j < k ==> move_view(out@[j]) != (e, mv.destination, mv.which),
        decreases out.len() - k,
    {
        if out[k].0 == e && out[k].1.destination == mv.destination && out[k].1.which == mv.which {
            assert(old_views[k as int] == (e, mv.destination, mv.which));
            return;
        }
        k += 1;
    }
    out.push((e, mv));
    assert(move_views(out@) =~= old_views.push((e, mv.destination, mv.which)));
    assert forall|t| #[trigger]
        move_views(out@).contains(t) <==> (old_views.contains(t) || t == (
        e,
        mv.destination,
        mv.which,
        )) by {
        if old_views.contains(t) {
            let j = choose|j: int| 0 <= j < old_views.len() && old_views[j] == t;
            assert(move_views(out@)[j] == t);
        }
        if t == (e, mv.destination, mv.which) {
            assert(move_views(out@)[old_views.len() as int] == t);
        }
    }
}

/// The legal moves of `player`: every candidate that no own marble blocks,
/// as marble, destination and dice, each once, with the distance it covers.
pub fn calc_possible_moves(
    dice: &Dice,
    status: &PowerUpStatus,
    marbles: &Vec<Marble>,
    player: Player,
) -> (r: Vec<(usize, MarbleMove)>)
    requires
        dice.wf(),
        forall|k: int| 0 <= k < marbles@.len() ==> (#[trigger] marbles@[k]).wf(),
    ensures
        forall|t| #[trigger]
            move_views(r@).contains(t) <==> legal_move(*dice, *status, marbles@, player, t),
        move_views(r@).no_duplicates(),
        forall|j: int|
            #![trigger r@[j]]
            0 <= j < r@.len() ==> {
                let (e, mv) = r@[j];
                &&& own(marbles@, player, e as int)
                &&& valid_step(marbles@[e as int].index as int, mv.destination as int)
                &&& mv.destination == CENTER_INDEX ==> mv.which == WhichDie::Both
                &&& mv.distance == move_distance(
                    marbles@[e as int].index as int,
                    mv.destination as int,
                )
            },
{
    let cands = calc_candidates(dice, status, marbles, player);
    let jump = status.jump_self_turns > 0;
    let mut out: Vec<(usize, MarbleMove)> = Vec::new();
    assert(move_views(out@) =~= Seq::empty());
    let mut j: usize = 0;
    while j < cands.len()
        invariant
            j <= cands.len(),
            dice.wf(),
            forall|k: int| 0 <= k < marbles@.len() ==> (#[trigger] marbles@[k]).wf(),
            jump == (status.jump_self_turns > 0),
            forall|x| #[trigger]
                cand_views(cands@).contains(x) <==> candidate_move(
                    *dice,
                    *status,
                    marbles@,
                    player,
                    x,
                ),
            forall|t| #[trigger]
                move_views(out@).contains(t) <==> exists|i: int|
                    0 <= i < j && !blocked(marbles@, player, jump, #[trigger] cands@[i]@) && t == (
                    cands@[i].marble,
                    cands@[i].path@.last(),
                    cands@[i].which,
                    ),
            move_views(out@).no_duplicates(),
            forall|i: int|
                #![trigger out@[i]]
                0 <= i < out@.len() ==> {
                    let (e, mv) = out@[i];
                    &&& own(marbles@, player, e as int)
                    &&& valid_step(marbles@[e as int].index as int, mv.destination as int)
                    &&& mv.destination == CENTER_INDEX ==> mv.which == WhichDie::Both
                    &&& mv.distance == move_distance(
                        marbles@[e as int].index as int,
                        mv.destination as int,
                    )
                },
        decreases cands.len() - j,
    {
        let c = &cands[j];
        assert(cand_views(cands@)[j as int] == c@);
        assert(cand_views(cands@).contains(c@));
        proof {
            lemma_candidate_step(*dice, *status, marbles@, player, c@);
        }
        let ghost prev = out@;
        if !is_blocked(marbles, player, jump, c) {
            let dest = c.path[c.path.len() - 1];
            let from = marbles[c.marble].index;
            let mv = MarbleMove { destination: dest, distance: distance(from, dest), which: c.which };
            push_unique_move(&mut out, c.marble, mv);
        }
        assert forall|t| #[trigger]
            move_views(out@).contains(t) <==> exists|i: int|
                0 <= i < j + 1 && !blocked(marbles@, player, jump, #[trigger] cands@[i]@) && t == (
                cands@[i].marble,
                cands@[i].path@.last(),
                cands@[i].which,
                ) by {
            if exists|i: int|
                0 <= i < j + 1 && !blocked(marbles@, player, jump, #[trigger] cands@[i]@) && t == (
                cands@[i].marble,
                cands@[i].path@.last(),
                cands@[i].which,
                ) {
                let i = choose|i: int|
                    0 <= i < j + 1 && !blocked(marbles@, player, jump, #[trigger] cands@[i]@) && t
                        == (cands@[i].marble, cands@[i].path@.last(), cands@[i].which);
                if i < j {
                    assert(move_views(prev).contains(t));
                }
            }
        }
        j += 1;
    }
    assert forall|t| #[trigger]
        move_views(out@).contains(t) <==> legal_move(*dice, *status, marbles@, player, t) by {
        if move_views(out@).contains(t) {
            let i = choose|i: int|
                0 <= i < cands@.len() && !blocked(marbles@, player, jump, #[trigger] cands@[i]@)
                    && t == (cands@[i].marble, cands@[i].path@.last(), cands@[i].which);
            assert(cand_views(cands@)[i] == cands@[i]@);
            assert(cand_views(cands@).contains(cands@[i]@));
            lemma_candidate_step(*dice, *status, marbles@, player, cands@[i]@);
            assert(candidate_move(*dice, *status, marbles@, player, (t.0, cands@[i].path@, t.2)));
        }
        if legal_move(*dice, *status, marbles@, player, t) {
            let p = choose|p: Seq<usize>|
                {
                    &&& #[trigger] candidate_move(*dice, *status, marbles@, player, (t.0, p, t.2))
                    &&& !blocked(marbles@, player, status.jump_self_turns > 0, (t.0, p, t.2))
                    &&& p.len() > 0
                    &&& p.last() == t.1
                };
            assert(cand_views(cands@).contains((t.0, p, t.2)));
            let i = choose|i: int|
                0 <= i < cand_views(cands@).len() && cand_views(cands@)[i] == (t.0, p, t.2);
            assert(cands@[i]@ == (t.0, p, t.2));
        }
    }
    out
}

} // verus!
