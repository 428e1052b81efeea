//! Captures: after a move, an opponent marble on the same physical ring cell
//! as the mover goes back to its base.
use vstd::prelude::*;
use crate::board::{
    lemma_ring_cells_distinct, lemma_ring_frames, physical_coord, quarter_turns, Player,
    BASE_INDEX, RING_LEN,
};
use crate::moves::Marble;
use crate::power::PlayerData;

verus! {

/// A marble of `p` on cell `i` captures a marble of `q` on cell `j`: two
/// colors, both on the shared ring (home rows, the center and bases never
/// host a capture), on the same physical cell.
pub open spec fn captures(p: Player, i: int, q: Player, j: int) -> bool {
    &&& p != q
    &&& 0 <= i < RING_LEN
    &&& 0 <= j < RING_LEN
    &&& physical_coord(p, i) == physical_coord(q, j)
}

/// The marbles of `q` evade captures while that status runs.
pub open spec fn evading(players: Seq<PlayerData>, q: Player) -> bool {
    players[quarter_turns(q)].power_up_status.evade_capture_turns > 0
}

/// Marble `k` can be captured by marble `mover`.
pub open spec fn capturable(
    marbles: Seq<Marble>,
    players: Seq<PlayerData>,
    mover: int,
    k: int,
) -> bool {
    &&& 0 <= k < marbles.len()
    &&& !evading(players, marbles[k].player)
    &&& captures(
        marbles[mover].player,
        marbles[mover].index as int,
        marbles[k].player,
        marbles[k].index as int,
    )
}

/// A capture reads the same from either marble's side.
pub proof fn lemma_capture_symmetric(p: Player, i: int, q: Player, j: int)
    ensures
        captures(p, i, q, j) == captures(q, j, p, i),
{
}

/// A capture happens exactly when two colors stand on ring cells that are
/// the same cell once each is shifted a quarter of the ring per color.
pub proof fn lemma_capture_by_offsets(p: Player, i: int, q: Player, j: int)
    ensures
        captures(p, i, q, j) <==> (p != q && 0 <= i < RING_LEN && 0 <= j < RING_LEN && (i + 12
            * quarter_turns(p)) % 48 == (j + 12 * quarter_turns(q)) % 48),
{
    if 0 <= i < RING_LEN && 0 <= j < RING_LEN {
        lemma_ring_frames(p, i);
        lemma_ring_frames(q, j);
        let x = (i + 12 * quarter_turns(p)) % 48;
        let y = (j + 12 * quarter_turns(q)) % 48;
        if x != y {
            lemma_ring_cells_distinct(x, y);
        }
    }
}

/// Sends back to base the first opponent marble that `mover` captures, and
/// returns it; marbles of evading players are passed over.
pub fn check_for_capture(
    marbles: &mut Vec<Marble>,
    players: &Vec<PlayerData>,
    mover: usize,
) -> (r: Option<usize>)
    requires
        mover < old(marbles)@.len(),
        players@.len() == 4,
        forall|k: int| 0 <= k < old(marbles)@.len() ==> (#[trigger] old(marbles)@[k]).wf(),
    ensures
        match r {
            Some(k) => {
                &&& capturable(old(marbles)@, players@, mover as int, k as int)
                &&& forall|j: int|
                    0 <= j < k ==> !capturable(old(marbles)@, players@, mover as int, j)
                &&& final(marbles)@ == old(marbles)@.update(
                    k as int,
                    Marble { index: BASE_INDEX, ..old(marbles)@[k as int] },
                )
            },
            None => {
                &&& forall|j: int|
                    0 <= j < old(marbles)@.len() ==> !capturable(
                        old(marbles)@,
                        players@,
                        mover as int,
                        j,
                    )
                &&& final(marbles)@ == old(marbles)@
            },
        },
        forall|k: int| 0 <= k < final(marbles)@.len() ==> (#[trigger] final(marbles)@[k]).wf(),
{
    let cur = marbles[mover];
    if cur.index >= RING_LEN {
        return None;
    }
    let mut k: usize = 0;
    while k < marbles.len()
        invariant
            k <= marbles.len(),
            marbles@ == old(marbles)@,
            forall|j: int| 0 <= j < marbles@.len() ==> (#[trigger] marbles@[j]).wf(),
            mover < marbles@.len(),
            cur == marbles@[mover as int],
            cur.index < RING_LEN,
            players@.len() == 4,
            forall|j: int| 0 <= j < k ==> !capturable(marbles@, players@, mover as int, j),
        decreases marbles.len() - k,
    {
        let opp = marbles[k];
        if opp.player != cur.player && opp.index < RING_LEN
            && players[opp.player.index()].power_up_status.evade_capture_turns == 0
            && cur.player.is_same_index(cur.index, opp.player, opp.index) {
            marbles.set(k, Marble { index: BASE_INDEX, ..opp });
            return Some(k);
        }
        k += 1;
    }
    None
}

} // verus!
