//! The power economy: points earned by moves and captures fill a bar, a full
//! bar awards a power-up drawn at random, and power-ups set timed or
//! one-shot statuses.
//!
//! Power is counted in units of 1/48 of a point, so that the points of a
//! move, `rate * 10 * distance / 48`, are always a whole number of units.
use vstd::prelude::*;
use rand::distributions::Distribution;
use crate::board::{quarter_turns, Player, BASE_INDEX, CENTER_INDEX, LAST_HOME_INDEX, RING_LEN};

verus! {

/// Power units in one point.
pub const POWER_SCALE: i64 = 48;
/// A full bar: ten points.
pub const MAX_POWER: i64 = 480;
/// Points moved by a capture, to the captor and from the captive.
pub const CAPTURE_POWER: i64 = 144;
/// Power-ups a player can hold at once.
pub const MAX_POWER_UPS: usize = 3;
/// Turns a timed status lasts.
pub const STATUS_TURNS: u8 = 3;
/// Relative chances of drawing each kind of power-up, in declaration order.
pub const POWER_UP_WEIGHTS: [usize; 6] = [4, 4, 3, 2, 1, 1];

/// The kinds of power-up.
#[derive(Clone, Copy, PartialEq, Eq, Structural, Debug, Hash)]
pub enum PowerUp {
    RollAgain,
    DoubleDice,
    EvadeCapture,
    SelfJump,
    CaptureNearest,
    HomeRun,
}

/// The kind at position `i` of the declaration order.
pub open spec fn power_up_at(i: int) -> PowerUp {
    if i == 0 {
        PowerUp::RollAgain
    } else if i == 1 {
        PowerUp::DoubleDice
    } else if i == 2 {
        PowerUp::EvadeCapture
    } else if i == 3 {
        PowerUp::SelfJump
    } else if i == 4 {
        PowerUp::CaptureNearest
    } else {
        PowerUp::HomeRun
    }
}

impl PowerUp {
    /// The kind at position `value` of the declaration order.
    pub fn from_index(value: usize) -> (r: PowerUp)
        requires
            value < 6,
        ensures
            r == power_up_at(value as int),
    {
        if value == 0 {
            PowerUp::RollAgain
        } else if value == 1 {
            PowerUp::DoubleDice
        } else if value == 2 {
            PowerUp::EvadeCapture
        } else if value == 3 {
            PowerUp::SelfJump
        } else if value == 4 {
            PowerUp::CaptureNearest
        } else {
            PowerUp::HomeRun
        }
    }
}

/// Sum of a list of weights.
pub open spec fn weight_sum(w: Seq<usize>) -> int
    decreases w.len(),
{
    if w.len() == 0 {
        0
    } else {
        weight_sum(w.drop_last()) + w.last()
    }
}

/// Relies on rand's `WeightedIndex::new`, which accepts a non-empty list of
/// weights whose sum is positive and fits, and on its `sample` with
/// `thread_rng`: the index drawn is that of a non-zero weight.
#[verifier::external_body]
fn sample_weighted_index(weights: &[usize]) -> (r: usize)
    requires
        weights@.len() > 0,
        0 < weight_sum(weights@) <= usize::MAX,
    ensures
        r < weights@.len(),
        weights@[r as int] > 0,
{
    let dist = rand::distributions::WeightedIndex::new(weights).unwrap();
    dist.sample(&mut rand::thread_rng())
}

/// Draws a power-up kind, each with the chance its weight gives it.
pub fn draw_power_up() -> (r: PowerUp) {
    let weights = POWER_UP_WEIGHTS;
    assert(weights@ == seq![4usize, 4, 3, 2, 1, 1]);
    assert(weight_sum(weights@) == 15) by {
        reveal_with_fuel(weight_sum, 7);
        assert(weights@.drop_last() =~= seq![4usize, 4, 3, 2, 1]);
        assert(weights@.drop_last().drop_last() =~= seq![4usize, 4, 3, 2]);
        assert(weights@.drop_last().drop_last().drop_last() =~= seq![4usize, 4, 3]);
        assert(weights@.drop_last().drop_last().drop_last().drop_last() =~= seq![4usize, 4]);
        assert(weights@.drop_last().drop_last().drop_last().drop_last().drop_last() =~= seq![
            4usize,
        ]);
        assert(weights@.drop_last().drop_last().drop_last().drop_last().drop_last().drop_last()
            =~= Seq::<usize>::empty());
    }
    let i = sample_weighted_index(&weights);
    PowerUp::from_index(i)
}

/// Remaining turns of the two timed statuses and the two one-shot flags.
#[derive(Debug)]
pub struct PowerUpStatus {
    pub evade_capture_turns: u8,
    pub jump_self_turns: u8,
    pub capture_nearest: bool,
    pub home_run: bool,
}

impl Default for PowerUpStatus {
    fn default() -> (r: Self)
        ensures
            r.evade_capture_turns == 0,
            r.jump_self_turns == 0,
            !r.capture_nearest,
            !r.home_run,
    {
        PowerUpStatus {
            evade_capture_turns: 0,
            jump_self_turns: 0,
            capture_nearest: false,
            home_run: false,
        }
    }
}

impl PowerUpStatus {
    /// Starts evading captures for three turns; returns whether it was
    /// already running, in which case nothing changes.
    pub fn evade_capture(&mut self) -> (already: bool)
        ensures
            already == (old(self).evade_capture_turns > 0),
            final(self).evade_capture_turns == (if already {
                old(self).evade_capture_turns
            } else {
                STATUS_TURNS
            }),
            final(self).jump_self_turns == old(self).jump_self_turns,
            final(self).capture_nearest == old(self).capture_nearest,
            final(self).home_run == old(self).home_run,
    {
        if self.evade_capture_turns > 0 {
            true
        } else {
            self.evade_capture_turns = STATUS_TURNS;
            false
        }
    }

    /// Starts jumping over own marbles for three turns; returns whether it was
    /// already running, in which case nothing changes.
    pub fn jump_self(&mut self) -> (already: bool)
        ensures
            already == (old(self).jump_self_turns > 0),
            final(self).jump_self_turns == (if already {
                old(self).jump_self_turns
            } else {
                STATUS_TURNS
            }),
            final(self).evade_capture_turns == old(self).evade_capture_turns,
            final(self).capture_nearest == old(self).capture_nearest,
            final(self).home_run == old(self).home_run,
    {
        if self.jump_self_turns > 0 {
            true
        } else {
            self.jump_self_turns = STATUS_TURNS;
            false
        }
    }

    /// Sets the capture-nearest flag for the next decision.
    pub fn capture_nearest(&mut self)
        ensures
            *final(self) == (PowerUpStatus { capture_nearest: true, ..*old(self) }),
    {
        self.capture_nearest = true;
    }

    /// Sets the home-run flag for the next decision.
    pub fn home_run(&mut self)
        ensures
            *final(self) == (PowerUpStatus { home_run: true, ..*old(self) }),
    {
        self.home_run = true;
    }

    /// End of turn: clears both one-shot flags and counts down both timed
    /// statuses.
    pub fn tick(&mut self)
        ensures
            !final(self).capture_nearest,
            !final(self).home_run,
            final(self).evade_capture_turns == (if old(self).evade_capture_turns > 0 {
                old(self).evade_capture_turns - 1
            } else {
                0
            }),
            final(self).jump_self_turns == (if old(self).jump_self_turns > 0 {
                old(self).jump_self_turns - 1
            } else {
                0
            }),
    {
        self.clear_one_shots();
        if self.evade_capture_turns > 0 {
            self.evade_capture_turns -= 1;
        }
        if self.jump_self_turns > 0 {
            self.jump_self_turns -= 1;
        }
    }

    /// Clears both one-shot flags.
    pub fn clear_one_shots(&mut self)
        ensures
            *final(self) == (PowerUpStatus {
                capture_nearest: false,
                home_run: false,
                ..*old(self)
            }),
    {
        self.capture_nearest = false;
        self.home_run = false;
    }
}


/// A player's power bar: the power on it and how many power-ups it has
/// awarded that are still held.
#[derive(Clone, Copy, PartialEq, Eq, Structural, Debug)]
pub struct PowerBar {
    pub power: i64,
    pub power_up_count: usize,
}

/// The bar after `delta` is added to `power` with `count` power-ups held,
/// and whether a power-up is awarded. The sum stops at zero below (and at
/// `i64::MAX` above).
pub open spec fn bar_update(power: int, count: int, delta: int) -> (int, int, bool) {
    let sum = if power + delta > i64::MAX {
        i64::MAX as int
    } else {
        power + delta
    };
    let new_power = if sum < 0 {
        0
    } else {
        sum
    };
    if new_power >= MAX_POWER {
        if count <= 1 {
            (new_power - MAX_POWER, count + 1, true)
        } else if count == 2 {
            (0, 3, true)
        } else {
            (power, count, false)
        }
    } else if count < MAX_POWER_UPS {
        (new_power, count, false)
    } else {
        (power, count, false)
    }
}

impl PowerBar {
    pub open spec fn wf(&self) -> bool {
        0 <= self.power && self.power_up_count <= MAX_POWER_UPS
    }

    /// An empty bar with no power-up awarded.
    pub fn new() -> (r: PowerBar)
        ensures
            r.power == 0,
            r.power_up_count == 0,
            r.wf(),
    {
        PowerBar { power: 0, power_up_count: 0 }
    }

    /// Adds `delta` to the bar and returns whether it filled up and awarded
    /// a power-up: with none or one held the overflow carries over, with two
    /// held the bar empties, with three held the bar does not move.
    pub fn update(&mut self, delta: i64) -> (awarded: bool)
        requires
            old(self).wf(),
        ensures
            (final(self).power as int, final(self).power_up_count as int, awarded) == bar_update(
                old(self).power as int,
                old(self).power_up_count as int,
                delta as int,
            ),
            old(self).power_up_count == MAX_POWER_UPS ==> *final(self) == *old(self) && !awarded,
            final(self).wf(),
    {
        let sum = if delta > 0 && self.power > i64::MAX - delta {
            i64::MAX
        } else {
            self.power + delta
        };
        let new_power = if sum < 0 {
            0
        } else {
            sum
        };
        if new_power >= MAX_POWER {
            if self.power_up_count <= 1 {
                self.power = new_power - MAX_POWER;
                self.power_up_count = self.power_up_count + 1;
                true
            } else if self.power_up_count == 2 {
                self.power = 0;
                self.power_up_count = 3;
                true
            } else {
                false
            }
        } else {
            if self.power_up_count < MAX_POWER_UPS {
                self.power = new_power;
            }
            false
        }
    }
}

/// How many of the three slots hold a power-up.
pub open spec fn held_count(s: Seq<Option<PowerUp>>) -> int {
    (if s[0].is_some() {
        1int
    } else {
        0
    }) + (if s[1].is_some() {
        1int
    } else {
        0
    }) + (if s[2].is_some() {
        1int
    } else {
        0
    })
}

/// The first empty slot.
pub open spec fn first_empty(s: Seq<Option<PowerUp>>) -> int {
    if s[0].is_none() {
        0
    } else if s[1].is_none() {
        1
    } else {
        2
    }
}

/// What the game keeps of one player between turns.
#[derive(Debug)]
pub struct PlayerData {
    pub turn_move_count: u8,
    pub consecutive_empty_turns: u8,
    pub bar: PowerBar,
    /// Three slots for power-ups drawn and not used yet.
    pub power_ups: Vec<Option<PowerUp>>,
    pub power_up_status: PowerUpStatus,
}

impl PlayerData {
    /// The bar counts exactly the power-ups held in the three slots.
    pub open spec fn wf(&self) -> bool {
        &&& self.bar.wf()
        &&& self.power_ups@.len() == MAX_POWER_UPS
        &&& held_count(self.power_ups@) == self.bar.power_up_count
    }

    /// A player with an empty bar, no power-ups and no status.
    pub fn new() -> (r: PlayerData)
        ensures
            r.wf(),
            r.turn_move_count == 0,
            r.consecutive_empty_turns == 0,
            r.bar.power == 0,
            r.bar.power_up_count == 0,
            r.power_ups@ == seq![None::<PowerUp>, None, None],
            r.power_up_status.evade_capture_turns == 0,
            r.power_up_status.jump_self_turns == 0,
            !r.power_up_status.capture_nearest,
            !r.power_up_status.home_run,
    {
        let slots: Vec<Option<PowerUp>> = vec![None, None, None];
        assert(slots@ =~= seq![None::<PowerUp>, None, None]);
        PlayerData {
            turn_move_count: 0,
            consecutive_empty_turns: 0,
            bar: PowerBar::new(),
            power_ups: slots,
            power_up_status: PowerUpStatus::default(),
        }
    }

    /// Puts `kind` into the first empty slot.
    pub fn store_power_up(&mut self, kind: PowerUp)
        requires
            old(self).power_ups@.len() == MAX_POWER_UPS,
            held_count(old(self).power_ups@) < MAX_POWER_UPS,
        ensures
            final(self).power_ups@ == old(self).power_ups@.update(
                first_empty(old(self).power_ups@),
                Some(kind),
            ),
            old(self).power_ups@[first_empty(old(self).power_ups@)].is_none(),
            held_count(final(self).power_ups@) == held_count(old(self).power_ups@) + 1,
            final(self).bar == old(self).bar,
            final(self).power_up_status == old(self).power_up_status,
            final(self).turn_move_count == old(self).turn_move_count,
            final(self).consecutive_empty_turns == old(self).consecutive_empty_turns,
    {
        let i: usize = if self.power_ups[0].is_none() {
            0
        } else if self.power_ups[1].is_none() {
            1
        } else {
            2
        };
        self.power_ups.set(i, Some(kind));
    }

    /// Adds `delta` power; when the bar awards a power-up, one is drawn,
    /// stored in the first empty slot and returned.
    pub fn update_power(&mut self, delta: i64) -> (r: Option<PowerUp>)
        requires
            old(self).wf(),
        ensures
            final(self).wf(),
            (final(self).bar.power as int, final(self).bar.power_up_count as int, r.is_some())
                == bar_update(
                old(self).bar.power as int,
                old(self).bar.power_up_count as int,
                delta as int,
            ),
            match r {
                Some(k) => final(self).power_ups@ == old(self).power_ups@.update(
                    first_empty(old(self).power_ups@),
                    Some(k),
                ) && old(self).power_ups@[first_empty(old(self).power_ups@)].is_none(),
                None => final(self).power_ups@ == old(self).power_ups@,
            },
            final(self).power_up_status == old(self).power_up_status,
            final(self).turn_move_count == old(self).turn_move_count,
            final(self).consecutive_empty_turns == old(self).consecutive_empty_turns,
    {
        if self.bar.update(delta) {
            let kind = draw_power_up();
            self.store_power_up(kind);
            Some(kind)
        } else {
            None
        }
    }

    /// Takes the power-up out of slot `index`, if one is there. The bar's
    /// count drops by one and its power stays.
    pub fn use_power_up(&mut self, index: usize) -> (r: Option<PowerUp>)
        requires
            old(self).wf(),
        ensures
            final(self).wf(),
            r == (if index < MAX_POWER_UPS {
                old(self).power_ups@[index as int]
            } else {
                None
            }),
            r.is_some() ==> final(self).power_ups@ == old(self).power_ups@.update(
                index as int,
                None,
            ) && final(self).bar == (PowerBar {
                power_up_count: (old(self).bar.power_up_count - 1) as usize,
                ..old(self).bar
            }),
            r.is_none() ==> final(self).power_ups@ == old(self).power_ups@ && final(self).bar
                == old(self).bar,
            final(self).power_up_status == old(self).power_up_status,
            final(self).turn_move_count == old(self).turn_move_count,
            final(self).consecutive_empty_turns == old(self).consecutive_empty_turns,
    {
        if index < MAX_POWER_UPS {
            let slot = self.power_ups[index];
            if slot.is_some() {
                self.power_ups.set(index, None);
                self.bar.power_up_count = self.bar.power_up_count - 1;
            }
            slot
        } else {
            None
        }
    }

    /// Adds the moves found for this turn to the turn's tally (stopping at
    /// the largest count).
    pub fn count_moves(&mut self, n: usize)
        ensures
            final(self).turn_move_count as int == (if old(self).turn_move_count + n > u8::MAX {
                u8::MAX as int
            } else {
                old(self).turn_move_count + n
            }),
            final(self).consecutive_empty_turns == old(self).consecutive_empty_turns,
            final(self).bar == old(self).bar,
            final(self).power_ups@ == old(self).power_ups@,
            final(self).power_up_status == old(self).power_up_status,
    {
        if n >= (u8::MAX - self.turn_move_count) as usize {
            self.turn_move_count = u8::MAX;
        } else {
            self.turn_move_count = self.turn_move_count + n as u8;
        }
    }

    /// End of turn: a turn without moves extends the run of empty turns
    /// (stopping at the largest count), one with moves ends it; the tally
    /// restarts and the statuses tick.
    pub fn end_of_turn(&mut self)
        ensures
            final(self).consecutive_empty_turns == (if old(self).turn_move_count > 0 {
                0
            } else if old(self).consecutive_empty_turns == u8::MAX {
                u8::MAX
            } else {
                (old(self).consecutive_empty_turns + 1) as u8
            }),
            final(self).turn_move_count == 0,
            final(self).bar == old(self).bar,
            final(self).power_ups@ == old(self).power_ups@,
            !final(self).power_up_status.capture_nearest,
            !final(self).power_up_status.home_run,
            final(self).power_up_status.evade_capture_turns == (if old(
                self,
            ).power_up_status.evade_capture_turns > 0 {
                old(self).power_up_status.evade_capture_turns - 1
            } else {
                0
            }),
            final(self).power_up_status.jump_self_turns == (if old(
                self,
            ).power_up_status.jump_self_turns > 0 {
                old(self).power_up_status.jump_self_turns - 1
            } else {
                0
            }),
            old(self).wf() ==> final(self).wf(),
    {
        self.consecutive_empty_turns = if self.turn_move_count > 0 {
            0
        } else if self.consecutive_empty_turns == u8::MAX {
            u8::MAX
        } else {
            self.consecutive_empty_turns + 1
        };
        self.turn_move_count = 0;
        self.power_up_status.tick();
    }
}


/// A move from `from` to `to` that the move rules can produce: out of base
/// anywhere, off the center onto the ring from its exit on or into the home
/// row, into the center
/// only from a cell before the last entrance, otherwise forward.
pub open spec fn valid_step(from: int, to: int) -> bool {
    if from == BASE_INDEX {
        0 <= to <= CENTER_INDEX
    } else if from == CENTER_INDEX {
        41 <= to <= LAST_HOME_INDEX
    } else if to == CENTER_INDEX {
        0 <= from < 29
    } else {
        0 <= from < to < CENTER_INDEX
    }
}

/// The nearest center entrance at or after ring cell `from`.
pub open spec fn nearest_entrance(from: int) -> int {
    if from <= 5 {
        5
    } else if from <= 17 {
        17
    } else {
        29
    }
}

/// Cells covered by a move: base counts as the cell before the start, the
/// center as the cell before its exit, and a move into the center counts up
/// to the entrance and one more.
pub open spec fn move_distance(from: int, to: int) -> int {
    if from == BASE_INDEX {
        if to == CENTER_INDEX {
            7
        } else {
            to + 1
        }
    } else if from == CENTER_INDEX {
        to + 1 - 41
    } else if to == CENTER_INDEX {
        nearest_entrance(from) - from + 1
    } else {
        to - from
    }
}

/// Power units a move earns: ten points per 48 cells, doubled for a move
/// that ends in the home row or the center.
pub open spec fn move_power(from: int, to: int) -> int {
    (if to < RING_LEN {
        1int
    } else {
        2
    }) * 10 * move_distance(from, to)
}

/// Cells covered by a move from `from` to `to`.
pub fn distance(from: usize, to: usize) -> (r: usize)
    requires
        valid_step(from as int, to as int),
    ensures
        r as int == move_distance(from as int, to as int),
        1 <= r <= 54,
{
    if from == BASE_INDEX {
        if to == CENTER_INDEX {
            7
        } else {
            to + 1
        }
    } else if from == CENTER_INDEX {
        to + 1 - 41
    } else if to == CENTER_INDEX {
        let e: usize = if from <= 5 {
            5
        } else if from <= 17 {
            17
        } else {
            29
        };
        e - from + 1
    } else {
        to - from
    }
}

/// Power units earned by the move of a marble now at `index` that stood on
/// `prev_index` before.
pub fn index_power(index: usize, prev_index: usize) -> (r: i64)
    requires
        valid_step(prev_index as int, index as int),
    ensures
        r as int == move_power(prev_index as int, index as int),
        0 < r <= 20 * 54,
{
    let d = distance(prev_index, index) as i64;
    if index < RING_LEN {
        10 * d
    } else {
        20 * d
    }
}


/// A change to the players' power.
#[derive(Clone, Copy, PartialEq, Eq, Structural, Debug)]
pub enum PowerEvent {
    /// A marble of `captor` captured one of `captive`.
    Capture { captor: Player, captive: Player },
    /// A marble of `player` moved from `prev_index` to `index`.
    Index { player: Player, index: usize, prev_index: usize },
    /// `player` spends the power-up in slot `index`.
    Use { player: Player, index: usize },
}

/// The players' data is indexed by color and each is well formed.
pub open spec fn players_wf(players: Seq<PlayerData>) -> bool {
    players.len() == 4 && forall|i: int| 0 <= i < 4 ==> (#[trigger] players[i]).wf()
}

/// The bar of `a` after `delta` was added to that of `b`.
pub open spec fn bar_after(a: PlayerData, b: PlayerData, delta: int) -> bool {
    let u = bar_update(b.bar.power as int, b.bar.power_up_count as int, delta);
    a.bar.power == u.0 && a.bar.power_up_count == u.1
}

/// Adds `delta` power to player `i`; the others stay as they are.
fn award(players: &mut Vec<PlayerData>, i: usize, delta: i64) -> (r: Option<PowerUp>)
    requires
        i < 4,
        players_wf(old(players)@),
    ensures
        players_wf(final(players)@),
        forall|j: int| 0 <= j < 4 && j != i ==> final(players)@[j] == old(players)@[j],
        bar_after(final(players)@[i as int], old(players)@[i as int], delta as int),
        r.is_some() == bar_update(
            old(players)@[i as int].bar.power as int,
            old(players)@[i as int].bar.power_up_count as int,
            delta as int,
        ).2,
        final(players)@[i as int].power_up_status == old(players)@[i as int].power_up_status,
{
    let mut data = players.remove(i);
    let r = data.update_power(delta);
    players.insert(i, data);
    assert forall|j: int| 0 <= j < 4 implies (#[trigger] players@[j]).wf() by {
        if j != i {
            assert(players@[j] == old(players)@[j]);
        }
    }
    r
}

/// Applies a power event: a capture moves a capture's worth from the
/// captive to the captor, a move earns its power, and spending takes the
/// power-up out of its slot and returns it.
pub fn handle_power_event(players: &mut Vec<PlayerData>, event: PowerEvent) -> (used: Option<
    PowerUp,
>)
    requires
        players_wf(old(players)@),
        match event {
            PowerEvent::Capture { captor, captive } => captor != captive,
            PowerEvent::Index { player, index, prev_index } => valid_step(
                prev_index as int,
                index as int,
            ),
            PowerEvent::Use { .. } => true,
        },
    ensures
        players_wf(final(players)@),
        match event {
            PowerEvent::Capture { captor, captive } => {
                let a = quarter_turns(captor);
                let b = quarter_turns(captive);
                &&& used.is_none()
                &&& bar_after(final(players)@[a], old(players)@[a], CAPTURE_POWER as int)
                &&& bar_after(final(players)@[b], old(players)@[b], -CAPTURE_POWER)
                &&& forall|j: int|
                    0 <= j < 4 && j != a && j != b ==> final(players)@[j] == old(players)@[j]
                &&& final(players)@[a].power_up_status == old(players)@[a].power_up_status
            },
            PowerEvent::Index { player, index, prev_index } => {
                let a = quarter_turns(player);
                &&& used.is_none()
                &&& bar_after(
                    final(players)@[a],
                    old(players)@[a],
                    move_power(prev_index as int, index as int),
                )
                &&& forall|j: int| 0 <= j < 4 && j != a ==> final(players)@[j] == old(players)@[j]
                &&& final(players)@[a].power_up_status == old(players)@[a].power_up_status
            },
            PowerEvent::Use { player, index } => {
                let a = quarter_turns(player);
                &&& used == (if index < MAX_POWER_UPS {
                    old(players)@[a].power_ups@[index as int]
                } else {
                    None
                })
                &&& final(players)@[a].bar.power == old(players)@[a].bar.power
                &&& used.is_some() ==> final(players)@[a].power_ups@ == old(
                    players,
                )@[a].power_ups@.update(index as int, None) && final(players)@[a].bar.power_up_count
                    == old(players)@[a].bar.power_up_count - 1
                &&& used.is_none() ==> final(players)@[a].power_ups@ == old(players)@[a].power_ups@
                    && final(players)@[a].bar.power_up_count == old(
                    players,
                )@[a].bar.power_up_count
                &&& final(players)@[a].power_up_status == old(players)@[a].power_up_status
                &&& forall|j: int| 0 <= j < 4 && j != a ==> final(players)@[j] == old(players)@[j]
            },
        },
{
    match event {
        PowerEvent::Capture { captor, captive } => {
            award(players, captor.index(), CAPTURE_POWER);
            award(players, captive.index(), -CAPTURE_POWER);
            None
        },
        PowerEvent::Index { player, index, prev_index } => {
            award(players, player.index(), index_power(index, prev_index));
            None
        },
        PowerEvent::Use { player, index } => {
            let pi = player.index();
            let mut data = players.remove(pi);
            let used = data.use_power_up(index);
            players.insert(pi, data);
            assert forall|j: int| 0 <= j < 4 implies (#[trigger] players@[j]).wf() by {
                if j != pi {
                    assert(players@[j] == old(players)@[j]);
                }
            }
            used
        },
    }
}

} // verus!
