//! The turn state machine: the phases of a game, the data of the turn in
//! progress, and the decisions that move from one phase to the next.
use vstd::prelude::*;
use crate::board::{
    as_int_pair, board_coord, is_home, is_home_index, physical_coord, quarter_turns, Player,
    BASE_INDEX, TRACK_LEN,
};
use crate::capture::{capturable, check_for_capture};
use crate::dice::{Dice, WhichDie};
use crate::moves::{calc_possible_moves, legal_move, move_views, own, Marble, MarbleMove};
use crate::power::{
    bar_update, handle_power_event, move_power, players_wf, valid_step, PlayerData, PowerEvent,
    PowerUp, PowerUpStatus, CAPTURE_POWER, STATUS_TURNS,
};

verus! {

/// The phases of a game; exactly one is active at a time.
#[derive(Clone, Copy, PartialEq, Eq, Structural, Debug, Hash)]
pub enum GameState {
    MainMenu,
    GameStart,
    ChooseColor,
    NextPlayer,
    DiceRoll,
    TurnSetup,
    ComputerTurn,
    HumanTurn,
    WaitForAnimation,
    ProcessMove,
    EndTurn,
    GameEnd,
}

/// The moves of marble `e` among `s`, in order.
pub open spec fn moves_of(s: Seq<(usize, MarbleMove)>, e: usize) -> Seq<MarbleMove>
    decreases s.len(),
{
    if s.len() == 0 {
        Seq::empty()
    } else {
        let rest = moves_of(s.drop_last(), e);
        if s.last().0 == e {
            rest.push(s.last().1)
        } else {
            rest
        }
    }
}

/// What the turn in progress knows: whose turn it is, the legal moves, and
/// the marble and move chosen.
#[derive(Debug)]
pub struct CurrentPlayerData {
    pub player: Player,
    pub possible_moves: Vec<(usize, MarbleMove)>,
    pub selected_move: Option<MarbleMove>,
    pub selected_marble: Option<usize>,
    pub moved_marble: Option<usize>,
}

impl CurrentPlayerData {
    /// A turn of `player` with nothing computed or chosen yet.
    pub fn new(player: Player) -> (r: CurrentPlayerData)
        ensures
            r.player == player,
            r.possible_moves@.len() == 0,
            r.selected_move.is_none(),
            r.selected_marble.is_none(),
            r.moved_marble.is_none(),
    {
        CurrentPlayerData {
            player,
            possible_moves: Vec::new(),
            selected_move: None,
            selected_marble: None,
            moved_marble: None,
        }
    }

    /// The legal moves of `marble`, in order.
    pub fn get_moves(&self, marble: usize) -> (r: Vec<MarbleMove>)
        ensures
            r@ == moves_of(self.possible_moves@, marble),
    {
        let mut r: Vec<MarbleMove> = Vec::new();
        let mut k: usize = 0;
        while k < self.possible_moves.len()
            invariant
                k <= self.possible_moves@.len(),
                r@ == moves_of(self.possible_moves@.subrange(0, k as int), marble),
            decreases self.possible_moves.len() - k,
        {
            let ghost pre = self.possible_moves@.subrange(0, k as int);
            assert(self.possible_moves@.subrange(0, k as int + 1).drop_last() =~= pre);
            let (e, m) = self.possible_moves[k];
            if e == marble {
                r.push(m);
            }
            k += 1;
        }
        assert(self.possible_moves@.subrange(0, k as int) =~= self.possible_moves@);
        r
    }

    /// The legal move of `marble` to the cell of this player's track at
    /// physical coordinate `c`, if any (the first one found).
    pub fn move_at(&self, marble: usize, c: (i32, i32)) -> (r: Option<MarbleMove>)
        ensures
            match r {
                Some(m) => moves_of(self.possible_moves@, marble).contains(m) && m.destination
                    < TRACK_LEN && physical_coord(self.player, m.destination as int)
                    == as_int_pair(c),
                None => forall|m: MarbleMove|
                    #![trigger moves_of(self.possible_moves@, marble).contains(m)]
                    moves_of(self.possible_moves@, marble).contains(m) && m.destination
                        < TRACK_LEN ==> physical_coord(self.player, m.destination as int)
                        != as_int_pair(c),
            },
    {
        let moves = self.get_moves(marble);
        let mut k: usize = 0;
        while k < moves.len()
            invariant
                k <= moves@.len(),
                moves@ == moves_of(self.possible_moves@, marble),
                forall|j: int|
                    0 <= j < k ==> (#[trigger] moves@[j]).destination < TRACK_LEN
                        ==> physical_coord(self.player, moves@[j].destination as int)
                        != as_int_pair(c),
            decreases moves.len() - k,
        {
            let m = moves[k];
            if m.destination < TRACK_LEN {
                let q = self.player.rotate_coords(board_coord(m.destination));
                if q.0 == c.0 && q.1 == c.1 {
                    assert(moves@.contains(m));
                    return Some(m);
                }
            }
            k += 1;
        }
        None
    }

    /// Records the chosen marble and move.
    pub fn select_move(&mut self, m: (usize, MarbleMove))
        ensures
            final(self).selected_marble == Some(m.0),
            final(self).selected_move == Some(m.1),
            final(self).player == old(self).player,
            final(self).possible_moves@ == old(self).possible_moves@,
            final(self).moved_marble == old(self).moved_marble,
    {
        self.selected_marble = Some(m.0);
        self.selected_move = Some(m.1);
    }

    /// The chosen marble and move, once both are chosen.
    pub fn get_selected_move(&self) -> (r: Option<(usize, MarbleMove)>)
        requires
            self.selected_move.is_some() ==> self.selected_marble.is_some(),
        ensures
            r == (if self.selected_marble.is_some() && self.selected_move.is_some() {
                Some((self.selected_marble.unwrap(), self.selected_move.unwrap()))
            } else {
                None
            }),
    {
        match (self.selected_marble, self.selected_move) {
            (Some(e), Some(m)) => Some((e, m)),
            _ => None,
        }
    }

    /// The selected marble becomes the moved one.
    pub fn move_marble(&mut self)
        ensures
            final(self).moved_marble == old(self).selected_marble,
            final(self).selected_marble.is_none(),
            final(self).selected_move == old(self).selected_move,
            final(self).player == old(self).player,
            final(self).possible_moves@ == old(self).possible_moves@,
    {
        self.moved_marble = self.selected_marble.take();
    }

    /// Forgets the moves and choices of the turn.
    pub fn clear(&mut self)
        ensures
            final(self).player == old(self).player,
            final(self).possible_moves@.len() == 0,
            final(self).selected_move.is_none(),
            final(self).selected_marble.is_none(),
            final(self).moved_marble.is_none(),
    {
        self.possible_moves = Vec::new();
        self.selected_marble = None;
        self.selected_move = None;
        self.moved_marble = None;
    }
}


/// Adds the acting player's legal moves to its tally for the turn.
pub fn count_moves(players: &mut Vec<PlayerData>, current: &CurrentPlayerData)
    requires
        players_wf(old(players)@),
    ensures
        players_wf(final(players)@),
        ({
            let pi = quarter_turns(current.player);
            let n = old(players)@[pi].turn_move_count + current.possible_moves@.len();
            &&& final(players)@[pi].turn_move_count == (if n > u8::MAX {
                u8::MAX as int
            } else {
                n
            })
            &&& final(players)@[pi].bar == old(players)@[pi].bar
            &&& final(players)@[pi].power_ups@ == old(players)@[pi].power_ups@
            &&& final(players)@[pi].power_up_status == old(players)@[pi].power_up_status
            &&& forall|j: int| 0 <= j < 4 && j != pi ==> final(players)@[j] == old(players)@[j]
        }),
{
    let pi = current.player.index();
    let mut data = players.remove(pi);
    data.count_moves(current.possible_moves.len());
    players.insert(pi, data);
    assert forall|i: int| 0 <= i < 4 implies (#[trigger] players@[i]).wf() by {
        if i != pi {
            assert(players@[i] == old(players)@[i]);
        }
    }
}

/// What a click does during the human's turn.
#[derive(Clone, Copy, PartialEq, Eq, Structural, Debug)]
pub enum ClickAction {
    /// Nothing happens: the click was on the marble already selected, or on
    /// a cell while no marble is selected.
    Ignore,
    /// The clicked marble becomes the selected one.
    Select(usize),
    /// The selected marble plays offered move `k`.
    Choose(usize),
    /// The click matched no move of the selected marble, which is released.
    Deselect,
}

/// Offered move `m` is a move of marble `s` to the cell of `player`'s track
/// at physical coordinate `c`.
pub open spec fn lands_at(player: Player, m: (usize, MarbleMove), s: usize, c: (i32, i32)) -> bool {
    m.0 == s && m.1.destination < TRACK_LEN && physical_coord(player, m.1.destination as int)
        == as_int_pair(c)
}

impl CurrentPlayerData {
    /// Handles a click: `clicked_marble` is the acting player's marble under
    /// the pointer, if any, and `cell` the physical cell clicked. A click on
    /// a marble selects it (one already selected is left alone); otherwise,
    /// with a marble selected, the first of its moves to that cell is chosen,
    /// or the selection is dropped when none goes there.
    pub fn interpret_click(&mut self, clicked_marble: Option<usize>, cell: (i32, i32)) -> (r:
        ClickAction)
        ensures
            final(self).player == old(self).player,
            final(self).possible_moves@ == old(self).possible_moves@,
            final(self).moved_marble == old(self).moved_marble,
            match clicked_marble {
                Some(m) => if old(self).selected_marble == Some(m) {
                    &&& r == ClickAction::Ignore
                    &&& final(self).selected_marble == old(self).selected_marble
                    &&& final(self).selected_move == old(self).selected_move
                } else {
                    &&& r == ClickAction::Select(m)
                    &&& final(self).selected_marble == Some(m)
                    &&& final(self).selected_move.is_none()
                },
                None => match old(self).selected_marble {
                    None => {
                        &&& r == ClickAction::Ignore
                        &&& final(self).selected_marble.is_none()
                        &&& final(self).selected_move == old(self).selected_move
                    },
                    Some(s) => match r {
                        ClickAction::Choose(k) => {
                            &&& k < old(self).possible_moves@.len()
                            &&& lands_at(old(self).player, old(self).possible_moves@[k as int], s, cell)
                            &&& forall|i: int|
                                0 <= i < k ==> !lands_at(
                                    old(self).player,
                                    #[trigger] old(self).possible_moves@[i],
                                    s,
                                    cell,
                                )
                            &&& final(self).selected_marble == Some(s)
                            &&& final(self).selected_move == Some(
                                old(self).possible_moves@[k as int].1,
                            )
                        },
                        ClickAction::Deselect => {
                            &&& forall|i: int|
                                0 <= i < old(self).possible_moves@.len() ==> !lands_at(
                                    old(self).player,
                                    #[trigger] old(self).possible_moves@[i],
                                    s,
                                    cell,
                                )
                            &&& final(self).selected_marble.is_none()
                            &&& final(self).selected_move.is_none()
                        },
                        _ => false,
                    },
                },
            },
    {
        if let Some(m) = clicked_marble {
            if self.selected_marble == Some(m) {
                return ClickAction::Ignore;
            }
            self.selected_marble = Some(m);
            self.selected_move = None;
            return ClickAction::Select(m);
        }
        let s = match self.selected_marble {
            Some(s) => s,
            None => {
                return ClickAction::Ignore;
            },
        };
        let mut k: usize = 0;
        while k < self.possible_moves.len()
            invariant
                k <= self.possible_moves@.len(),
                self.possible_moves@ == old(self).possible_moves@,
                self.player == old(self).player,
                self.moved_marble == old(self).moved_marble,
                old(self).selected_marble == Some(s),
                self.selected_marble == Some(s),
                clicked_marble.is_none(),
                forall|i: int|
                    0 <= i < k ==> !lands_at(
                        self.player,
                        #[trigger] self.possible_moves@[i],
                        s,
                        cell,
                    ),
            decreases self.possible_moves.len() - k,
        {
            let (e, mv) = self.possible_moves[k];
            if e == s && mv.destination < TRACK_LEN {
                let q = self.player.rotate_coords(board_coord(mv.destination));
                if q.0 == cell.0 && q.1 == cell.1 {
                    assert(lands_at(self.player, self.possible_moves@[k as int], s, cell));
                    self.selected_move = Some(mv);
                    return ClickAction::Choose(k);
                }
            }
            k += 1;
        }
        self.selected_marble = None;
        self.selected_move = None;
        ClickAction::Deselect
    }
}

/// Every marble of `player` is in its home row.
pub open spec fn all_home(marbles: Seq<Marble>, player: Player) -> bool {
    forall|k: int| own(marbles, player, k) ==> is_home(#[trigger] marbles[k].index as int)
}

/// The phase after a move: the game ends when the mover has every marble
/// home; otherwise a die left means another move, and a spent roll means
/// rolling again on doubles, else the next player.
pub open spec fn after_move(won: bool, dice: Dice) -> GameState {
    if won {
        GameState::GameEnd
    } else if dice.one.is_some() || dice.two.is_some() {
        GameState::TurnSetup
    } else if dice.doubles {
        GameState::DiceRoll
    } else {
        GameState::NextPlayer
    }
}

/// The phase that follows a processed move of `player`.
pub fn check_for_winner(marbles: &Vec<Marble>, player: Player, dice: &Dice) -> (r: GameState)
    ensures
        r == after_move(all_home(marbles@, player), *dice),
{
    let mut k: usize = 0;
    while k < marbles.len()
        invariant
            k <= marbles@.len(),
            forall|j: int| 0 <= j < k && own(marbles@, player, j) ==> is_home(#[trigger] marbles@[j].index as int),
        decreases marbles.len() - k,
    {
        let m = marbles[k];
        if m.player == player && !(is_home_index(m.index)) {
            assert(own(marbles@, player, k as int));
            if dice.one.is_some() || dice.two.is_some() {
                return GameState::TurnSetup;
            } else if dice.doubles {
                return GameState::DiceRoll;
            } else {
                return GameState::NextPlayer;
            }
        }
        k += 1;
    }
    GameState::GameEnd
}

/// Where a finished turn leads: rolling again on doubles, else the next
/// player.
pub fn end_turn_state(dice: &Dice) -> (r: GameState)
    ensures
        r == (if dice.doubles {
            GameState::DiceRoll
        } else {
            GameState::NextPlayer
        }),
{
    if dice.doubles {
        GameState::DiceRoll
    } else {
        GameState::NextPlayer
    }
}

/// The phase after turn setup, the human's turn when the acting player is
/// the human color and the computer's otherwise, and whether the selected
/// marble must be highlighted again (its moves may have changed after a
/// power-up).
pub fn turn_setup_complete(human: Player, current: &CurrentPlayerData) -> (r: (GameState, bool))
    ensures
        r.0 == turn_setup_complete_state(human, current.player),
        r.1 == current.selected_marble.is_some(),
{
    let state = if human == current.player {
        GameState::HumanTurn
    } else {
        GameState::ComputerTurn
    };
    (state, current.selected_marble.is_some())
}

/// The status of a player after activating `kind`: a timed status starts
/// unless it already runs, a one-shot flag is set.
pub open spec fn status_after(kind: PowerUp, st: PowerUpStatus) -> PowerUpStatus {
    match kind {
        PowerUp::EvadeCapture => if st.evade_capture_turns == 0 {
            PowerUpStatus { evade_capture_turns: STATUS_TURNS, ..st }
        } else {
            st
        },
        PowerUp::SelfJump => if st.jump_self_turns == 0 {
            PowerUpStatus { jump_self_turns: STATUS_TURNS, ..st }
        } else {
            st
        },
        PowerUp::CaptureNearest => PowerUpStatus { capture_nearest: true, ..st },
        PowerUp::HomeRun => PowerUpStatus { home_run: true, ..st },
        _ => st,
    }
}

/// The effect of activating `kind`, and the phase it leads to, if any.
pub open spec fn activation_state(kind: PowerUp) -> Option<GameState> {
    match kind {
        PowerUp::RollAgain => Some(GameState::DiceRoll),
        PowerUp::EvadeCapture => None,
        _ => Some(GameState::TurnSetup),
    }
}

/// Applies power-up `kind` for the acting player and returns the phase to
/// enter, if any: a new roll, doubled dice, a timed status (not restarted
/// while it runs) or a one-shot flag.
pub fn activate_power_up(kind: PowerUp, status: &mut PowerUpStatus, dice: &mut Dice) -> (r:
    Option<GameState>)
    ensures
        r == activation_state(kind),
        final(dice).multiplier == (if kind == PowerUp::DoubleDice {
            2
        } else {
            old(dice).multiplier
        }),
        final(dice).one == old(dice).one,
        final(dice).two == old(dice).two,
        final(dice).doubles == old(dice).doubles,
        final(status).evade_capture_turns == (if kind == PowerUp::EvadeCapture
            && old(status).evade_capture_turns == 0 {
            STATUS_TURNS
        } else {
            old(status).evade_capture_turns
        }),
        final(status).jump_self_turns == (if kind == PowerUp::SelfJump
            && old(status).jump_self_turns == 0 {
            STATUS_TURNS
        } else {
            old(status).jump_self_turns
        }),
        final(status).capture_nearest == (kind == PowerUp::CaptureNearest
            || old(status).capture_nearest),
        final(status).home_run == (kind == PowerUp::HomeRun || old(status).home_run),
        *final(status) == status_after(kind, *old(status)),
{
    match kind {
        PowerUp::RollAgain => Some(GameState::DiceRoll),
        PowerUp::DoubleDice => {
            dice.multiplier = 2;
            Some(GameState::TurnSetup)
        },
        PowerUp::EvadeCapture => {
            status.evade_capture();
            None
        },
        PowerUp::SelfJump => {
            status.jump_self();
            Some(GameState::TurnSetup)
        },
        PowerUp::CaptureNearest => {
            status.capture_nearest();
            Some(GameState::TurnSetup)
        },
        PowerUp::HomeRun => {
            status.home_run();
            Some(GameState::TurnSetup)
        },
    }
}


/// Marbles each color plays with.
pub const MARBLES_PER_PLAYER: usize = 5;

/// The whole state of a game in progress.
#[derive(Debug)]
pub struct Game {
    pub state: GameState,
    /// The color the human plays; the computer plays the others.
    pub human: Player,
    /// Every marble; a marble's id is its position here.
    pub marbles: Vec<Marble>,
    /// The data of each color, in clockwise order from red.
    pub players: Vec<PlayerData>,
    pub dice: Dice,
    pub current: CurrentPlayerData,
}

/// A move offered to `player` that the scoring rules can measure.
pub open spec fn offered(marbles: Seq<Marble>, player: Player, m: (usize, MarbleMove)) -> bool {
    own(marbles, player, m.0 as int) && valid_step(
        marbles[m.0 as int].index as int,
        m.1.destination as int,
    )
}

impl Game {
    pub open spec fn wf(&self) -> bool {
        &&& forall|k: int| 0 <= k < self.marbles@.len() ==> (#[trigger] self.marbles@[k]).wf()
        &&& self.players@.len() == 4
        &&& forall|i: int| 0 <= i < 4 ==> (#[trigger] self.players@[i]).wf()
        &&& self.dice.wf()
        &&& (self.state == GameState::HumanTurn || self.state == GameState::ComputerTurn)
            ==> forall|j: int|
            0 <= j < self.current.possible_moves@.len() ==> offered(
                self.marbles@,
                self.current.player,
                #[trigger] self.current.possible_moves@[j],
            )
        &&& (self.state == GameState::WaitForAnimation || self.state == GameState::ProcessMove)
            ==> {
            &&& self.current.moved_marble.is_some()
            &&& own(self.marbles@, self.current.player, self.current.moved_marble.unwrap() as int)
            &&& {
                let m = self.marbles@[self.current.moved_marble.unwrap() as int];
                valid_step(m.prev_index as int, m.index as int)
            }
        }
    }

    /// The data of the acting player.
    pub open spec fn acting(&self) -> PlayerData {
        self.players@[quarter_turns(self.current.player)]
    }

    /// A game where every marble waits at its base and red is about to
    /// play first.
    pub fn new(human: Player) -> (r: Game)
        ensures
            r.wf(),
            r.state == GameState::NextPlayer,
            r.human == human,
            r.current.player == Player::Yellow,
            r.marbles@.len() == 4 * MARBLES_PER_PLAYER,
            forall|k: int| 0 <= k < r.marbles@.len() ==> (#[trigger] r.marbles@[k]).index == BASE_INDEX,
    {
        let mut marbles: Vec<Marble> = Vec::new();
        let mut players: Vec<PlayerData> = Vec::new();
        let mut p = Player::Red;
        let mut c: usize = 0;
        while c < 4
            invariant
                c <= 4,
                quarter_turns(p) == c % 4,
                marbles@.len() == c * MARBLES_PER_PLAYER,
                players@.len() == c,
                forall|k: int| 0 <= k < marbles@.len() ==> (#[trigger] marbles@[k]).wf() && marbles@[k].index == BASE_INDEX,
                forall|i: int| 0 <= i < c ==> (#[trigger] players@[i]).wf(),
            decreases 4 - c,
        {
            let mut n: usize = 0;
            while n < MARBLES_PER_PLAYER
                invariant
                    n <= MARBLES_PER_PLAYER,
                    c < 4,
                    marbles@.len() == c * MARBLES_PER_PLAYER + n,
                    forall|k: int| 0 <= k < marbles@.len() ==> (#[trigger] marbles@[k]).wf() && marbles@[k].index == BASE_INDEX,
                decreases MARBLES_PER_PLAYER - n,
            {
                marbles.push(Marble { player: p, index: BASE_INDEX, prev_index: BASE_INDEX });
                n += 1;
            }
            players.push(PlayerData::new());
            p = p.next();
            c += 1;
        }
        Game {
            state: GameState::NextPlayer,
            human,
            marbles,
            players,
            dice: Dice { one: None, two: None, doubles: false, multiplier: 1 },
            current: CurrentPlayerData::new(Player::Yellow),
        }
    }

    /// Hands the turn to the next color clockwise, which then rolls.
    pub fn next_player(&mut self)
        requires
            old(self).wf(),
            old(self).state == GameState::NextPlayer,
        ensures
            final(self).wf(),
            final(self).state == GameState::DiceRoll,
            quarter_turns(final(self).current.player) == (quarter_turns(old(self).current.player)
                + 1) % 4,
            final(self).current.possible_moves@.len() == 0,
            final(self).current.selected_marble.is_none(),
            final(self).marbles@ == old(self).marbles@,
            final(self).players@ == old(self).players@,
    {
        self.current = CurrentPlayerData::new(self.current.player.next());
        self.state = GameState::DiceRoll;
    }

    /// Takes a roll of the dice.
    pub fn roll(&mut self, one: u8, two: u8)
        requires
            old(self).wf(),
            old(self).state == GameState::DiceRoll,
            1 <= one <= 6,
            1 <= two <= 6,
        ensures
            final(self).wf(),
            final(self).state == GameState::TurnSetup,
            final(self).dice == (Dice { one: Some(one), two: Some(two), doubles: one == two, multiplier: 1 }),
            final(self).current.player == old(self).current.player,
            final(self).marbles@ == old(self).marbles@,
            final(self).players@ == old(self).players@,
    {
        self.dice = Dice::new(one, two);
        self.state = GameState::TurnSetup;
    }

    /// Computes the acting player's legal moves, tallies them, and hands the
    /// turn to the human or the computer. Returns whether a marble was
    /// already selected, whose highlight must be drawn again since its
    /// moves may have changed.
    pub fn setup_turn(&mut self) -> (rehighlight: bool)
        requires
            old(self).wf(),
            old(self).state == GameState::TurnSetup,
        ensures
            final(self).wf(),
            final(self).state == turn_setup_complete_state(old(self).human, old(self).current.player),
            rehighlight == old(self).current.selected_marble.is_some(),
            forall|t| #[trigger]
                move_views(final(self).current.possible_moves@).contains(t)
                    <==> legal_move(
                    old(self).dice,
                    old(self).acting().power_up_status,
                    old(self).marbles@,
                    old(self).current.player,
                    t,
                ),
            move_views(final(self).current.possible_moves@).no_duplicates(),
            final(self).current.player == old(self).current.player,
            final(self).current.selected_marble == old(self).current.selected_marble,
            final(self).marbles@ == old(self).marbles@,
            final(self).dice == old(self).dice,
    {
        let p = self.current.player;
        let pi = p.index();
        let moves = calc_possible_moves(
            &self.dice,
            &self.players[pi].power_up_status,
            &self.marbles,
            p,
        );
        self.current.possible_moves = moves;
        count_moves(&mut self.players, &self.current);
        let (state, rehighlight) = turn_setup_complete(self.human, &self.current);
        self.state = state;
        rehighlight
    }
}

/// The phase after turn setup.
pub open spec fn turn_setup_complete_state(human: Player, player: Player) -> GameState {
    if human == player {
        GameState::HumanTurn
    } else {
        GameState::ComputerTurn
    }
}

impl Game {
    /// Plays offered move `k`: the marble goes to its destination and its
    /// dice are spent; the game then waits for the move's animation.
    pub fn choose_move(&mut self, k: usize)
        requires
            old(self).wf(),
            old(self).state == GameState::HumanTurn || old(self).state == GameState::ComputerTurn,
            k < old(self).current.possible_moves@.len(),
        ensures
            final(self).wf(),
            final(self).state == GameState::WaitForAnimation,
            ({
                let (e, mv) = old(self).current.possible_moves@[k as int];
                &&& final(self).marbles@ == old(self).marbles@.update(
                    e as int,
                    Marble {
                        index: mv.destination,
                        prev_index: old(self).marbles@[e as int].index,
                        ..old(self).marbles@[e as int]
                    },
                )
                &&& final(self).current.moved_marble == Some(e)
                &&& final(self).current.selected_move == Some(mv)
                &&& final(self).dice.one == (if mv.which == WhichDie::One
                    || mv.which == WhichDie::Both {
                    None
                } else {
                    old(self).dice.one
                })
                &&& final(self).dice.two == (if mv.which == WhichDie::Two
                    || mv.which == WhichDie::Both {
                    None
                } else {
                    old(self).dice.two
                })
            
                &&& final(self).dice.multiplier == (if final(self).dice.one.is_none()
                    && final(self).dice.two.is_none() {
                    1
                } else {
                    old(self).dice.multiplier
                })
                &&& final(self).dice.doubles == old(self).dice.doubles
            }),
            final(self).players@ == old(self).players@,
            final(self).current.player == old(self).current.player,
    {
        let (e, mv) = self.current.possible_moves[k];
        assert(offered(self.marbles@, self.current.player, self.current.possible_moves@[k as int]));
        self.current.select_move((e, mv));
        let old_m = self.marbles[e];
        self.marbles.set(e, Marble { index: mv.destination, prev_index: old_m.index, ..old_m });
        self.dice.use_die(mv.which);
        self.current.move_marble();
        self.state = GameState::WaitForAnimation;
    }

    /// The move's animation has finished.
    pub fn animation_done(&mut self)
        requires
            old(self).wf(),
            old(self).state == GameState::WaitForAnimation,
        ensures
            final(self).wf(),
            final(self).state == GameState::ProcessMove,
            final(self).marbles@ == old(self).marbles@,
            final(self).players@ == old(self).players@,
            final(self).current.moved_marble == old(self).current.moved_marble,
            final(self).current.player == old(self).current.player,
    {
        self.state = GameState::ProcessMove;
    }

    /// Resolves a played move: an opponent marble on the mover's cell goes
    /// back to base, the mover earns the move's power and, on a capture, the
    /// captor gains and the captive loses a capture's worth. Returns the
    /// captured marble, if any. The game then ends, continues with the die
    /// that is left, or ends the turn.
    pub fn process_move(&mut self) -> (captured: Option<usize>)
        requires
            old(self).wf(),
            old(self).state == GameState::ProcessMove,
        ensures
            final(self).wf(),
            ({
                let e = old(self).current.moved_marble.unwrap();
                let mover = old(self).marbles@[e as int];
                let pi = quarter_turns(old(self).current.player);
                let gain = bar_update(
                    old(self).players@[pi].bar.power as int,
                    old(self).players@[pi].bar.power_up_count as int,
                    move_power(mover.prev_index as int, mover.index as int),
                );
                &&& match captured {
                    Some(k) => {
                        let qi = quarter_turns(old(self).marbles@[k as int].player);
                        let won = bar_update(gain.0, gain.1, CAPTURE_POWER as int);
                        let lost = bar_update(
                            old(self).players@[qi].bar.power as int,
                            old(self).players@[qi].bar.power_up_count as int,
                            -CAPTURE_POWER,
                        );
                        &&& capturable(old(self).marbles@, old(self).players@, e as int, k as int)
                        &&& forall|j: int|
                            0 <= j < k ==> !capturable(
                                old(self).marbles@,
                                old(self).players@,
                                e as int,
                                j,
                            )
                        &&& final(self).marbles@ == old(self).marbles@.update(
                            k as int,
                            Marble { index: BASE_INDEX, ..old(self).marbles@[k as int] },
                        )
                        &&& final(self).players@[pi].bar.power == won.0
                        &&& final(self).players@[pi].bar.power_up_count == won.1
                        &&& final(self).players@[qi].bar.power == lost.0
                        &&& final(self).players@[qi].bar.power_up_count == lost.1
                    },
                    None => {
                        &&& forall|j: int|
                            0 <= j < old(self).marbles@.len() ==> !capturable(
                                old(self).marbles@,
                                old(self).players@,
                                e as int,
                                j,
                            )
                        &&& final(self).marbles@ == old(self).marbles@
                        &&& final(self).players@[pi].bar.power == gain.0
                        &&& final(self).players@[pi].bar.power_up_count == gain.1
                    },
                }
            }),
            final(self).state == (match after_move(
                all_home(final(self).marbles@, old(self).current.player),
                old(self).dice,
            ) {
                GameState::DiceRoll => GameState::EndTurn,
                GameState::NextPlayer => GameState::EndTurn,
                s => s,
            }),
            final(self).dice == old(self).dice,
            final(self).current.player == old(self).current.player,
    {
        let e = self.current.moved_marble.unwrap();
        let p = self.current.player;
        let pi = p.index();
        let m = self.marbles[e];
        let captured = check_for_capture(&mut self.marbles, &self.players, e);
        handle_power_event(
            &mut self.players,
            PowerEvent::Index { player: p, index: m.index, prev_index: m.prev_index },
        );
        if let Some(k) = captured {
            let captive = self.marbles[k].player;
            handle_power_event(&mut self.players, PowerEvent::Capture { captor: p, captive });
        }
        let next = check_for_winner(&self.marbles, p, &self.dice);
        self.state = match next {
            GameState::DiceRoll => GameState::EndTurn,
            GameState::NextPlayer => GameState::EndTurn,
            s => s,
        };
        captured
    }

    /// Ends the acting player's turn: its statuses tick, the turn's data is
    /// cleared, and doubles roll again while other rolls pass the turn.
    pub fn end_turn(&mut self)
        requires
            old(self).wf(),
            old(self).state == GameState::EndTurn || old(self).state == GameState::HumanTurn
                || old(self).state == GameState::ComputerTurn,
        ensures
            final(self).wf(),
            final(self).state == (if old(self).dice.doubles {
                GameState::DiceRoll
            } else {
                GameState::NextPlayer
            }),
            ({
                let pi = quarter_turns(old(self).current.player);
                let before = old(self).players@[pi].power_up_status;
                let after = final(self).players@[pi].power_up_status;
                &&& !after.capture_nearest
                &&& !after.home_run
                &&& after.evade_capture_turns == (if before.evade_capture_turns > 0 {
                    before.evade_capture_turns - 1
                } else {
                    0
                })
                &&& after.jump_self_turns == (if before.jump_self_turns > 0 {
                    before.jump_self_turns - 1
                } else {
                    0
                })
                &&& final(self).players@[pi].bar == old(self).players@[pi].bar
                &&& forall|i: int|
                    0 <= i < 4 && i != pi ==> final(self).players@[i] == old(self).players@[i]
            }),
            final(self).current.player == old(self).current.player,
            final(self).current.possible_moves@.len() == 0,
            final(self).current.selected_marble.is_none(),
            final(self).marbles@ == old(self).marbles@,
            final(self).dice == old(self).dice,
    {
        let pi = self.current.player.index();
        let mut data = self.players.remove(pi);
        data.end_of_turn();
        self.players.insert(pi, data);
        assert forall|i: int| 0 <= i < 4 implies (#[trigger] self.players@[i]).wf() by {
            if i != pi {
                assert(self.players@[i] == old(self).players@[i]);
            }
        }
        self.current.clear();
        self.state = end_turn_state(&self.dice);
    }

    /// Spends the acting player's power-up in `slot`, if one is there, and
    /// applies it; the phase changes as the power-up asks.
    pub fn use_power_up(&mut self, slot: usize) -> (r: Option<PowerUp>)
        requires
            old(self).wf(),
            old(self).state == GameState::HumanTurn || old(self).state == GameState::ComputerTurn,
        ensures
            final(self).wf(),
            r == (if slot < 3 {
                old(self).acting().power_ups@[slot as int]
            } else {
                None
            }),
            final(self).state == (match r {
                Some(kind) => match activation_state(kind) {
                    Some(s) => s,
                    None => old(self).state,
                },
                None => old(self).state,
            }),
            final(self).dice.multiplier == (if r == Some(PowerUp::DoubleDice) {
                2
            } else {
                old(self).dice.multiplier
            }),
            final(self).dice.one == old(self).dice.one,
            final(self).dice.two == old(self).dice.two,
            final(self).marbles@ == old(self).marbles@,
            final(self).current.player == old(self).current.player,
            final(self).current.possible_moves@ == old(self).current.possible_moves@,
            final(self).acting().bar.power == old(self).acting().bar.power,
            match r {
                Some(kind) => {
                    &&& final(self).acting().power_up_status == status_after(
                        kind,
                        old(self).acting().power_up_status,
                    )
                    &&& final(self).acting().power_ups@ == old(self).acting().power_ups@.update(
                        slot as int,
                        None,
                    )
                    &&& final(self).acting().bar.power_up_count == old(
                        self,
                    ).acting().bar.power_up_count - 1
                },
                None => {
                    &&& final(self).acting().power_up_status == old(self).acting().power_up_status
                    &&& final(self).acting().power_ups@ == old(self).acting().power_ups@
                    &&& final(self).acting().bar.power_up_count == old(
                        self,
                    ).acting().bar.power_up_count
                },
            },
            forall|i: int|
                0 <= i < 4 && i != quarter_turns(old(self).current.player)
                    ==> final(self).players@[i] == old(self).players@[i],
    {
        let p = self.current.player;
        let pi = p.index();
        let used = handle_power_event(&mut self.players, PowerEvent::Use { player: p, index: slot });
        if let Some(kind) = used {
            let mut data = self.players.remove(pi);
            if let Some(s) = activate_power_up(kind, &mut data.power_up_status, &mut self.dice) {
                self.state = s;
            }
            self.players.insert(pi, data);
            assert forall|i: int| 0 <= i < 4 implies (#[trigger] self.players@[i]).wf() by {
                if i != pi {
                    assert(self.players@[i] == old(self).players@[i]);
                }
            }
        }
        used
    }

    /// Handles a click during the human's turn, as `interpret_click` does;
    /// a chosen move is played at once.
    pub fn human_click(&mut self, clicked_marble: Option<usize>, cell: (i32, i32)) -> (r:
        ClickAction)
        requires
            old(self).wf(),
            old(self).state == GameState::HumanTurn,
        ensures
            final(self).wf(),
            final(self).current.player == old(self).current.player,
            final(self).players@ == old(self).players@,
            match r {
                ClickAction::Choose(k) => {
                    let (e, mv) = old(self).current.possible_moves@[k as int];
                    &&& k < old(self).current.possible_moves@.len()
                    &&& old(self).current.selected_marble == Some(e)
                    &&& clicked_marble.is_none()
                    &&& lands_at(old(self).current.player, (e, mv), e, cell)
                    &&& forall|i: int|
                        0 <= i < k ==> !lands_at(
                            old(self).current.player,
                            #[trigger] old(self).current.possible_moves@[i],
                            e,
                            cell,
                        )
                    &&& final(self).state == GameState::WaitForAnimation
                    &&& final(self).current.moved_marble == Some(e)
                    &&& final(self).marbles@ == old(self).marbles@.update(
                        e as int,
                        Marble {
                            index: mv.destination,
                            prev_index: old(self).marbles@[e as int].index,
                            ..old(self).marbles@[e as int]
                        },
                    )
                },
                ClickAction::Select(m) => {
                    &&& clicked_marble == Some(m)
                    &&& old(self).current.selected_marble != Some(m)
                    &&& final(self).current.selected_marble == Some(m)
                    &&& final(self).state == GameState::HumanTurn
                    &&& final(self).marbles@ == old(self).marbles@
                },
                ClickAction::Deselect => {
                    &&& clicked_marble.is_none()
                    &&& old(self).current.selected_marble.is_some()
                    &&& forall|i: int|
                        0 <= i < old(self).current.possible_moves@.len() ==> !lands_at(
                            old(self).current.player,
                            #[trigger] old(self).current.possible_moves@[i],
                            old(self).current.selected_marble.unwrap(),
                            cell,
                        )
                    &&& final(self).current.selected_marble.is_none()
                    &&& final(self).state == GameState::HumanTurn
                    &&& final(self).marbles@ == old(self).marbles@
                },
                ClickAction::Ignore => {
                    &&& (clicked_marble.is_some() && old(self).current.selected_marble
                        == clicked_marble) || (clicked_marble.is_none()
                        && old(self).current.selected_marble.is_none())
                    &&& final(self).current.selected_marble == old(self).current.selected_marble
                    &&& final(self).state == GameState::HumanTurn
                    &&& final(self).marbles@ == old(self).marbles@
                },
            },
    {
        let r = self.current.interpret_click(clicked_marble, cell);
        if let ClickAction::Choose(k) = r {
            self.choose_move(k);
        }
        r
    }
}

} // verus!
