use vexation::events::EventQueue;
use vexation::board::{Player, BASE_INDEX};
use vexation::buttons::{
    get_button_state, mouse_watcher, sprite_index, watch_button_state_changes, ButtonState,
    PointerInput,
};
use vexation::dice::{Dice, WhichDie};
use vexation::moves::{Marble, MarbleMove};
use vexation::power::{PowerUp, PowerUpStatus, POWER_SCALE};
use vexation::turn::{
    activate_power_up, check_for_winner, end_turn_state, turn_setup_complete, ClickAction,
    CurrentPlayerData, Game, GameState,
};

fn red_turn(human: Player) -> Game {
    let mut game = Game::new(human);
    game.next_player();
    assert_eq!(game.current.player, Player::Red);
    assert_eq!(game.state, GameState::DiceRoll);
    game
}

#[test]
fn human_turn_from_base_to_next_player() {
    let mut game = red_turn(Player::Red);
    game.roll(6, 3);
    assert!(!game.setup_turn());
    assert_eq!(game.state, GameState::HumanTurn);
    // six leaves base and three carries on
    let k = game
        .current
        .possible_moves
        .iter()
        .position(|(e, m)| *e == 0 && m.which == WhichDie::Both)
        .unwrap();
    let (_, mv) = game.current.possible_moves[k];
    assert_eq!(mv.destination, 3);
    assert_eq!(mv.distance, 4);
    game.choose_move(k);
    assert_eq!(game.state, GameState::WaitForAnimation);
    assert_eq!(game.marbles[0].index, 3);
    assert_eq!(game.marbles[0].prev_index, BASE_INDEX);
    assert!(game.dice.is_empty());
    game.animation_done();
    assert_eq!(game.process_move(), None);
    // 10 * 4 / 48 points
    assert_eq!(game.players[0].bar.power, 40);
    assert_eq!(game.state, GameState::EndTurn);
    game.end_turn();
    assert_eq!(game.state, GameState::NextPlayer);
    game.next_player();
    assert_eq!(game.current.player, Player::Green);
}

#[test]
fn capture_moves_power_between_players() {
    let mut game = red_turn(Player::Green);
    game.marbles[0].index = 10;
    game.marbles[0].prev_index = 10;
    // green's marble on its cell 1 is red's cell 13
    game.marbles[5].index = 1;
    game.marbles[5].prev_index = 1;
    game.players[1].bar.power = 2 * POWER_SCALE;
    game.roll(3, 4);
    game.setup_turn();
    assert_eq!(game.state, GameState::ComputerTurn);
    let k = game
        .current
        .possible_moves
        .iter()
        .position(|(e, m)| *e == 0 && m.destination == 13)
        .unwrap();
    game.choose_move(k);
    game.animation_done();
    assert_eq!(game.process_move(), Some(5));
    assert_eq!(game.marbles[5].index, BASE_INDEX);
    assert_eq!(game.players[0].bar.power, 30 + 3 * POWER_SCALE);
    assert_eq!(game.players[1].bar.power, 0);
    // die two is left
    assert_eq!(game.state, GameState::TurnSetup);
}

#[test]
fn doubles_roll_again() {
    let mut game = red_turn(Player::Red);
    game.roll(6, 6);
    game.setup_turn();
    let k = game
        .current
        .possible_moves
        .iter()
        .position(|(_, m)| m.which == WhichDie::Both && m.destination == 6)
        .unwrap();
    game.choose_move(k);
    game.animation_done();
    game.process_move();
    assert_eq!(game.state, GameState::EndTurn);
    game.end_turn();
    assert_eq!(game.state, GameState::DiceRoll);
    assert_eq!(game.current.player, Player::Red);
}

#[test]
fn power_up_activation_in_a_turn() {
    let mut game = red_turn(Player::Red);
    game.players[0].store_power_up(PowerUp::DoubleDice);
    game.players[0].bar.power_up_count = 1;
    game.roll(2, 3);
    game.setup_turn();
    assert_eq!(game.use_power_up(1), None);
    assert_eq!(game.state, GameState::HumanTurn);
    assert_eq!(game.use_power_up(0), Some(PowerUp::DoubleDice));
    assert_eq!(game.dice.multiplier, 2);
    assert_eq!(game.state, GameState::TurnSetup);
    assert_eq!(game.players[0].bar.power_up_count, 0);
    game.setup_turn();
    // nothing can leave base with a two and a three
    assert!(game.current.possible_moves.is_empty());
    game.end_turn();
    assert_eq!(game.state, GameState::NextPlayer);
}

#[test]
fn activation_effects() {
    let mut status = PowerUpStatus::default();
    let mut dice = Dice::new(2, 4);
    assert_eq!(activate_power_up(PowerUp::RollAgain, &mut status, &mut dice), Some(GameState::DiceRoll));
    assert_eq!(activate_power_up(PowerUp::DoubleDice, &mut status, &mut dice), Some(GameState::TurnSetup));
    assert_eq!(dice.multiplier, 2);
    assert_eq!(activate_power_up(PowerUp::EvadeCapture, &mut status, &mut dice), None);
    assert_eq!(status.evade_capture_turns, 3);
    assert_eq!(activate_power_up(PowerUp::SelfJump, &mut status, &mut dice), Some(GameState::TurnSetup));
    assert_eq!(status.jump_self_turns, 3);
    assert_eq!(activate_power_up(PowerUp::CaptureNearest, &mut status, &mut dice), Some(GameState::TurnSetup));
    assert!(status.capture_nearest);
    assert_eq!(activate_power_up(PowerUp::HomeRun, &mut status, &mut dice), Some(GameState::TurnSetup));
    assert!(status.home_run);
}

#[test]
fn winner_and_next_phase() {
    let home: Vec<Marble> = (48..53).map(|i| Marble { player: Player::Blue, index: i, prev_index: i }).collect();
    let mut dice = Dice::new(1, 2);
    dice.use_die(WhichDie::Both);
    assert_eq!(check_for_winner(&home, Player::Blue, &dice), GameState::GameEnd);
    let mut not_home = home.clone();
    not_home[2].index = 40;
    assert_eq!(check_for_winner(&not_home, Player::Blue, &dice), GameState::NextPlayer);
    let mut one_left = Dice::new(1, 2);
    one_left.use_die(WhichDie::One);
    assert_eq!(check_for_winner(&not_home, Player::Blue, &one_left), GameState::TurnSetup);
    let mut doubles = Dice::new(4, 4);
    doubles.use_die(WhichDie::Both);
    assert_eq!(check_for_winner(&not_home, Player::Blue, &doubles), GameState::DiceRoll);
    assert_eq!(end_turn_state(&doubles), GameState::DiceRoll);
    assert_eq!(end_turn_state(&dice), GameState::NextPlayer);
    let mut red = CurrentPlayerData::new(Player::Red);
    assert_eq!(turn_setup_complete(Player::Red, &red), (GameState::HumanTurn, false));
    red.selected_marble = Some(2);
    assert_eq!(turn_setup_complete(Player::Red, &red), (GameState::HumanTurn, true));
    let blue = CurrentPlayerData::new(Player::Blue);
    assert_eq!(turn_setup_complete(Player::Red, &blue), (GameState::ComputerTurn, false));
}

#[test]
fn dice_bookkeeping() {
    let mut dice = Dice::new(3, 3);
    assert!(dice.doubles);
    assert!(!dice.did_use_any());
    dice.multiplier = 2;
    dice.use_die(WhichDie::One);
    assert!(dice.did_use_any());
    assert_eq!(dice.multiplier, 2);
    dice.use_die(WhichDie::Neither);
    assert_eq!(dice.two, Some(3));
    dice.use_die(WhichDie::Two);
    assert!(dice.is_empty());
    assert_eq!(dice.multiplier, 1);
}

#[test]
fn current_player_moves_and_selection() {
    let mut data = CurrentPlayerData::new(Player::Green);
    let a = MarbleMove { destination: 3, distance: 4, which: WhichDie::One };
    let b = MarbleMove { destination: 5, distance: 6, which: WhichDie::Both };
    let c = MarbleMove { destination: 7, distance: 2, which: WhichDie::Two };
    data.possible_moves = vec![(1, a), (2, b), (1, c)];
    assert_eq!(data.get_moves(1), vec![a, c]);
    assert_eq!(data.get_moves(4), vec![]);
    // green's cell 3 is physically red's cell 15
    let cell = Player::Red.rotate_coords(vexation::board::board_coord(15));
    assert_eq!(data.move_at(1, cell), Some(a));
    assert_eq!(data.move_at(2, cell), None);
    assert_eq!(data.get_selected_move(), None);
    data.select_move((1, c));
    assert_eq!(data.get_selected_move(), Some((1, c)));
    data.move_marble();
    assert_eq!(data.moved_marble, Some(1));
    assert_eq!(data.selected_marble, None);
    data.clear();
    assert!(data.possible_moves.is_empty());
    assert_eq!(data.moved_marble, None);
}

#[test]
fn button_presses_fire_on_release() {
    let idle = PointerInput { moved_in_bounds: None, just_pressed: false, just_released: false };
    let enter = PointerInput { moved_in_bounds: Some(true), ..idle };
    let leave = PointerInput { moved_in_bounds: Some(false), ..idle };
    let press = PointerInput { just_pressed: true, ..idle };
    let release = PointerInput { just_released: true, ..idle };
    let (s, fired) = mouse_watcher(ButtonState::NotHovered, enter);
    assert_eq!((s, fired), (ButtonState::Hovered, false));
    let (s, _) = mouse_watcher(s, press);
    assert_eq!(s, ButtonState::Pressed);
    assert_eq!(mouse_watcher(s, release), (ButtonState::Hovered, true));
    let (s, _) = mouse_watcher(s, leave);
    assert_eq!(s, ButtonState::PressedNotHovered);
    assert_eq!(mouse_watcher(s, enter), (ButtonState::Pressed, false));
    assert_eq!(mouse_watcher(s, release), (ButtonState::NotHovered, false));
    assert_eq!(get_button_state(Some(true), true), ButtonState::Pressed);
    assert_eq!(get_button_state(Some(true), false), ButtonState::Hovered);
    assert_eq!(get_button_state(None, true), ButtonState::NotHovered);
    assert_eq!(sprite_index(ButtonState::PressedNotHovered), 2);
    assert_eq!(watch_button_state_changes(ButtonState::PressedNotHovered), None);
    assert_eq!(watch_button_state_changes(ButtonState::Hovered), Some(1));
}

#[test]
fn mailbox_drains_in_order_once() {
    let mut queue = EventQueue::new();
    assert!(queue.is_empty());
    queue.send(GameState::DiceRoll);
    queue.send(GameState::TurnSetup);
    assert_eq!(queue.len(), 2);
    assert_eq!(queue.drain(), vec![GameState::DiceRoll, GameState::TurnSetup]);
    assert!(queue.is_empty());
    assert_eq!(queue.drain(), vec![]);
    queue.send(GameState::EndTurn);
    queue.clear();
    assert_eq!(queue.len(), 0);
}

#[test]
fn clicks_select_choose_and_release() {
    let mut game = red_turn(Player::Red);
    game.roll(6, 2);
    game.setup_turn();
    assert_eq!(game.state, GameState::HumanTurn);
    let start = Player::Red.rotate_coords(vexation::board::board_coord(0));
    // no marble selected: a click on a cell does nothing
    assert_eq!(game.human_click(None, start), ClickAction::Ignore);
    assert_eq!(game.human_click(Some(1), start), ClickAction::Select(1));
    assert_eq!(game.current.selected_marble, Some(1));
    // clicking the selected marble again is ignored
    assert_eq!(game.human_click(Some(1), start), ClickAction::Ignore);
    assert_eq!(game.current.selected_marble, Some(1));
    // a cell no move of marble 1 reaches releases it
    let far = Player::Red.rotate_coords(vexation::board::board_coord(30));
    assert_eq!(game.human_click(None, far), ClickAction::Deselect);
    assert_eq!(game.current.selected_marble, None);
    assert_eq!(game.state, GameState::HumanTurn);
    // select marble 1 again and click the start cell: the six brings it out
    game.human_click(Some(1), start);
    let action = game.human_click(None, start);
    let k = match action {
        ClickAction::Choose(k) => k,
        other => panic!("expected a move, got {:?}", other),
    };
    assert_eq!(game.current.possible_moves[k].0, 1);
    assert_eq!(game.current.possible_moves[k].1.destination, 0);
    assert_eq!(game.state, GameState::WaitForAnimation);
    assert_eq!(game.marbles[1].index, 0);
    assert_eq!(game.current.moved_marble, Some(1));
}

#[test]
fn using_evade_capture_keeps_the_turn_and_sets_the_status() {
    let mut game = red_turn(Player::Red);
    game.players[0].store_power_up(PowerUp::EvadeCapture);
    game.players[0].store_power_up(PowerUp::HomeRun);
    game.players[0].bar.power_up_count = 2;
    game.roll(2, 3);
    game.setup_turn();
    assert_eq!(game.use_power_up(0), Some(PowerUp::EvadeCapture));
    assert_eq!(game.state, GameState::HumanTurn);
    assert_eq!(game.players[0].power_up_status.evade_capture_turns, 3);
    assert_eq!(game.players[0].power_ups, vec![None, Some(PowerUp::HomeRun), None]);
    assert_eq!(game.players[0].bar.power_up_count, 1);
    assert_eq!(game.use_power_up(1), Some(PowerUp::HomeRun));
    assert!(game.players[0].power_up_status.home_run);
    assert_eq!(game.state, GameState::TurnSetup);
    game.setup_turn();
    // every marble at base may run home to each of the five cells
    assert_eq!(game.current.possible_moves.len(), 25);
}

#[test]
fn spending_both_dice_resets_the_multiplier() {
    let mut game = red_turn(Player::Red);
    game.marbles[0].index = 4;
    game.marbles[0].prev_index = 4;
    game.roll(2, 3);
    game.dice.multiplier = 2;
    game.setup_turn();
    let k = game
        .current
        .possible_moves
        .iter()
        .position(|(e, m)| *e == 0 && m.which == WhichDie::Both && m.destination == 14)
        .unwrap();
    game.choose_move(k);
    assert!(game.dice.is_empty());
    assert_eq!(game.dice.multiplier, 1);
}
