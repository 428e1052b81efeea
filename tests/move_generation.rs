use vexation::board::{Player, BASE_INDEX, CENTER_INDEX};
use vexation::dice::{Dice, WhichDie};
use vexation::moves::{
    base_exit_rules, calc_possible_moves, enter_center_path, insert_candidate, open_home_indexes,
    Candidate, Marble, MarbleMove,
};
use vexation::power::PowerUpStatus;

fn red(index: usize) -> Marble {
    Marble { player: Player::Red, index, prev_index: index }
}

fn sorted(moves: &[(usize, MarbleMove)]) -> Vec<(usize, usize, WhichDie)> {
    let mut v: Vec<(usize, usize, WhichDie)> =
        moves.iter().map(|(e, m)| (*e, m.destination, m.which)).collect();
    v.sort();
    v
}

#[test]
fn base_with_one_and_six_offers_five_moves() {
    let dice = Dice::new(1, 6);
    let marbles = vec![red(BASE_INDEX)];
    let moves = calc_possible_moves(&dice, &PowerUpStatus::default(), &marbles, Player::Red);
    assert_eq!(
        sorted(&moves),
        vec![
            (0, 0, WhichDie::One),
            (0, 0, WhichDie::Two),
            (0, 1, WhichDie::Both),
            (0, 6, WhichDie::Both),
            (0, 53, WhichDie::Both),
        ]
    );
    for (_, m) in &moves {
        let expected = if m.destination == CENTER_INDEX { 7 } else { m.destination + 1 };
        assert_eq!(m.distance, expected);
    }
}

#[test]
fn center_with_one_and_four_offers_exit_and_continuation() {
    let dice = Dice::new(1, 4);
    let marbles = vec![red(CENTER_INDEX)];
    let moves = calc_possible_moves(&dice, &PowerUpStatus::default(), &marbles, Player::Red);
    assert_eq!(sorted(&moves), vec![(0, 41, WhichDie::One), (0, 45, WhichDie::Both)]);
}

#[test]
fn equal_faces_keep_one_move_per_die() {
    let dice = Dice::new(5, 5);
    let marbles = vec![red(43)];
    let moves = calc_possible_moves(&dice, &PowerUpStatus::default(), &marbles, Player::Red);
    assert_eq!(sorted(&moves), vec![(0, 48, WhichDie::One), (0, 48, WhichDie::Two)]);
    assert!(moves.iter().all(|(_, m)| m.distance == 5));
}

#[test]
fn last_home_cell_has_no_move() {
    let dice = Dice::new(4, 1);
    let marbles = vec![red(52)];
    let moves = calc_possible_moves(&dice, &PowerUpStatus::default(), &marbles, Player::Red);
    assert!(moves.is_empty());
}

#[test]
fn no_dice_and_no_flag_gives_no_moves() {
    let mut dice = Dice::new(3, 4);
    dice.use_die(WhichDie::Both);
    let marbles = vec![red(10), red(BASE_INDEX)];
    let moves = calc_possible_moves(&dice, &PowerUpStatus::default(), &marbles, Player::Red);
    assert!(moves.is_empty());
}

#[test]
fn own_marble_on_path_blocks_unless_jumping() {
    let dice = Dice::new(2, 5);
    let marbles = vec![red(10), red(13)];
    let status = PowerUpStatus::default();
    let moves = calc_possible_moves(&dice, &status, &marbles, Player::Red);
    // marble 0 may only move 2; 5 and 7 pass marble 1 at cell 13
    let zero: Vec<(usize, usize, WhichDie)> =
        sorted(&moves).into_iter().filter(|m| m.0 == 0).collect();
    assert_eq!(zero, vec![(0, 12, WhichDie::One)]);

    let jumping = PowerUpStatus { jump_self_turns: 2, ..PowerUpStatus::default() };
    let moves = calc_possible_moves(&dice, &jumping, &marbles, Player::Red);
    let zero: Vec<(usize, usize, WhichDie)> =
        sorted(&moves).into_iter().filter(|m| m.0 == 0).collect();
    assert_eq!(
        zero,
        vec![(0, 12, WhichDie::One), (0, 15, WhichDie::Two), (0, 17, WhichDie::Both)]
    );
}

#[test]
fn landing_on_own_marble_blocks_even_when_jumping() {
    let dice = Dice::new(3, 6);
    let marbles = vec![red(10), red(13)];
    let jumping = PowerUpStatus { jump_self_turns: 1, ..PowerUpStatus::default() };
    let moves = calc_possible_moves(&dice, &jumping, &marbles, Player::Red);
    assert!(!moves.iter().any(|(e, m)| *e == 0 && m.destination == 13));
}

#[test]
fn other_colors_do_not_block() {
    let dice = Dice::new(2, 3);
    let marbles = vec![red(10), Marble { player: Player::Green, index: 11, prev_index: 11 }];
    let moves = calc_possible_moves(&dice, &PowerUpStatus::default(), &marbles, Player::Red);
    assert_eq!(
        sorted(&moves),
        vec![(0, 12, WhichDie::One), (0, 13, WhichDie::Two), (0, 15, WhichDie::Both)]
    );
}

#[test]
fn home_run_offers_each_open_home_cell() {
    let mut dice = Dice::new(2, 3);
    dice.use_die(WhichDie::Both);
    let marbles = vec![red(20), red(49), red(BASE_INDEX)];
    let status = PowerUpStatus { home_run: true, ..PowerUpStatus::default() };
    let moves = calc_possible_moves(&dice, &status, &marbles, Player::Red);
    let mut expected = Vec::new();
    for e in [0usize, 2] {
        for h in [48usize, 50, 51, 52] {
            expected.push((e, h, WhichDie::Neither));
        }
    }
    expected.sort();
    assert_eq!(sorted(&moves), expected);
    assert_eq!(open_home_indexes(&marbles, Player::Red), vec![48, 50, 51, 52]);
}

#[test]
fn entering_center_needs_an_exact_roll() {
    assert_eq!(enter_center_path(3, 6), Some(vec![3, 4, 5, 53]));
    assert_eq!(enter_center_path(3, 7), None);
    assert_eq!(enter_center_path(10, 18), Some(vec![10, 11, 12, 13, 14, 15, 16, 17, 53]));
}

#[test]
fn path_into_center_from_ring() {
    // 12 + (3 + 3) lands one past entrance 17
    let dice = Dice::new(3, 3);
    let marbles = vec![red(12)];
    let moves = calc_possible_moves(&dice, &PowerUpStatus::default(), &marbles, Player::Red);
    assert_eq!(
        sorted(&moves),
        vec![
            (0, 15, WhichDie::One),
            (0, 15, WhichDie::Two),
            (0, 18, WhichDie::Both),
            (0, 53, WhichDie::Both),
        ]
    );
    let center = moves.iter().find(|(_, m)| m.destination == CENTER_INDEX).unwrap();
    assert_eq!(center.1.distance, 6);
}

#[test]
fn double_dice_doubles_distance() {
    let mut dice = Dice::new(2, 3);
    dice.multiplier = 2;
    let marbles = vec![red(0)];
    let moves = calc_possible_moves(&dice, &PowerUpStatus::default(), &marbles, Player::Red);
    assert_eq!(
        sorted(&moves),
        vec![(0, 4, WhichDie::One), (0, 6, WhichDie::Two), (0, 10, WhichDie::Both)]
    );
}

#[test]
fn inserting_a_candidate_twice_keeps_one() {
    let mut moves = Vec::new();
    insert_candidate(&mut moves, Candidate { marble: 1, path: vec![2, 3], which: WhichDie::One });
    insert_candidate(&mut moves, Candidate { marble: 1, path: vec![2, 3], which: WhichDie::One });
    insert_candidate(&mut moves, Candidate { marble: 1, path: vec![2, 3], which: WhichDie::Two });
    assert_eq!(moves.len(), 2);
}

#[test]
fn base_exit_needs_one_or_six() {
    let dice = Dice::new(2, 5);
    let mut moves = Vec::new();
    base_exit_rules(&dice, 0, &mut moves);
    assert!(moves.is_empty());
}

#[test]
fn marble_move_from_tuple() {
    let m = MarbleMove::from((7, 3, WhichDie::Two));
    assert_eq!(m, MarbleMove { destination: 7, distance: 3, which: WhichDie::Two });
}

#[test]
fn center_exit_never_returns_to_center_through_home() {
    let mut dice = Dice::new(1, 6);
    dice.multiplier = 2;
    let marbles = vec![red(CENTER_INDEX)];
    let moves = calc_possible_moves(&dice, &PowerUpStatus::default(), &marbles, Player::Red);
    assert_eq!(sorted(&moves), vec![(0, 41, WhichDie::One)]);
    // a continuation that stays on the board is still offered
    let mut dice = Dice::new(5, 1);
    dice.multiplier = 2;
    let moves = calc_possible_moves(&dice, &PowerUpStatus::default(), &marbles, Player::Red);
    assert_eq!(sorted(&moves), vec![(0, 41, WhichDie::Two), (0, 51, WhichDie::Both)]);
}
