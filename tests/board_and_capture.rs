use vexation::board::{
    board_coord, board_index_at, entrance_indices, is_center, is_center_entrance, is_home_index,
    Player, BASE_INDEX, CENTER_INDEX,
};
use vexation::capture::check_for_capture;
use vexation::moves::Marble;
use vexation::power::PlayerData;

fn players() -> Vec<PlayerData> {
    (0..4).map(|_| PlayerData::new()).collect()
}

fn marble(player: Player, index: usize) -> Marble {
    Marble { player, index, prev_index: index }
}

#[test]
fn board_coordinates() {
    assert_eq!(board_coord(0), (-6, 1));
    assert_eq!(board_coord(5), (-1, 1));
    assert_eq!(board_coord(11), (0, 6));
    assert_eq!(board_coord(17), (1, 1));
    assert_eq!(board_coord(23), (6, 0));
    assert_eq!(board_coord(29), (1, -1));
    assert_eq!(board_coord(35), (0, -6));
    assert_eq!(board_coord(41), (-1, -1));
    assert_eq!(board_coord(47), (-6, 0));
    assert_eq!(board_coord(48), (-5, 0));
    assert_eq!(board_coord(52), (-1, 0));
    assert_eq!(board_coord(CENTER_INDEX), (0, 0));
}

#[test]
fn every_cell_has_its_own_coordinate() {
    for i in 0..54 {
        for j in 0..i {
            assert_ne!(board_coord(i), board_coord(j));
        }
    }
}

#[test]
fn rotation_round_trips() {
    for p in [Player::Red, Player::Green, Player::Blue, Player::Yellow] {
        for i in 0..54 {
            let c = board_coord(i);
            assert_eq!(p.unrotate_coords(p.rotate_coords(c)), c);
            assert_eq!(board_index_at(p, p.rotate_coords(c)), Some(i));
        }
    }
    assert_eq!(Player::Green.rotate_coords((-6, 1)), (1, 6));
    assert_eq!(board_index_at(Player::Red, (9, 9)), None);
}

#[test]
fn frames_are_a_quarter_of_the_ring_apart() {
    assert!(Player::Green.is_same_index(0, Player::Red, 12));
    assert!(Player::Blue.is_same_index(0, Player::Red, 24));
    assert!(Player::Yellow.is_same_index(0, Player::Red, 36));
    assert!(Player::Red.is_same_index(40, Player::Green, 28));
    assert!(!Player::Red.is_same_index(40, Player::Green, 29));
    // everyone's center is the same cell
    assert!(Player::Red.is_same_index(CENTER_INDEX, Player::Blue, CENTER_INDEX));
    // home rows never meet
    assert!(!Player::Red.is_same_index(50, Player::Green, 50));
}

#[test]
fn capture_check_agrees_from_both_sides() {
    let colors = [Player::Red, Player::Green, Player::Blue, Player::Yellow];
    for &a in &colors {
        for &b in &colors {
            for i in 0..54 {
                for j in 0..54 {
                    assert_eq!(a.is_same_index(i, b, j), b.is_same_index(j, a, i));
                }
            }
        }
    }
    // a concrete pair: red on 14 and green on 2 share a cell, either may capture
    let mut marbles = vec![marble(Player::Red, 14), marble(Player::Green, 2)];
    assert_eq!(check_for_capture(&mut marbles, &players(), 0), Some(1));
    assert_eq!(marbles[1].index, BASE_INDEX);
    let mut marbles = vec![marble(Player::Red, 14), marble(Player::Green, 2)];
    assert_eq!(check_for_capture(&mut marbles, &players(), 1), Some(0));
    assert_eq!(marbles[0].index, BASE_INDEX);
}

#[test]
fn no_capture_in_home_center_or_own_color() {
    let mut marbles = vec![
        marble(Player::Red, CENTER_INDEX),
        marble(Player::Green, CENTER_INDEX),
        marble(Player::Red, 20),
        marble(Player::Red, 50),
        marble(Player::Blue, 50),
    ];
    let before = marbles.clone();
    assert_eq!(check_for_capture(&mut marbles, &players(), 0), None);
    assert_eq!(check_for_capture(&mut marbles, &players(), 3), None);
    assert_eq!(marbles, before);
    let mut same = vec![marble(Player::Red, 20), marble(Player::Red, 20)];
    assert_eq!(check_for_capture(&mut same, &players(), 0), None);
}

#[test]
fn evading_marbles_are_not_captured() {
    let mut data = players();
    data[1].power_up_status.evade_capture_turns = 2;
    let mut marbles = vec![marble(Player::Red, 14), marble(Player::Green, 2)];
    assert_eq!(check_for_capture(&mut marbles, &data, 0), None);
    assert_eq!(marbles[1].index, 2);
}

#[test]
fn topology_queries() {
    assert!(is_home_index(48) && is_home_index(52));
    assert!(!is_home_index(47) && !is_home_index(53));
    assert!(is_center(53) && !is_center(BASE_INDEX));
    assert_eq!(entrance_indices(), [5, 17, 29]);
    assert!(is_center_entrance(17) && !is_center_entrance(18));
    assert_eq!(Player::Yellow.next(), Player::Red);
    assert_eq!(Player::Blue.index(), 2);
}
