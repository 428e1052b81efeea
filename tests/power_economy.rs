use vexation::board::{Player, BASE_INDEX, CENTER_INDEX};
use vexation::power::{
    distance, draw_power_up, handle_power_event, index_power, PowerEvent, PlayerData, PowerBar, PowerUp, PowerUpStatus,
    MAX_POWER, POWER_SCALE,
};

#[test]
fn carry_over_with_no_power_up_held() {
    let mut bar = PowerBar::new();
    assert!(bar.update(11 * POWER_SCALE));
    assert_eq!(bar.power, POWER_SCALE);
    assert_eq!(bar.power_up_count, 1);
}

#[test]
fn third_power_up_resets_bar() {
    let mut bar = PowerBar { power: 0, power_up_count: 2 };
    assert!(bar.update(10 * POWER_SCALE));
    assert_eq!(bar.power, 0);
    assert_eq!(bar.power_up_count, 3);
}

#[test]
fn full_inventory_freezes_bar() {
    let mut bar = PowerBar { power: 5 * POWER_SCALE, power_up_count: 3 };
    for delta in [1, 10 * POWER_SCALE, 30 * POWER_SCALE, -3 * POWER_SCALE] {
        assert!(!bar.update(delta));
        assert_eq!(bar.power, 5 * POWER_SCALE);
        assert_eq!(bar.power_up_count, 3);
    }
}

#[test]
fn power_never_goes_below_zero() {
    let mut bar = PowerBar { power: 2 * POWER_SCALE, power_up_count: 0 };
    assert!(!bar.update(-3 * POWER_SCALE));
    assert_eq!(bar.power, 0);
}

#[test]
fn bar_below_max_just_accumulates() {
    let mut bar = PowerBar::new();
    assert!(!bar.update(MAX_POWER - 1));
    assert_eq!(bar.power, MAX_POWER - 1);
    assert!(bar.update(1));
    assert_eq!(bar.power, 0);
    assert_eq!(bar.power_up_count, 1);
}

#[test]
fn move_distances() {
    assert_eq!(distance(BASE_INDEX, 8), 9);
    assert_eq!(distance(BASE_INDEX, CENTER_INDEX), 7);
    assert_eq!(distance(CENTER_INDEX, 45), 5);
    assert_eq!(distance(3, CENTER_INDEX), 3);
    assert_eq!(distance(6, CENTER_INDEX), 12);
    assert_eq!(distance(20, CENTER_INDEX), 10);
    assert_eq!(distance(40, 46), 6);
}

#[test]
fn move_power_in_ring_and_home() {
    // nine ring cells from base: 10 * 9 / 48 points = 1.875 points
    assert_eq!(index_power(8, BASE_INDEX), 90);
    assert!((index_power(8, BASE_INDEX) as f64 / POWER_SCALE as f64 - 1.875).abs() < 1e-9);
    // home row counts double
    assert_eq!(index_power(50, 44), 2 * 10 * 6);
    assert_eq!(index_power(CENTER_INDEX, BASE_INDEX), 2 * 10 * 7);
}

#[test]
fn update_power_draws_and_stores_a_power_up() {
    let mut data = PlayerData::new();
    assert_eq!(data.update_power(3 * POWER_SCALE), None);
    let kind = data.update_power(8 * POWER_SCALE);
    assert!(kind.is_some());
    assert_eq!(data.power_ups, vec![kind, None, None]);
    assert_eq!(data.bar.power, POWER_SCALE);
    assert_eq!(data.bar.power_up_count, 1);
}

#[test]
fn using_a_power_up_frees_its_slot() {
    let mut data = PlayerData::new();
    data.store_power_up(PowerUp::HomeRun);
    data.store_power_up(PowerUp::SelfJump);
    data.bar.power_up_count = 2;
    data.bar.power = 7;
    assert_eq!(data.use_power_up(0), Some(PowerUp::HomeRun));
    assert_eq!(data.power_ups, vec![None, Some(PowerUp::SelfJump), None]);
    assert_eq!(data.bar.power_up_count, 1);
    assert_eq!(data.bar.power, 7);
    assert_eq!(data.use_power_up(0), None);
    assert_eq!(data.use_power_up(5), None);
    data.store_power_up(PowerUp::RollAgain);
    assert_eq!(data.power_ups[0], Some(PowerUp::RollAgain));
}

#[test]
fn timed_statuses_are_not_restarted() {
    let mut status = PowerUpStatus::default();
    assert!(!status.evade_capture());
    assert_eq!(status.evade_capture_turns, 3);
    status.tick();
    assert_eq!(status.evade_capture_turns, 2);
    assert!(status.evade_capture());
    assert_eq!(status.evade_capture_turns, 2);
    assert!(!status.jump_self());
    assert!(status.jump_self());
    assert_eq!(status.jump_self_turns, 3);
}

#[test]
fn tick_clears_one_shots_and_counts_down() {
    let mut status = PowerUpStatus { evade_capture_turns: 1, jump_self_turns: 0, capture_nearest: false, home_run: false };
    status.capture_nearest();
    status.home_run();
    assert!(status.capture_nearest && status.home_run);
    status.tick();
    assert!(!status.capture_nearest && !status.home_run);
    assert_eq!(status.evade_capture_turns, 0);
    assert_eq!(status.jump_self_turns, 0);
}

#[test]
fn end_of_turn_tracks_empty_turns() {
    let mut data = PlayerData::new();
    data.end_of_turn();
    data.end_of_turn();
    assert_eq!(data.consecutive_empty_turns, 2);
    data.count_moves(4);
    assert_eq!(data.turn_move_count, 4);
    data.end_of_turn();
    assert_eq!(data.consecutive_empty_turns, 0);
    assert_eq!(data.turn_move_count, 0);
    data.count_moves(300);
    assert_eq!(data.turn_move_count, 255);
}

#[test]
fn draws_are_power_ups_of_every_kind_in_time() {
    let mut seen = [false; 6];
    for _ in 0..2000 {
        let i = match draw_power_up() {
            PowerUp::RollAgain => 0,
            PowerUp::DoubleDice => 1,
            PowerUp::EvadeCapture => 2,
            PowerUp::SelfJump => 3,
            PowerUp::CaptureNearest => 4,
            PowerUp::HomeRun => 5,
        };
        seen[i] = true;
    }
    assert!(seen.iter().all(|s| *s));
}

#[test]
fn power_up_from_index() {
    assert_eq!(PowerUp::from_index(0), PowerUp::RollAgain);
    assert_eq!(PowerUp::from_index(3), PowerUp::SelfJump);
    assert_eq!(PowerUp::from_index(5), PowerUp::HomeRun);
}

#[test]
fn power_events_move_power_between_players() {
    let mut players: Vec<PlayerData> = (0..4).map(|_| PlayerData::new()).collect();
    players[2].bar.power = 5 * POWER_SCALE;
    let used = handle_power_event(&mut players, PowerEvent::Capture { captor: Player::Green, captive: Player::Blue });
    assert_eq!(used, None);
    assert_eq!(players[1].bar.power, 3 * POWER_SCALE);
    assert_eq!(players[2].bar.power, 2 * POWER_SCALE);
    handle_power_event(&mut players, PowerEvent::Index { player: Player::Red, index: 50, prev_index: 44 });
    assert_eq!(players[0].bar.power, 120);
    players[3].store_power_up(PowerUp::EvadeCapture);
    players[3].bar.power_up_count = 1;
    assert_eq!(handle_power_event(&mut players, PowerEvent::Use { player: Player::Yellow, index: 0 }), Some(PowerUp::EvadeCapture));
    assert_eq!(players[3].bar.power_up_count, 0);
    assert_eq!(players[3].power_ups, vec![None, None, None]);
    assert_eq!(handle_power_event(&mut players, PowerEvent::Use { player: Player::Yellow, index: 0 }), None);
}
