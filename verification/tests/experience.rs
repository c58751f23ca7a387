use block_city_adventure::progression::{
    build_levelup_options, get_floor_enemy_count, LevelUpKind, is_final_floor, reached_levels, xp_threshold, BalanceConfig, FloorNumber,
    PendingLevelUps, PlayerLevel,
};
use block_city_adventure::rng::GameRng;
use block_city_adventure::states::AppState;

const CURVE: &[u32] = &[50, 70, 90, 110, 130, 150, 180, 200, 220];

#[test]
fn test_default_level() {
    let level = PlayerLevel::default();
    assert_eq!(level.level, 1);
    assert_eq!(level.xp, 0);
    assert_eq!(level.xp_to_next, 50);
}

#[test]
fn test_add_xp_no_levelup() {
    let mut level = PlayerLevel::default();
    let gained = level.add_xp(20, CURVE);
    assert_eq!(gained, 0);
    assert_eq!(level.level, 1);
    assert_eq!(level.xp, 20);
}

#[test]
fn test_add_xp_levelup() {
    let mut level = PlayerLevel::default();
    let gained = level.add_xp(50, CURVE);
    assert_eq!(gained, 1);
    assert_eq!(level.level, 2);
    assert_eq!(level.xp, 0);
    assert_eq!(level.xp_to_next, 70);
}

#[test]
fn test_multi_levelup() {
    let mut level = PlayerLevel::default();
    let gained = level.add_xp(200, CURVE);
    assert_eq!(gained, 2);
    assert_eq!(level.level, 3);
    assert_eq!(level.xp, 80);
    assert_eq!(level.xp_to_next, 90);
}

#[test]
fn test_xp_threshold_formula() {
    assert_eq!(xp_threshold(CURVE, 1), 50);
    assert_eq!(xp_threshold(CURVE, 2), 70);
    assert_eq!(xp_threshold(CURVE, 3), 90);
    assert_eq!(xp_threshold(CURVE, 4), 110);
    assert_eq!(xp_threshold(CURVE, 5), 130);
    assert_eq!(xp_threshold(CURVE, 10), 245);
}

#[test]
fn test_pending_levelups_default() {
    let pending = PendingLevelUps::default();
    assert!(pending.levels.is_empty());
}

#[test]
fn empty_curve_falls_back_to_the_built_in_thresholds() {
    assert_eq!(xp_threshold(&[], 1), 50);
    assert_eq!(xp_threshold(&[], 9), 220);
    assert_eq!(xp_threshold(&[], 11), 270);
    assert_eq!(xp_threshold(&[100], 3), 150);
}

#[test]
fn reached_levels_lists_each_new_level() {
    assert_eq!(reached_levels(5, 3), vec![3, 4, 5]);
    assert!(reached_levels(5, 0).is_empty());
}

#[test]
fn pending_levels_are_shown_oldest_first_and_wait_for_room_rewards() {
    let mut pending = PendingLevelUps::default();
    assert_eq!(pending.queue_and_take(&vec![2, 3], true, AppState::InGame), None);
    assert_eq!(pending.levels, vec![2, 3]);
    assert_eq!(pending.queue_and_take(&vec![], false, AppState::MainMenu), None);
    assert_eq!(pending.queue_and_take(&vec![4], false, AppState::InGame), Some(2));
    assert_eq!(pending.levels, vec![3, 4]);
    assert_eq!(pending.queue_and_take(&vec![], false, AppState::CoopGame), Some(3));
    assert_eq!(pending.queue_and_take(&vec![], false, AppState::InGame), Some(4));
    assert_eq!(pending.queue_and_take(&vec![], false, AppState::InGame), None);
}

#[test]
fn floor_enemy_count_grows_by_one_per_floor() {
    let data = BalanceConfig { enemy_count_normal_room: 4, total_floors: 4 };
    assert_eq!(get_floor_enemy_count(&data, 0), 4);
    assert_eq!(get_floor_enemy_count(&data, 1), 4);
    assert_eq!(get_floor_enemy_count(&data, 3), 6);
    let tiny = BalanceConfig { enemy_count_normal_room: 0, total_floors: 0 };
    assert_eq!(get_floor_enemy_count(&tiny, 1), 2);
}

#[test]
fn final_floor_is_the_configured_last_floor() {
    let data = BalanceConfig { enemy_count_normal_room: 4, total_floors: 4 };
    assert!(!is_final_floor(&data, 3));
    assert!(is_final_floor(&data, 4));
    assert!(is_final_floor(&data, 5));
    let none = BalanceConfig { enemy_count_normal_room: 4, total_floors: 0 };
    assert!(is_final_floor(&none, 1));
}

#[test]
fn floors_count_up_from_one() {
    let mut floor = FloorNumber::first();
    assert_eq!(floor.0, 1);
    floor.go_to_next_floor();
    assert_eq!(floor.0, 2);
}

#[test]
fn test_build_levelup_options_always_starts_with_heal() {
    let mut rng = GameRng::default();
    rng.reseed(7);

    let options = build_levelup_options(&mut rng);

    assert_eq!(options.len(), 4);
    assert!(matches!(options[0], LevelUpKind::RecoverHealth));
    assert!(options[1..].iter().all(|o| *o != LevelUpKind::RecoverHealth));
    assert!(options[1] != options[2] && options[1] != options[3] && options[2] != options[3]);
    assert_eq!(options[0].name(), "回血");
    assert_eq!(LevelUpKind::AttackPower.name(), "攻击力");
    assert_eq!(LevelUpKind::MaxHealth.summary(), "提升最大生命值并回复等量 HP");
}

#[test]
fn levels_gained_are_those_the_experience_pays_for() {
    // 50 + 70 = 120 pays for two levels; a third would need 90 more.
    let mut level = PlayerLevel::default();
    let gained = level.add_xp(209, CURVE);
    assert_eq!(gained, 2);
    assert_eq!(level.level, 3);
    assert_eq!(level.xp, 209 - 120);
    assert_eq!(level.xp_to_next, 90);
    let mut exact = PlayerLevel::default();
    assert_eq!(exact.add_xp(210, CURVE), 3);
    assert_eq!(exact.xp, 0);
    assert_eq!(exact.xp_to_next, 110);
}
