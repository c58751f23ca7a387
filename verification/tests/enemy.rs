use block_city_adventure::enemy::{
    backline_enemy_types, boss_name, fight_cleared, choose_enemy_types, frontline_enemy_types, pick_elite_affixes,
    pick_enemy_type, plan_room_enemy_types, room_entry, BossArchetype, EliteAffix, EliteAffixes,
    EnemyType, FirstFloorEase, RoomEntrySpawn,
};
use block_city_adventure::map::{RoomId, RoomType};
use block_city_adventure::progression::BalanceConfig;
use block_city_adventure::puzzle::ActivePuzzle;
use block_city_adventure::rng::GameRng;
use block_city_adventure::states::RoomState;

#[test]
fn phase3_elites_gain_fixed_second_affix_from_floor_three() {
    let mut rng = GameRng::default();
    rng.reseed(5);

    assert_eq!(pick_elite_affixes(1, &mut rng).len(), 1);
    assert_eq!(pick_elite_affixes(2, &mut rng).len(), 1);
    assert_eq!(pick_elite_affixes(3, &mut rng).len(), 2);
    assert_eq!(pick_elite_affixes(4, &mut rng).len(), 2);
}

#[test]
fn elite_affixes_never_repeat() {
    let mut rng = GameRng::default();
    for seed in 1..30 {
        rng.reseed(seed);
        let affixes = pick_elite_affixes(4, &mut rng);
        assert_ne!(affixes[0], affixes[1]);
        let held = EliteAffixes(affixes.clone());
        assert!(held.contains(affixes[0]));
    }
    assert_eq!(EliteAffix::Vampiric.label(), "吸血");
}

#[test]
fn builtin_pools_are_cumulative_per_floor() {
    let none: Vec<Vec<EnemyType>> = Vec::new();
    assert_eq!(choose_enemy_types(&none, 1), vec![EnemyType::MeleeChaser, EnemyType::Lobber, EnemyType::Charger]);
    assert_eq!(choose_enemy_types(&none, 0), choose_enemy_types(&none, 1));
    let floor3 = choose_enemy_types(&none, 3);
    assert_eq!(floor3.len(), 8);
    assert!(floor3.contains(&EnemyType::Sniper));
    assert!(!floor3.contains(&EnemyType::Summoner));
    assert_eq!(choose_enemy_types(&none, 9).len(), 10);
}

#[test]
fn configured_pools_are_deduplicated_and_never_empty() {
    let pools = vec![vec![EnemyType::Bomber, EnemyType::Bomber], vec![EnemyType::Bomber, EnemyType::Sniper]];
    assert_eq!(choose_enemy_types(&pools, 2), vec![EnemyType::Bomber, EnemyType::Sniper]);
    let empty_tiers = vec![Vec::new()];
    assert_eq!(choose_enemy_types(&empty_tiers, 1), vec![EnemyType::MeleeChaser]);
}

#[test]
fn front_and_back_lines_fall_back_to_the_pool() {
    let pool = vec![EnemyType::MeleeChaser, EnemyType::Lobber, EnemyType::Charger];
    assert_eq!(frontline_enemy_types(&pool), vec![EnemyType::MeleeChaser, EnemyType::Charger]);
    assert_eq!(backline_enemy_types(&pool), vec![EnemyType::Lobber]);
    let only_melee = vec![EnemyType::Bomber];
    assert_eq!(backline_enemy_types(&only_melee), only_melee);
}

#[test]
fn picking_from_an_empty_pool_gives_the_melee_chaser() {
    let mut rng = GameRng::default();
    assert_eq!(pick_enemy_type(&mut rng, &[]), EnemyType::MeleeChaser);
    let pool = [EnemyType::Sniper, EnemyType::Shielder];
    for _ in 0..10 {
        assert!(pool.contains(&pick_enemy_type(&mut rng, &pool)));
    }
}

#[test]
fn room_plans_put_the_front_line_first() {
    let none: Vec<Vec<EnemyType>> = Vec::new();
    let pool = choose_enemy_types(&none, 4);
    let mut rng = GameRng::default();
    let plan = plan_room_enemy_types(&pool, 4, 5, &mut rng);
    assert_eq!(plan.len(), 5);
    assert!(matches!(plan[0], EnemyType::MeleeChaser | EnemyType::Charger | EnemyType::Flanker | EnemyType::Bomber | EnemyType::Shielder));
    assert!(matches!(plan[1], EnemyType::RangedShooter | EnemyType::Lobber | EnemyType::Sniper | EnemyType::SupportCaster | EnemyType::Summoner));
    assert!(matches!(plan[2], EnemyType::Charger | EnemyType::Flanker));
    assert!(matches!(plan[3], EnemyType::Sniper | EnemyType::SupportCaster));
    assert!(plan.iter().all(|t| pool.contains(t)));
}

#[test]
fn bosses_by_floor() {
    assert_eq!(BossArchetype::from_floor(0), BossArchetype::Floor1Guardian);
    assert_eq!(BossArchetype::from_floor(2), BossArchetype::MirrorWarden);
    assert_eq!(BossArchetype::from_floor(3), BossArchetype::TideHunter);
    assert_eq!(BossArchetype::from_floor(7), BossArchetype::CubeCore);
    assert_eq!(boss_name(BossArchetype::CubeCore), "CubeCore");
}

#[test]
fn entering_rooms_plans_their_fights_once() {
    let balance = BalanceConfig { enemy_count_normal_room: 4, total_floors: 4 };
    let mut spawned = None;
    let mut count = 0;
    let mut state = RoomState::Idle;
    let mut puzzle = ActivePuzzle::default();
    let r = room_entry(&mut spawned, RoomId(1), RoomType::Normal, false, 1, &balance, &mut count, &mut state, &mut puzzle);
    assert_eq!(r, Some(RoomEntrySpawn::Normal { enemy_count: 3, ease: FirstFloorEase::FirstFight }));
    assert_eq!(state, RoomState::Locked);
    assert_eq!(count, 4);
    assert_eq!(room_entry(&mut spawned, RoomId(1), RoomType::Normal, false, 1, &balance, &mut count, &mut state, &mut puzzle), None);
    let r = room_entry(&mut spawned, RoomId(2), RoomType::Normal, false, 1, &balance, &mut count, &mut state, &mut puzzle);
    assert_eq!(r, Some(RoomEntrySpawn::Normal { enemy_count: 4, ease: FirstFloorEase::SecondFight }));
    let r = room_entry(&mut spawned, RoomId(3), RoomType::Event, true, 1, &balance, &mut count, &mut state, &mut puzzle);
    assert_eq!(r, Some(RoomEntrySpawn::Normal { enemy_count: 4, ease: FirstFloorEase::Plain }));
    let r = room_entry(&mut spawned, RoomId(4), RoomType::Boss, false, 1, &balance, &mut count, &mut state, &mut puzzle);
    assert_eq!(r, Some(RoomEntrySpawn::Boss));
    assert_eq!(state, RoomState::BossFight);
    let r = room_entry(&mut spawned, RoomId(5), RoomType::Shop, false, 1, &balance, &mut count, &mut state, &mut puzzle);
    assert_eq!(r, Some(RoomEntrySpawn::Nothing));
    assert_eq!(state, RoomState::Idle);
}

#[test]
fn a_fight_ends_when_no_enemy_is_left_after_the_grace() {
    assert!(fight_cleared(RoomState::Locked, RoomType::Normal, false, false, true, false));
    assert!(fight_cleared(RoomState::BossFight, RoomType::Boss, false, false, true, false));
    assert!(!fight_cleared(RoomState::Locked, RoomType::Normal, false, false, true, true));
    assert!(!fight_cleared(RoomState::Locked, RoomType::Normal, false, false, false, false));
    assert!(!fight_cleared(RoomState::Idle, RoomType::Normal, false, false, true, false));
    assert!(!fight_cleared(RoomState::Locked, RoomType::Event, false, true, true, false));
    assert!(fight_cleared(RoomState::Locked, RoomType::Event, true, true, true, false));
}
