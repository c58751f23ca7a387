use block_city_adventure::event::{
    augment_pool_from_puzzle, charge_event_gold, event_for_pick, half_price_augment_cost,
    next_rarity, traveler_intel_lines, trade_gold_for_augment, ActiveEvent, AugmentPool,
    EventChoicePayload, EventInputOutcome, EventType,
};
use block_city_adventure::event_apply::apply_choice_payload;
use block_city_adventure::report::render_report;
use block_city_adventure::event_choices::{
    combat_event_reward, flawless_trial_hit, timed_challenge_expired,
    configure_non_combat_event, event_interaction, event_menu_step, finish_event_choice,
    EventCatalog, EventInteraction, EventMenuStep,
};
use block_city_adventure::map::{make_room, FloorLayout, RoomId, RoomType};
use block_city_adventure::progression::{BalanceConfig, PlayerLevel};
use block_city_adventure::puzzle::{ActivePuzzle, PuzzleEventConfig, PuzzleKind, PuzzleRewardPool};
use block_city_adventure::rewards::AugmentInventory;
use block_city_adventure::rng::GameRng;
use block_city_adventure::session::{AugmentCategory, AugmentEntry, AugmentId, AugmentRarity};
use block_city_adventure::shop::AugmentText;
use block_city_adventure::states::{GamePhase, RoomState};

const PIERCING: AugmentId = AugmentId(7);

fn entry(id: u32, rarity: AugmentRarity, category: u32, shop_cost: u32) -> AugmentEntry {
    AugmentEntry { id: AugmentId(id), shop_cost, rarity, category: AugmentCategory(category), max_stacks: 3 }
}

fn text(id: u32, title: &str) -> AugmentText {
    AugmentText { id: AugmentId(id), title: title.to_string(), description: format!("{title}的效果") }
}

fn test_registry() -> EventCatalog {
    EventCatalog {
        augments: vec![
            entry(1, AugmentRarity::Common, 0, 0),
            entry(2, AugmentRarity::Common, 1, 0),
            entry(3, AugmentRarity::Elite, 0, 0),
            entry(4, AugmentRarity::Elite, 1, 90),
            entry(5, AugmentRarity::Legendary, 0, 0),
            entry(7, AugmentRarity::Common, 1, 0),
        ],
        texts: vec![text(1, "金币加成"), text(2, "疾跑"), text(3, "荆棘"), text(4, "冰霜"), text(5, "不死鸟"), text(7, "穿透")],
    }
}

fn test_layout() -> FloorLayout {
    FloorLayout {
        current: RoomId(1),
        rooms: vec![
            make_room(RoomId(1), RoomType::Event, false, vec![]),
            make_room(RoomId(2), RoomType::Normal, false, vec![]),
            make_room(RoomId(3), RoomType::Reward, false, vec![]),
            make_room(RoomId(4), RoomType::Boss, false, vec![]),
        ],
    }
}

fn with_event(event: EventType) -> ActiveEvent {
    let mut active = ActiveEvent::new();
    active.event_type = Some(event);
    active
}

#[test]
fn event_type_matrix_has_three_puzzles_ten_noncombat_four_combat() {
    let events = EventType::phase3_events();
    assert_eq!(events.len(), 17);
    let puzzles = events.iter().filter(|event| event.is_puzzle()).count();
    let combat = events.iter().filter(|event| event.is_combat()).count();
    let noncombat = events.len() - puzzles - combat;

    assert_eq!(puzzles, 3);
    assert_eq!(noncombat, 10);
    assert_eq!(combat, 4);
    for event in events {
        assert!(!event.title().is_empty());
        assert!(!event.description().is_empty());
        assert!(!event.symbol().is_empty());
    }
}

#[test]
fn every_noncombat_event_builds_expected_choice_surface() {
    let registry = test_registry();
    let layout = test_layout();
    let mut rng = GameRng::default();
    rng.reseed(11);
    let inventory = AugmentInventory { augments: Vec::new() };
    let held: Vec<AugmentId> = inventory.augments.iter().map(|held| held.id).collect();

    for event in EventType::phase3_events().into_iter().filter(|event| !event.is_puzzle() && !event.is_combat()) {
        let mut active = with_event(event);
        configure_non_combat_event(&mut active, Some(&registry), &mut rng, Some(&held), &layout, RoomId(1));

        assert!(!active.choices.is_empty(), "{event:?} should offer at least one action");
        assert_eq!(active.choices.len(), active.choice_payloads.len());
        let expected_choices = match event {
            EventType::Gambler => 3,
            EventType::BloodPact => 3,
            EventType::Treasure => 1,
            EventType::HealingSpring => 3,
            EventType::Merchant => 3,
            EventType::GoldAltar => 4,
            EventType::MysticBlacksmith => 2,
            EventType::WheelOfFate => 2,
            EventType::TravelerGift => 3,
            EventType::SacrificeAltar => 2,
            _ => unreachable!(),
        };
        assert_eq!(active.choices.len(), expected_choices, "{event:?}");
    }
}

#[test]
fn gambler_success_reports_cost_and_granted_augment() {
    let registry = test_registry();
    let mut gold = 100;
    let mut inventory = AugmentInventory { augments: Vec::new() };
    let mut level = PlayerLevel::default();
    let mut rng = GameRng::default();

    let result = apply_choice_payload(
        EventChoicePayload::Gambler { cost: 50, augment_id: PIERCING },
        &mut gold,
        &mut inventory,
        &mut level,
        &[],
        &registry.augments,
        true,
        &mut rng,
    );

    assert_eq!(result.outcome, EventInputOutcome::Complete);
    assert_eq!(gold, 50);
    assert_eq!(inventory.stacks(PIERCING), 1);
    let report = result.feedback.expect("gambler should show feedback");
    let feedback = render_report(&report, &Vec::new(), &registry.augments, &registry.texts);
    assert!(feedback.requires_ack);
    assert_eq!(feedback.title, "赌徒结算");
    assert!(feedback.lines.iter().any(|line| line.contains("-50 金币")));
    assert!(feedback.lines.iter().any(|line| line.contains("获得强化")));
}

#[test]
fn gambler_insufficient_gold_stays_open_without_charging() {
    let mut gold = 20;
    let mut inventory = AugmentInventory { augments: Vec::new() };
    let mut level = PlayerLevel::default();
    let mut rng = GameRng::default();

    let result = apply_choice_payload(
        EventChoicePayload::Gambler { cost: 50, augment_id: PIERCING },
        &mut gold,
        &mut inventory,
        &mut level,
        &[],
        &Vec::new(),
        true,
        &mut rng,
    );

    assert_eq!(result.outcome, EventInputOutcome::StayOpen);
    assert_eq!(gold, 20);
    assert_eq!(inventory.stacks(PIERCING), 0);
    let feedback = result.feedback.expect("failure should show feedback");
    assert!(!feedback.requires_ack);
    assert_eq!(feedback.title, "金币不足");
    assert_eq!(feedback.return_phase, GamePhase::EventRoom);
}

#[test]
fn paying_for_an_event_choice_with_enough_gold_completes_it() {
    let mut gold = 100;
    let (outcome, feedback) = charge_event_gold(&mut gold, 50);
    assert_eq!(outcome, EventInputOutcome::Complete);
    assert_eq!(gold, 50);
    assert!(feedback.is_none());
}

#[test]
fn events_without_game_data_offer_only_leaving() {
    let layout = test_layout();
    let mut rng = GameRng::default();
    for event in [EventType::Gambler, EventType::BloodPact, EventType::Treasure, EventType::Merchant, EventType::MysticBlacksmith, EventType::SacrificeAltar] {
        let mut active = with_event(event);
        configure_non_combat_event(&mut active, None, &mut rng, None, &layout, RoomId(1));
        assert_eq!(active.choices.len(), 1, "{event:?}");
        assert_eq!(active.choices[0].label, "离开");
        assert!(matches!(active.choice_payloads[0], EventChoicePayload::Leave));
    }
}

#[test]
fn gambler_offers_fifty_and_hundred_gold_bets() {
    let registry = test_registry();
    let mut rng = GameRng::default();
    let mut active = with_event(EventType::Gambler);
    configure_non_combat_event(&mut active, Some(&registry), &mut rng, None, &test_layout(), RoomId(1));
    assert_eq!(active.choices[0].label, "50 金币赌一把");
    match (&active.choice_payloads[0], &active.choice_payloads[1]) {
        (EventChoicePayload::Gambler { cost: 50, .. }, EventChoicePayload::Gambler { cost: 100, augment_id }) => {
            let elite = registry.augments.iter().find(|e| e.id == *augment_id).unwrap();
            assert!(matches!(elite.rarity, AugmentRarity::Elite | AugmentRarity::Legendary));
        },
        other => panic!("unexpected payloads {other:?}"),
    }
}

#[test]
fn gold_altar_random_trade_pays_in_proportion() {
    let mut rng = GameRng::default();
    for seed in 1..40 {
        rng.reseed(seed);
        let mut active = with_event(EventType::GoldAltar);
        configure_non_combat_event(&mut active, None, &mut rng, None, &test_layout(), RoomId(1));
        match active.choice_payloads[3] {
            EventChoicePayload::GoldAltar { gold, hp_basis_points, energy_cost } => {
                assert!((1000..5000).contains(&hp_basis_points));
                assert_eq!(energy_cost, 0);
                let fraction = hp_basis_points as f64 / 10_000.0;
                assert_eq!(gold, ((fraction / 0.50 * 80.0).round() as u32).max(20));
                let (whole, rest) = (hp_basis_points / 100, hp_basis_points % 100);
                let shown = if rest > 50 || (rest == 50 && whole % 2 == 1) { whole + 1 } else { whole };
                assert!((fraction * 100.0 - shown as f64).abs() <= 0.5);
                assert_eq!(active.choices[3].description, format!("失去 {shown}% 当前生命，获得 {gold} 金币。"));
            },
            ref other => panic!("unexpected payload {other:?}"),
        }
    }
}

#[test]
fn traveler_trades_the_first_held_augment_and_reads_the_route() {
    let registry = test_registry();
    let mut rng = GameRng::default();
    let mut active = with_event(EventType::TravelerGift);
    let held = vec![AugmentId(3), AugmentId(1)];
    configure_non_combat_event(&mut active, Some(&registry), &mut rng, Some(&held), &test_layout(), RoomId(1));
    assert_eq!(active.choices[2].description, "用 1 个强化换取 80 金币。");
    assert!(matches!(active.choice_payloads[2], EventChoicePayload::TravelerTrade { sacrifice_id: AugmentId(3), gold: 80 }));
    match &active.choice_payloads[1] {
        EventChoicePayload::TravelerIntel { lines } => assert_eq!(lines, &vec!["后续房间：战斗 / 奖励 / Boss".to_string()]),
        other => panic!("unexpected payload {other:?}"),
    }
}

#[test]
fn traveler_intel_reports_when_no_room_is_ahead() {
    let layout = test_layout();
    assert_eq!(traveler_intel_lines(&layout, RoomId(4)), vec!["后续房间：暂无可读路线情报".to_string()]);
    assert_eq!(traveler_intel_lines(&layout, RoomId(2)), vec!["后续房间：奖励 / Boss".to_string()]);
}

#[test]
fn forge_upgrades_a_held_augment_within_its_category() {
    let registry = test_registry();
    let mut rng = GameRng::default();
    let mut active = with_event(EventType::MysticBlacksmith);
    let held = vec![AugmentId(1)];
    configure_non_combat_event(&mut active, Some(&registry), &mut rng, Some(&held), &test_layout(), RoomId(1));
    assert_eq!(active.choices.len(), 2);
    assert_eq!(active.choices[0].label, "献祭：金币加成");
    assert!(matches!(active.choice_payloads[0], EventChoicePayload::MysticForge { sacrifice_id: AugmentId(1), reward_id: AugmentId(3) }));
}

#[test]
fn forge_offers_one_trade_per_tradable_held_augment_up_to_three() {
    let registry = test_registry();
    let cases: [(Vec<AugmentId>, usize); 4] = [
        (vec![AugmentId(1), AugmentId(2), AugmentId(7)], 3),
        (vec![AugmentId(1), AugmentId(2), AugmentId(7), AugmentId(5), AugmentId(99), AugmentId(1)], 3),
        (vec![AugmentId(2), AugmentId(5)], 1),
        (vec![AugmentId(5), AugmentId(99)], 0),
    ];
    for (held, trades) in cases {
        let mut rng = GameRng::default();
        let mut active = with_event(EventType::MysticBlacksmith);
        configure_non_combat_event(&mut active, Some(&registry), &mut rng, Some(&held), &test_layout(), RoomId(1));
        let offered = active
            .choice_payloads
            .iter()
            .filter(|p| matches!(p, EventChoicePayload::MysticForge { .. }))
            .count();
        assert_eq!(offered, trades);
        for id in held.iter() {
            let sacrificed = active
                .choice_payloads
                .iter()
                .filter(|p| matches!(p, EventChoicePayload::MysticForge { sacrifice_id, .. } if sacrifice_id == id))
                .count();
            assert!(sacrificed <= held.iter().filter(|h| *h == id).count());
        }
        if trades == 0 {
            assert_eq!(active.choices[0].label, "无可献祭强化");
            assert_eq!(active.choices.len(), 2);
        } else {
            assert_eq!(active.choices.len(), trades + 1);
        }
    }
}

#[test]
fn merchant_sells_at_half_price() {
    let registry = test_registry();
    assert_eq!(half_price_augment_cost(&registry.augments, AugmentId(1)), 20);
    assert_eq!(half_price_augment_cost(&registry.augments, AugmentId(4)), 45);
    assert_eq!(half_price_augment_cost(&registry.augments, AugmentId(5)), 60);
    assert_eq!(half_price_augment_cost(&registry.augments, AugmentId(99)), 20);
    assert_eq!(trade_gold_for_augment(&registry.augments, AugmentId(5)), 140);
    assert_eq!(trade_gold_for_augment(&registry.augments, AugmentId(99)), 40);
}

#[test]
fn weighted_pick_walks_the_event_weights() {
    assert_eq!(event_for_pick(0), EventType::BulletMaze);
    assert_eq!(event_for_pick(3), EventType::Gambler);
    assert_eq!(event_for_pick(4), EventType::Gambler);
    assert_eq!(event_for_pick(5), EventType::BloodPact);
    assert_eq!(event_for_pick(21), EventType::CursedVault);
    assert_eq!(event_for_pick(22), EventType::BulletMaze);
}

#[test]
fn rarities_step_up_and_puzzle_pools_map() {
    assert_eq!(next_rarity(AugmentRarity::Common), Some(AugmentRarity::Elite));
    assert_eq!(next_rarity(AugmentRarity::Legendary), None);
    assert_eq!(augment_pool_from_puzzle(PuzzleRewardPool::Nothing), None);
    assert_eq!(augment_pool_from_puzzle(PuzzleRewardPool::Elite), Some(AugmentPool::EliteOnly));
}

#[test]
fn entering_an_event_room_picks_its_event_once() {
    let mut active = ActiveEvent::new();
    let mut rng = GameRng::default();
    assert!(active.init_for_room(RoomType::Event, RoomId(1), &mut rng));
    let first = active.event_type;
    assert!(first.is_some());
    assert!(active.interaction_ready);
    assert!(!active.init_for_room(RoomType::Event, RoomId(1), &mut rng));
    assert_eq!(active.event_type, first);
    assert!(!active.init_for_room(RoomType::Normal, RoomId(2), &mut rng));
    assert!(active.prompt_visible(RoomType::Event, RoomId(1)));
    assert!(!active.prompt_visible(RoomType::Event, RoomId(2)));
}

#[test]
fn interacting_with_a_menu_event_opens_it_and_reopening_keeps_the_choices() {
    let registry = test_registry();
    let layout = test_layout();
    let mut rng = GameRng::default();
    let mut puzzle = ActivePuzzle::default();
    let mut room_state = RoomState::Idle;
    let mut active = with_event(EventType::Gambler);
    active.room = Some(RoomId(1));
    active.interaction_ready = true;

    let r = event_interaction(&mut active, true, false, Some(RoomType::Event), RoomId(1), true, None, None, Some(1), Some(&registry), None, &layout, &mut puzzle, &mut room_state, &mut rng);
    assert_eq!(r, EventInteraction::OpenMenu);
    assert_eq!(room_state, RoomState::Locked);
    let labels: Vec<String> = active.choices.iter().map(|c| c.label.clone()).collect();

    assert!(matches!(event_menu_step(&mut active, true, None), EventMenuStep::Postpone));
    assert!(active.interaction_ready);
    let r = event_interaction(&mut active, true, false, Some(RoomType::Event), RoomId(1), true, None, None, Some(1), Some(&registry), None, &layout, &mut puzzle, &mut room_state, &mut rng);
    assert_eq!(r, EventInteraction::ReopenMenu);
    let again: Vec<String> = active.choices.iter().map(|c| c.label.clone()).collect();
    assert_eq!(again, labels);

    assert_eq!(event_menu_step(&mut active, false, Some(2)), EventMenuStep::Apply(2));
    assert_eq!(event_menu_step(&mut active, false, Some(9)), EventMenuStep::Wait);
    assert_eq!(finish_event_choice(&mut active, &mut room_state, EventInputOutcome::Complete), Some(RoomId(1)));
    assert!(active.resolved);
    assert_eq!(room_state, RoomState::Cleared);
    assert_eq!(event_menu_step(&mut active, false, Some(0)), EventMenuStep::Close);
}

#[test]
fn interacting_away_from_the_prompt_does_nothing() {
    let layout = test_layout();
    let mut rng = GameRng::default();
    let mut puzzle = ActivePuzzle::default();
    let mut room_state = RoomState::Idle;
    let mut active = with_event(EventType::Treasure);
    active.room = Some(RoomId(1));
    active.interaction_ready = true;
    let r = event_interaction(&mut active, true, false, Some(RoomType::Event), RoomId(1), false, None, None, None, None, None, &layout, &mut puzzle, &mut room_state, &mut rng);
    assert_eq!(r, EventInteraction::Ignored);
    assert!(active.interaction_ready);
}

#[test]
fn combat_and_puzzle_events_start_their_challenge() {
    let layout = test_layout();
    let mut rng = GameRng::default();
    let mut puzzle = ActivePuzzle::default();
    let balance = BalanceConfig { enemy_count_normal_room: 2, total_floors: 4 };

    let mut room_state = RoomState::Idle;
    let mut active = with_event(EventType::CursedVault);
    active.room = Some(RoomId(1));
    active.interaction_ready = true;
    let r = event_interaction(&mut active, true, false, Some(RoomType::Event), RoomId(1), true, None, Some(&balance), Some(1), None, None, &layout, &mut puzzle, &mut room_state, &mut rng);
    assert_eq!(r, EventInteraction::SpawnEnemies { count: 5, timed: false });
    assert!(active.combat_reward_ready);

    let mut active = with_event(EventType::TimedChallenge);
    active.room = Some(RoomId(1));
    active.interaction_ready = true;
    let r = event_interaction(&mut active, true, false, Some(RoomType::Event), RoomId(1), true, None, Some(&balance), Some(3), None, None, &layout, &mut puzzle, &mut room_state, &mut rng);
    assert_eq!(r, EventInteraction::SpawnEnemies { count: 4, timed: true });
    assert!(active.challenge_timer_running);

    let mut active = with_event(EventType::TimedChallenge);
    active.room = Some(RoomId(1));
    active.interaction_ready = true;
    let r = event_interaction(&mut active, true, false, Some(RoomType::Event), RoomId(1), true, None, None, Some(3), None, None, &layout, &mut puzzle, &mut room_state, &mut rng);
    assert_eq!(r, EventInteraction::Resolved);
    assert!(active.resolved);

    let config = PuzzleEventConfig { timed: true, target_count: 6, lives: 1, gold_reward: 30, xp_reward: 20, augment_pool: PuzzleRewardPool::Any };
    let mut active = with_event(EventType::TimedCollect);
    active.room = Some(RoomId(1));
    active.interaction_ready = true;
    let r = event_interaction(&mut active, true, false, Some(RoomType::Event), RoomId(1), true, Some(&config), None, None, None, None, &layout, &mut puzzle, &mut room_state, &mut rng);
    assert_eq!(r, EventInteraction::SpawnPuzzle(PuzzleKind::TimedCollect));
    assert_eq!(puzzle.target_count, 6);
    assert_eq!(puzzle.room, Some(RoomId(1)));
}

#[test]
fn won_combat_events_pay_by_how_they_went() {
    let (pools, gold, title) = combat_event_reward(EventType::TimedChallenge, true, false).unwrap();
    assert_eq!((pools, gold, title), (vec![AugmentPool::EliteOnly], 0, "限时清剿达成"));
    let (pools, _, title) = combat_event_reward(EventType::TimedChallenge, false, false).unwrap();
    assert_eq!((pools, title), (vec![AugmentPool::CommonOnly], "限时清剿超时"));
    let (pools, gold, _) = combat_event_reward(EventType::EliteEncounter, true, false).unwrap();
    assert_eq!((pools, gold), (vec![AugmentPool::EliteOnly], 40));
    let (pools, _, title) = combat_event_reward(EventType::FlawlessTrial, true, true).unwrap();
    assert_eq!((pools, title), (vec![AugmentPool::CommonOnly], "无伤试炼受伤"));
    assert!(combat_event_reward(EventType::Gambler, true, false).is_none());
}

#[test]
fn the_challenge_clock_and_a_hit_take_the_reward_away() {
    let mut active = with_event(EventType::TimedChallenge);
    active.combat_reward_ready = true;
    active.challenge_timer_running = true;
    timed_challenge_expired(&mut active);
    assert!(!active.combat_reward_ready);
    assert!(!active.challenge_timer_running);

    let mut trial = with_event(EventType::FlawlessTrial);
    trial.combat_reward_ready = true;
    flawless_trial_hit(&mut trial);
    assert!(trial.flawless_failed);
    assert!(!trial.combat_reward_ready);

    let mut other = with_event(EventType::Gambler);
    other.combat_reward_ready = true;
    flawless_trial_hit(&mut other);
    timed_challenge_expired(&mut other);
    assert!(other.combat_reward_ready);
    assert!(!other.flawless_failed);
}

#[test]
fn events_name_their_game_data_entries() {
    assert_eq!(EventType::BulletMaze.config_id(), "bullet_maze");
    assert_eq!(EventType::Gambler.config_id(), "gambler");
}
