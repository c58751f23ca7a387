use block_city_adventure::event::{ActiveEvent, EventChoicePayload, EventInputOutcome, EventType};
use block_city_adventure::map::RoomId;
use block_city_adventure::event_apply::{
    apply_choice_payload, apply_combat_event_reward, apply_forge_grant, apply_puzzle_event_reward, resolve_event_room_clear,
    wheel_of_fate_outcome, BodyChange,
    EventLine,
};
use block_city_adventure::feedback::UiFeedbackSeverity;
use block_city_adventure::progression::PlayerLevel;
use block_city_adventure::report::render_report;
use block_city_adventure::puzzle::{ActivePuzzle, PuzzleKind, PuzzleReward, PuzzleRewardPool};
use block_city_adventure::rewards::{AugmentInventory, HeldAugment};
use block_city_adventure::rng::GameRng;
use block_city_adventure::session::{AugmentCategory, AugmentEntry, AugmentId, AugmentRarity};
use block_city_adventure::states::GamePhase;

fn augments() -> Vec<AugmentEntry> {
    vec![
        AugmentEntry { id: AugmentId(1), shop_cost: 0, rarity: AugmentRarity::Common, category: AugmentCategory(0), max_stacks: 2 },
        AugmentEntry { id: AugmentId(2), shop_cost: 0, rarity: AugmentRarity::Legendary, category: AugmentCategory(0), max_stacks: 1 },
    ]
}

fn held(items: &[(u32, u32)]) -> AugmentInventory {
    AugmentInventory { augments: items.iter().map(|&(id, stacks)| HeldAugment { id: AugmentId(id), stacks }).collect() }
}

fn apply(payload: EventChoicePayload, gold: &mut u32, inventory: &mut AugmentInventory, energy_ok: bool) -> block_city_adventure::event_apply::EventApplyResult {
    let mut level = PlayerLevel::default();
    let mut rng = GameRng::default();
    apply_choice_payload(payload, gold, inventory, &mut level, &[], &augments(), energy_ok, &mut rng)
}

fn text_of(line: &EventLine) -> &str {
    match line {
        EventLine::Text(t) => t.as_str(),
        _ => panic!("expected a text line"),
    }
}

#[test]
fn grants_add_a_stack_until_the_limit() {
    let mut inventory = held(&[(5, 1), (1, 1)]);
    let g = inventory.grant(AugmentId(1), 2);
    assert_eq!((g.before_stacks, g.after_stacks), (1, 2));
    let g = inventory.grant(AugmentId(1), 2);
    assert_eq!((g.before_stacks, g.after_stacks), (2, 2));
    assert_eq!(inventory.augments.len(), 2);
    let g = inventory.grant(AugmentId(9), 2);
    assert_eq!((g.before_stacks, g.after_stacks), (0, 1));
    assert_eq!(inventory.augments[2], HeldAugment { id: AugmentId(9), stacks: 1 });
}

#[test]
fn removing_takes_the_first_entry_only_when_held() {
    let mut inventory = held(&[(5, 1), (1, 2)]);
    assert_eq!(inventory.remove(AugmentId(3)), None);
    assert_eq!(inventory.augments.len(), 2);
    assert_eq!(inventory.remove(AugmentId(1)), Some(HeldAugment { id: AugmentId(1), stacks: 2 }));
    assert_eq!(inventory.augments, vec![HeldAugment { id: AugmentId(5), stacks: 1 }]);
    assert_eq!(inventory.remove_at(4), None);
    assert_eq!(inventory.remove_at(0), Some(HeldAugment { id: AugmentId(5), stacks: 1 }));
}

#[test]
fn leaving_changes_nothing() {
    let mut gold = 40;
    let mut inventory = held(&[]);
    let r = apply(EventChoicePayload::Leave, &mut gold, &mut inventory, true);
    assert_eq!(r.outcome, EventInputOutcome::Leave);
    assert!(r.feedback.is_none());
    assert_eq!(r.body, BodyChange::Unchanged);
    assert_eq!(gold, 40);
}

#[test]
fn forge_needs_the_sacrifice_and_trades_it_for_the_reward() {
    let mut gold = 0;
    let mut inventory = held(&[(1, 2)]);
    let r = apply(
        EventChoicePayload::MysticForge { sacrifice_id: AugmentId(5), reward_id: AugmentId(2) },
        &mut gold,
        &mut inventory,
        true,
    );
    assert_eq!(r.outcome, EventInputOutcome::StayOpen);
    let f = r.feedback.unwrap();
    assert_eq!(f.title, "神秘铸炉");
    assert_eq!(f.return_phase, GamePhase::EventRoom);
    assert_eq!(text_of(&f.lines[0]), "要献祭的强化已经不存在。");
    assert_eq!(inventory.augments.len(), 1);

    let r = apply(
        EventChoicePayload::MysticForge { sacrifice_id: AugmentId(1), reward_id: AugmentId(2) },
        &mut gold,
        &mut inventory,
        true,
    );
    assert_eq!(r.outcome, EventInputOutcome::Complete);
    let f = r.feedback.unwrap();
    assert!(matches!(&f.lines[0], EventLine::Removed { prefix, id } if prefix == "献祭：" && *id == AugmentId(1)));
    assert!(matches!(&f.lines[1], EventLine::Granted(g) if g.id == AugmentId(2) && g.after_stacks == 1));
    assert_eq!(inventory.augments, vec![HeldAugment { id: AugmentId(2), stacks: 1 }]);
}

#[test]
fn traveler_trade_pays_gold_for_a_held_augment() {
    let mut gold = 10;
    let mut inventory = held(&[(1, 1)]);
    let r = apply(EventChoicePayload::TravelerTrade { sacrifice_id: AugmentId(1), gold: 35 }, &mut gold, &mut inventory, true);
    assert_eq!(r.outcome, EventInputOutcome::Complete);
    assert_eq!(gold, 45);
    assert!(inventory.augments.is_empty());
    let f = r.feedback.unwrap();
    assert_eq!(f.title, "旅者交易");
    assert_eq!(text_of(&f.lines[1]), "+35 金币");

    let r = apply(EventChoicePayload::TravelerTrade { sacrifice_id: AugmentId(1), gold: 35 }, &mut gold, &mut inventory, true);
    assert_eq!(r.outcome, EventInputOutcome::StayOpen);
    assert_eq!(gold, 45);
}

#[test]
fn gold_altar_needs_the_energy_it_costs() {
    let mut gold = 5;
    let mut inventory = held(&[]);
    let payload = EventChoicePayload::GoldAltar { gold: 60, hp_basis_points: 0, energy_cost: 30 };
    let r = apply(payload.clone(), &mut gold, &mut inventory, false);
    assert_eq!(r.outcome, EventInputOutcome::StayOpen);
    assert_eq!(r.body, BodyChange::EnergyShortage(30));
    assert_eq!(r.feedback.unwrap().title, "能量不足");
    assert_eq!(gold, 5);

    let r = apply(payload, &mut gold, &mut inventory, true);
    assert_eq!(r.outcome, EventInputOutcome::Complete);
    assert_eq!(r.body, BodyChange::AltarToll { hp_basis_points: 0, energy_cost: 30 });
    assert_eq!(gold, 65);
    assert_eq!(text_of(&r.feedback.unwrap().lines[1]), "+60 金币");
}

#[test]
fn treasure_gold_saturates() {
    let mut gold = u32::MAX - 1;
    let mut inventory = held(&[]);
    let r = apply(EventChoicePayload::Treasure { augment_id: AugmentId(1), gold_bonus: 5 }, &mut gold, &mut inventory, true);
    assert_eq!(gold, u32::MAX);
    assert_eq!(inventory.stacks(AugmentId(1)), 1);
    assert_eq!(r.feedback.unwrap().title, "宝藏结算");
}

#[test]
fn body_choices_leave_health_and_energy_to_the_caller() {
    let mut gold = 0;
    let mut inventory = held(&[]);
    let r = apply(EventChoicePayload::BloodPact { hp_percent: 40, augment_id: AugmentId(2) }, &mut gold, &mut inventory, true);
    assert_eq!(r.body, BodyChange::LoseHealthPercent(40));
    assert!(matches!(r.feedback.unwrap().lines[0], EventLine::Body));
    let r = apply(EventChoicePayload::TravelerRest, &mut gold, &mut inventory, true);
    assert_eq!(r.body, BodyChange::RestHeal(20));
    let r = apply(EventChoicePayload::SacrificeAltar { augment_id: AugmentId(2) }, &mut gold, &mut inventory, true);
    assert_eq!(r.body, BodyChange::ShrinkMaxHealthPercent(80));
    assert_eq!(inventory.stacks(AugmentId(2)), 1);
}

#[test]
fn traveler_intel_keeps_its_lines() {
    let mut gold = 0;
    let mut inventory = held(&[]);
    let r = apply(
        EventChoicePayload::TravelerIntel { lines: vec!["前方：商店".to_string(), "再后：首领".to_string()] },
        &mut gold,
        &mut inventory,
        true,
    );
    let f = r.feedback.unwrap();
    assert_eq!(f.severity, UiFeedbackSeverity::Info);
    assert_eq!(text_of(&f.lines[0]), "前方：商店");
    assert_eq!(text_of(&f.lines[1]), "再后：首领");
}

#[test]
fn wheel_of_fate_outcomes() {
    let list = augments();
    let mut level = PlayerLevel::default();

    let mut gold = 10;
    let mut inventory = held(&[]);
    let r = wheel_of_fate_outcome(true, 0, None, 0, &mut gold, &mut inventory, &mut level, &[], &list);
    assert_eq!(gold, 40);
    assert_eq!(r.feedback.unwrap().title, "命运之轮：好运");

    let r = wheel_of_fate_outcome(true, 1, None, 0, &mut gold, &mut inventory, &mut level, &[], &list);
    assert_eq!(level.level, 2);
    assert_eq!(level.xp_to_next, 70);
    assert_eq!(text_of(&r.feedback.unwrap().lines[0]), "等级提升到 2");

    let r = wheel_of_fate_outcome(true, 2, Some(AugmentId(1)), 0, &mut gold, &mut inventory, &mut level, &[], &list);
    assert!(matches!(r.feedback.unwrap().lines[0], EventLine::Granted(g) if g.after_stacks == 1));

    let mut gold = 10;
    let r = wheel_of_fate_outcome(false, 0, None, 0, &mut gold, &mut inventory, &mut level, &[], &list);
    assert_eq!(gold, 0);
    let f = r.feedback.unwrap();
    assert_eq!(f.title, "命运之轮：代价");
    assert_eq!(f.severity, UiFeedbackSeverity::Warning);
    assert_eq!(text_of(&f.lines[0]), "金币: 10 -> 0");

    let r = wheel_of_fate_outcome(false, 1, None, 0, &mut gold, &mut inventory, &mut level, &[], &list);
    assert_eq!(r.body, BodyChange::LoseHealthPercent(20));

    let mut inventory = held(&[(1, 1), (2, 1)]);
    let r = wheel_of_fate_outcome(false, 2, None, 9, &mut gold, &mut inventory, &mut level, &[], &list);
    assert!(matches!(&r.feedback.unwrap().lines[0], EventLine::Removed { prefix, id } if prefix == "失去强化：" && *id == AugmentId(2)));
    assert_eq!(inventory.augments, vec![HeldAugment { id: AugmentId(1), stacks: 1 }]);

    let mut gold = 30;
    let mut inventory = held(&[]);
    let r = wheel_of_fate_outcome(false, 2, None, 0, &mut gold, &mut inventory, &mut level, &[], &list);
    assert_eq!(gold, 10);
    assert_eq!(text_of(&r.feedback.unwrap().lines[0]), "没有强化可失去，金币: 30 -> 10");
}

#[test]
fn spinning_the_wheel_settles_the_event() {
    let mut gold = 50;
    let mut inventory = held(&[(1, 1)]);
    let r = apply(EventChoicePayload::WheelOfFate, &mut gold, &mut inventory, true);
    assert_eq!(r.outcome, EventInputOutcome::Complete);
    let f = r.feedback.unwrap();
    assert!(f.title == "命运之轮：好运" || f.title == "命运之轮：代价");
    assert_eq!(f.lines.len(), 1);
}

#[test]
fn combat_events_pay_gold_and_their_augments() {
    let list = augments();
    let mut rng = GameRng::default();
    let mut gold = 10;
    let mut inventory = held(&[]);
    let report = apply_combat_event_reward(EventType::EliteEncounter, true, false, &mut gold, &mut inventory, &list, &mut rng).unwrap();
    assert_eq!(gold, 50);
    assert_eq!(report.title, "猎杀挑战完成");
    assert!(report.requires_ack);
    assert_eq!(text_of(&report.lines[0]), "+40 金币");
    // The elite pool also takes legendaries: the only one is granted.
    assert!(matches!(report.lines[1], EventLine::Granted(g) if g.id == AugmentId(2) && g.after_stacks == 1));
    assert_eq!(report.lines.len(), 2);

    let mut gold = 0;
    let report = apply_combat_event_reward(EventType::CursedVault, true, false, &mut gold, &mut inventory, &Vec::new(), &mut rng).unwrap();
    assert_eq!(gold, 90);
    assert_eq!(report.lines.len(), 1);

    let report = apply_combat_event_reward(EventType::TimedChallenge, false, false, &mut gold, &mut inventory, &Vec::new(), &mut rng).unwrap();
    assert_eq!(report.title, "限时清剿超时");
    assert_eq!(text_of(&report.lines[0]), "没有找到可用强化，已完成事件。");
    assert!(apply_combat_event_reward(EventType::Gambler, true, false, &mut gold, &mut inventory, &list, &mut rng).is_none());
}

#[test]
fn a_puzzle_chest_pays_what_the_puzzle_earned() {
    let list = augments();
    let mut rng = GameRng::default();
    let mut gold = 0;
    let mut inventory = held(&[]);
    let mut level = PlayerLevel::default();

    let failed = ActivePuzzle { kind: Some(PuzzleKind::BulletMaze), ..Default::default() };
    let report = apply_puzzle_event_reward(&failed, &mut gold, &mut inventory, &mut level, &[], &list, &mut rng);
    assert_eq!(report.title, "谜题失败");
    assert!(!report.requires_ack);
    assert_eq!(report.return_phase, GamePhase::Playing);
    assert_eq!(text_of(&report.lines[0]), "没有获得宝箱奖励。");

    let partial = ActivePuzzle {
        kind: Some(PuzzleKind::TimedCollect),
        reward_earned: true,
        reward: PuzzleReward { gold: 25, xp: 25, augment_pool: PuzzleRewardPool::Any },
        target_count: 5,
        progress_count: 3,
        ..Default::default()
    };
    let report = apply_puzzle_event_reward(&partial, &mut gold, &mut inventory, &mut level, &[], &list, &mut rng);
    assert_eq!(report.title, "谜题宝箱");
    assert_eq!(text_of(&report.lines[0]), "收集进度：3/5");
    assert_eq!(text_of(&report.lines[1]), "+15 金币");
    assert_eq!(text_of(&report.lines[2]), "+15 经验");
    assert_eq!(report.lines.len(), 3);
    assert_eq!(gold, 15);
    assert_eq!(level.xp, 15);

    let solved = ActivePuzzle {
        kind: Some(PuzzleKind::MemoryBlocks),
        reward_earned: true,
        reward: PuzzleReward { gold: 0, xp: 40, augment_pool: PuzzleRewardPool::Legendary },
        ..Default::default()
    };
    let report = apply_puzzle_event_reward(&solved, &mut gold, &mut inventory, &mut level, &[], &list, &mut rng);
    assert_eq!(text_of(&report.lines[0]), "+40 经验");
    assert_eq!(text_of(&report.lines[1]), "等级提升到 2");
    assert!(matches!(report.lines[2], EventLine::Granted(g) if g.id == AugmentId(2)));
    assert_eq!(level.level, 2);
    assert_eq!(inventory.stacks(AugmentId(2)), 1);
}

#[test]
fn clearing_the_event_room_settles_its_event() {
    let list = augments();
    let mut rng = GameRng::default();
    let mut gold = 0;
    let mut inventory = held(&[]);
    let mut level = PlayerLevel::default();
    let mut puzzle = ActivePuzzle::default();

    let mut active = ActiveEvent::new();
    active.event_type = Some(EventType::TimedChallenge);
    active.room = Some(RoomId(3));
    active.combat_reward_ready = true;

    let r = resolve_event_room_clear(RoomId(4), &mut active, &mut puzzle, &mut gold, &mut inventory, &mut level, &[], &list, &mut rng);
    assert!(r.is_none());
    assert!(!active.resolved);

    let r = resolve_event_room_clear(RoomId(3), &mut active, &mut puzzle, &mut gold, &mut inventory, &mut level, &[], &list, &mut rng);
    assert_eq!(r.unwrap().title, "限时清剿达成");
    assert!(active.resolved);
    assert!(active.event_type.is_none());

    let mut maze = ActiveEvent::new();
    maze.event_type = Some(EventType::BulletMaze);
    maze.room = Some(RoomId(5));
    puzzle.kind = Some(PuzzleKind::BulletMaze);
    puzzle.room = Some(RoomId(5));
    let r = resolve_event_room_clear(RoomId(5), &mut maze, &mut puzzle, &mut gold, &mut inventory, &mut level, &[], &list, &mut rng);
    assert_eq!(r.unwrap().title, "谜题失败");
    assert!(puzzle.kind.is_none());
    assert!(maze.resolved);
}

#[test]
fn forging_at_the_sanctuary_grants_the_pick() {
    let list = augments();
    let mut inventory = held(&[(1, 1)]);
    let report = apply_forge_grant(AugmentId(1), &mut inventory, &list);
    assert_eq!(report.title, "圣所锻造");
    assert_eq!(text_of(&report.lines[0]), "锻造完成。");
    assert!(matches!(report.lines[1], EventLine::Granted(g) if g.before_stacks == 1 && g.after_stacks == 2));
    let report = apply_forge_grant(AugmentId(1), &mut inventory, &list);
    assert!(matches!(report.lines[1], EventLine::Granted(g) if g.before_stacks == 2 && g.after_stacks == 2));
}

#[test]
fn reports_are_written_out_with_grants_losses_and_body_lines() {
    let list = augments();
    let texts = vec![
        block_city_adventure::shop::AugmentText { id: AugmentId(1), title: "穿透".to_string(), description: "子弹穿透".to_string() },
    ];
    let mut gold = 0;
    let mut inventory = held(&[(1, 1)]);
    let r = apply(EventChoicePayload::BloodPact { hp_percent: 20, augment_id: AugmentId(1) }, &mut gold, &mut inventory, true);
    let body = vec!["生命: 80 -> 64".to_string()];
    let f = render_report(&r.feedback.unwrap(), &body, &list, &texts);
    assert_eq!(f.lines, vec![
        "生命: 80 -> 64".to_string(),
        "强化升级：穿透 Lv1 -> Lv2".to_string(),
        "效果：子弹穿透".to_string(),
    ]);
    let r = apply(EventChoicePayload::BloodPact { hp_percent: 20, augment_id: AugmentId(1) }, &mut gold, &mut inventory, true);
    let f = render_report(&r.feedback.unwrap(), &Vec::new(), &list, &texts);
    assert_eq!(f.lines[0], "强化已达上限：穿透 Lv2");

    let mut inventory = held(&[(1, 2)]);
    let r = wheel_of_fate_outcome(false, 2, None, 0, &mut gold, &mut inventory, &mut PlayerLevel::default(), &[], &list);
    let f = render_report(&r.feedback.unwrap(), &Vec::new(), &list, &texts);
    assert_eq!(f.lines, vec!["失去强化：穿透 · 普通".to_string()]);

    let mut inventory = held(&[]);
    let r = apply(EventChoicePayload::Treasure { augment_id: AugmentId(9), gold_bonus: 5 }, &mut gold, &mut inventory, true);
    let f = render_report(&r.feedback.unwrap(), &Vec::new(), &list, &texts);
    assert_eq!(f.lines, vec![
        "+5 金币".to_string(),
        "获得强化：未知强化 · 普通 Lv1".to_string(),
        "效果：效果未配置".to_string(),
    ]);
}
