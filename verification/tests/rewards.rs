use block_city_adventure::map::{RoomId, RoomType};
use block_city_adventure::progression::{xp_threshold, LevelUpKind, PlayerLevel};
use block_city_adventure::rewards::{
    configure_revelation_choices, open_boss_portal, LevelUpChoices,
    apply_revelation_reward, apply_reward_action, boss_reward_route, build_legendary_forge_choices,
    build_sanctuary_draft, build_upgrade_candidates, clear_reward_plan, generate_augment_choices,
    generate_skill_choices, offer_sanctuary, reward_choice_key, AugmentChoiceOption, AugmentInventory,
    ClearRewardPlan, HeldAugment, RewardEffect, RewardFlow, RewardFlowStep, RewardLevels, RewardType,
    RewardUiAction,
};
use block_city_adventure::rng::GameRng;
use block_city_adventure::session::{AugmentCategory, AugmentEntry, AugmentId, AugmentRarity, PostRewardDecision};
use block_city_adventure::shop::AugmentText;
use block_city_adventure::skills::SkillType;
use block_city_adventure::states::{GamePhase, RoomState};

const GOLD_BONUS: AugmentId = AugmentId(1);
const THORNS: AugmentId = AugmentId(2);
const PHOENIX: AugmentId = AugmentId(3);
const CRIT_ENHANCE: AugmentId = AugmentId(4);

fn seeded_rng(seed: u64) -> GameRng {
    let mut rng = GameRng::default();
    rng.reseed(seed);
    rng
}

fn sample_augment(id: AugmentId, rarity: AugmentRarity) -> AugmentEntry {
    AugmentEntry { id, shop_cost: 0, rarity, category: AugmentCategory(0), max_stacks: 3 }
}

fn sample_augments() -> Vec<AugmentEntry> {
    vec![
        sample_augment(GOLD_BONUS, AugmentRarity::Common),
        sample_augment(THORNS, AugmentRarity::Elite),
        sample_augment(PHOENIX, AugmentRarity::Legendary),
        sample_augment(CRIT_ENHANCE, AugmentRarity::Legendary),
    ]
}

fn sample_texts() -> Vec<AugmentText> {
    vec![
        AugmentText { id: GOLD_BONUS, title: "金币加成".to_string(), description: "金币更多".to_string() },
        AugmentText { id: THORNS, title: "荆棘".to_string(), description: "受伤反伤".to_string() },
        AugmentText { id: PHOENIX, title: "不死鸟".to_string(), description: "死亡复活".to_string() },
        AugmentText { id: CRIT_ENHANCE, title: "弱点洞察".to_string(), description: "暴击更高".to_string() },
    ]
}

#[test]
fn upgrade_service_lists_non_maxed_augments() {
    let inventory = AugmentInventory {
        augments: vec![
            HeldAugment { id: GOLD_BONUS, stacks: 1 },
            HeldAugment { id: THORNS, stacks: 2 },
            HeldAugment { id: PHOENIX, stacks: 3 },
        ],
    };

    let options = build_upgrade_candidates(&sample_augments(), &sample_texts(), &inventory);

    assert_eq!(options.len(), 2);
    assert_eq!(options[0].id, GOLD_BONUS);
    assert_eq!(options[1].id, THORNS);
    assert!(options.iter().all(|option| option.is_upgrade));
}

#[test]
fn sanctuary_forge_offers_legendary_candidates_when_no_upgrade_exists() {
    let mut rng = seeded_rng(9);
    let inventory = AugmentInventory { augments: Vec::new() };

    let options = build_sanctuary_draft(&sample_augments(), &sample_texts(), &mut rng, Some(&inventory));

    assert_eq!(options.len(), 2);
    assert!(options.iter().all(|option| option.rarity == AugmentRarity::Legendary));
}

#[test]
fn revelation_grants_level_and_gold() {
    const CURVE: &[u32] = &[50, 70, 90, 110, 130, 150, 180, 200, 220];
    let mut level = PlayerLevel { level: 2, xp: 0, xp_to_next: xp_threshold(CURVE, 2) };
    let mut gold = 20;

    apply_revelation_reward(&mut level, &mut gold, CURVE);

    assert_eq!(level.level, 3);
    assert_eq!(level.xp_to_next, xp_threshold(CURVE, 3));
    assert_eq!(gold, 70);
}

#[test]
fn upgrades_show_the_next_level_and_stop_at_three() {
    let augments = vec![
        sample_augment(AugmentId(10), AugmentRarity::Common),
        sample_augment(AugmentId(11), AugmentRarity::Common),
        sample_augment(AugmentId(12), AugmentRarity::Common),
        sample_augment(AugmentId(13), AugmentRarity::Common),
    ];
    let inventory = AugmentInventory {
        augments: (10..14).map(|id| HeldAugment { id: AugmentId(id), stacks: 2 }).collect(),
    };
    let options = build_upgrade_candidates(&augments, &Vec::new(), &inventory);
    assert_eq!(options.len(), 3);
    assert!(options.iter().all(|option| option.shown_level == 3));
}

#[test]
fn legendary_forge_prefers_augments_not_held() {
    let mut rng = seeded_rng(3);
    let inventory = AugmentInventory { augments: vec![HeldAugment { id: PHOENIX, stacks: 1 }] };
    let options = build_legendary_forge_choices(&sample_augments(), &sample_texts(), &mut rng, Some(&inventory));
    assert_eq!(options.len(), 1);
    assert_eq!(options[0].id, CRIT_ENHANCE);
    assert_eq!(options[0].title, "弱点洞察");
    assert!(!options[0].is_upgrade);
}

#[test]
fn room_rewards_skip_maxed_augments_and_mark_upgrades() {
    let mut rng = seeded_rng(4);
    let inventory = AugmentInventory {
        augments: vec![HeldAugment { id: GOLD_BONUS, stacks: 3 }, HeldAugment { id: THORNS, stacks: 1 }],
    };
    let options = generate_augment_choices(&sample_augments(), &sample_texts(), &mut rng, false, Some(&inventory));
    assert_eq!(options.len(), 1);
    assert_eq!(options[0].id, THORNS);
    assert!(options[0].is_upgrade);
    assert_eq!(options[0].shown_level, 2);

    let boss = generate_augment_choices(&sample_augments(), &sample_texts(), &mut rng, true, None);
    assert_eq!(boss.len(), 3);
    assert!(boss.iter().all(|option| option.rarity != AugmentRarity::Common && !option.is_upgrade));
    assert!(boss[0].id != boss[1].id && boss[0].id != boss[2].id && boss[1].id != boss[2].id);
}

fn option(id: AugmentId) -> AugmentChoiceOption {
    AugmentChoiceOption { id, title: String::new(), rarity: AugmentRarity::Elite, is_upgrade: false, shown_level: 1 }
}

#[test]
fn sanctuary_flow_keeps_forge_offers_when_backing_out() {
    let mut claims: Vec<RoomId> = Vec::new();
    let mut flow = RewardFlow { room: None, step: RewardFlowStep::Inactive, spawn_portal: false, portal_is_victory: false };
    let mut room_state = RoomState::Idle;
    assert!(offer_sanctuary(&mut claims, &mut flow, &mut room_state, true, RoomType::Reward, RoomId(6), vec![option(THORNS), option(PHOENIX)]));
    assert!(!offer_sanctuary(&mut claims, &mut flow, &mut room_state, true, RoomType::Reward, RoomId(6), vec![]));
    assert_eq!(room_state, RoomState::Locked);

    assert_eq!(reward_choice_key(&flow.step, Some(2), false), Some(RewardUiAction::Select(1)));
    let out = apply_reward_action(&mut flow, &mut room_state, RewardUiAction::Select(1), true);
    assert_eq!(out.effect, RewardEffect::OpenForge);
    assert_eq!(reward_choice_key(&flow.step, Some(3), false), None);
    assert_eq!(reward_choice_key(&flow.step, None, true), Some(RewardUiAction::Back));
    let out = apply_reward_action(&mut flow, &mut room_state, RewardUiAction::Back, true);
    assert_eq!(out.effect, RewardEffect::BackToSanctuary);
    match &flow.step {
        RewardFlowStep::Sanctuary(options) => {
            assert_eq!(options.iter().map(|o| o.id).collect::<Vec<_>>(), vec![THORNS, PHOENIX]);
        },
        other => panic!("unexpected step {other:?}"),
    }

    apply_reward_action(&mut flow, &mut room_state, RewardUiAction::Select(1), true);
    let out = apply_reward_action(&mut flow, &mut room_state, RewardUiAction::Select(1), true);
    assert_eq!(out.effect, RewardEffect::ForgeGrant(PHOENIX));
    assert_eq!(out.cleared_room, Some(RoomId(6)));
    assert_eq!(out.next_phase, Some(GamePhase::Playing));
    assert_eq!(room_state, RoomState::Cleared);
    assert!(matches!(flow.step, RewardFlowStep::Inactive));
}

#[test]
fn sanctuary_heal_and_revelation_close_the_room() {
    let mut flow = RewardFlow { room: Some(RoomId(2)), step: RewardFlowStep::Sanctuary(Vec::new()), spawn_portal: false, portal_is_victory: false };
    let mut room_state = RoomState::Locked;
    let out = apply_reward_action(&mut flow, &mut room_state, RewardUiAction::Select(1), true);
    assert_eq!(out.effect, RewardEffect::ForgeUnavailable);
    let out = apply_reward_action(&mut flow, &mut room_state, RewardUiAction::Select(2), true);
    assert_eq!(out.effect, RewardEffect::Revelation);
    assert_eq!(out.next_phase, Some(GamePhase::LevelUpSelect));
    assert_eq!(out.cleared_room, Some(RoomId(2)));

    let mut flow = RewardFlow { room: Some(RoomId(3)), step: RewardFlowStep::Sanctuary(Vec::new()), spawn_portal: false, portal_is_victory: false };
    let out = apply_reward_action(&mut flow, &mut room_state, RewardUiAction::Select(0), false);
    assert_eq!(out.effect, RewardEffect::FullRestore);
    assert_eq!(out.cleared_room, Some(RoomId(3)));
}

#[test]
fn room_clear_plans_and_boss_routes() {
    assert_eq!(clear_reward_plan(RoomType::Reward), ClearRewardPlan::Skip);
    assert_eq!(clear_reward_plan(RoomType::Elite), ClearRewardPlan::MaybeAugment { guaranteed: true });
    assert_eq!(clear_reward_plan(RoomType::Normal), ClearRewardPlan::MaybeAugment { guaranteed: false });
    assert_eq!(clear_reward_plan(RoomType::Boss), ClearRewardPlan::Boss);
    assert_eq!(boss_reward_route(true, true), (GamePhase::SkillSelect, Some(GamePhase::AugmentSelect)));
    assert_eq!(boss_reward_route(false, true), (GamePhase::SkillSelect, Some(GamePhase::Playing)));
    assert_eq!(boss_reward_route(true, false), (GamePhase::AugmentSelect, None));
    assert_eq!(boss_reward_route(false, false), (GamePhase::Playing, None));
}

#[test]
fn skill_choices_draw_up_to_three_distinct_entries() {
    let mut rng = seeded_rng(2);
    let skills = vec![SkillType::BladeDance, SkillType::FrostField, SkillType::WarCry, SkillType::LifeDrain];
    let picked = generate_skill_choices(&skills, &mut rng);
    assert_eq!(picked.len(), 3);
    for skill in &picked {
        assert_eq!(picked.iter().filter(|s| *s == skill).count(), 1);
        assert!(skills.contains(skill));
    }
}

#[test]
fn reward_levels_track_masteries_and_common_rewards() {
    let mut levels = RewardLevels::new();
    assert_eq!(levels.reward_level(RewardType::EnhanceMeleeWeapon), (0, 6));
    levels.melee_mastery_stacks = 9;
    assert_eq!(levels.reward_level(RewardType::EnhanceMeleeWeapon), (6, 6));
    assert!(levels.reward_at_max(RewardType::EnhanceMeleeWeapon));
    assert!(levels.melee_sword_wave_unlocked());
    levels.crit_level = 2;
    assert!(!levels.reward_at_max(RewardType::IncreaseCritChance));
    levels.dash_damage_trail = true;
    assert_eq!(levels.reward_level(RewardType::DashDamageTrail), (1, 1));
    levels.ranged_mastery_stacks = 4;
    assert_eq!(levels.ranged_volley_pattern(), block_city_adventure::rewards::RangedVolleyPattern::Triple);
    assert_eq!(levels.melee_feature_summary(), "吸血、裂伤、弹反、剑风");
}

#[test]
fn a_boss_leaves_a_portal_that_ends_the_run_only_on_victory() {
    use_portal(PostRewardDecision::Victory, true);
    use_portal(PostRewardDecision::NextFloor, false);
}

fn use_portal(decision: PostRewardDecision, victory: bool) {
    let mut flow = RewardFlow { room: Some(RoomId(9)), step: RewardFlowStep::Inactive, spawn_portal: false, portal_is_victory: false };
    open_boss_portal(&mut flow, decision);
    assert!(flow.spawn_portal);
    assert_eq!(flow.portal_is_victory, victory);
    assert_eq!(flow.room, Some(RoomId(9)));
}

#[test]
fn melee_mastery_unlocks_its_features_in_steps() {
    let mut levels = RewardLevels::new();
    levels.melee_mastery_stacks = 1;
    assert!(!levels.melee_lifesteal_unlocked());
    levels.melee_mastery_stacks = 2;
    assert!(levels.melee_lifesteal_unlocked() && !levels.melee_rupture_unlocked());
    levels.melee_mastery_stacks = 4;
    assert!(levels.melee_rupture_unlocked() && levels.melee_projectile_reflect_unlocked() && !levels.melee_sword_wave_unlocked());
    levels.melee_mastery_stacks = 6;
    assert!(levels.melee_sword_wave_unlocked());
}

#[test]
fn revelation_choices_return_to_ingame() {
    let mut rng = GameRng::default();
    rng.reseed(11);
    let mut choices = LevelUpChoices { options: Vec::new(), return_state: None, new_level: 0 };

    configure_revelation_choices(&mut choices, &mut rng, 3);

    assert_eq!(choices.return_state, Some(GamePhase::Playing));
    assert_eq!(choices.new_level, 3);
    assert_eq!(choices.options.len(), 4);
    assert_eq!(choices.options[0], LevelUpKind::RecoverHealth);
}

#[test]
fn rewards_rise_one_level_up_to_their_maximum() {
    let mut levels = RewardLevels::new();
    assert!(levels.apply_reward(RewardType::IncreaseCritChance));
    assert!(levels.apply_reward(RewardType::IncreaseCritChance));
    assert!(levels.apply_reward(RewardType::IncreaseCritChance));
    assert!(!levels.apply_reward(RewardType::IncreaseCritChance));
    assert_eq!(levels.reward_level(RewardType::IncreaseCritChance), (3, 3));
    for _ in 0..8 {
        assert!(!levels.apply_reward(RewardType::EnhanceMeleeWeapon));
    }
    assert_eq!(levels.melee_mastery_stacks, 6);
    assert!(!levels.apply_reward(RewardType::DashDamageTrail));
    assert!(levels.dash_damage_trail);
    assert!(levels.reward_at_max(RewardType::DashDamageTrail));
}
