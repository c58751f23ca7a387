use block_city_adventure::map::RoomType;
use block_city_adventure::session::{
    apply_shop_purchase, augment_shop_cost, build_shop_draft, build_shop_offers, evaluate_death, next_refresh_cost,
    on_room_cleared, AugmentCategory, AugmentEntry, AugmentId, AugmentRarity, DeathDecision,
    PostRewardDecision, RepeatIncrement, SessionMode, SessionRuleContext, SharedShopItem,
    ShopHeadroom, ShopPrices, ShopPurchaseCounts, ShopPurchaseResult, ShopTally,
};
use block_city_adventure::rng::GameRng;
use block_city_adventure::skills::SkillType;

fn prices() -> ShopPrices {
    ShopPrices {
        heal_price: 20,
        energy_price: 18,
        max_hp_price: 40,
        attack_power_price: 45,
        repeat_increment: RepeatIncrement { heal: 5, energy: 5, max_hp: 15, attack_power: 15 },
        common_augment_price: 40,
        elite_augment_price: 70,
        legendary_augment_price: 120,
        augment_upgrade_price: 60,
        skill_price: 90,
        healing_potion_price: 25,
        energy_potion_price: 25,
        talisman_price: 80,
    }
}

fn augment(id: u32, rarity: AugmentRarity) -> AugmentEntry {
    AugmentEntry { id: AugmentId(id), shop_cost: 0, rarity, category: AugmentCategory(0), max_stacks: 3 }
}

fn no_purchases() -> ShopPurchaseCounts {
    ShopPurchaseCounts { heal: 0, energy: 0, max_health: 0, attack_power: 0 }
}

#[test]
fn boss_clear_goes_to_victory_on_final_floor() {
    let decision = on_room_cleared(SessionRuleContext {
        mode: SessionMode::Solo,
        floor: 4,
        total_floors: 4,
        boss_gives_victory: false,
        room_type: RoomType::Boss,
    });

    assert_eq!(decision.heal_alive_percent, 80);
    assert_eq!(decision.post_reward, PostRewardDecision::Victory);
}

#[test]
fn boss_clear_goes_to_next_floor_before_final_floor() {
    let decision = on_room_cleared(SessionRuleContext {
        mode: SessionMode::Solo,
        floor: 3,
        total_floors: 4,
        boss_gives_victory: false,
        room_type: RoomType::Boss,
    });

    assert_eq!(decision.post_reward, PostRewardDecision::NextFloor);
}

#[test]
fn shop_refresh_cost_and_repeat_price_follow_curve() {
    assert_eq!(next_refresh_cost(0), 0);
    assert_eq!(next_refresh_cost(1), 30);
    assert_eq!(next_refresh_cost(2), 45);
    assert_eq!(next_refresh_cost(3), 60);

    let shop = prices();
    let mut counts = no_purchases();
    let base = build_shop_offers(counts, &shop)
        .into_iter()
        .find(|offer| offer.item == SharedShopItem::IncreaseAttackPower)
        .map(|offer| offer.cost)
        .unwrap_or_default();
    counts.attack_power = 1;
    let raised = build_shop_offers(counts, &shop)
        .into_iter()
        .find(|offer| offer.item == SharedShopItem::IncreaseAttackPower)
        .map(|offer| offer.cost)
        .unwrap_or_default();
    assert!(raised > base);
}

#[test]
fn shop_draft_has_phase3_three_section_structure() {
    let shop = prices();
    let augments = vec![
        augment(1, AugmentRarity::Common),
        augment(2, AugmentRarity::Common),
        augment(3, AugmentRarity::Elite),
        augment(4, AugmentRarity::Elite),
        augment(5, AugmentRarity::Legendary),
    ];
    let skills = vec![SkillType::BladeDance, SkillType::FrostField, SkillType::WarCry];
    let mut rng = GameRng::default();
    rng.reseed(23);
    let draft = build_shop_draft(no_purchases(), &shop, Some((&augments, &skills)), &mut rng);

    assert_eq!(draft.offers.len(), 4);
    assert!(draft.offers.iter().any(|offer| offer.item == SharedShopItem::Heal && offer.cost == shop.heal_price));
    assert!(draft.offers.iter().any(|offer| offer.item == SharedShopItem::RestoreEnergy && offer.cost == shop.energy_price));
    assert!(draft.offers.iter().any(|offer| offer.item == SharedShopItem::IncreaseMaxHealth && offer.cost == shop.max_hp_price));
    assert!(draft.offers.iter().any(|offer| {
        offer.item == SharedShopItem::IncreaseAttackPower && offer.cost == shop.attack_power_price
    }));

    assert_eq!(draft.augment_offers.len(), 6);
    assert_eq!(
        draft.augment_offers.iter().filter(|offer| matches!(offer.item, SharedShopItem::Augment(_))).count(),
        3
    );
    assert!(draft.augment_offers.iter().any(|offer| {
        offer.item == SharedShopItem::UpgradeAugment && offer.cost == shop.augment_upgrade_price
    }));
    assert_eq!(
        draft.augment_offers.iter().filter(|offer| matches!(offer.item, SharedShopItem::Skill(_))).count(),
        2
    );

    assert_eq!(draft.utility_offers.len(), 3);
    assert!(draft.utility_offers.iter().any(|offer| {
        offer.item == SharedShopItem::HealingPotion && offer.cost == shop.healing_potion_price
    }));
    assert!(draft.utility_offers.iter().any(|offer| {
        offer.item == SharedShopItem::EnergyPotion && offer.cost == shop.energy_potion_price
    }));
    assert!(draft.utility_offers.iter().any(|offer| offer.item == SharedShopItem::Talisman && offer.cost == shop.talisman_price));
}

#[test]
fn death_decision_depends_on_mode_and_living_players() {
    assert_eq!(evaluate_death(SessionMode::Solo, 1), DeathDecision::Continue);
    assert_eq!(evaluate_death(SessionMode::Solo, 0), DeathDecision::GameOver);
    assert_eq!(evaluate_death(SessionMode::Coop, 1), DeathDecision::Continue);
    assert_eq!(evaluate_death(SessionMode::Coop, 0), DeathDecision::MatchOver);
}

#[test]
fn boss_clear_gives_victory_when_the_data_says_so() {
    let decision = on_room_cleared(SessionRuleContext {
        mode: SessionMode::Solo,
        floor: 1,
        total_floors: 4,
        boss_gives_victory: true,
        room_type: RoomType::Boss,
    });
    assert_eq!(decision.post_reward, PostRewardDecision::Victory);
}

#[test]
fn normal_room_clear_resumes_without_healing() {
    let decision = on_room_cleared(SessionRuleContext {
        mode: SessionMode::Coop,
        floor: 2,
        total_floors: 4,
        boss_gives_victory: false,
        room_type: RoomType::Normal,
    });
    assert_eq!(decision.heal_alive_percent, 0);
    assert_eq!(decision.post_reward, PostRewardDecision::ResumeRun);
}

#[test]
fn refresh_cost_keeps_rising_and_saturates() {
    assert_eq!(next_refresh_cost(4), 75);
    assert!(next_refresh_cost(10) > next_refresh_cost(9));
    assert_eq!(next_refresh_cost(u32::MAX), u32::MAX);
}

#[test]
fn augment_price_uses_own_cost_or_rarity_price() {
    let shop = prices();
    assert_eq!(augment_shop_cost(55, AugmentRarity::Common, &shop), 55);
    assert_eq!(augment_shop_cost(0, AugmentRarity::Common, &shop), 40);
    assert_eq!(augment_shop_cost(0, AugmentRarity::Elite, &shop), 70);
    assert_eq!(augment_shop_cost(0, AugmentRarity::Legendary, &shop), 120);
}

fn empty_tally() -> ShopTally {
    ShopTally {
        counts: ShopPurchaseCounts { heal: 0, energy: 0, max_health: 0, attack_power: 0 },
        dash: 0,
        move_speed: 0,
        crit: 0,
        attack_speed: 0,
        talisman_charges: 0,
    }
}

const ROOM: ShopHeadroom = ShopHeadroom { dash_cooldown: true, crit: true, attack_speed: true };

#[test]
fn talisman_shop_item_adds_lethal_guard_charge() {
    let mut tally = empty_tally();

    let result = apply_shop_purchase(SharedShopItem::Talisman, &mut tally, ROOM);

    assert_eq!(result, ShopPurchaseResult::Applied);
    assert_eq!(tally.talisman_charges, 1);
}

#[test]
fn energy_shop_item_increases_energy_max() {
    let mut tally = empty_tally();

    let result = apply_shop_purchase(SharedShopItem::IncreaseEnergyMax, &mut tally, ROOM);

    assert_eq!(result, ShopPurchaseResult::Applied);
    assert_eq!(tally, empty_tally());
}

#[test]
fn purchases_raise_the_next_attribute_price() {
    let mut tally = empty_tally();
    let before = build_shop_offers(tally.counts, &prices());
    assert_eq!(apply_shop_purchase(SharedShopItem::Heal, &mut tally, ROOM), ShopPurchaseResult::Applied);
    assert_eq!(tally.counts.heal, 1);
    let after = build_shop_offers(tally.counts, &prices());
    assert_eq!(after[0].cost, before[0].cost + prices().repeat_increment.heal);
    assert_eq!(after[1].cost, before[1].cost);
}

#[test]
fn capped_and_settled_items_have_no_effect_here() {
    let mut tally = empty_tally();
    let full = ShopHeadroom { dash_cooldown: false, crit: false, attack_speed: false };
    assert_eq!(apply_shop_purchase(SharedShopItem::ReduceDashCooldown, &mut tally, full), ShopPurchaseResult::NoEffect);
    assert_eq!(apply_shop_purchase(SharedShopItem::IncreaseCritChance, &mut tally, full), ShopPurchaseResult::NoEffect);
    assert_eq!(apply_shop_purchase(SharedShopItem::UpgradeAugment, &mut tally, ROOM), ShopPurchaseResult::NoEffect);
    assert_eq!(tally, empty_tally());
    assert_eq!(apply_shop_purchase(SharedShopItem::ReduceDashCooldown, &mut tally, ROOM), ShopPurchaseResult::Applied);
    assert_eq!(tally.dash, 1);
    tally.counts.heal = 255;
    apply_shop_purchase(SharedShopItem::Heal, &mut tally, ROOM);
    assert_eq!(tally.counts.heal, 255);
}

#[test]
fn a_shop_without_game_data_has_an_empty_augment_section() {
    let shop = prices();
    let mut rng = GameRng::default();
    let draft = build_shop_draft(no_purchases(), &shop, None, &mut rng);
    assert_eq!(draft.offers.len(), 4);
    assert!(draft.augment_offers.is_empty());
    assert_eq!(draft.utility_offers.len(), 3);
}
