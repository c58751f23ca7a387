use block_city_adventure::feedback::{gold_spent_text, shop_warning_feedback, UiFeedbackSeverity};
use block_city_adventure::map::{RoomId, RoomType};
use block_city_adventure::event_apply::EventLine;
use block_city_adventure::rewards::{AugmentInventory, HeldAugment};
use block_city_adventure::rng::GameRng;
use block_city_adventure::session::{
    AugmentCategory, AugmentEntry, AugmentId, AugmentRarity, RepeatIncrement, ShopHeadroom, ShopOfferDraft, ShopPrices,
    ShopPurchaseCounts, ShopTally, SharedShopItem,
};
use block_city_adventure::shop::{
    build_shop_section_lines, complete_purchase, settle_shop_purchase, ShopSettlement, describe_item, describe_item_local, generate_shop_offers, reset_shop_state_on_new_floor, handle_shop_action, settle_skill_purchase, shop_entry,
    shop_item_from_shared, shop_selection_from_key, shared_shop_item_from_shop_item, AugmentText,
    ShopCatalog, ShopData, ShopItem, ShopKey, ShopLine, ShopOfferCache, ShopOffers, ShopOutcome, ShopSection,
    ShopUiAction, SkillSettlement,
};
use block_city_adventure::skills::SkillType;
use block_city_adventure::states::GamePhase;

fn catalog() -> ShopCatalog {
    ShopCatalog {
        prices: ShopPrices {
            heal_price: 20,
            energy_price: 18,
            max_hp_price: 40,
            attack_power_price: 45,
            repeat_increment: RepeatIncrement { heal: 5, energy: 5, max_hp: 15, attack_power: 15 },
            common_augment_price: 40,
            elite_augment_price: 70,
            legendary_augment_price: 120,
            augment_upgrade_price: 60,
            skill_price: 90,
            healing_potion_price: 25,
            energy_potion_price: 25,
            talisman_price: 80,
        },
        data: Some(ShopData {
        augments: vec![
            AugmentEntry { id: AugmentId(1), shop_cost: 0, rarity: AugmentRarity::Common, category: AugmentCategory(0), max_stacks: 3 },
            AugmentEntry { id: AugmentId(2), shop_cost: 55, rarity: AugmentRarity::Elite, category: AugmentCategory(1), max_stacks: 3 },
            AugmentEntry { id: AugmentId(3), shop_cost: 0, rarity: AugmentRarity::Legendary, category: AugmentCategory(1), max_stacks: 3 },
        ],
        augment_texts: vec![
            AugmentText { id: AugmentId(1), title: "金币加成".to_string(), description: "金币更多".to_string() },
            AugmentText { id: AugmentId(2), title: "荆棘".to_string(), description: "受伤反伤".to_string() },
        ],
        skills: vec![SkillType::BladeDance, SkillType::WarCry],
        }),
    }
}

fn stock(catalog: &ShopCatalog) -> &Vec<AugmentEntry> {
    &catalog.data.as_ref().unwrap().augments
}

fn counts() -> ShopPurchaseCounts {
    ShopPurchaseCounts { heal: 0, energy: 0, max_health: 0, attack_power: 0 }
}

#[test]
fn shop_warning_feedback_keeps_player_in_shop() {
    let feedback = shop_warning_feedback(50, 20);

    assert_eq!(feedback.title, "金币不足");
    assert!(!feedback.requires_ack);
    assert_eq!(feedback.severity, UiFeedbackSeverity::Warning);
    assert_eq!(feedback.return_phase, GamePhase::Shop);
    assert!(feedback.lines.iter().any(|line| line.contains("50")));
}

#[test]
fn warning_names_the_price_and_the_gold_held() {
    let feedback = shop_warning_feedback(120, 7);
    assert_eq!(feedback.lines, vec!["需要 120 金币，当前只有 7。".to_string()]);
    assert_eq!(gold_spent_text(50), "-50 金币");
}

#[test]
fn a_revisited_shop_comes_back_as_it_was_left() {
    let catalog = catalog();
    let mut offers = ShopOffers::new();
    let mut cache = ShopOfferCache::new();
    let mut rng = GameRng::default();
    rng.reseed(5);
    generate_shop_offers(&mut offers, &mut cache, &catalog, &mut rng, RoomId(3), counts());
    assert_eq!(offers.room, Some(RoomId(3)));
    assert_eq!(offers.lines.len(), 4);
    assert_eq!(offers.augment_lines.len(), 6);
    assert_eq!(offers.utility_lines.len(), 3);

    let mut gold = 100;
    let cost = offers.lines[0].cost;
    complete_purchase(&mut offers, &mut cache, ShopSection::Attributes, 0, &mut gold);
    assert_eq!(gold, 100 - cost);
    assert!(offers.lines[0].purchased);
    let seen: Vec<(ShopItem, u32, bool)> = offers.augment_lines.iter().map(|l| (l.item, l.cost, l.purchased)).collect();

    let mut elsewhere = ShopOffers::new();
    generate_shop_offers(&mut elsewhere, &mut cache, &catalog, &mut rng, RoomId(3), counts());
    assert!(elsewhere.lines[0].purchased);
    let again: Vec<(ShopItem, u32, bool)> = elsewhere.augment_lines.iter().map(|l| (l.item, l.cost, l.purchased)).collect();
    assert_eq!(again, seen);
}

#[test]
fn shop_actions_check_gold_and_sold_lines() {
    let catalog = catalog();
    let mut offers = ShopOffers::new();
    let mut cache = ShopOfferCache::new();
    let mut rng = GameRng::default();
    generate_shop_offers(&mut offers, &mut cache, &catalog, &mut rng, RoomId(1), counts());
    let mut gold = 10;

    match handle_shop_action(ShopUiAction::Select(ShopSection::Attributes, 0), &mut offers, &mut cache, &catalog, &mut rng, counts(), &mut gold) {
        ShopOutcome::Warning(feedback) => assert_eq!(feedback.title, "金币不足"),
        other => panic!("expected a warning, got {other:?}"),
    }
    assert_eq!(gold, 10);

    assert!(matches!(
        handle_shop_action(ShopUiAction::Select(ShopSection::Utilities, 7), &mut offers, &mut cache, &catalog, &mut rng, counts(), &mut gold),
        ShopOutcome::Ignored
    ));

    gold = 500;
    let (section, index) = shop_selection_from_key(ShopKey::Digit2);
    match handle_shop_action(ShopUiAction::Select(section, index), &mut offers, &mut cache, &catalog, &mut rng, counts(), &mut gold) {
        ShopOutcome::Purchase { section, index, cost, .. } => {
            complete_purchase(&mut offers, &mut cache, section, index, &mut gold);
            assert_eq!(gold, 500 - cost);
        },
        other => panic!("expected a purchase, got {other:?}"),
    }
    assert!(matches!(
        handle_shop_action(ShopUiAction::Select(section, index), &mut offers, &mut cache, &catalog, &mut rng, counts(), &mut gold),
        ShopOutcome::AlreadyPurchased
    ));
    assert!(matches!(
        handle_shop_action(ShopUiAction::Exit, &mut offers, &mut cache, &catalog, &mut rng, counts(), &mut gold),
        ShopOutcome::Exit
    ));
}

#[test]
fn refreshing_charges_the_curve_and_counts() {
    let catalog = catalog();
    let mut offers = ShopOffers::new();
    let mut cache = ShopOfferCache::new();
    let mut rng = GameRng::default();
    generate_shop_offers(&mut offers, &mut cache, &catalog, &mut rng, RoomId(1), counts());
    let mut gold = 40;
    assert!(matches!(
        handle_shop_action(ShopUiAction::Refresh, &mut offers, &mut cache, &catalog, &mut rng, counts(), &mut gold),
        ShopOutcome::Refreshed { cost: 0 }
    ));
    assert_eq!(offers.refresh_count, 1);
    assert!(matches!(
        handle_shop_action(ShopUiAction::Refresh, &mut offers, &mut cache, &catalog, &mut rng, counts(), &mut gold),
        ShopOutcome::Refreshed { cost: 30 }
    ));
    assert_eq!(gold, 10);
    assert!(matches!(
        handle_shop_action(ShopUiAction::Refresh, &mut offers, &mut cache, &catalog, &mut rng, counts(), &mut gold),
        ShopOutcome::Warning(_)
    ));
    assert_eq!(offers.refresh_count, 2);
}

#[test]
fn keys_map_to_sections() {
    assert_eq!(shop_selection_from_key(ShopKey::Digit1), (ShopSection::Attributes, 0));
    assert_eq!(shop_selection_from_key(ShopKey::Digit5), (ShopSection::Augments, 0));
    assert_eq!(shop_selection_from_key(ShopKey::Digit9), (ShopSection::Augments, 4));
    assert_eq!(shop_selection_from_key(ShopKey::Digit0), (ShopSection::Utilities, 0));
    assert_eq!(shop_selection_from_key(ShopKey::Equal), (ShopSection::Utilities, 2));
}

#[test]
fn shop_items_convert_both_ways() {
    for item in [SharedShopItem::Heal, SharedShopItem::Augment(AugmentId(9)), SharedShopItem::Skill(SkillType::TimeRift), SharedShopItem::Talisman] {
        assert_eq!(shared_shop_item_from_shop_item(shop_item_from_shared(item)), item);
    }
}

#[test]
fn the_shop_opens_once_on_entry_and_again_at_the_kiosk() {
    let mut seen: Vec<RoomId> = Vec::new();
    assert!(shop_entry(&mut seen, false, Some(RoomType::Shop), RoomId(4), true, false));
    assert_eq!(seen, vec![RoomId(4)]);
    assert!(!shop_entry(&mut seen, false, Some(RoomType::Shop), RoomId(4), true, false));
    assert!(shop_entry(&mut seen, false, Some(RoomType::Shop), RoomId(4), false, true));
    assert!(!shop_entry(&mut seen, true, Some(RoomType::Shop), RoomId(5), true, true));
    assert!(!shop_entry(&mut seen, false, Some(RoomType::Normal), RoomId(6), true, true));
    assert_eq!(seen, vec![RoomId(4)]);
}

#[test]
fn a_slotted_skill_is_paid_only_with_enough_gold() {
    let catalog = catalog();
    let mut offers = ShopOffers::new();
    let mut cache = ShopOfferCache::new();
    let mut rng = GameRng::default();
    generate_shop_offers(&mut offers, &mut cache, &catalog, &mut rng, RoomId(2), counts());
    let mut gold = 50;
    assert!(matches!(settle_skill_purchase(&mut offers, &mut cache, ShopSection::Augments, 4, 90, &mut gold), SkillSettlement::Warning(_)));
    assert_eq!(gold, 50);
    assert!(!offers.augment_lines[4].purchased);
    gold = 100;
    assert!(matches!(settle_skill_purchase(&mut offers, &mut cache, ShopSection::Augments, 4, 90, &mut gold), SkillSettlement::Settled));
    assert_eq!(gold, 10);
    assert!(offers.augment_lines[4].purchased);
}

#[test]
fn shop_items_are_described_with_their_prices() {
    assert_eq!(describe_item(ShopItem::IncreaseCritChance, 30), ("锐眼", "暴击率 +8%", 44));
    assert_eq!(describe_item(ShopItem::Heal, 30), ("治疗药剂", "立刻恢复 30% 最大生命", 30));
    assert_eq!(describe_item_local(ShopItem::IncreaseMoveSpeed, 20), ("轻灵", "提高移动速度", 30));
}

#[test]
fn a_new_floor_forgets_the_last_floors_shops() {
    let catalog = catalog();
    let mut offers = ShopOffers::new();
    let mut cache = ShopOfferCache::new();
    let mut rng = GameRng::default();
    generate_shop_offers(&mut offers, &mut cache, &catalog, &mut rng, RoomId(3), counts());
    assert!(!cache.rooms.is_empty());
    reset_shop_state_on_new_floor(&mut offers, &mut cache);
    assert!(offers.room.is_none());
    assert!(offers.lines.is_empty() && offers.augment_lines.is_empty() && offers.utility_lines.is_empty());
    assert_eq!(offers.refresh_count, 0);
    assert!(cache.rooms.is_empty());
}

fn tally() -> ShopTally {
    ShopTally { counts: counts(), dash: 0, move_speed: 0, crit: 0, attack_speed: 0, talisman_charges: 0 }
}

const OPEN: ShopHeadroom = ShopHeadroom { dash_cooldown: true, crit: true, attack_speed: true };

#[test]
fn settling_purchases_pays_and_applies_the_item() {
    let catalog = catalog();
    let mut offers = ShopOffers::new();
    let mut cache = ShopOfferCache::new();
    let mut rng = GameRng::default();
    generate_shop_offers(&mut offers, &mut cache, &catalog, &mut rng, RoomId(2), counts());
    let mut gold = 500;
    let mut t = tally();
    let mut inventory = AugmentInventory { augments: Vec::new() };

    let heal_cost = offers.lines[0].cost;
    let title = offers.lines[0].title.clone();
    match settle_shop_purchase(&mut offers, &mut cache, ShopSection::Attributes, 0, &mut gold, &mut t, OPEN, &mut inventory, stock(&catalog)) {
        ShopSettlement::Bought(card) => {
            assert_eq!(card.title, "购买成功");
            assert!(matches!(&card.lines[1], EventLine::Text(x) if *x == title));
        }
        other => panic!("unexpected {other:?}"),
    }
    assert_eq!(gold, 500 - heal_cost);
    assert!(offers.lines[0].purchased);
    assert_eq!(t.counts.heal, 1);

    let upgrade = offers.augment_lines.iter().position(|l| l.item == ShopItem::UpgradeAugment);
    {
        let k = upgrade.expect("the augment section sells an upgrade");
        let before = gold;
        let r = settle_shop_purchase(&mut offers, &mut cache, ShopSection::Augments, k, &mut gold, &mut t, OPEN, &mut inventory, stock(&catalog));
        assert!(matches!(r, ShopSettlement::NothingToUpgrade));
        assert_eq!(gold, before);
        inventory.augments.push(HeldAugment { id: AugmentId(1), stacks: 1 });
        let r = settle_shop_purchase(&mut offers, &mut cache, ShopSection::Augments, k, &mut gold, &mut t, OPEN, &mut inventory, stock(&catalog));
        assert!(matches!(r, ShopSettlement::Bought(_)));
        assert_eq!(inventory.stacks(AugmentId(1)), 2);
    }

    let skill = offers.augment_lines.iter().position(|l| matches!(l.item, ShopItem::Skill(_)));
    {
        let k = skill.expect("the augment section sells skills");
        let before = gold;
        let r = settle_shop_purchase(&mut offers, &mut cache, ShopSection::Augments, k, &mut gold, &mut t, OPEN, &mut inventory, stock(&catalog));
        assert!(matches!(r, ShopSettlement::ChooseSkill(_)));
        assert_eq!(gold, before);
    }
}

#[test]
fn a_capped_attribute_is_not_charged() {
    let catalog = catalog();
    let line = ShopLine {
        title: "迅捷".to_string(),
        description: "冲刺冷却 -15%".to_string(),
        cost: 40,
        item: ShopItem::ReduceDashCooldown,
        purchased: false,
    };
    let mut offers = ShopOffers::new();
    offers.lines.push(line);
    let mut cache = ShopOfferCache::new();
    let mut t = tally();
    let mut inventory = AugmentInventory { augments: Vec::new() };
    let mut gold = 500;
    let full = ShopHeadroom { dash_cooldown: false, crit: false, attack_speed: false };
    let r = settle_shop_purchase(&mut offers, &mut cache, ShopSection::Attributes, 0, &mut gold, &mut t, full, &mut inventory, stock(&catalog));
    assert!(matches!(r, ShopSettlement::NoEffect));
    assert_eq!(gold, 500);
    assert!(!offers.lines[0].purchased);

    let r = settle_shop_purchase(&mut offers, &mut cache, ShopSection::Attributes, 0, &mut gold, &mut t, OPEN, &mut inventory, stock(&catalog));
    assert!(matches!(r, ShopSettlement::Bought(_)));
    assert_eq!(gold, 460);
    assert_eq!(t.dash, 1);
    assert!(offers.lines[0].purchased);
}

#[test]
fn without_game_data_the_shop_sells_no_augments() {
    let mut catalog = catalog();
    catalog.data = None;
    let mut offers = ShopOffers::new();
    let mut cache = ShopOfferCache::new();
    let mut rng = GameRng::default();
    generate_shop_offers(&mut offers, &mut cache, &catalog, &mut rng, RoomId(4), counts());
    assert_eq!(offers.lines.len(), 4);
    assert!(offers.augment_lines.is_empty());
    assert_eq!(offers.utility_lines.len(), 3);
}

#[test]
fn shop_lines_show_the_augment_text_or_the_item_summary() {
    let catalog = catalog();
    let texts = &catalog.data.as_ref().unwrap().augment_texts;
    let offers = vec![
        ShopOfferDraft { item: SharedShopItem::Augment(AugmentId(2)), cost: 70, purchased: false },
        ShopOfferDraft { item: SharedShopItem::Augment(AugmentId(3)), cost: 120, purchased: true },
        ShopOfferDraft { item: SharedShopItem::Heal, cost: 20, purchased: false },
    ];
    let lines = build_shop_section_lines(texts, &offers);
    assert_eq!(lines.len(), 3);
    assert_eq!((lines[0].title.as_str(), lines[0].description.as_str()), ("荆棘", "受伤反伤"));
    assert_eq!((lines[1].title.as_str(), lines[1].description.as_str()), ("强化", "获得一个强化"));
    assert!(lines[1].purchased);
    assert_eq!(lines[1].cost, 120);
    assert_eq!((lines[2].title.as_str(), lines[2].description.as_str()), ("治疗药剂", "立即恢复生命"));
    assert_eq!(lines[2].item, ShopItem::Heal);
}
