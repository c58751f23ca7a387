use vstd::prelude::*;

use crate::map::RoomType;
use crate::rng::{shuffle_spec, GameRng};
use crate::skills::SkillType;

verus! {

/// Whether a run is played alone or cooperatively.
#[derive(Debug, Clone, Copy, PartialEq, Eq, Structural)]
pub enum SessionMode {
    Solo,
    Coop,
}

/// What the session rules need to know about a cleared room.
#[derive(Debug, Clone, Copy, PartialEq, Eq, Structural)]
pub struct SessionRuleContext {
    pub mode: SessionMode,
    pub floor: u32,
    pub total_floors: u32,
    pub boss_gives_victory: bool,
    pub room_type: RoomType,
}

/// Where the run goes once the reward of a cleared room is taken.
#[derive(Debug, Clone, Copy, PartialEq, Eq, Structural)]
pub enum PostRewardDecision {
    ResumeRun,
    NextFloor,
    Victory,
}

/// The outcome of clearing a room: how much of their maximum health (in percent) the
/// living players recover, and where the run goes afterwards.
#[derive(Debug, Clone, Copy, PartialEq, Eq, Structural)]
pub struct RoomClearDecision {
    pub heal_alive_percent: u32,
    pub post_reward: PostRewardDecision,
}

/// What happens when a player dies.
#[derive(Debug, Clone, Copy, PartialEq, Eq, Structural)]
pub enum DeathDecision {
    Continue,
    GameOver,
    MatchOver,
}

/// Whether a shop purchase had an effect.
#[derive(Debug, Clone, Copy, PartialEq, Eq, Structural)]
pub enum ShopPurchaseResult {
    Applied,
    NoEffect,
}

/// Rarity of an augment.
#[derive(Debug, Clone, Copy, PartialEq, Eq, Hash, Structural)]
pub enum AugmentRarity {
    Common,
    Elite,
    Legendary,
}

/// Identifier of an augment in the game data.
#[derive(Debug, Clone, Copy, PartialEq, Eq, Hash, Structural)]
pub struct AugmentId(pub u32);

/// The category an augment belongs to in the game data.
#[derive(Debug, Clone, Copy, PartialEq, Eq, Hash, Structural)]
pub struct AugmentCategory(pub u32);

/// What the shop and the events need to know about an augment of the game data.
#[derive(Debug, Clone, Copy, PartialEq, Eq, Structural)]
pub struct AugmentEntry {
    pub id: AugmentId,
    /// A fixed shop price, or 0 to price the augment by its rarity.
    pub shop_cost: u32,
    pub rarity: AugmentRarity,
    pub category: AugmentCategory,
    /// How many times the augment can be stacked.
    pub max_stacks: u32,
}

/// The price increase per earlier purchase of the same attribute.
#[derive(Debug, Clone, Copy, PartialEq, Eq, Structural)]
pub struct RepeatIncrement {
    pub heal: u32,
    pub energy: u32,
    pub max_hp: u32,
    pub attack_power: u32,
}

/// The shop's prices.
#[derive(Debug, Clone, Copy, PartialEq, Eq, Structural)]
pub struct ShopPrices {
    pub heal_price: u32,
    pub energy_price: u32,
    pub max_hp_price: u32,
    pub attack_power_price: u32,
    pub repeat_increment: RepeatIncrement,
    pub common_augment_price: u32,
    pub elite_augment_price: u32,
    pub legendary_augment_price: u32,
    pub augment_upgrade_price: u32,
    pub skill_price: u32,
    pub healing_potion_price: u32,
    pub energy_potion_price: u32,
    pub talisman_price: u32,
}

/// How often the player has already bought each repeatable attribute.
#[derive(Debug, Clone, Copy, PartialEq, Eq, Structural)]
pub struct ShopPurchaseCounts {
    pub heal: u8,
    pub energy: u8,
    pub max_health: u8,
    pub attack_power: u8,
}

/// An item the shop can offer.
#[derive(Debug, Clone, Copy, PartialEq, Eq, Structural)]
pub enum SharedShopItem {
    Heal,
    RestoreEnergy,
    IncreaseMaxHealth,
    IncreaseAttackPower,
    ReduceDashCooldown,
    IncreaseMoveSpeed,
    IncreaseEnergyMax,
    IncreaseCritChance,
    IncreaseAttackSpeed,
    Augment(AugmentId),
    UpgradeAugment,
    Skill(SkillType),
    HealingPotion,
    EnergyPotion,
    Talisman,
}

/// One offer of the shop.
#[derive(Debug, Clone, Copy, PartialEq, Eq, Structural)]
pub struct ShopOfferDraft {
    pub item: SharedShopItem,
    pub cost: u32,
    pub purchased: bool,
}

/// The three sections of offers of a shop visit.
#[derive(Debug, Clone)]
pub struct ShopDraft {
    pub refresh_count: u32,
    pub offers: Vec<ShopOfferDraft>,
    pub augment_offers: Vec<ShopOfferDraft>,
    pub utility_offers: Vec<ShopOfferDraft>,
}

pub open spec fn room_clear_spec(ctx: SessionRuleContext) -> RoomClearDecision {
    if ctx.room_type == RoomType::Boss {
        let total = if ctx.total_floors >= 1 { ctx.total_floors } else { 1 };
        RoomClearDecision {
            heal_alive_percent: 80,
            post_reward: if ctx.boss_gives_victory || ctx.floor >= total {
                PostRewardDecision::Victory
            } else {
                PostRewardDecision::NextFloor
            },
        }
    } else {
        RoomClearDecision { heal_alive_percent: 0, post_reward: PostRewardDecision::ResumeRun }
    }
}

/// Clearing a boss room heals the living players by 80 percent of their maximum health
/// and leads to victory on the last floor (or when the boss always ends the run), else to
/// the next floor; any other room resumes the run without healing.
pub fn on_room_cleared(ctx: SessionRuleContext) -> (d: RoomClearDecision)
    ensures
        d == room_clear_spec(ctx),
{
    match ctx.room_type {
        RoomType::Boss => {
            let total = if ctx.total_floors >= 1 { ctx.total_floors } else { 1 };
            let reached_final_floor = ctx.floor >= total;
            let post_reward = if ctx.boss_gives_victory || reached_final_floor {
                PostRewardDecision::Victory
            } else {
                PostRewardDecision::NextFloor
            };
            RoomClearDecision { heal_alive_percent: 80, post_reward }
        },
        _ => RoomClearDecision { heal_alive_percent: 0, post_reward: PostRewardDecision::ResumeRun },
    }
}

pub open spec fn death_decision_spec(mode: SessionMode, living_players: usize) -> DeathDecision {
    if living_players > 0 {
        DeathDecision::Continue
    } else {
        match mode {
            SessionMode::Solo => DeathDecision::GameOver,
            SessionMode::Coop => DeathDecision::MatchOver,
        }
    }
}

/// The run goes on while someone is alive; otherwise a solo run is over and a
/// cooperative match ends.
pub fn evaluate_death(mode: SessionMode, living_players: usize) -> (d: DeathDecision)
    ensures
        d == death_decision_spec(mode, living_players),
{
    if living_players > 0 {
        return DeathDecision::Continue;
    }
    match mode {
        SessionMode::Solo => DeathDecision::GameOver,
        SessionMode::Coop => DeathDecision::MatchOver,
    }
}

pub open spec fn refresh_cost_spec(refresh_count: u32) -> int {
    if refresh_count == 0 { 0 } else { 30 + (refresh_count - 1) * 15 }
}

/// The price of the next shop refresh: the first is free, then 30 gold, rising by 15
/// with each further refresh (saturating at the largest price).
pub fn next_refresh_cost(refresh_count: u32) -> (c: u32)
    ensures
        c == if refresh_cost_spec(refresh_count) <= u32::MAX { refresh_cost_spec(refresh_count) } else { u32::MAX as int },
{
    if refresh_count == 0 {
        0
    } else {
        let steps = (refresh_count - 1) as u64 * 15;
        let total = 30 + steps;
        if total > u32::MAX as u64 {
            u32::MAX
        } else {
            total as u32
        }
    }
}

/// Each refresh costs at least as much as the one before.
pub proof fn lemma_refresh_cost_monotonic(a: u32, b: u32)
    requires
        a <= b,
    ensures
        refresh_cost_spec(a) <= refresh_cost_spec(b),
{
}

pub open spec fn augment_cost_spec(shop_cost: u32, rarity: AugmentRarity, shop: ShopPrices) -> u32 {
    if shop_cost > 0 {
        shop_cost
    } else {
        match rarity {
            AugmentRarity::Common => shop.common_augment_price,
            AugmentRarity::Elite => shop.elite_augment_price,
            AugmentRarity::Legendary => shop.legendary_augment_price,
        }
    }
}

/// What ends a room and a life: a cleared boss room heals the living by 80 percent and ends
/// the run exactly on the last floor (a run has at least one) or when the boss always ends
/// it, and otherwise leads on to the next floor; any other cleared room heals nothing and
/// the run resumes. The run goes on while anyone lives; with nobody left a solo run is
/// over and a cooperative match ends.
pub proof fn lemma_session_rules(ctx: SessionRuleContext, mode: SessionMode, living: usize)
    ensures
        ctx.room_type == RoomType::Boss ==> room_clear_spec(ctx).heal_alive_percent == 80,
        ctx.room_type == RoomType::Boss ==> (room_clear_spec(ctx).post_reward == PostRewardDecision::Victory
            <==> (ctx.boss_gives_victory || ctx.total_floors >= 1 && ctx.floor >= ctx.total_floors
                || ctx.total_floors == 0 && ctx.floor >= 1)),
        ctx.room_type == RoomType::Boss ==> room_clear_spec(ctx).post_reward != PostRewardDecision::ResumeRun,
        ctx.room_type != RoomType::Boss ==> room_clear_spec(ctx) == (RoomClearDecision {
            heal_alive_percent: 0, post_reward: PostRewardDecision::ResumeRun }),
        living > 0 ==> death_decision_spec(mode, living) == DeathDecision::Continue,
        living == 0 && mode == SessionMode::Solo ==> death_decision_spec(mode, living) == DeathDecision::GameOver,
        living == 0 && mode == SessionMode::Coop ==> death_decision_spec(mode, living) == DeathDecision::MatchOver,
{
}

/// Shop refreshes: the first is free, the second costs 30 gold, and each after it 15 more
/// than the one before.
pub proof fn lemma_refresh_costs(n: u32)
    ensures
        refresh_cost_spec(0) == 0,
        refresh_cost_spec(1) == 30,
        n >= 1 && n < u32::MAX ==> refresh_cost_spec((n + 1) as u32) == refresh_cost_spec(n) + 15,
        n >= 1 ==> refresh_cost_spec(n) == 15 * n + 15,
{
}

/// An augment with a price of its own sells at that price; one without sells at the
/// shop's price for its rarity.
pub proof fn lemma_augment_costs(shop_cost: u32, rarity: AugmentRarity, shop: ShopPrices)
    ensures
        shop_cost > 0 ==> augment_cost_spec(shop_cost, rarity, shop) == shop_cost,
        shop_cost == 0 && rarity == AugmentRarity::Common ==> augment_cost_spec(shop_cost, rarity, shop) == shop.common_augment_price,
        shop_cost == 0 && rarity == AugmentRarity::Elite ==> augment_cost_spec(shop_cost, rarity, shop) == shop.elite_augment_price,
        shop_cost == 0 && rarity == AugmentRarity::Legendary ==> augment_cost_spec(shop_cost, rarity, shop) == shop.legendary_augment_price,
{
}

/// An augment's own shop price, or the shop's price for its rarity when it has none.
pub fn augment_shop_cost(shop_cost: u32, rarity: AugmentRarity, shop: &ShopPrices) -> (c: u32)
    ensures
        c == augment_cost_spec(shop_cost, rarity, *shop),
{
    if shop_cost > 0 {
        shop_cost
    } else {
        match rarity {
            AugmentRarity::Common => shop.common_augment_price,
            AugmentRarity::Elite => shop.elite_augment_price,
            AugmentRarity::Legendary => shop.legendary_augment_price,
        }
    }
}

/// The repeatable attribute offers cost their base price plus the increment for each
/// earlier purchase.
pub open spec fn attribute_offers_spec(counts: ShopPurchaseCounts, shop: ShopPrices) -> Seq<ShopOfferDraft> {
    let inc = shop.repeat_increment;
    seq![
        ShopOfferDraft { item: SharedShopItem::Heal, cost: (shop.heal_price + counts.heal * inc.heal) as u32, purchased: false },
        ShopOfferDraft { item: SharedShopItem::RestoreEnergy, cost: (shop.energy_price + counts.energy * inc.energy) as u32, purchased: false },
        ShopOfferDraft { item: SharedShopItem::IncreaseMaxHealth, cost: (shop.max_hp_price + counts.max_health * inc.max_hp) as u32, purchased: false },
        ShopOfferDraft { item: SharedShopItem::IncreaseAttackPower, cost: (shop.attack_power_price + counts.attack_power * inc.attack_power) as u32, purchased: false },
    ]
}

/// None of the attribute prices exceeds the largest price.
pub open spec fn attribute_prices_fit(counts: ShopPurchaseCounts, shop: ShopPrices) -> bool {
    let inc = shop.repeat_increment;
    &&& shop.heal_price + counts.heal * inc.heal <= u32::MAX
    &&& shop.energy_price + counts.energy * inc.energy <= u32::MAX
    &&& shop.max_hp_price + counts.max_health * inc.max_hp <= u32::MAX
    &&& shop.attack_power_price + counts.attack_power * inc.attack_power <= u32::MAX
}

fn repeat_price(base: u32, count: u8, inc: u32) -> (p: u32)
    requires
        base + count * inc <= u32::MAX,
    ensures
        p == base + count * inc,
{
    let extra = (count as u64) * (inc as u64);
    proof {
        assert(extra == count * inc) by (nonlinear_arith)
            requires extra == (count as u64) * (inc as u64);
    }
    (base as u64 + extra) as u32
}

/// The attribute section of the shop: heal, energy, maximum health and attack power.
pub fn build_shop_offers(counts: ShopPurchaseCounts, shop: &ShopPrices) -> (v: Vec<ShopOfferDraft>)
    requires
        attribute_prices_fit(counts, *shop),
    ensures
        v@ == attribute_offers_spec(counts, *shop),
{
    let inc = shop.repeat_increment;
    let v = vec![
        ShopOfferDraft { item: SharedShopItem::Heal, cost: repeat_price(shop.heal_price, counts.heal, inc.heal), purchased: false },
        ShopOfferDraft { item: SharedShopItem::RestoreEnergy, cost: repeat_price(shop.energy_price, counts.energy, inc.energy), purchased: false },
        ShopOfferDraft { item: SharedShopItem::IncreaseMaxHealth, cost: repeat_price(shop.max_hp_price, counts.max_health, inc.max_hp), purchased: false },
        ShopOfferDraft { item: SharedShopItem::IncreaseAttackPower, cost: repeat_price(shop.attack_power_price, counts.attack_power, inc.attack_power), purchased: false },
    ];
    proof {
        assert(v@ =~= attribute_offers_spec(counts, *shop));
    }
    v
}

/// A repeated purchase never makes an attribute cheaper.
pub proof fn lemma_repeat_price_monotonic(base: u32, inc: u32, a: u8, b: u8)
    requires
        a <= b,
    ensures
        base + a * inc <= base + b * inc,
{
    assert(a * inc <= b * inc) by (nonlinear_arith)
        requires a <= b, 0 <= inc;
}

/// The shop purchases a player has made, and the talisman charges held.
#[derive(Debug, Clone, Copy, PartialEq, Eq, Structural)]
pub struct ShopTally {
    pub counts: ShopPurchaseCounts,
    pub dash: u8,
    pub move_speed: u8,
    pub crit: u8,
    pub attack_speed: u8,
    pub talisman_charges: u8,
}

/// What the caller found on the player's fractional attributes before a purchase: whether
/// the shop's dash-cooldown reduction is below its cap, whether raising the critical chance
/// would still change it, and whether the shop's attack-speed reduction is below its cap.
#[derive(Debug, Clone, Copy, PartialEq, Eq, Structural)]
pub struct ShopHeadroom {
    pub dash_cooldown: bool,
    pub crit: bool,
    pub attack_speed: bool,
}

/// One more, stopping at the largest `u8`.
pub open spec fn bump(n: u8) -> u8 {
    if n < 255 { (n + 1) as u8 } else { 255 }
}

/// The tally after buying `item`, and whether the purchase had an effect. Augments,
/// augment upgrades and skills are settled elsewhere and have none here; capped
/// attributes without headroom have none either. Every other purchase counts, and a
/// talisman adds a charge.
pub open spec fn shop_purchase_spec(item: SharedShopItem, t: ShopTally, room: ShopHeadroom) -> (ShopTally, ShopPurchaseResult) {
    let c = t.counts;
    match item {
        SharedShopItem::Heal => (ShopTally { counts: ShopPurchaseCounts { heal: bump(c.heal), ..c }, ..t }, ShopPurchaseResult::Applied),
        SharedShopItem::RestoreEnergy => (ShopTally { counts: ShopPurchaseCounts { energy: bump(c.energy), ..c }, ..t }, ShopPurchaseResult::Applied),
        SharedShopItem::IncreaseMaxHealth => (ShopTally { counts: ShopPurchaseCounts { max_health: bump(c.max_health), ..c }, ..t }, ShopPurchaseResult::Applied),
        SharedShopItem::IncreaseAttackPower => (ShopTally { counts: ShopPurchaseCounts { attack_power: bump(c.attack_power), ..c }, ..t }, ShopPurchaseResult::Applied),
        SharedShopItem::ReduceDashCooldown => if room.dash_cooldown {
            (ShopTally { dash: bump(t.dash), ..t }, ShopPurchaseResult::Applied)
        } else {
            (t, ShopPurchaseResult::NoEffect)
        },
        SharedShopItem::IncreaseMoveSpeed => (ShopTally { move_speed: bump(t.move_speed), ..t }, ShopPurchaseResult::Applied),
        SharedShopItem::IncreaseEnergyMax => (t, ShopPurchaseResult::Applied),
        SharedShopItem::IncreaseCritChance => if room.crit {
            (ShopTally { crit: bump(t.crit), ..t }, ShopPurchaseResult::Applied)
        } else {
            (t, ShopPurchaseResult::NoEffect)
        },
        SharedShopItem::IncreaseAttackSpeed => if room.attack_speed {
            (ShopTally { attack_speed: bump(t.attack_speed), ..t }, ShopPurchaseResult::Applied)
        } else {
            (t, ShopPurchaseResult::NoEffect)
        },
        SharedShopItem::Augment(_) | SharedShopItem::UpgradeAugment | SharedShopItem::Skill(_) => (t, ShopPurchaseResult::NoEffect),
        SharedShopItem::HealingPotion | SharedShopItem::EnergyPotion => (t, ShopPurchaseResult::Applied),
        SharedShopItem::Talisman => (ShopTally { talisman_charges: bump(t.talisman_charges), ..t }, ShopPurchaseResult::Applied),
    }
}

/// The purchase count of attribute offer `k`: heal, energy, maximum health, attack power.
pub open spec fn attribute_count(c: ShopPurchaseCounts, k: int) -> u8 {
    if k == 0 { c.heal } else if k == 1 { c.energy } else if k == 2 { c.max_health } else { c.attack_power }
}

/// The repeat increment of attribute offer `k`.
pub open spec fn attribute_increment(inc: RepeatIncrement, k: int) -> u32 {
    if k == 0 { inc.heal } else if k == 1 { inc.energy } else if k == 2 { inc.max_hp } else { inc.attack_power }
}

/// What the other purchases record: a dash-cooldown, crit or attack-speed purchase takes
/// effect and is counted once exactly when there is headroom for it, and otherwise changes
/// nothing; move speed and talismans are always counted once (below the cap); potions and
/// a higher energy maximum take effect without being counted; augments, their upgrade and
/// skills are settled elsewhere and change nothing here.
pub proof fn lemma_other_purchases(t: ShopTally, room: ShopHeadroom, id: AugmentId, s: SkillType)
    ensures
        ({
            let (d, rd) = shop_purchase_spec(SharedShopItem::ReduceDashCooldown, t, room);
            &&& (rd == ShopPurchaseResult::Applied) == room.dash_cooldown
            &&& room.dash_cooldown && t.dash < 255 ==> d == (ShopTally { dash: (t.dash + 1) as u8, ..t })
            &&& !room.dash_cooldown ==> d == t
        }),
        ({
            let (c, rc) = shop_purchase_spec(SharedShopItem::IncreaseCritChance, t, room);
            &&& (rc == ShopPurchaseResult::Applied) == room.crit
            &&& room.crit && t.crit < 255 ==> c == (ShopTally { crit: (t.crit + 1) as u8, ..t })
            &&& !room.crit ==> c == t
        }),
        ({
            let (a, ra) = shop_purchase_spec(SharedShopItem::IncreaseAttackSpeed, t, room);
            &&& (ra == ShopPurchaseResult::Applied) == room.attack_speed
            &&& room.attack_speed && t.attack_speed < 255 ==> a == (ShopTally { attack_speed: (t.attack_speed + 1) as u8, ..t })
            &&& !room.attack_speed ==> a == t
        }),
        t.move_speed < 255 ==> shop_purchase_spec(SharedShopItem::IncreaseMoveSpeed, t, room)
            == (ShopTally { move_speed: (t.move_speed + 1) as u8, ..t }, ShopPurchaseResult::Applied),
        t.talisman_charges < 255 ==> shop_purchase_spec(SharedShopItem::Talisman, t, room)
            == (ShopTally { talisman_charges: (t.talisman_charges + 1) as u8, ..t }, ShopPurchaseResult::Applied),
        shop_purchase_spec(SharedShopItem::HealingPotion, t, room) == (t, ShopPurchaseResult::Applied),
        shop_purchase_spec(SharedShopItem::EnergyPotion, t, room) == (t, ShopPurchaseResult::Applied),
        shop_purchase_spec(SharedShopItem::IncreaseEnergyMax, t, room) == (t, ShopPurchaseResult::Applied),
        shop_purchase_spec(SharedShopItem::Augment(id), t, room) == (t, ShopPurchaseResult::NoEffect),
        shop_purchase_spec(SharedShopItem::UpgradeAugment, t, room) == (t, ShopPurchaseResult::NoEffect),
        shop_purchase_spec(SharedShopItem::Skill(s), t, room) == (t, ShopPurchaseResult::NoEffect),
        forall|item: SharedShopItem| #[trigger] shop_purchase_spec(item, t, room).0.counts.heal >= t.counts.heal,
{
}

/// Buying the item of attribute offer `k` (below the count's cap) always takes effect, counts
/// one more purchase of that attribute and of no other, and so makes exactly that offer
/// dearer by its repeat increment while the other offers keep their prices.
pub proof fn lemma_buying_an_attribute_raises_its_price(k: int, t: ShopTally, room: ShopHeadroom, shop: ShopPrices)
    requires
        0 <= k < 4,
        attribute_count(t.counts, k) < 255,
        attribute_prices_fit(shop_purchase_spec(attribute_offers_spec(t.counts, shop)[k].item, t, room).0.counts, shop),
    ensures
        ({
            let before = attribute_offers_spec(t.counts, shop);
            let (t2, r) = shop_purchase_spec(before[k].item, t, room);
            let after = attribute_offers_spec(t2.counts, shop);
            &&& r == ShopPurchaseResult::Applied
            &&& attribute_count(t2.counts, k) == attribute_count(t.counts, k) + 1
            &&& forall|j: int| 0 <= j < 4 && j != k ==> #[trigger] attribute_count(t2.counts, j) == attribute_count(t.counts, j)
            &&& after[k].cost == before[k].cost + attribute_increment(shop.repeat_increment, k)
            &&& forall|j: int| 0 <= j < 4 && j != k ==> #[trigger] after[j].cost == before[j].cost
        }),
{
    let c0 = t.counts;
    let inc = shop.repeat_increment;
    let c1 = shop_purchase_spec(attribute_offers_spec(c0, shop)[k].item, t, room).0.counts;
    let n0 = attribute_count(c0, k);
    let i = attribute_increment(inc, k);
    assert((n0 + 1) * i == n0 * i + i) by (nonlinear_arith);
    assert(c0.heal * inc.heal <= u32::MAX) by (nonlinear_arith)
        requires c0.heal * inc.heal <= c1.heal * inc.heal || c1.heal == c0.heal, c1.heal >= c0.heal, c1.heal * inc.heal <= u32::MAX;
    assert(c0.energy * inc.energy <= u32::MAX) by (nonlinear_arith)
        requires c1.energy >= c0.energy, c1.energy * inc.energy <= u32::MAX;
    assert(c0.max_health * inc.max_hp <= u32::MAX) by (nonlinear_arith)
        requires c1.max_health >= c0.max_health, c1.max_health * inc.max_hp <= u32::MAX;
    assert(c0.attack_power * inc.attack_power <= u32::MAX) by (nonlinear_arith)
        requires c1.attack_power >= c0.attack_power, c1.attack_power * inc.attack_power <= u32::MAX;
}

/// Record the purchase of `item` in the tally and say whether it had an effect. When it
/// did, the caller applies the item to health, energy, speed and the other fractional
/// attributes.
pub fn apply_shop_purchase(item: SharedShopItem, tally: &mut ShopTally, room: ShopHeadroom) -> (r: ShopPurchaseResult)
    ensures
        (*final(tally), r) == shop_purchase_spec(item, *old(tally), room),
{
    match item {
        SharedShopItem::Heal => {
            tally.counts.heal = tally.counts.heal.saturating_add(1);
            ShopPurchaseResult::Applied
        },
        SharedShopItem::RestoreEnergy => {
            tally.counts.energy = tally.counts.energy.saturating_add(1);
            ShopPurchaseResult::Applied
        },
        SharedShopItem::IncreaseMaxHealth => {
            tally.counts.max_health = tally.counts.max_health.saturating_add(1);
            ShopPurchaseResult::Applied
        },
        SharedShopItem::IncreaseAttackPower => {
            tally.counts.attack_power = tally.counts.attack_power.saturating_add(1);
            ShopPurchaseResult::Applied
        },
        SharedShopItem::ReduceDashCooldown => {
            if !room.dash_cooldown {
                return ShopPurchaseResult::NoEffect;
            }
            tally.dash = tally.dash.saturating_add(1);
            ShopPurchaseResult::Applied
        },
        SharedShopItem::IncreaseMoveSpeed => {
            tally.move_speed = tally.move_speed.saturating_add(1);
            ShopPurchaseResult::Applied
        },
        SharedShopItem::IncreaseEnergyMax => ShopPurchaseResult::Applied,
        SharedShopItem::IncreaseCritChance => {
            if !room.crit {
                return ShopPurchaseResult::NoEffect;
            }
            tally.crit = tally.crit.saturating_add(1);
            ShopPurchaseResult::Applied
        },
        SharedShopItem::IncreaseAttackSpeed => {
            if !room.attack_speed {
                return ShopPurchaseResult::NoEffect;
            }
            tally.attack_speed = tally.attack_speed.saturating_add(1);
            ShopPurchaseResult::Applied
        },
        SharedShopItem::Augment(_) | SharedShopItem::UpgradeAugment | SharedShopItem::Skill(_) => ShopPurchaseResult::NoEffect,
        SharedShopItem::HealingPotion | SharedShopItem::EnergyPotion => ShopPurchaseResult::Applied,
        SharedShopItem::Talisman => {
            tally.talisman_charges = tally.talisman_charges.saturating_add(1);
            ShopPurchaseResult::Applied
        },
    }
}

/// Buying anything never makes a repeatable attribute cheaper in the next shop, and buying
/// one of them raises its price by its increment while its count is below the largest `u8`.
pub proof fn lemma_purchase_never_lowers_prices(item: SharedShopItem, t: ShopTally, room: ShopHeadroom, shop: ShopPrices)
    requires
        attribute_prices_fit(shop_purchase_spec(item, t, room).0.counts, shop),
    ensures
        ({
            let before = attribute_offers_spec(t.counts, shop);
            let after = attribute_offers_spec(shop_purchase_spec(item, t, room).0.counts, shop);
            &&& forall|k: int| 0 <= k < 4 ==> #[trigger] before[k].cost <= after[k].cost
            &&& item == SharedShopItem::Heal && t.counts.heal < 255 ==> after[0].cost == before[0].cost + shop.repeat_increment.heal
            &&& item == SharedShopItem::IncreaseAttackPower && t.counts.attack_power < 255
                ==> after[3].cost == before[3].cost + shop.repeat_increment.attack_power
        }),
{
    let c0 = t.counts;
    let c1 = shop_purchase_spec(item, t, room).0.counts;
    let inc = shop.repeat_increment;
    assert(c0.heal <= c1.heal && c0.energy <= c1.energy && c0.max_health <= c1.max_health
        && c0.attack_power <= c1.attack_power);
    lemma_repeat_price_monotonic(shop.heal_price, inc.heal, c0.heal, c1.heal);
    lemma_repeat_price_monotonic(shop.energy_price, inc.energy, c0.energy, c1.energy);
    lemma_repeat_price_monotonic(shop.max_hp_price, inc.max_hp, c0.max_health, c1.max_health);
    lemma_repeat_price_monotonic(shop.attack_power_price, inc.attack_power, c0.attack_power, c1.attack_power);
    if item == SharedShopItem::Heal && c0.heal < 255 {
        assert(c1.heal * inc.heal == c0.heal * inc.heal + inc.heal) by (nonlinear_arith)
            requires c1.heal == c0.heal + 1;
    }
    if item == SharedShopItem::IncreaseAttackPower && c0.attack_power < 255 {
        assert(c1.attack_power * inc.attack_power == c0.attack_power * inc.attack_power + inc.attack_power) by (nonlinear_arith)
            requires c1.attack_power == c0.attack_power + 1;
    }
}

/// More attack-power purchases, and nothing else bought, raise the attack-power offer by its
/// repeat increment for each further purchase, so it is dearer exactly when that increment is
/// positive, and leave the other attribute offers as they were; no attribute offer is sold.
pub proof fn lemma_attack_price_rises(c1: ShopPurchaseCounts, c2: ShopPurchaseCounts, shop: ShopPrices)
    requires
        c2.heal == c1.heal && c2.energy == c1.energy && c2.max_health == c1.max_health,
        c2.attack_power > c1.attack_power,
        attribute_prices_fit(c2, shop),
    ensures
        attribute_offers_spec(c2, shop)[3].cost - attribute_offers_spec(c1, shop)[3].cost
            == (c2.attack_power - c1.attack_power) * shop.repeat_increment.attack_power,
        attribute_offers_spec(c2, shop)[3].cost > attribute_offers_spec(c1, shop)[3].cost
            <==> shop.repeat_increment.attack_power > 0,
        forall|k: int| 0 <= k < 3 ==> #[trigger] attribute_offers_spec(c2, shop)[k] == attribute_offers_spec(c1, shop)[k],
        forall|k: int| 0 <= k < 4 ==> !(#[trigger] attribute_offers_spec(c2, shop)[k]).purchased,
{
    let inc = shop.repeat_increment.attack_power;
    assert(c2.attack_power * inc - c1.attack_power * inc == (c2.attack_power - c1.attack_power) * inc) by (nonlinear_arith);
    assert(c1.attack_power * inc <= c2.attack_power * inc) by (nonlinear_arith)
        requires c1.attack_power < c2.attack_power, inc >= 0;
    assert(inc > 0 ==> c1.attack_power * inc < c2.attack_power * inc) by (nonlinear_arith)
        requires c1.attack_power < c2.attack_power, inc >= 0;
    assert(inc == 0 ==> c2.attack_power * inc == 0 && c1.attack_power * inc == 0) by (nonlinear_arith);
    assert(c1.attack_power * inc >= 0) by (nonlinear_arith)
        requires c1.attack_power >= 0, inc >= 0;
}

pub open spec fn utility_offers_spec(shop: ShopPrices) -> Seq<ShopOfferDraft> {
    seq![
        ShopOfferDraft { item: SharedShopItem::HealingPotion, cost: shop.healing_potion_price, purchased: false },
        ShopOfferDraft { item: SharedShopItem::EnergyPotion, cost: shop.energy_potion_price, purchased: false },
        ShopOfferDraft { item: SharedShopItem::Talisman, cost: shop.talisman_price, purchased: false },
    ]
}

/// The shop's fixed sections: the attribute section offers heal, energy, maximum health and
/// attack power in that order, each at its base price plus its increment for every earlier
/// purchase of it, so at the base price before any purchase; the utility section offers a
/// healing potion, an energy potion and a talisman at their prices; nothing is sold yet.
pub proof fn lemma_fixed_sections(counts: ShopPurchaseCounts, shop: ShopPrices)
    requires
        attribute_prices_fit(counts, shop),
    ensures
        ({
            let a = attribute_offers_spec(counts, shop);
            let inc = shop.repeat_increment;
            &&& a.len() == 4
            &&& a[0].item == SharedShopItem::Heal && a[0].cost == shop.heal_price + counts.heal * inc.heal
            &&& a[1].item == SharedShopItem::RestoreEnergy && a[1].cost == shop.energy_price + counts.energy * inc.energy
            &&& a[2].item == SharedShopItem::IncreaseMaxHealth && a[2].cost == shop.max_hp_price + counts.max_health * inc.max_hp
            &&& a[3].item == SharedShopItem::IncreaseAttackPower
                && a[3].cost == shop.attack_power_price + counts.attack_power * inc.attack_power
            &&& forall|k: int| 0 <= k < 4 ==> !(#[trigger] a[k]).purchased
        }),
        counts == (ShopPurchaseCounts { heal: 0, energy: 0, max_health: 0, attack_power: 0 }) ==> {
            let a = attribute_offers_spec(counts, shop);
            &&& a[0].cost == shop.heal_price && a[1].cost == shop.energy_price
            &&& a[2].cost == shop.max_hp_price && a[3].cost == shop.attack_power_price
        },
        ({
            let u = utility_offers_spec(shop);
            &&& u.len() == 3
            &&& u[0] == (ShopOfferDraft { item: SharedShopItem::HealingPotion, cost: shop.healing_potion_price, purchased: false })
            &&& u[1] == (ShopOfferDraft { item: SharedShopItem::EnergyPotion, cost: shop.energy_potion_price, purchased: false })
            &&& u[2] == (ShopOfferDraft { item: SharedShopItem::Talisman, cost: shop.talisman_price, purchased: false })
        }),
{
    let inc = shop.repeat_increment;
    if counts == (ShopPurchaseCounts { heal: 0, energy: 0, max_health: 0, attack_power: 0 }) {
        assert(counts.heal * inc.heal == 0 && counts.energy * inc.energy == 0 && counts.max_health * inc.max_hp == 0
            && counts.attack_power * inc.attack_power == 0) by (nonlinear_arith)
            requires counts.heal == 0 && counts.energy == 0 && counts.max_health == 0 && counts.attack_power == 0;
    }
}

/// The utility section of the shop: a healing potion, an energy potion and a talisman.
pub fn build_utility_offers(shop: &ShopPrices) -> (v: Vec<ShopOfferDraft>)
    ensures
        v@ == utility_offers_spec(*shop),
{
    let v = vec![
        ShopOfferDraft { item: SharedShopItem::HealingPotion, cost: shop.healing_potion_price, purchased: false },
        ShopOfferDraft { item: SharedShopItem::EnergyPotion, cost: shop.energy_potion_price, purchased: false },
        ShopOfferDraft { item: SharedShopItem::Talisman, cost: shop.talisman_price, purchased: false },
    ];
    proof {
        assert(v@ =~= utility_offers_spec(*shop));
    }
    v
}

/// The offer of an augment of the game data.
pub open spec fn augment_offer_spec(e: AugmentEntry, shop: ShopPrices) -> ShopOfferDraft {
    ShopOfferDraft { item: SharedShopItem::Augment(e.id), cost: augment_cost_spec(e.shop_cost, e.rarity, shop), purchased: false }
}

/// The offer of a skill.
pub open spec fn skill_offer_spec(s: SkillType, shop: ShopPrices) -> ShopOfferDraft {
    ShopOfferDraft { item: SharedShopItem::Skill(s), cost: shop.skill_price, purchased: false }
}

pub open spec fn min_int(a: int, b: int) -> int {
    if a < b { a } else { b }
}

/// `offers` is the augment section drawn from `picked` augments and `skills` skills: an
/// offer per picked augment, then the upgrade offer, then an offer per picked skill.
pub open spec fn augment_section_spec(
    offers: Seq<ShopOfferDraft>,
    picked: Seq<AugmentEntry>,
    skills: Seq<SkillType>,
    shop: ShopPrices,
) -> bool {
    &&& offers.len() == picked.len() + 1 + skills.len()
    &&& forall|i: int| 0 <= i < picked.len() ==> #[trigger] offers[i] == augment_offer_spec(picked[i], shop)
    &&& offers[picked.len() as int] == (ShopOfferDraft { item: SharedShopItem::UpgradeAugment, cost: shop.augment_upgrade_price, purchased: false })
    &&& forall|i: int| 0 <= i < skills.len() ==> #[trigger] offers[picked.len() + 1 + i] == skill_offer_spec(skills[i], shop)
}

/// `offers` is an augment section drawn from `augments` and `skills`: up to three
/// augments and up to two skills, no entry drawn more often than it occurs.
pub open spec fn augment_section_drawn(
    offers: Seq<ShopOfferDraft>,
    augments: Seq<AugmentEntry>,
    skills: Seq<SkillType>,
    shop: ShopPrices,
) -> bool {
    exists|picked: Seq<AugmentEntry>, picked_skills: Seq<SkillType>| {
        &&& picked.len() == min_int(3, augments.len() as int)
        &&& picked.to_multiset().subset_of(augments.to_multiset())
        &&& picked_skills.len() == min_int(2, skills.len() as int)
        &&& picked_skills.to_multiset().subset_of(skills.to_multiset())
        &&& #[trigger] augment_section_spec(offers, picked, picked_skills, shop)
    }
}

/// The augment section of the shop: up to three augments drawn from the game data without
/// repeating an entry, the upgrade offer, and up to two skills drawn the same way. The
/// augments are the first of the augments shuffled from the generator's state, the skills
/// the first of the skills shuffled from the state that leaves.
pub fn build_augment_offers(
    augments: &Vec<AugmentEntry>,
    skills: &Vec<SkillType>,
    shop: &ShopPrices,
    rng: &mut GameRng,
) -> (v: Vec<ShopOfferDraft>)
    ensures
        augment_section_drawn(v@, augments@, skills@, *shop),
        ({
            let a = shuffle_spec(old(rng).state(), augments@);
            let k = shuffle_spec(a.1, skills@);
            &&& augment_section_spec(v@, a.0.take(min_int(3, augments@.len() as int)),
                k.0.take(min_int(2, skills@.len() as int)), *shop)
            &&& final(rng).state() == k.1
        }),
{
    let pool = rng.shuffled(copy_vec(augments));
    let ghost poolv = pool@;
    let n = if pool.len() < 3 { pool.len() } else { 3 };
    let mut offers: Vec<ShopOfferDraft> = Vec::new();
    let mut i: usize = 0;
    while i < n
        invariant
            n <= pool@.len(),
            pool@ == poolv,
            i <= n,
            offers@.len() == i,
            forall|k: int| 0 <= k < i ==> #[trigger] offers@[k] == augment_offer_spec(poolv[k], *shop),
        decreases n - i,
    {
        let e = pool[i];
        let cost = augment_shop_cost(e.shop_cost, e.rarity, shop);
        offers.push(ShopOfferDraft { item: SharedShopItem::Augment(e.id), cost, purchased: false });
        i = i + 1;
    }
    offers.push(ShopOfferDraft { item: SharedShopItem::UpgradeAugment, cost: shop.augment_upgrade_price, purchased: false });
    let skill_pool = rng.shuffled(copy_vec(skills));
    let ghost skillv = skill_pool@;
    let m = if skill_pool.len() < 2 { skill_pool.len() } else { 2 };
    let mut j: usize = 0;
    while j < m
        invariant
            m <= skill_pool@.len(),
            skill_pool@ == skillv,
            j <= m,
            offers@.len() == n + 1 + j,
            forall|k: int| 0 <= k < n ==> #[trigger] offers@[k] == augment_offer_spec(poolv[k], *shop),
            offers@[n as int] == (ShopOfferDraft { item: SharedShopItem::UpgradeAugment, cost: shop.augment_upgrade_price, purchased: false }),
            forall|k: int| 0 <= k < j ==> #[trigger] offers@[n + 1 + k] == skill_offer_spec(skillv[k], *shop),
        decreases m - j,
    {
        let s = skill_pool[j];
        offers.push(ShopOfferDraft { item: SharedShopItem::Skill(s), cost: shop.skill_price, purchased: false });
        j = j + 1;
    }
    proof {
        let picked = poolv.take(n as int);
        let picked_skills = skillv.take(m as int);
        lemma_take_submultiset(poolv, n as int);
        lemma_take_submultiset(skillv, m as int);
        assert(augment_section_spec(offers@, picked, picked_skills, *shop));
    }
    offers
}

/// A copy of a vector of plain values.
pub fn copy_vec<T: Copy>(v: &Vec<T>) -> (r: Vec<T>)
    ensures
        r@ == v@,
{
    let mut r: Vec<T> = Vec::new();
    let mut i: usize = 0;
    while i < v.len()
        invariant
            i <= v@.len(),
            r@ == v@.take(i as int),
        decreases v@.len() - i,
    {
        r.push(v[i]);
        i = i + 1;
        proof {
            assert(r@ =~= v@.take(i as int));
        }
    }
    proof {
        assert(r@ =~= v@);
    }
    r
}

/// A prefix of a sequence holds no element more often than the sequence.
pub proof fn lemma_take_submultiset<A>(s: Seq<A>, n: int)
    requires
        0 <= n <= s.len(),
    ensures
        s.take(n).to_multiset().subset_of(s.to_multiset()),
    decreases s.len() - n,
{
    broadcast use vstd::seq_lib::group_to_multiset_ensures;
    broadcast use vstd::multiset::group_multiset_axioms;
    if n < s.len() {
        lemma_take_submultiset(s, n + 1);
        assert(s.take(n + 1) =~= s.take(n).push(s[n]));
        assert(s.take(n).to_multiset().subset_of(s.take(n + 1).to_multiset()));
    } else {
        assert(s.take(n) =~= s);
    }
}

/// The augment section of a shop visit: without game data (its augments and skills) it is
/// empty; with it, it is drawn from them.
pub open spec fn augment_section_for(
    offers: Seq<ShopOfferDraft>,
    data: Option<(Seq<AugmentEntry>, Seq<SkillType>)>,
    shop: ShopPrices,
) -> bool {
    match data {
        Some((augments, skills)) => augment_section_drawn(offers, augments, skills, shop),
        None => offers.len() == 0,
    }
}

/// The augments and skills of the game data, if there is any.
pub open spec fn stock_view(data: Option<(&Vec<AugmentEntry>, &Vec<SkillType>)>) -> Option<(Seq<AugmentEntry>, Seq<SkillType>)> {
    match data {
        Some((augments, skills)) => Some((augments@, skills@)),
        None => None,
    }
}

fn augment_offers_for(
    data: Option<(&Vec<AugmentEntry>, &Vec<SkillType>)>,
    shop: &ShopPrices,
    rng: &mut GameRng,
) -> (v: Vec<ShopOfferDraft>)
    ensures
        augment_section_for(v@, stock_view(data), *shop),
        data.is_none() ==> final(rng).state() == old(rng).state(),
{
    match data {
        Some((augments, skills)) => build_augment_offers(augments, skills, shop, rng),
        None => Vec::new(),
    }
}

/// A fresh shop visit: the attribute, augment and utility sections, never refreshed yet.
/// Without game data (`data`, its augments and skills) the augment section is empty and
/// nothing is drawn.
pub fn build_shop_draft(
    counts: ShopPurchaseCounts,
    shop: &ShopPrices,
    data: Option<(&Vec<AugmentEntry>, &Vec<SkillType>)>,
    rng: &mut GameRng,
) -> (d: ShopDraft)
    requires
        attribute_prices_fit(counts, *shop),
    ensures
        d.refresh_count == 0,
        d.offers@ == attribute_offers_spec(counts, *shop),
        d.utility_offers@ == utility_offers_spec(*shop),
        augment_section_for(d.augment_offers@, stock_view(data), *shop),
        data.is_none() ==> final(rng).state() == old(rng).state(),
{
    let offers = build_shop_offers(counts, shop);
    let augment_offers = augment_offers_for(data, shop, rng);
    let utility_offers = build_utility_offers(shop);
    ShopDraft { refresh_count: 0, offers, augment_offers, utility_offers }
}

/// A refreshed shop visit: new sections, with the refresh counted (saturating). Without
/// game data the augment section is empty and nothing is drawn.
pub fn refresh_shop_draft(
    refresh_count: u32,
    counts: ShopPurchaseCounts,
    shop: &ShopPrices,
    data: Option<(&Vec<AugmentEntry>, &Vec<SkillType>)>,
    rng: &mut GameRng,
) -> (d: ShopDraft)
    requires
        attribute_prices_fit(counts, *shop),
    ensures
        d.refresh_count == if refresh_count < u32::MAX { refresh_count + 1 } else { u32::MAX as int },
        d.offers@ == attribute_offers_spec(counts, *shop),
        d.utility_offers@ == utility_offers_spec(*shop),
        augment_section_for(d.augment_offers@, stock_view(data), *shop),
        data.is_none() ==> final(rng).state() == old(rng).state(),
{
    let offers = build_shop_offers(counts, shop);
    let augment_offers = augment_offers_for(data, shop, rng);
    let utility_offers = build_utility_offers(shop);
    ShopDraft { refresh_count: refresh_count.saturating_add(1), offers, augment_offers, utility_offers }
}

} // verus!
