use vstd::prelude::*;
use std::collections::HashMap;

use crate::feedback::{gold_warning_spec, shop_warning_feedback, UiFeedback};
use crate::map::{RoomId, RoomType};
use crate::rng::GameRng;
use crate::event_apply::{granted_line, stack_cap, stack_cap_of, text_line, EventLine, EventReport};
use crate::feedback::{gold_spent_line, gold_spent_text, UiFeedbackSeverity};
use crate::rewards::{AugmentInventory, HeldAugment};
use crate::session::{
    apply_shop_purchase, attribute_prices_fit, build_shop_draft, next_refresh_cost, refresh_cost_spec, refresh_shop_draft,
    shop_purchase_spec, AugmentEntry, AugmentId, SharedShopItem, ShopHeadroom, ShopOfferDraft, ShopPrices,
    ShopPurchaseCounts, ShopPurchaseResult, ShopTally,
};
use crate::states::GamePhase;
use crate::skills::SkillType;
use crate::text::owned;
use crate::event_choices::{first_text, lemma_first_text_step};

verus! {

/// An item of a shop line.
#[derive(Debug, Clone, Copy, PartialEq, Eq, Structural)]
pub enum ShopItem {
    Heal,
    RestoreEnergy,
    IncreaseMaxHealth,
    IncreaseAttackPower,
    ReduceDashCooldown,
    IncreaseMoveSpeed,
    IncreaseEnergyMax,
    IncreaseCritChance,
    IncreaseAttackSpeed,
    Augment(AugmentId),
    UpgradeAugment,
    Skill(SkillType),
    HealingPotion,
    EnergyPotion,
    Talisman,
}

/// The three sections of the shop screen.
#[derive(Debug, Clone, Copy, PartialEq, Eq, Structural)]
pub enum ShopSection {
    Attributes,
    Augments,
    Utilities,
}

/// What the player asked the shop screen to do.
#[derive(Debug, Clone, Copy, PartialEq, Eq, Structural)]
pub enum ShopUiAction {
    Select(ShopSection, usize),
    Refresh,
    Exit,
}

/// The keys that pick a shop line: digits 1 to 9, 0, minus and equals.
#[derive(Debug, Clone, Copy, PartialEq, Eq, Structural)]
pub enum ShopKey {
    Digit1,
    Digit2,
    Digit3,
    Digit4,
    Digit5,
    Digit6,
    Digit7,
    Digit8,
    Digit9,
    Digit0,
    Minus,
    Equal,
}

/// One line of the shop screen.
#[derive(Debug)]
pub struct ShopLine {
    pub title: String,
    pub description: String,
    pub cost: u32,
    pub item: ShopItem,
    pub purchased: bool,
}

/// The lines of the shop of the current room.
#[derive(Debug)]
pub struct ShopOffers {
    pub room: Option<RoomId>,
    pub lines: Vec<ShopLine>,
    pub augment_lines: Vec<ShopLine>,
    pub utility_lines: Vec<ShopLine>,
    pub refresh_count: u32,
}

/// The shop of a room as it was last left.
#[derive(Debug)]
pub struct CachedShopState {
    pub lines: Vec<ShopLine>,
    pub augment_lines: Vec<ShopLine>,
    pub utility_lines: Vec<ShopLine>,
    pub refresh_count: u32,
}

/// The shops of the rooms of the current floor, by room id.
#[derive(Debug)]
pub struct ShopOfferCache {
    pub rooms: HashMap<u32, CachedShopState>,
}

/// The title and description of an augment of the game data.
#[derive(Debug)]
pub struct AugmentText {
    pub id: AugmentId,
    pub title: String,
    pub description: String,
}

/// What the shop sells: its prices, the augments and skills of the game data, and the
/// augments' texts.
#[derive(Debug)]
pub struct ShopCatalog {
    pub prices: ShopPrices,
    pub data: Option<ShopData>,
}

/// The game data the shop draws from: its augments, their texts, and its skills.
#[derive(Debug)]
pub struct ShopData {
    pub augments: Vec<AugmentEntry>,
    pub augment_texts: Vec<AugmentText>,
    pub skills: Vec<SkillType>,
}

/// The augment texts of the catalog, none without game data.
pub open spec fn catalog_texts(c: ShopCatalog) -> Seq<AugmentText> {
    match c.data {
        Some(d) => d.augment_texts@,
        None => Seq::empty(),
    }
}

/// Every line of `v` shows the texts looked up for its item.
pub open spec fn lines_show_texts(texts: Seq<AugmentText>, v: Seq<ShopLine>) -> bool {
    forall|k: int| 0 <= k < v.len() ==> line_texts(texts, #[trigger] v[k].item) == (v[k].title@, v[k].description@)
}

/// Every line of every section of `o` shows the texts looked up for its item.
pub open spec fn offers_show_texts(texts: Seq<AugmentText>, o: ShopOffers) -> bool {
    &&& lines_show_texts(texts, o.lines@)
    &&& lines_show_texts(texts, o.augment_lines@)
    &&& lines_show_texts(texts, o.utility_lines@)
}

/// The augments and skills the shop can draw from, if the game data is there.
pub open spec fn catalog_stock(c: ShopCatalog) -> Option<(Seq<AugmentEntry>, Seq<SkillType>)> {
    match c.data {
        Some(d) => Some((d.augments@, d.skills@)),
        None => None,
    }
}

pub open spec fn shop_item_from_shared_spec(item: SharedShopItem) -> ShopItem {
    match item {
        SharedShopItem::Heal => ShopItem::Heal,
        SharedShopItem::RestoreEnergy => ShopItem::RestoreEnergy,
        SharedShopItem::IncreaseMaxHealth => ShopItem::IncreaseMaxHealth,
        SharedShopItem::IncreaseAttackPower => ShopItem::IncreaseAttackPower,
        SharedShopItem::ReduceDashCooldown => ShopItem::ReduceDashCooldown,
        SharedShopItem::IncreaseMoveSpeed => ShopItem::IncreaseMoveSpeed,
        SharedShopItem::IncreaseEnergyMax => ShopItem::IncreaseEnergyMax,
        SharedShopItem::IncreaseCritChance => ShopItem::IncreaseCritChance,
        SharedShopItem::IncreaseAttackSpeed => ShopItem::IncreaseAttackSpeed,
        SharedShopItem::Augment(id) => ShopItem::Augment(id),
        SharedShopItem::UpgradeAugment => ShopItem::UpgradeAugment,
        SharedShopItem::Skill(s) => ShopItem::Skill(s),
        SharedShopItem::HealingPotion => ShopItem::HealingPotion,
        SharedShopItem::EnergyPotion => ShopItem::EnergyPotion,
        SharedShopItem::Talisman => ShopItem::Talisman,
    }
}

pub open spec fn shared_from_shop_item_spec(item: ShopItem) -> SharedShopItem {
    match item {
        ShopItem::Heal => SharedShopItem::Heal,
        ShopItem::RestoreEnergy => SharedShopItem::RestoreEnergy,
        ShopItem::IncreaseMaxHealth => SharedShopItem::IncreaseMaxHealth,
        ShopItem::IncreaseAttackPower => SharedShopItem::IncreaseAttackPower,
        ShopItem::ReduceDashCooldown => SharedShopItem::ReduceDashCooldown,
        ShopItem::IncreaseMoveSpeed => SharedShopItem::IncreaseMoveSpeed,
        ShopItem::IncreaseEnergyMax => SharedShopItem::IncreaseEnergyMax,
        ShopItem::IncreaseCritChance => SharedShopItem::IncreaseCritChance,
        ShopItem::IncreaseAttackSpeed => SharedShopItem::IncreaseAttackSpeed,
        ShopItem::Augment(id) => SharedShopItem::Augment(id),
        ShopItem::UpgradeAugment => SharedShopItem::UpgradeAugment,
        ShopItem::Skill(s) => SharedShopItem::Skill(s),
        ShopItem::HealingPotion => SharedShopItem::HealingPotion,
        ShopItem::EnergyPotion => SharedShopItem::EnergyPotion,
        ShopItem::Talisman => SharedShopItem::Talisman,
    }
}

/// The shop line item for an offer.
pub fn shop_item_from_shared(item: SharedShopItem) -> (r: ShopItem)
    ensures
        r == shop_item_from_shared_spec(item),
{
    match item {
        SharedShopItem::Heal => ShopItem::Heal,
        SharedShopItem::RestoreEnergy => ShopItem::RestoreEnergy,
        SharedShopItem::IncreaseMaxHealth => ShopItem::IncreaseMaxHealth,
        SharedShopItem::IncreaseAttackPower => ShopItem::IncreaseAttackPower,
        SharedShopItem::ReduceDashCooldown => ShopItem::ReduceDashCooldown,
        SharedShopItem::IncreaseMoveSpeed => ShopItem::IncreaseMoveSpeed,
        SharedShopItem::IncreaseEnergyMax => ShopItem::IncreaseEnergyMax,
        SharedShopItem::IncreaseCritChance => ShopItem::IncreaseCritChance,
        SharedShopItem::IncreaseAttackSpeed => ShopItem::IncreaseAttackSpeed,
        SharedShopItem::Augment(id) => ShopItem::Augment(id),
        SharedShopItem::UpgradeAugment => ShopItem::UpgradeAugment,
        SharedShopItem::Skill(s) => ShopItem::Skill(s),
        SharedShopItem::HealingPotion => ShopItem::HealingPotion,
        SharedShopItem::EnergyPotion => ShopItem::EnergyPotion,
        SharedShopItem::Talisman => ShopItem::Talisman,
    }
}

/// The offer item for a shop line.
pub fn shared_shop_item_from_shop_item(item: ShopItem) -> (r: SharedShopItem)
    ensures
        r == shared_from_shop_item_spec(item),
{
    match item {
        ShopItem::Heal => SharedShopItem::Heal,
        ShopItem::RestoreEnergy => SharedShopItem::RestoreEnergy,
        ShopItem::IncreaseMaxHealth => SharedShopItem::IncreaseMaxHealth,
        ShopItem::IncreaseAttackPower => SharedShopItem::IncreaseAttackPower,
        ShopItem::ReduceDashCooldown => SharedShopItem::ReduceDashCooldown,
        ShopItem::IncreaseMoveSpeed => SharedShopItem::IncreaseMoveSpeed,
        ShopItem::IncreaseEnergyMax => SharedShopItem::IncreaseEnergyMax,
        ShopItem::IncreaseCritChance => SharedShopItem::IncreaseCritChance,
        ShopItem::IncreaseAttackSpeed => SharedShopItem::IncreaseAttackSpeed,
        ShopItem::Augment(id) => SharedShopItem::Augment(id),
        ShopItem::UpgradeAugment => SharedShopItem::UpgradeAugment,
        ShopItem::Skill(s) => SharedShopItem::Skill(s),
        ShopItem::HealingPotion => SharedShopItem::HealingPotion,
        ShopItem::EnergyPotion => SharedShopItem::EnergyPotion,
        ShopItem::Talisman => SharedShopItem::Talisman,
    }
}

/// Converting an offer item to a line item and back gives the offer item again, and the
/// other way round.
pub proof fn lemma_shop_item_round_trip(a: SharedShopItem, b: ShopItem)
    ensures
        shared_from_shop_item_spec(shop_item_from_shared_spec(a)) == a,
        shop_item_from_shared_spec(shared_from_shop_item_spec(b)) == b,
{
}

/// The price a shop line shows for an item whose base price is `base`: attribute upgrades
/// cost a little more than their base.
pub open spec fn line_price_spec(item: ShopItem, base: u32) -> int {
    match item {
        ShopItem::IncreaseMaxHealth => base + 10,
        ShopItem::IncreaseAttackPower => base + 12,
        ShopItem::ReduceDashCooldown => base + 12,
        ShopItem::IncreaseMoveSpeed => base + 10,
        ShopItem::IncreaseEnergyMax => base + 8,
        ShopItem::IncreaseCritChance => base + 14,
        ShopItem::IncreaseAttackSpeed => base + 14,
        _ => base as int,
    }
}

/// The title of a shop line for `item`.
pub open spec fn item_title_spec(item: ShopItem) -> Seq<char> {
    match item {
        ShopItem::Heal => "治疗药剂"@,
        ShopItem::RestoreEnergy => "能量药剂"@,
        ShopItem::IncreaseMaxHealth => "强健"@,
        ShopItem::IncreaseAttackPower => "锋刃"@,
        ShopItem::ReduceDashCooldown => "迅捷"@,
        ShopItem::IncreaseMoveSpeed => "轻灵"@,
        ShopItem::IncreaseEnergyMax => "充能"@,
        ShopItem::IncreaseCritChance => "锐眼"@,
        ShopItem::IncreaseAttackSpeed => "连击"@,
        ShopItem::Augment(_) => "强化"@,
        ShopItem::UpgradeAugment => "强化升级"@,
        ShopItem::Skill(_) => "终结技"@,
        ShopItem::HealingPotion => "回血药水"@,
        ShopItem::EnergyPotion => "能量药水"@,
        ShopItem::Talisman => "护身符"@,
    }
}

/// The short description of a shop line for `item`.
pub open spec fn item_summary_spec(item: ShopItem) -> Seq<char> {
    match item {
        ShopItem::Heal => "立即恢复生命"@,
        ShopItem::RestoreEnergy => "立即恢复能量"@,
        ShopItem::IncreaseMaxHealth => "提高生命上限"@,
        ShopItem::IncreaseAttackPower => "提高攻击伤害"@,
        ShopItem::ReduceDashCooldown => "缩短冲刺冷却"@,
        ShopItem::IncreaseMoveSpeed => "提高移动速度"@,
        ShopItem::IncreaseEnergyMax => "提高能量上限"@,
        ShopItem::IncreaseCritChance => "提高暴击率"@,
        ShopItem::IncreaseAttackSpeed => "提高攻击节奏"@,
        ShopItem::Augment(_) => "获得一个强化"@,
        ShopItem::UpgradeAugment => "随机升级一个未满级强化"@,
        ShopItem::Skill(_) => "装入终结技槽位"@,
        ShopItem::HealingPotion => "回复 40% 最大生命"@,
        ShopItem::EnergyPotion => "回复 60 能量"@,
        ShopItem::Talisman => "下次致命伤保留 1 HP"@,
    }
}

/// The title and longer description of `item` with its amounts.
pub open spec fn item_long_texts_spec(item: ShopItem) -> (Seq<char>, Seq<char>) {
    match item {
        ShopItem::Heal => ("治疗药剂"@, "立刻恢复 30% 最大生命"@),
        ShopItem::RestoreEnergy => ("能量药剂"@, "立刻恢复 50 能量"@),
        ShopItem::IncreaseMaxHealth => ("强健"@, "最大生命 +20"@),
        ShopItem::IncreaseAttackPower => ("锋刃"@, "攻击力 +5"@),
        ShopItem::ReduceDashCooldown => ("迅捷"@, "冲刺冷却 -15%"@),
        ShopItem::IncreaseMoveSpeed => ("轻盈"@, "移动速度 +30"@),
        ShopItem::IncreaseEnergyMax => ("充能"@, "最大能量 +25"@),
        ShopItem::IncreaseCritChance => ("锐眼"@, "暴击率 +8%"@),
        ShopItem::IncreaseAttackSpeed => ("连击"@, "攻速 +15%"@),
        ShopItem::Augment(_) => ("强化"@, "获得一个强化"@),
        ShopItem::UpgradeAugment => ("强化升级"@, "随机升级一个未满级强化"@),
        ShopItem::Skill(_) => ("终结技"@, "装入一个已解锁终结技槽位"@),
        ShopItem::HealingPotion => ("回血药水"@, "回复 40% 最大生命"@),
        ShopItem::EnergyPotion => ("能量药水"@, "回复 60 能量"@),
        ShopItem::Talisman => ("护身符"@, "下次致命伤保留 1 HP"@),
    }
}

/// Title, description and shown price of a shop line for `item` with base price `base_cost`.
pub fn describe_item_local(item: ShopItem, base_cost: u32) -> (r: (&'static str, &'static str, u32))
    requires
        base_cost + 14 <= u32::MAX,
    ensures
        r.0@ == item_title_spec(item),
        r.1@ == item_summary_spec(item),
        r.2 == line_price_spec(item, base_cost),
{
    match item {
        ShopItem::Heal => ("治疗药剂", "立即恢复生命", base_cost),
        ShopItem::RestoreEnergy => ("能量药剂", "立即恢复能量", base_cost),
        ShopItem::IncreaseMaxHealth => ("强健", "提高生命上限", base_cost + 10),
        ShopItem::IncreaseAttackPower => ("锋刃", "提高攻击伤害", base_cost + 12),
        ShopItem::ReduceDashCooldown => ("迅捷", "缩短冲刺冷却", base_cost + 12),
        ShopItem::IncreaseMoveSpeed => ("轻灵", "提高移动速度", base_cost + 10),
        ShopItem::IncreaseEnergyMax => ("充能", "提高能量上限", base_cost + 8),
        ShopItem::IncreaseCritChance => ("锐眼", "提高暴击率", base_cost + 14),
        ShopItem::IncreaseAttackSpeed => ("连击", "提高攻击节奏", base_cost + 14),
        ShopItem::Augment(_) => ("强化", "获得一个强化", base_cost),
        ShopItem::UpgradeAugment => ("强化升级", "随机升级一个未满级强化", base_cost),
        ShopItem::Skill(_) => ("终结技", "装入终结技槽位", base_cost),
        ShopItem::HealingPotion => ("回血药水", "回复 40% 最大生命", base_cost),
        ShopItem::EnergyPotion => ("能量药水", "回复 60 能量", base_cost),
        ShopItem::Talisman => ("护身符", "下次致命伤保留 1 HP", base_cost),
    }
}

/// The longer descriptions of the shop items, with their shown prices.
pub fn describe_item(item: ShopItem, base_cost: u32) -> (r: (&'static str, &'static str, u32))
    requires
        base_cost + 14 <= u32::MAX,
    ensures
        (r.0@, r.1@) == item_long_texts_spec(item),
        r.2 == line_price_spec(item, base_cost),
{
    match item {
        ShopItem::Heal => ("治疗药剂", "立刻恢复 30% 最大生命", base_cost),
        ShopItem::RestoreEnergy => ("能量药剂", "立刻恢复 50 能量", base_cost),
        ShopItem::IncreaseMaxHealth => ("强健", "最大生命 +20", base_cost + 10),
        ShopItem::IncreaseAttackPower => ("锋刃", "攻击力 +5", base_cost + 12),
        ShopItem::ReduceDashCooldown => ("迅捷", "冲刺冷却 -15%", base_cost + 12),
        ShopItem::IncreaseMoveSpeed => ("轻盈", "移动速度 +30", base_cost + 10),
        ShopItem::IncreaseEnergyMax => ("充能", "最大能量 +25", base_cost + 8),
        ShopItem::IncreaseCritChance => ("锐眼", "暴击率 +8%", base_cost + 14),
        ShopItem::IncreaseAttackSpeed => ("连击", "攻速 +15%", base_cost + 14),
        ShopItem::Augment(_) => ("强化", "获得一个强化", base_cost),
        ShopItem::UpgradeAugment => ("强化升级", "随机升级一个未满级强化", base_cost),
        ShopItem::Skill(_) => ("终结技", "装入一个已解锁终结技槽位", base_cost),
        ShopItem::HealingPotion => ("回血药水", "回复 40% 最大生命", base_cost),
        ShopItem::EnergyPotion => ("能量药水", "回复 60 能量", base_cost),
        ShopItem::Talisman => ("护身符", "下次致命伤保留 1 HP", base_cost),
    }
}

/// What a shop line is about: item, price and whether it is sold.
pub open spec fn line_key(l: ShopLine) -> (ShopItem, u32, bool) {
    (l.item, l.cost, l.purchased)
}

/// The keys of a section of lines.
pub open spec fn keys(v: Seq<ShopLine>) -> Seq<(ShopItem, u32, bool)> {
    v.map_values(|l: ShopLine| line_key(l))
}

/// The keys of the lines built from offers.
pub open spec fn offer_keys(v: Seq<ShopOfferDraft>) -> Seq<(ShopItem, u32, bool)> {
    v.map_values(|o: ShopOfferDraft| (shop_item_from_shared_spec(o.item), o.cost, o.purchased))
}

/// Two lines with the same texts and keys.
pub open spec fn same_line(a: ShopLine, b: ShopLine) -> bool {
    &&& a.title@ == b.title@
    &&& a.description@ == b.description@
    &&& line_key(a) == line_key(b)
}

/// Two sections with the same lines.
pub open spec fn same_lines(a: Seq<ShopLine>, b: Seq<ShopLine>) -> bool {
    &&& a.len() == b.len()
    &&& forall|i: int| 0 <= i < a.len() ==> #[trigger] same_line(a[i], b[i])
}

/// A copy of a shop line.
pub fn copy_line(l: &ShopLine) -> (r: ShopLine)
    ensures
        same_line(r, *l),
{
    ShopLine {
        title: l.title.clone(),
        description: l.description.clone(),
        cost: l.cost,
        item: l.item,
        purchased: l.purchased,
    }
}

/// A copy of a section of shop lines.
pub fn copy_lines(v: &Vec<ShopLine>) -> (r: Vec<ShopLine>)
    ensures
        same_lines(r@, v@),
{
    let mut r: Vec<ShopLine> = Vec::new();
    let mut i: usize = 0;
    while i < v.len()
        invariant
            i <= v@.len(),
            r@.len() == i,
            forall|k: int| 0 <= k < i ==> #[trigger] same_line(r@[k], v@[k]),
        decreases v@.len() - i,
    {
        r.push(copy_line(&v[i]));
        i = i + 1;
    }
    r
}

/// The title and description of an augment, from the first text the game data has for it.
pub fn augment_details(texts: &Vec<AugmentText>, id: AugmentId) -> (r: Option<(String, String)>)
    ensures
        match first_text(texts@, id) {
            Some(t) => r matches Some((title, description)) && title@ == t.title@ && description@ == t.description@,
            None => r is None,
        },
{
    let mut k: usize = 0;
    proof {
        assert(texts@.subrange(0, texts@.len() as int) =~= texts@);
    }
    while k < texts.len()
        invariant
            k <= texts@.len(),
            first_text(texts@.subrange(k as int, texts@.len() as int), id) == first_text(texts@, id),
        decreases texts@.len() - k,
    {
        proof {
            lemma_first_text_step(texts@, id, k as int);
        }
        if texts[k].id.0 == id.0 {
            return Some((texts[k].title.clone(), texts[k].description.clone()));
        }
        k = k + 1;
    }
    proof {
        assert(texts@.subrange(k as int, texts@.len() as int) =~= Seq::<AugmentText>::empty());
    }
    None
}

/// The texts a line shows for `item`: an augment's own title and description where the game
/// data has them, otherwise the item's fixed title and summary.
pub open spec fn line_texts(texts: Seq<AugmentText>, item: ShopItem) -> (Seq<char>, Seq<char>) {
    match item {
        ShopItem::Augment(id) => match first_text(texts, id) {
            Some(t) => (t.title@, t.description@),
            None => (item_title_spec(item), item_summary_spec(item)),
        },
        _ => (item_title_spec(item), item_summary_spec(item)),
    }
}

/// The lines of a section of offers: each line keeps the offer's item, price and sold
/// flag, with the augment's own text where the game data has it.
pub fn build_shop_section_lines(texts: &Vec<AugmentText>, offers: &Vec<ShopOfferDraft>) -> (v: Vec<ShopLine>)
    ensures
        keys(v@) == offer_keys(offers@),
        lines_show_texts(texts@, v@),
{
    let mut v: Vec<ShopLine> = Vec::new();
    let mut i: usize = 0;
    while i < offers.len()
        invariant
            i <= offers@.len(),
            v@.len() == i,
            forall|k: int| 0 <= k < i ==> #[trigger] line_key(v@[k]) == (shop_item_from_shared_spec(offers@[k].item), offers@[k].cost, offers@[k].purchased),
            forall|k: int| 0 <= k < i ==> line_texts(texts@, #[trigger] v@[k].item) == (v@[k].title@, v@[k].description@),
        decreases offers@.len() - i,
    {
        let offer = offers[i];
        let item = shop_item_from_shared(offer.item);
        let texts_found = match item {
            ShopItem::Augment(id) => augment_details(texts, id),
            _ => None,
        };
        let (title, description) = match texts_found {
            Some(td) => td,
            None => {
                let d = describe_item_local(item, 0);
                (owned(d.0), owned(d.1))
            },
        };
        v.push(ShopLine { title, description, cost: offer.cost, item, purchased: offer.purchased });
        i = i + 1;
    }
    proof {
        assert(keys(v@) =~= offer_keys(offers@));
    }
    v
}

/// The lines of a section of the shop.
pub open spec fn section_lines(o: ShopOffers, section: ShopSection) -> Seq<ShopLine> {
    match section {
        ShopSection::Attributes => o.lines@,
        ShopSection::Augments => o.augment_lines@,
        ShopSection::Utilities => o.utility_lines@,
    }
}

/// The lines of `section`.
pub fn shop_lines_for_section(offers: &ShopOffers, section: ShopSection) -> (v: &Vec<ShopLine>)
    ensures
        v@ == section_lines(*offers, section),
{
    match section {
        ShopSection::Attributes => &offers.lines,
        ShopSection::Augments => &offers.augment_lines,
        ShopSection::Utilities => &offers.utility_lines,
    }
}

/// The section and line a key picks: 1 to 4 the attributes, 5 to 9 the augment section,
/// 0, minus and equals the utilities.
pub fn shop_selection_from_key(key: ShopKey) -> (r: (ShopSection, usize))
    ensures
        r == match key {
            ShopKey::Digit1 => (ShopSection::Attributes, 0usize),
            ShopKey::Digit2 => (ShopSection::Attributes, 1usize),
            ShopKey::Digit3 => (ShopSection::Attributes, 2usize),
            ShopKey::Digit4 => (ShopSection::Attributes, 3usize),
            ShopKey::Digit5 => (ShopSection::Augments, 0usize),
            ShopKey::Digit6 => (ShopSection::Augments, 1usize),
            ShopKey::Digit7 => (ShopSection::Augments, 2usize),
            ShopKey::Digit8 => (ShopSection::Augments, 3usize),
            ShopKey::Digit9 => (ShopSection::Augments, 4usize),
            ShopKey::Digit0 => (ShopSection::Utilities, 0usize),
            ShopKey::Minus => (ShopSection::Utilities, 1usize),
            ShopKey::Equal => (ShopSection::Utilities, 2usize),
        },
{
    match key {
        ShopKey::Digit1 => (ShopSection::Attributes, 0),
        ShopKey::Digit2 => (ShopSection::Attributes, 1),
        ShopKey::Digit3 => (ShopSection::Attributes, 2),
        ShopKey::Digit4 => (ShopSection::Attributes, 3),
        ShopKey::Digit5 => (ShopSection::Augments, 0),
        ShopKey::Digit6 => (ShopSection::Augments, 1),
        ShopKey::Digit7 => (ShopSection::Augments, 2),
        ShopKey::Digit8 => (ShopSection::Augments, 3),
        ShopKey::Digit9 => (ShopSection::Augments, 4),
        ShopKey::Digit0 => (ShopSection::Utilities, 0),
        ShopKey::Minus => (ShopSection::Utilities, 1),
        ShopKey::Equal => (ShopSection::Utilities, 2),
    }
}

/// Whether the cache holds a shop for `room`.
pub open spec fn cache_has(rooms: Map<u32, CachedShopState>, room: RoomId) -> bool {
    rooms.contains_key(room.0)
}

/// A cached shop holds the same lines and refresh count as the shop screen.
pub open spec fn cached_matches(c: CachedShopState, o: ShopOffers) -> bool {
    &&& same_lines(c.lines@, o.lines@)
    &&& same_lines(c.augment_lines@, o.augment_lines@)
    &&& same_lines(c.utility_lines@, o.utility_lines@)
    &&& c.refresh_count == o.refresh_count
}

/// The shop screen shows the cached shop.
pub open spec fn offers_show(o: ShopOffers, c: CachedShopState) -> bool {
    &&& same_lines(o.lines@, c.lines@)
    &&& same_lines(o.augment_lines@, c.augment_lines@)
    &&& same_lines(o.utility_lines@, c.utility_lines@)
    &&& o.refresh_count == c.refresh_count
}

/// After `store`: `room` is cached with the shop screen's lines, and every other room keeps
/// what it had.
pub open spec fn cache_stored(old_rooms: Map<u32, CachedShopState>, new_rooms: Map<u32, CachedShopState>, room: RoomId, o: ShopOffers) -> bool {
    &&& new_rooms.contains_key(room.0)
    &&& cached_matches(new_rooms[room.0], o)
    &&& new_rooms == old_rooms.insert(room.0, new_rooms[room.0])
}

impl ShopOfferCache {
    /// An empty cache.
    pub fn new() -> (c: ShopOfferCache)
        ensures
            c.rooms@ == Map::<u32, CachedShopState>::empty(),
    {
        ShopOfferCache { rooms: HashMap::new() }
    }

    /// Forget every cached shop, as on a new floor.
    pub fn clear(&mut self)
        ensures
            final(self).rooms@ == Map::<u32, CachedShopState>::empty(),
    {
        self.rooms.clear();
    }

    /// The cached shop of `room`, if there is one.
    pub fn find(&self, room: RoomId) -> (r: Option<&CachedShopState>)
        ensures
            match r {
                Some(c) => cache_has(self.rooms@, room) && *c == self.rooms@[room.0],
                None => !cache_has(self.rooms@, room),
            },
    {
        broadcast use vstd::std_specs::hash::group_hash_axioms;
        self.rooms.get(&room.0)
    }

    /// Cache the shop screen's lines as the shop of `room`.
    pub fn store(&mut self, room: RoomId, offers: &ShopOffers)
        ensures
            cache_stored(old(self).rooms@, final(self).rooms@, room, *offers),
    {
        broadcast use vstd::std_specs::hash::group_hash_axioms;
        let state = CachedShopState {
            lines: copy_lines(&offers.lines),
            augment_lines: copy_lines(&offers.augment_lines),
            utility_lines: copy_lines(&offers.utility_lines),
            refresh_count: offers.refresh_count,
        };
        let _ = self.rooms.insert(room.0, state);
    }
}

/// The shop screen shows a fresh draft of `catalog` for `room`: the sections' items,
/// prices and sold flags are those of the draft's offers.
pub open spec fn shows_draft(o: ShopOffers, room: RoomId, catalog: ShopCatalog, counts: ShopPurchaseCounts, refresh_count: int) -> bool {
    &&& o.room == Some(room)
    &&& o.refresh_count == refresh_count
    &&& keys(o.lines@) == offer_keys(crate::session::attribute_offers_spec(counts, catalog.prices))
    &&& keys(o.utility_lines@) == offer_keys(crate::session::utility_offers_spec(catalog.prices))
    &&& exists|drawn: Seq<ShopOfferDraft>| #[trigger] crate::session::augment_section_for(drawn, catalog_stock(catalog), catalog.prices)
        && keys(o.augment_lines@) == offer_keys(drawn)
    &&& offers_show_texts(catalog_texts(catalog), o)
}

impl ShopOffers {
    /// An empty shop screen.
    pub fn new() -> (o: ShopOffers)
        ensures
            o.room.is_none(),
            o.lines@.len() == 0,
            o.augment_lines@.len() == 0,
            o.utility_lines@.len() == 0,
            o.refresh_count == 0,
    {
        ShopOffers { room: None, lines: Vec::new(), augment_lines: Vec::new(), utility_lines: Vec::new(), refresh_count: 0 }
    }

    /// Empty the shop screen, as on a new floor.
    pub fn clear(&mut self)
        ensures
            final(self).room.is_none(),
            final(self).lines@.len() == 0,
            final(self).augment_lines@.len() == 0,
            final(self).utility_lines@.len() == 0,
            final(self).refresh_count == 0,
    {
        self.room = None;
        self.lines.clear();
        self.augment_lines.clear();
        self.utility_lines.clear();
        self.refresh_count = 0;
    }
}

/// A new floor forgets the shops of the last one.
pub fn reset_shop_state_on_new_floor(offers: &mut ShopOffers, cache: &mut ShopOfferCache)
    ensures
        final(offers).room.is_none(),
        final(offers).lines@.len() == 0,
        final(offers).augment_lines@.len() == 0,
        final(offers).utility_lines@.len() == 0,
        final(offers).refresh_count == 0,
        final(cache).rooms@ == Map::<u32, CachedShopState>::empty(),
{
    offers.clear();
    cache.clear();
}

fn show_draft(offers: &mut ShopOffers, texts: &Vec<AugmentText>, draft: &crate::session::ShopDraft, room: RoomId)
    ensures
        final(offers).room == Some(room),
        final(offers).refresh_count == draft.refresh_count,
        keys(final(offers).lines@) == offer_keys(draft.offers@),
        keys(final(offers).augment_lines@) == offer_keys(draft.augment_offers@),
        keys(final(offers).utility_lines@) == offer_keys(draft.utility_offers@),
        offers_show_texts(texts@, *final(offers)),
{
    offers.room = Some(room);
    offers.refresh_count = draft.refresh_count;
    offers.lines = build_shop_section_lines(texts, &draft.offers);
    offers.augment_lines = build_shop_section_lines(texts, &draft.augment_offers);
    offers.utility_lines = build_shop_section_lines(texts, &draft.utility_offers);
}

fn show_catalog_draft(offers: &mut ShopOffers, catalog: &ShopCatalog, draft: &crate::session::ShopDraft, room: RoomId)
    ensures
        final(offers).room == Some(room),
        final(offers).refresh_count == draft.refresh_count,
        keys(final(offers).lines@) == offer_keys(draft.offers@),
        keys(final(offers).augment_lines@) == offer_keys(draft.augment_offers@),
        keys(final(offers).utility_lines@) == offer_keys(draft.utility_offers@),
        offers_show_texts(catalog_texts(*catalog), *final(offers)),
{
    match &catalog.data {
        Some(d) => show_draft(offers, &d.augment_texts, draft, room),
        None => {
            let no_texts: Vec<AugmentText> = Vec::new();
            show_draft(offers, &no_texts, draft, room);
            proof {
                assert(no_texts@ =~= catalog_texts(*catalog));
            }
        },
    }
}

/// Open the shop of `room`: a shop already seen on this floor comes back as it was left;
/// otherwise a fresh draft is shown and cached.
pub fn generate_shop_offers(
    offers: &mut ShopOffers,
    cache: &mut ShopOfferCache,
    catalog: &ShopCatalog,
    rng: &mut GameRng,
    room: RoomId,
    counts: ShopPurchaseCounts,
)
    requires
        attribute_prices_fit(counts, catalog.prices),
    ensures
        final(offers).room == Some(room),
        cache_has(old(cache).rooms@, room) ==> final(cache).rooms@ == old(cache).rooms@
            && offers_show(*final(offers), old(cache).rooms@[room.0]),
        !cache_has(old(cache).rooms@, room) ==> shows_draft(*final(offers), room, *catalog, counts, 0)
            && cache_stored(old(cache).rooms@, final(cache).rooms@, room, *final(offers)),
{
    match cache.find(room) {
        Some(cached) => {
            offers.room = Some(room);
            offers.lines = copy_lines(&cached.lines);
            offers.augment_lines = copy_lines(&cached.augment_lines);
            offers.utility_lines = copy_lines(&cached.utility_lines);
            offers.refresh_count = cached.refresh_count;
        },
        None => {
            let draft = match &catalog.data {
                Some(d) => build_shop_draft(counts, &catalog.prices, Some((&d.augments, &d.skills)), rng),
                None => build_shop_draft(counts, &catalog.prices, None, rng),
            };
            show_catalog_draft(offers, catalog, &draft, room);
            cache.store(room, offers);
            proof {
                assert(crate::session::augment_section_for(draft.augment_offers@, catalog_stock(*catalog), catalog.prices));
            }
        },
    }
}

/// Refresh the shop of the current room: a fresh draft with the refresh counted, cached
/// for the room.
pub fn refresh_shop_offers(
    offers: &mut ShopOffers,
    cache: &mut ShopOfferCache,
    catalog: &ShopCatalog,
    rng: &mut GameRng,
    room: RoomId,
    counts: ShopPurchaseCounts,
)
    requires
        attribute_prices_fit(counts, catalog.prices),
    ensures
        shows_draft(*final(offers), room, *catalog, counts,
            if old(offers).refresh_count < u32::MAX { old(offers).refresh_count + 1 } else { u32::MAX as int }),
        cache_stored(old(cache).rooms@, final(cache).rooms@, room, *final(offers)),
{
    let draft = match &catalog.data {
        Some(d) => refresh_shop_draft(offers.refresh_count, counts, &catalog.prices, Some((&d.augments, &d.skills)), rng),
        None => refresh_shop_draft(offers.refresh_count, counts, &catalog.prices, None, rng),
    };
    show_catalog_draft(offers, catalog, &draft, room);
    cache.store(room, offers);
    proof {
        assert(crate::session::augment_section_for(draft.augment_offers@, catalog_stock(*catalog), catalog.prices));
    }
}

/// Whether a shop line can be bought.
#[derive(Debug, Clone, Copy, PartialEq, Eq, Structural)]
pub enum PurchaseCheck {
    NoSuchLine,
    AlreadyPurchased,
    InsufficientGold { cost: u32, current: u32 },
    Ready { item: ShopItem, cost: u32 },
}

pub open spec fn purchase_check_spec(o: ShopOffers, section: ShopSection, index: usize, gold: u32) -> PurchaseCheck {
    let lines = section_lines(o, section);
    if index >= lines.len() {
        PurchaseCheck::NoSuchLine
    } else if lines[index as int].purchased {
        PurchaseCheck::AlreadyPurchased
    } else if gold < lines[index as int].cost {
        PurchaseCheck::InsufficientGold { cost: lines[index as int].cost, current: gold }
    } else {
        PurchaseCheck::Ready { item: lines[index as int].item, cost: lines[index as int].cost }
    }
}

/// Whether line `index` of `section` exists, is still for sale, and is affordable with `gold`.
pub fn check_purchase(offers: &ShopOffers, section: ShopSection, index: usize, gold: u32) -> (r: PurchaseCheck)
    ensures
        r == purchase_check_spec(*offers, section, index, gold),
{
    let lines = shop_lines_for_section(offers, section);
    if index >= lines.len() {
        return PurchaseCheck::NoSuchLine;
    }
    let line = &lines[index];
    if line.purchased {
        PurchaseCheck::AlreadyPurchased
    } else if gold < line.cost {
        PurchaseCheck::InsufficientGold { cost: line.cost, current: gold }
    } else {
        PurchaseCheck::Ready { item: line.item, cost: line.cost }
    }
}

/// The lines of `section` after line `index` was sold: the same lines, that one marked sold.
pub open spec fn sold_in(before: Seq<ShopLine>, after: Seq<ShopLine>, index: int) -> bool {
    &&& after.len() == before.len()
    &&& forall|i: int| 0 <= i < before.len() && i != index ==> #[trigger] same_line(after[i], before[i])
    &&& after[index].title@ == before[index].title@
    &&& after[index].description@ == before[index].description@
    &&& after[index].item == before[index].item
    &&& after[index].cost == before[index].cost
    &&& after[index].purchased
}

fn mark_sold(lines: &mut Vec<ShopLine>, index: usize)
    requires
        index < old(lines)@.len(),
    ensures
        sold_in(old(lines)@, final(lines)@, index as int),
{
    let mut line = lines.remove(index);
    line.purchased = true;
    lines.insert(index, line);
}

/// Line `index` of `section` was paid for (`g0` to `g1`) and marked sold; nothing else of the
/// shop changed, and the room's cached shop follows.
pub open spec fn purchase_completed(
    o0: ShopOffers,
    o1: ShopOffers,
    c0: Map<u32, CachedShopState>,
    c1: Map<u32, CachedShopState>,
    section: ShopSection,
    index: usize,
    g0: u32,
    g1: u32,
) -> bool {
    &&& g1 == g0 - section_lines(o0, section)[index as int].cost
    &&& sold_in(section_lines(o0, section), section_lines(o1, section), index as int)
    &&& forall|other: ShopSection| other != section ==> #[trigger] section_lines(o1, other) == section_lines(o0, other)
    &&& o1.room == o0.room
    &&& o1.refresh_count == o0.refresh_count
    &&& match o0.room {
        Some(room) => cache_stored(c0, c1, room, o1),
        None => c1 == c0,
    }
}

/// Pay for line `index` of `section` and mark it sold; the room's cached shop follows.
pub fn complete_purchase(
    offers: &mut ShopOffers,
    cache: &mut ShopOfferCache,
    section: ShopSection,
    index: usize,
    gold: &mut u32,
)
    requires
        purchase_check_spec(*old(offers), section, index, *old(gold)) is Ready,
    ensures
        purchase_completed(*old(offers), *final(offers), old(cache).rooms@, final(cache).rooms@, section, index,
            *old(gold), *final(gold)),
{
    let cost = match section {
        ShopSection::Attributes => offers.lines[index].cost,
        ShopSection::Augments => offers.augment_lines[index].cost,
        ShopSection::Utilities => offers.utility_lines[index].cost,
    };
    *gold = *gold - cost;
    match section {
        ShopSection::Attributes => mark_sold(&mut offers.lines, index),
        ShopSection::Augments => mark_sold(&mut offers.augment_lines, index),
        ShopSection::Utilities => mark_sold(&mut offers.utility_lines, index),
    }
    if let Some(room) = offers.room {
        cache.store(room, offers);
    }
}

/// Whether a refresh is affordable, and its price.
#[derive(Debug, Clone, Copy, PartialEq, Eq, Structural)]
pub enum RefreshCheck {
    Affordable { cost: u32 },
    TooExpensive { cost: u32, current: u32 },
}

/// The price of the next refresh of a shop refreshed `refresh_count` times, and whether
/// `gold` covers it.
pub fn check_refresh(refresh_count: u32, gold: u32) -> (r: RefreshCheck)
    ensures
        match r {
            RefreshCheck::Affordable { cost } => cost <= gold
                && cost == (if refresh_cost_spec(refresh_count) <= u32::MAX { refresh_cost_spec(refresh_count) } else { u32::MAX as int }),
            RefreshCheck::TooExpensive { cost, current } => current == gold && gold < cost
                && cost == (if refresh_cost_spec(refresh_count) <= u32::MAX { refresh_cost_spec(refresh_count) } else { u32::MAX as int }),
        },
{
    let cost = next_refresh_cost(refresh_count);
    if gold < cost {
        RefreshCheck::TooExpensive { cost, current: gold }
    } else {
        RefreshCheck::Affordable { cost }
    }
}

/// What the shop screen answers to a request.
#[derive(Debug)]
pub enum ShopOutcome {
    /// Leave the shop.
    Exit,
    /// Nothing to do.
    Ignored,
    /// The player cannot afford it; stay in the shop with this warning.
    Warning(UiFeedback),
    /// The line is already sold.
    AlreadyPurchased,
    /// The shop was refreshed for this price.
    Refreshed { cost: u32 },
    /// The line may be bought: the caller applies the item and then calls `complete_purchase`.
    Purchase { section: ShopSection, index: usize, item: ShopItem, cost: u32 },
}

/// Decide a request of the shop screen: leave; refresh when affordable (paying for it and
/// showing a fresh draft) or warn; or check a line for purchase.
pub fn handle_shop_action(
    action: ShopUiAction,
    offers: &mut ShopOffers,
    cache: &mut ShopOfferCache,
    catalog: &ShopCatalog,
    rng: &mut GameRng,
    counts: ShopPurchaseCounts,
    gold: &mut u32,
) -> (out: ShopOutcome)
    requires
        attribute_prices_fit(counts, catalog.prices),
    ensures
        match action {
            ShopUiAction::Exit => out is Exit && *final(gold) == *old(gold) && final(cache).rooms@ == old(cache).rooms@,
            ShopUiAction::Refresh => match old(offers).room {
                None => out is Ignored && *final(gold) == *old(gold),
                Some(room) => {
                    let cost = if refresh_cost_spec(old(offers).refresh_count) <= u32::MAX { refresh_cost_spec(old(offers).refresh_count) } else { u32::MAX as int };
                    if *old(gold) < cost {
                        *final(gold) == *old(gold) && (match out {
                            ShopOutcome::Warning(f) => gold_warning_spec(f, cost as u32, *old(gold), crate::states::GamePhase::Shop),
                            _ => false,
                        })
                    } else {
                        *final(gold) == *old(gold) - cost && out == (ShopOutcome::Refreshed { cost: cost as u32 })
                            && shows_draft(*final(offers), room, *catalog, counts,
                                if old(offers).refresh_count < u32::MAX { old(offers).refresh_count + 1 } else { u32::MAX as int })
                            && cache_stored(old(cache).rooms@, final(cache).rooms@, room, *final(offers))
                    }
                },
            },
            ShopUiAction::Select(section, index) => *final(gold) == *old(gold) && final(cache).rooms@ == old(cache).rooms@
                && match purchase_check_spec(*old(offers), section, index, *old(gold)) {
                    PurchaseCheck::NoSuchLine => out is Ignored,
                    PurchaseCheck::AlreadyPurchased => out is AlreadyPurchased,
                    PurchaseCheck::InsufficientGold { cost, current } => match out {
                        ShopOutcome::Warning(f) => gold_warning_spec(f, cost, current, crate::states::GamePhase::Shop),
                        _ => false,
                    },
                    PurchaseCheck::Ready { item, cost } => out == (ShopOutcome::Purchase { section, index, item, cost }),
                },
        },
{
    match action {
        ShopUiAction::Exit => ShopOutcome::Exit,
        ShopUiAction::Refresh => {
            let room = match offers.room {
                Some(room) => room,
                None => {
                    return ShopOutcome::Ignored;
                },
            };
            match check_refresh(offers.refresh_count, *gold) {
                RefreshCheck::TooExpensive { cost, current } => ShopOutcome::Warning(shop_warning_feedback(cost, current)),
                RefreshCheck::Affordable { cost } => {
                    *gold = *gold - cost;
                    refresh_shop_offers(offers, cache, catalog, rng, room, counts);
                    ShopOutcome::Refreshed { cost }
                },
            }
        },
        ShopUiAction::Select(section, index) => match check_purchase(offers, section, index, *gold) {
            PurchaseCheck::NoSuchLine => ShopOutcome::Ignored,
            PurchaseCheck::AlreadyPurchased => ShopOutcome::AlreadyPurchased,
            PurchaseCheck::InsufficientGold { cost, current } => ShopOutcome::Warning(shop_warning_feedback(cost, current)),
            PurchaseCheck::Ready { item, cost } => ShopOutcome::Purchase { section, index, item, cost },
        },
    }
}


/// How a skill bought in the shop is settled once it was slotted.
#[derive(Debug)]
pub enum SkillSettlement {
    /// The player can no longer pay: nothing is charged, and this warning is shown.
    Warning(UiFeedback),
    /// The price was paid and the line marked sold.
    Settled,
}

/// Settle a skill bought in the shop after it was slotted: with enough gold the price is
/// paid, the line (when it still exists) is marked sold, and the room's cached shop follows;
/// otherwise nothing changes and the player is warned.
pub fn settle_skill_purchase(
    offers: &mut ShopOffers,
    cache: &mut ShopOfferCache,
    section: ShopSection,
    index: usize,
    cost: u32,
    gold: &mut u32,
) -> (r: SkillSettlement)
    requires
    ensures
        *old(gold) < cost ==> *final(gold) == *old(gold) && final(cache).rooms@ == old(cache).rooms@
            && (forall|s: ShopSection| #[trigger] section_lines(*final(offers), s) == section_lines(*old(offers), s))
            && (match r {
                SkillSettlement::Warning(f) => gold_warning_spec(f, cost, *old(gold), crate::states::GamePhase::Shop),
                SkillSettlement::Settled => false,
            }),
        *old(gold) >= cost ==> {
            &&& r is Settled
            &&& *final(gold) == *old(gold) - cost
            &&& index < section_lines(*old(offers), section).len() ==>
                sold_in(section_lines(*old(offers), section), section_lines(*final(offers), section), index as int)
            &&& index >= section_lines(*old(offers), section).len() ==>
                section_lines(*final(offers), section) == section_lines(*old(offers), section)
            &&& forall|other: ShopSection| other != section ==> #[trigger] section_lines(*final(offers), other) == section_lines(*old(offers), other)
            &&& match old(offers).room {
                Some(room) => cache_stored(old(cache).rooms@, final(cache).rooms@, room, *final(offers)),
                None => final(cache).rooms@ == old(cache).rooms@,
            }
        },
        final(offers).room == old(offers).room,
        final(offers).refresh_count == old(offers).refresh_count,
{
    if *gold < cost {
        return SkillSettlement::Warning(shop_warning_feedback(cost, *gold));
    }
    *gold = *gold - cost;
    match section {
        ShopSection::Attributes => if index < offers.lines.len() { mark_sold(&mut offers.lines, index) },
        ShopSection::Augments => if index < offers.augment_lines.len() { mark_sold(&mut offers.augment_lines, index) },
        ShopSection::Utilities => if index < offers.utility_lines.len() { mark_sold(&mut offers.utility_lines, index) },
    }
    if let Some(room) = offers.room {
        cache.store(room, offers);
    }
    SkillSettlement::Settled
}


/// Whether the shop screen opens in the current room: never during a room transition or
/// outside a shop room; otherwise the first time the room is entered, or when the player
/// interacts at the kiosk. The room is then remembered as seen.
pub fn shop_entry(
    seen: &mut Vec<RoomId>,
    transition_active: bool,
    room_type: Option<RoomType>,
    room: RoomId,
    room_entered: bool,
    interact_at_kiosk: bool,
) -> (opens: bool)
    ensures
        opens == (!transition_active && room_type == Some(RoomType::Shop)
            && ((room_entered && !old(seen)@.contains(room)) || interact_at_kiosk)),
        opens ==> final(seen)@ == (if old(seen)@.contains(room) { old(seen)@ } else { old(seen)@.push(room) }),
        !opens ==> final(seen)@ == old(seen)@,
{
    if transition_active {
        return false;
    }
    let is_shop = match room_type {
        Some(t) => t == RoomType::Shop,
        None => false,
    };
    if !is_shop {
        return false;
    }
    let mut known = false;
    let mut i: usize = 0;
    while i < seen.len()
        invariant
            i <= seen@.len(),
            known == (exists|j: int| 0 <= j < i && seen@[j] == room),
        decreases seen@.len() - i,
    {
        if seen[i].0 == room.0 {
            proof {
                assert(seen@[i as int] == room);
            }
            known = true;
        }
        i = i + 1;
    }
    let auto_open = room_entered && !known;
    if !(auto_open || interact_at_kiosk) {
        return false;
    }
    if !known {
        seen.push(room);
    }
    true
}

/// What settling a shop purchase came to.
#[derive(Debug, Clone)]
pub enum ShopSettlement {
    /// The line was paid for and marked sold; the card reports the purchase.
    Bought(EventReport),
    /// The item would have no effect now: nothing is paid or changed.
    NoEffect,
    /// An augment upgrade while no held augment can be raised: nothing is paid or changed.
    NothingToUpgrade,
    /// A skill: the player picks its slot first, then the purchase is settled.
    ChooseSkill(SkillType),
}

/// The held augment at `k` is the first one still below its stack limit.
pub open spec fn first_raisable_at(augments: Seq<AugmentEntry>, held: Seq<HeldAugment>, k: int) -> bool {
    &&& 0 <= k < held.len()
    &&& held[k].stacks < stack_cap(augments, held[k].id)
    &&& forall|j: int| 0 <= j < k ==> (#[trigger] held[j]).stacks >= stack_cap(augments, held[j].id)
}

/// A card titled "购买成功" whose lines are the gold paid and the grant of `id`.
pub open spec fn bought_augment(r: ShopSettlement, cost: u32, augments: Seq<AugmentEntry>, h0: Seq<HeldAugment>, h1: Seq<HeldAugment>, id: AugmentId) -> bool {
    &&& r matches ShopSettlement::Bought(rep)
    &&& rep.title@ == "购买成功"@ && rep.severity == UiFeedbackSeverity::Success
    &&& rep.requires_ack && rep.return_phase == GamePhase::Playing
    &&& rep.lines@.len() == 2
    &&& text_line(rep.lines@[0], gold_spent_line(cost))
    &&& granted_line(h0, h1, id, stack_cap(augments, id), rep.lines@[1])
}

fn first_raisable(inventory: &AugmentInventory, augments: &Vec<AugmentEntry>) -> (r: Option<usize>)
    ensures
        match r {
            Some(k) => first_raisable_at(augments@, inventory.augments@, k as int),
            None => forall|j: int| 0 <= j < inventory.augments@.len()
                ==> (#[trigger] inventory.augments@[j]).stacks >= stack_cap(augments@, inventory.augments@[j].id),
        },
{
    let mut k: usize = 0;
    while k < inventory.augments.len()
        invariant
            k <= inventory.augments@.len(),
            forall|j: int| 0 <= j < k ==> (#[trigger] inventory.augments@[j]).stacks >= stack_cap(augments@, inventory.augments@[j].id),
        decreases inventory.augments@.len() - k,
    {
        let cap = stack_cap_of(augments, inventory.augments[k].id);
        if inventory.augments[k].stacks < cap {
            return Some(k);
        }
        k = k + 1;
    }
    None
}

fn bought_card(lines: Vec<EventLine>) -> (r: ShopSettlement)
    ensures
        r matches ShopSettlement::Bought(rep) && rep.title@ == "购买成功"@ && rep.severity == UiFeedbackSeverity::Success
            && rep.requires_ack && rep.return_phase == GamePhase::Playing && rep.lines@ == lines@,
{
    ShopSettlement::Bought(EventReport {
        title: owned("购买成功"),
        lines,
        severity: UiFeedbackSeverity::Success,
        requires_ack: true,
        return_phase: GamePhase::Playing,
    })
}

/// Settle the purchase of line `index` of `section`, which is for sale and affordable. A
/// skill waits for its slot. An augment is granted; an augment upgrade raises the first held
/// augment below its stack limit, and without one nothing happens. Any other item is
/// recorded in the tally, and without effect (`room` tells which capped attributes still
/// have headroom) nothing is paid. Otherwise the line is paid for and marked sold, and a
/// card reports the gold paid and what was bought.
pub fn settle_shop_purchase(
    offers: &mut ShopOffers,
    cache: &mut ShopOfferCache,
    section: ShopSection,
    index: usize,
    gold: &mut u32,
    tally: &mut ShopTally,
    room: ShopHeadroom,
    inventory: &mut AugmentInventory,
    augments: &Vec<AugmentEntry>,
) -> (r: ShopSettlement)
    requires
        purchase_check_spec(*old(offers), section, index, *old(gold)) is Ready,
    ensures
        ({
            let line = section_lines(*old(offers), section)[index as int];
            let h0 = old(inventory).augments@;
            let h1 = final(inventory).augments@;
            let done = purchase_completed(*old(offers), *final(offers), old(cache).rooms@, final(cache).rooms@,
                section, index, *old(gold), *final(gold));
            let kept = *final(gold) == *old(gold) && *final(offers) == *old(offers)
                && final(cache).rooms@ == old(cache).rooms@;
            match line.item {
                ShopItem::Skill(sk) => r == ShopSettlement::ChooseSkill(sk) && kept && h1 == h0
                    && *final(tally) == *old(tally),
                ShopItem::UpgradeAugment => *final(tally) == *old(tally) && if exists|k: int| #[trigger] first_raisable_at(augments@, h0, k) {
                    exists|k: int| #[trigger] first_raisable_at(augments@, h0, k)
                        && bought_augment(r, line.cost, augments@, h0, h1, h0[k].id) && done
                } else {
                    r == ShopSettlement::NothingToUpgrade && kept && h1 == h0
                },
                ShopItem::Augment(id) => bought_augment(r, line.cost, augments@, h0, h1, id) && done
                    && *final(tally) == *old(tally),
                _ => {
                    let (t1, res) = shop_purchase_spec(shared_from_shop_item_spec(line.item), *old(tally), room);
                    &&& *final(tally) == t1 && h1 == h0
                    &&& if res == ShopPurchaseResult::NoEffect {
                        r == ShopSettlement::NoEffect && kept
                    } else {
                        &&& done
                        &&& r matches ShopSettlement::Bought(rep)
                        &&& rep.title@ == "购买成功"@ && rep.severity == UiFeedbackSeverity::Success
                        &&& rep.requires_ack && rep.return_phase == GamePhase::Playing
                        &&& rep.lines@.len() == 3
                        &&& text_line(rep.lines@[0], gold_spent_line(line.cost))
                        &&& text_line(rep.lines@[1], line.title@)
                        &&& text_line(rep.lines@[2], line.description@)
                    }
                },
            }
        }),
{
    let lines_ref = shop_lines_for_section(offers, section);
    let item = lines_ref[index].item;
    let cost = lines_ref[index].cost;
    match item {
        ShopItem::Skill(sk) => ShopSettlement::ChooseSkill(sk),
        ShopItem::UpgradeAugment => {
            let ghost h0 = inventory.augments@;
            match first_raisable(inventory, augments) {
                None => ShopSettlement::NothingToUpgrade,
                Some(k) => {
                    let id = inventory.augments[k].id;
                    let cap = stack_cap_of(augments, id);
                    let g = inventory.grant(id, cap);
                    let mut lines: Vec<EventLine> = Vec::new();
                    lines.push(EventLine::Text(gold_spent_text(cost)));
                    lines.push(EventLine::Granted(g));
                    complete_purchase(offers, cache, section, index, gold);
                    let r = bought_card(lines);
                    proof {
                        assert(first_raisable_at(augments@, h0, k as int));
                    }
                    r
                },
            }
        },
        ShopItem::Augment(id) => {
            let cap = stack_cap_of(augments, id);
            let g = inventory.grant(id, cap);
            let mut lines: Vec<EventLine> = Vec::new();
            lines.push(EventLine::Text(gold_spent_text(cost)));
            lines.push(EventLine::Granted(g));
            complete_purchase(offers, cache, section, index, gold);
            bought_card(lines)
        },
        _ => {
            let res = apply_shop_purchase(shared_shop_item_from_shop_item(item), tally, room);
            if res == ShopPurchaseResult::NoEffect {
                return ShopSettlement::NoEffect;
            }
            let lines_ref = shop_lines_for_section(offers, section);
            let title = lines_ref[index].title.clone();
            let description = lines_ref[index].description.clone();
            let mut lines: Vec<EventLine> = Vec::new();
            lines.push(EventLine::Text(gold_spent_text(cost)));
            lines.push(EventLine::Text(title));
            lines.push(EventLine::Text(description));
            complete_purchase(offers, cache, section, index, gold);
            bought_card(lines)
        },
    }
}

} // verus!
