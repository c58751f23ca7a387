use vstd::prelude::*;

use crate::event::{
    is_puzzle_spec, ActiveEvent, augment_definition, augment_definition_spec, augment_pool_from_puzzle, is_combat_spec, AugmentPool, EventChoicePayload,
    EventInputOutcome, EventType,
};
use crate::event_choices::{combat_event_reward, combat_reward_spec, drawn_id, pick_random_augment};
use crate::feedback::{gold_shortage_line, gold_shortage_text, gold_spent_line, gold_spent_text, UiFeedbackSeverity};
use crate::progression::{level_up_fits, thresholds_reached_positive, level_up_spec, xp_threshold, xp_threshold_spec, PlayerLevel};
use crate::map::RoomId;
use crate::puzzle::{is_idle_puzzle, reward_to_apply_spec, ActivePuzzle, PuzzleKind, PuzzleRewardPool};
use crate::rewards::{first_held_at, grant_result, granted_into, holds, AugmentInventory, AugmentGrant, HeldAugment};
use crate::rng::GameRng;
use crate::session::{AugmentEntry, AugmentId};
use crate::states::GamePhase;
use crate::text::{concat_str, decimal_spec, decimal_string, owned};

verus! {

/// A change to the player's health and energy. Both are fractional, so the caller applies
/// the change and reports it where the report has `EventLine::Body`.
#[derive(Debug, Clone, Copy, PartialEq, Eq, Structural)]
pub enum BodyChange {
    /// Nothing changes.
    Unchanged,
    /// Health falls by this percent of itself, staying between 1 and the maximum.
    LoseHealthPercent(u32),
    /// Health rises by `hp_percent` of its maximum, and energy by `energy_flat` plus
    /// `energy_percent` of its maximum, neither above its maximum. What changed is
    /// reported, or else that both were already full.
    SpringRestore { hp_percent: u32, energy_flat: u32, energy_percent: u32 },
    /// Health rises by this percent of its maximum, not above it.
    RestHeal(u32),
    /// Health falls by `hp_basis_points` ten-thousandths of itself (to at least 1) and energy
    /// by `energy_cost` (to at least 0).
    AltarToll { hp_basis_points: u32, energy_cost: u32 },
    /// Maximum health falls to this percent of itself (at least 1); current health stays
    /// within the new maximum and at least 1.
    ShrinkMaxHealthPercent(u32),
    /// Nothing changes: the choice costs this much energy and the player holds less. The
    /// report tells the energy needed and the energy held.
    EnergyShortage(u32),
}

/// A line of what the player is told after an event choice.
#[derive(Debug, Clone)]
pub enum EventLine {
    /// A line of text.
    Text(String),
    /// The lines that report the body change.
    Body,
    /// An augment given up, named after `prefix`.
    Removed { prefix: String, id: AugmentId },
    /// The lines that report a grant: gained, raised, or already at its limit.
    Granted(AugmentGrant),
}

/// What the player is told after an event choice.
#[derive(Debug, Clone)]
pub struct EventReport {
    pub title: String,
    pub lines: Vec<EventLine>,
    pub severity: UiFeedbackSeverity,
    pub requires_ack: bool,
    pub return_phase: GamePhase,
}

/// What applying an event choice did: whether the event goes on, what the player is told,
/// and the change to health and energy that the caller applies.
#[derive(Debug, Clone)]
pub struct EventApplyResult {
    pub outcome: EventInputOutcome,
    pub feedback: Option<EventReport>,
    pub body: BodyChange,
}

/// `a + b`, or the largest `u32` when that overflows.
pub open spec fn sat_add(a: u32, b: u32) -> u32 {
    if a + b <= u32::MAX { (a + b) as u32 } else { u32::MAX }
}

/// `a - b`, or 0 when `b` is larger.
pub open spec fn sat_sub(a: u32, b: u32) -> u32 {
    if a >= b { (a - b) as u32 } else { 0 }
}

/// The stack limit of augment `id`: its maximum in the game data, unlimited when the game
/// data does not know it.
pub open spec fn stack_cap(augments: Seq<AugmentEntry>, id: AugmentId) -> u32 {
    match augment_definition_spec(augments, id) {
        Some(e) => e.max_stacks,
        None => u32::MAX,
    }
}

/// "+{n} 金币"
pub open spec fn gold_gain_line(n: u32) -> Seq<char> {
    "+"@ + decimal_spec(n as nat) + " 金币"@
}

/// "{lead}{a} -> {b}"
pub open spec fn gold_change_line(lead: Seq<char>, a: u32, b: u32) -> Seq<char> {
    lead + decimal_spec(a as nat) + " -> "@ + decimal_spec(b as nat)
}

/// "等级提升到 {n}"
pub open spec fn level_up_line(n: u32) -> Seq<char> {
    "等级提升到 "@ + decimal_spec(n as nat)
}

/// `l` is the text `t`.
pub open spec fn text_line(l: EventLine, t: Seq<char>) -> bool {
    l matches EventLine::Text(s) && s@ == t
}

/// `l` names the augment `id` given up, after `prefix`.
pub open spec fn removed_line(l: EventLine, prefix: Seq<char>, id: AugmentId) -> bool {
    l matches EventLine::Removed { prefix: p, id: i } && p@ == prefix && i == id
}

/// The lines of a report, none without one.
pub open spec fn lines_of(f: Option<EventReport>) -> Seq<EventLine> {
    match f {
        Some(rep) => rep.lines@,
        None => Seq::empty(),
    }
}

/// A card titled `title` that the player acknowledges before play goes on.
pub open spec fn is_card(f: Option<EventReport>, title: Seq<char>, severity: UiFeedbackSeverity) -> bool {
    match f {
        Some(rep) => rep.title@ == title && rep.severity == severity && rep.requires_ack
            && rep.return_phase == GamePhase::Playing,
        None => false,
    }
}

/// A warning titled `title`; the event stays open.
pub open spec fn is_warning(f: Option<EventReport>, title: Seq<char>) -> bool {
    match f {
        Some(rep) => rep.title@ == title && rep.severity == UiFeedbackSeverity::Warning && !rep.requires_ack
            && rep.return_phase == GamePhase::EventRoom,
        None => false,
    }
}

/// `l` reports granting augment `id` (limited to `cap` stacks) to the inventory `h0`, which
/// became `h1`.
pub open spec fn granted_line(h0: Seq<HeldAugment>, h1: Seq<HeldAugment>, id: AugmentId, cap: u32, l: EventLine) -> bool {
    &&& l == EventLine::Granted(grant_result(h0, id, cap))
    &&& granted_into(h0, h1, id, grant_result(h0, id, cap).after_stacks)
}

/// Nothing is done: the event stays open with a one-line warning.
pub open spec fn refused(r: EventApplyResult, title: Seq<char>, line: Seq<char>) -> bool {
    &&& r.outcome == EventInputOutcome::StayOpen
    &&& is_warning(r.feedback, title)
    &&& lines_of(r.feedback).len() == 1
    &&& text_line(lines_of(r.feedback)[0], line)
    &&& r.body == BodyChange::Unchanged
}

/// Buying augment `id` for `cost` gold: without enough gold nothing is paid and the event
/// stays open with a warning; otherwise the gold is paid, the augment granted, and a card
/// titled `title` reports both.
pub open spec fn paid_for_augment(
    r: EventApplyResult,
    title: Seq<char>,
    cost: u32,
    id: AugmentId,
    cap: u32,
    g0: u32,
    g1: u32,
    h0: Seq<HeldAugment>,
    h1: Seq<HeldAugment>,
) -> bool {
    if g0 < cost {
        &&& refused(r, "金币不足"@, gold_shortage_line(cost, g0))
        &&& g1 == g0
        &&& h1 == h0
    } else {
        &&& r.outcome == EventInputOutcome::Complete
        &&& is_card(r.feedback, title, UiFeedbackSeverity::Success)
        &&& lines_of(r.feedback).len() == 2
        &&& text_line(lines_of(r.feedback)[0], gold_spent_line(cost))
        &&& granted_line(h0, h1, id, cap, lines_of(r.feedback)[1])
        &&& g1 == g0 - cost
        &&& r.body == BodyChange::Unchanged
    }
}

/// What the wheel of fate drew: a side, a roll below 3, the augment offered on the lucky
/// third roll (one of the game data's, none only without any) and the position of the
/// augment lost on the unlucky third roll.
pub open spec fn wheel_drawn(augments: Seq<AugmentEntry>, h0: Seq<HeldAugment>, good: bool, roll: u32, gift: Option<AugmentId>, loss_index: int) -> bool {
    &&& roll < 3
    &&& (gift matches Some(id) ==> drawn_id(augments, AugmentPool::Any, id))
    &&& (good && roll == 2 ==> (gift.is_some() == (augments.len() > 0)))
    &&& (h0.len() > 0 ==> 0 <= loss_index < h0.len())
}

/// The wheel of fate after drawing `good` and `roll`. Lucky: 30 gold, a level, or the
/// augment `gift` (30 gold without one). Unlucky: 20 gold, a fifth of the current health,
/// or the held augment at `loss_index` (the last one past the end; 20 gold when none is
/// held). A card reports the one change.
pub open spec fn wheel_settled(
    r: EventApplyResult,
    good: bool,
    roll: u32,
    gift: Option<AugmentId>,
    loss_index: int,
    augments: Seq<AugmentEntry>,
    curve: Seq<u32>,
    g0: u32,
    g1: u32,
    h0: Seq<HeldAugment>,
    h1: Seq<HeldAugment>,
    l0: PlayerLevel,
    l1: PlayerLevel,
) -> bool {
    let lines = lines_of(r.feedback);
    &&& r.outcome == EventInputOutcome::Complete
    &&& is_card(
        r.feedback,
        if good { "命运之轮：好运"@ } else { "命运之轮：代价"@ },
        if good { UiFeedbackSeverity::Success } else { UiFeedbackSeverity::Warning },
    )
    &&& lines.len() == 1
    &&& if good {
        if roll == 0 || (roll >= 2 && gift.is_none()) {
            &&& g1 == sat_add(g0, 30) && h1 == h0 && l1 == l0
            &&& text_line(lines[0], gold_gain_line(30))
            &&& r.body == BodyChange::Unchanged
        } else if roll == 1 {
            &&& g1 == g0 && h1 == h0
            &&& l1.level == sat_add(l0.level, 1) && l1.xp == l0.xp
            &&& l1.xp_to_next == xp_threshold_spec(curve, l1.level as int)
            &&& text_line(lines[0], level_up_line(l1.level))
            &&& r.body == BodyChange::Unchanged
        } else {
            &&& gift matches Some(id) && granted_line(h0, h1, id, stack_cap(augments, id), lines[0])
            &&& g1 == g0 && l1 == l0
            &&& r.body == BodyChange::Unchanged
        }
    } else {
        if roll == 0 {
            &&& g1 == sat_sub(g0, 20) && h1 == h0 && l1 == l0
            &&& text_line(lines[0], gold_change_line("金币: "@, g0, g1))
            &&& r.body == BodyChange::Unchanged
        } else if roll == 1 {
            &&& g1 == g0 && h1 == h0 && l1 == l0
            &&& lines[0] is Body
            &&& r.body == BodyChange::LoseHealthPercent(20)
        } else if h0.len() == 0 {
            &&& g1 == sat_sub(g0, 20) && h1 == h0 && l1 == l0
            &&& text_line(lines[0], gold_change_line("没有强化可失去，金币: "@, g0, g1))
            &&& r.body == BodyChange::Unchanged
        } else {
            let k = if loss_index < h0.len() { loss_index } else { h0.len() - 1 };
            &&& h1 == h0.remove(k)
            &&& removed_line(lines[0], "失去强化："@, h0[k].id)
            &&& g1 == g0 && l1 == l0
            &&& r.body == BodyChange::Unchanged
        }
    }
}

/// Granting augment `id` (limited by the game data) to the inventory `h0`, which became
/// `h1`, with a card titled `title` whose lines are `before` and the grant.
pub open spec fn granted_with(
    r: EventApplyResult,
    title: Seq<char>,
    id: AugmentId,
    augments: Seq<AugmentEntry>,
    h0: Seq<HeldAugment>,
    h1: Seq<HeldAugment>,
) -> bool {
    &&& r.outcome == EventInputOutcome::Complete
    &&& is_card(r.feedback, title, UiFeedbackSeverity::Success)
    &&& lines_of(r.feedback).len() == 2
    &&& granted_line(h0, h1, id, stack_cap(augments, id), lines_of(r.feedback)[1])
}

/// `mid` is `h0` without the first entry of augment `id`.
pub open spec fn gave_up(h0: Seq<HeldAugment>, mid: Seq<HeldAugment>, id: AugmentId) -> bool {
    exists|k: int| #[trigger] first_held_at(h0, id, k) && mid == h0.remove(k)
}

/// What applying `payload` does to the result `r`, the gold (`g0` to `g1`), the held augments
/// (`h0` to `h1`) and the level (`l0` to `l1`).
pub open spec fn choice_applied(
    payload: EventChoicePayload,
    r: EventApplyResult,
    augments: Seq<AugmentEntry>,
    curve: Seq<u32>,
    energy_ok: bool,
    g0: u32,
    g1: u32,
    h0: Seq<HeldAugment>,
    h1: Seq<HeldAugment>,
    l0: PlayerLevel,
    l1: PlayerLevel,
) -> bool {
    let lines = lines_of(r.feedback);
    match payload {
        EventChoicePayload::Leave => {
            &&& r.outcome == EventInputOutcome::Leave && r.feedback.is_none()
            &&& r.body == BodyChange::Unchanged
            &&& g1 == g0 && h1 == h0 && l1 == l0
        },
        EventChoicePayload::Unavailable { title, message } => {
            &&& refused(r, title@, message@)
            &&& g1 == g0 && h1 == h0 && l1 == l0
        },
        EventChoicePayload::Gambler { cost, augment_id } => {
            &&& paid_for_augment(r, "赌徒结算"@, cost, augment_id, stack_cap(augments, augment_id), g0, g1, h0, h1)
            &&& l1 == l0
        },
        EventChoicePayload::BloodPact { hp_percent, augment_id } => {
            &&& granted_with(r, "血契结算"@, augment_id, augments, h0, h1)
            &&& lines[0] is Body
            &&& r.body == BodyChange::LoseHealthPercent(hp_percent)
            &&& g1 == g0 && l1 == l0
        },
        EventChoicePayload::Treasure { augment_id, gold_bonus } => {
            &&& granted_with(r, "宝藏结算"@, augment_id, augments, h0, h1)
            &&& text_line(lines[0], gold_gain_line(gold_bonus))
            &&& r.body == BodyChange::Unchanged
            &&& g1 == sat_add(g0, gold_bonus) && l1 == l0
        },
        EventChoicePayload::HealingSpring { hp_percent, energy_flat, energy_percent } => {
            &&& r.outcome == EventInputOutcome::Complete
            &&& is_card(r.feedback, "治愈泉"@, UiFeedbackSeverity::Success)
            &&& lines.len() == 1 && lines[0] is Body
            &&& r.body == BodyChange::SpringRestore { hp_percent, energy_flat, energy_percent }
            &&& g1 == g0 && h1 == h0 && l1 == l0
        },
        EventChoicePayload::Merchant { cost, augment_id } => {
            &&& paid_for_augment(r, "购买成功"@, cost, augment_id, stack_cap(augments, augment_id), g0, g1, h0, h1)
            &&& l1 == l0
        },
        EventChoicePayload::GoldAltar { gold, hp_basis_points, energy_cost } => {
            &&& h1 == h0 && l1 == l0
            &&& if energy_cost > 0 && !energy_ok {
                &&& r.outcome == EventInputOutcome::StayOpen
                &&& is_warning(r.feedback, "能量不足"@)
                &&& lines.len() == 1 && lines[0] is Body
                &&& r.body == BodyChange::EnergyShortage(energy_cost)
                &&& g1 == g0
            } else {
                &&& r.outcome == EventInputOutcome::Complete
                &&& is_card(r.feedback, "金币祭坛"@, UiFeedbackSeverity::Success)
                &&& lines.len() == 2 && lines[0] is Body
                &&& text_line(lines[1], gold_gain_line(gold))
                &&& r.body == BodyChange::AltarToll { hp_basis_points, energy_cost }
                &&& g1 == sat_add(g0, gold)
            }
        },
        EventChoicePayload::MysticForge { sacrifice_id, reward_id } => {
            &&& g1 == g0 && l1 == l0
            &&& if holds(h0, sacrifice_id) {
                exists|mid: Seq<HeldAugment>| #[trigger] gave_up(h0, mid, sacrifice_id)
                    && granted_with(r, "神秘铸炉"@, reward_id, augments, mid, h1)
                    && removed_line(lines[0], "献祭："@, sacrifice_id)
                    && r.body == BodyChange::Unchanged
            } else {
                refused(r, "神秘铸炉"@, "要献祭的强化已经不存在。"@) && h1 == h0
            }
        },
        EventChoicePayload::WheelOfFate => {
            exists|good: bool, roll: u32, gift: Option<AugmentId>, loss_index: int|
                #![trigger wheel_drawn(augments, h0, good, roll, gift, loss_index)]
                wheel_drawn(augments, h0, good, roll, gift, loss_index)
                && wheel_settled(r, good, roll, gift, loss_index, augments, curve, g0, g1, h0, h1, l0, l1)
        },
        EventChoicePayload::TravelerRest => {
            &&& r.outcome == EventInputOutcome::Complete
            &&& is_card(r.feedback, "旅者休憩"@, UiFeedbackSeverity::Success)
            &&& lines.len() == 1 && lines[0] is Body
            &&& r.body == BodyChange::RestHeal(20)
            &&& g1 == g0 && h1 == h0 && l1 == l0
        },
        EventChoicePayload::TravelerIntel { lines: intel } => {
            &&& r.outcome == EventInputOutcome::Complete
            &&& is_card(r.feedback, "旅者情报"@, UiFeedbackSeverity::Info)
            &&& lines.len() == intel@.len()
            &&& forall|i: int| 0 <= i < lines.len() ==> text_line(#[trigger] lines[i], intel@[i]@)
            &&& r.body == BodyChange::Unchanged
            &&& g1 == g0 && h1 == h0 && l1 == l0
        },
        EventChoicePayload::TravelerTrade { sacrifice_id, gold } => {
            &&& l1 == l0
            &&& if holds(h0, sacrifice_id) {
                &&& gave_up(h0, h1, sacrifice_id)
                &&& r.outcome == EventInputOutcome::Complete
                &&& is_card(r.feedback, "旅者交易"@, UiFeedbackSeverity::Success)
                &&& lines.len() == 2
                &&& removed_line(lines[0], "交出："@, sacrifice_id)
                &&& text_line(lines[1], gold_gain_line(gold))
                &&& r.body == BodyChange::Unchanged
                &&& g1 == sat_add(g0, gold)
            } else {
                refused(r, "旅者交易"@, "要交易的强化已经不存在。"@) && h1 == h0 && g1 == g0
            }
        },
        EventChoicePayload::SacrificeAltar { augment_id } => {
            &&& granted_with(r, "献祭祭坛"@, augment_id, augments, h0, h1)
            &&& lines[0] is Body
            &&& r.body == BodyChange::ShrinkMaxHealthPercent(80)
            &&& g1 == g0 && l1 == l0
        },
    }
}

/// Step `i` of granting the augments `ids` in turn: granting `ids[i]`, limited by the game
/// data, to the inventory `states[i]` left `states[i + 1]` and is reported by `grants[i]`.
pub open spec fn grant_step(
    augments: Seq<AugmentEntry>,
    states: Seq<Seq<HeldAugment>>,
    ids: Seq<AugmentId>,
    grants: Seq<AugmentGrant>,
    i: int,
) -> bool {
    &&& grants[i] == grant_result(states[i], ids[i], stack_cap(augments, ids[i]))
    &&& granted_into(states[i], states[i + 1], ids[i], grants[i].after_stacks)
}

/// Granting the augments `ids` in turn took the inventory through `states`, from its first
/// to its last; `grants` are the grants' reports.
pub open spec fn granted_in_turn(
    augments: Seq<AugmentEntry>,
    states: Seq<Seq<HeldAugment>>,
    ids: Seq<AugmentId>,
    grants: Seq<AugmentGrant>,
) -> bool {
    &&& states.len() == ids.len() + 1
    &&& grants.len() == ids.len()
    &&& forall|i: int| 0 <= i < ids.len() ==> #[trigger] grant_step(augments, states, ids, grants, i)
}

/// The augments `ids` were drawn one from each of `pools`: all of them when the game data
/// has augments, none otherwise.
pub open spec fn drawn_per_pool(augments: Seq<AugmentEntry>, pools: Seq<AugmentPool>, ids: Seq<AugmentId>) -> bool {
    &&& ids.len() == (if augments.len() > 0 { pools.len() } else { 0 })
    &&& forall|i: int| 0 <= i < ids.len() ==> #[trigger] drawn_id(augments, pools[i], ids[i])
}

/// From position `start` on, `lines` are one line per grant of `grants`, and nothing else.
pub open spec fn grants_from(lines: Seq<EventLine>, start: int, grants: Seq<AugmentGrant>) -> bool {
    &&& lines.len() == start + grants.len()
    &&& forall|i: int| 0 <= i < grants.len() ==> #[trigger] lines[start + i] == EventLine::Granted(grants[i])
}

/// "收集进度：{p}/{t}"
pub open spec fn progress_line(p: u32, t: u32) -> Seq<char> {
    "收集进度："@ + decimal_spec(p as nat) + "/"@ + decimal_spec(t as nat)
}

/// "+{n} 经验"
pub open spec fn xp_gain_line(n: u32) -> Seq<char> {
    "+"@ + decimal_spec(n as nat) + " 经验"@
}

/// The pools of a puzzle's augment reward: none, or the one it maps to.
pub open spec fn puzzle_pools(pool: PuzzleRewardPool) -> Seq<AugmentPool> {
    match pool {
        PuzzleRewardPool::Nothing => Seq::empty(),
        PuzzleRewardPool::Any => seq![AugmentPool::Any],
        PuzzleRewardPool::Elite => seq![AugmentPool::EliteOnly],
        PuzzleRewardPool::Legendary => seq![AugmentPool::LegendaryOnly],
    }
}

/// The experience a solved puzzle pays can be added to `level` along `curve` within 32 bits.
pub open spec fn puzzle_xp_fits(p: ActivePuzzle, level: PlayerLevel, curve: Seq<u32>) -> bool {
    let xp = reward_to_apply_spec(p).xp;
    xp > 0 ==> {
        &&& thresholds_reached_positive(level.level as int, level.xp + xp, level.xp_to_next as int, curve)
        &&& level.xp + xp <= u32::MAX
        &&& level_up_fits(level.level as int, level.xp + xp, level.xp_to_next as int, curve)
    }
}

/// What paying a finished combat event's reward did: other events pay nothing; a combat
/// event pays its gold and one augment drawn from each of its pools and granted, reported on
/// a card with the event's title (or that no augment was found).
pub open spec fn combat_reward_paid(
    event_type: EventType,
    reward_ready: bool,
    flawless_failed: bool,
    augments: Seq<AugmentEntry>,
    g0: u32,
    g1: u32,
    h0: Seq<HeldAugment>,
    h1: Seq<HeldAugment>,
    r: Option<EventReport>,
) -> bool {
    if !is_combat_spec(event_type) {
        r.is_none() && g1 == g0 && h1 == h0
    } else {
        let (pools, bonus, title) = combat_reward_spec(event_type, reward_ready, flawless_failed);
        let lines = lines_of(r);
        &&& is_card(r, title, UiFeedbackSeverity::Success)
        &&& g1 == sat_add(g0, bonus)
        &&& exists|ids: Seq<AugmentId>, grants: Seq<AugmentGrant>, states: Seq<Seq<HeldAugment>>|
            #![trigger granted_in_turn(augments, states, ids, grants)]
            drawn_per_pool(augments, pools, ids)
            && granted_in_turn(augments, states, ids, grants)
            && states[0] == h0 && states.last() == h1
            && if bonus == 0 && grants.len() == 0 {
                lines.len() == 1 && text_line(lines[0], "没有找到可用强化，已完成事件。"@)
            } else {
                (bonus > 0 ==> text_line(lines[0], gold_gain_line(bonus)))
                    && grants_from(lines, if bonus > 0 { 1 } else { 0 }, grants)
            }
    }
}

/// What opening a finished puzzle's chest did. An unsolved puzzle pays nothing and a warning
/// says so. A solved one pays its reward: gold, experience (with the levels it brings along
/// `curve`) and an augment drawn from its pool and granted; a card reports the collection's
/// progress, the gold, the experience, a level reached and the grant, or that the chest
/// held nothing.
pub open spec fn puzzle_chest_opened(
    puzzle: ActivePuzzle,
    curve: Seq<u32>,
    augments: Seq<AugmentEntry>,
    g0: u32,
    g1: u32,
    h0: Seq<HeldAugment>,
    h1: Seq<HeldAugment>,
    l0: PlayerLevel,
    l1: PlayerLevel,
    r: EventReport,
) -> bool {
    if !puzzle.reward_earned {
        &&& r.title@ == "谜题失败"@ && r.severity == UiFeedbackSeverity::Warning
        &&& !r.requires_ack && r.return_phase == GamePhase::Playing
        &&& r.lines@.len() == 1 && text_line(r.lines@[0], "没有获得宝箱奖励。"@)
        &&& g1 == g0 && l1 == l0 && h1 == h0
    } else {
        let rw = reward_to_apply_spec(puzzle);
        let up = level_up_spec(l0.level as int, l0.xp + rw.xp, l0.xp_to_next as int, curve);
        let collect = puzzle.kind == Some(PuzzleKind::TimedCollect);
        let a: int = if collect { 1 } else { 0 };
        let b: int = a + if rw.gold > 0 { 1int } else { 0int };
        let c: int = b + if rw.xp > 0 { 1int } else { 0int };
        let d: int = c + if rw.xp > 0 && up.3 > 0 { 1int } else { 0int };
        let lines = r.lines@;
        &&& r.title@ == "谜题宝箱"@ && r.severity == UiFeedbackSeverity::Success
        &&& r.requires_ack && r.return_phase == GamePhase::Playing
        &&& g1 == sat_add(g0, rw.gold)
        &&& rw.xp > 0 ==> l1.level == up.0 && l1.xp == up.1 && l1.xp_to_next == up.2
        &&& rw.xp == 0 ==> l1 == l0
        &&& collect ==> text_line(lines[0], progress_line(puzzle.progress_count,
            if puzzle.target_count >= 1 { puzzle.target_count } else { 1 }))
        &&& rw.gold > 0 ==> text_line(lines[a], gold_gain_line(rw.gold))
        &&& rw.xp > 0 ==> text_line(lines[b], xp_gain_line(rw.xp))
        &&& rw.xp > 0 && up.3 > 0 ==> text_line(lines[c], level_up_line(l1.level))
        &&& exists|ids: Seq<AugmentId>, grants: Seq<AugmentGrant>, states: Seq<Seq<HeldAugment>>|
            #![trigger granted_in_turn(augments, states, ids, grants)]
            drawn_per_pool(augments, puzzle_pools(rw.augment_pool), ids)
            && granted_in_turn(augments, states, ids, grants)
            && states[0] == h0 && states.last() == h1
            && if d == 0 && grants.len() == 0 {
                lines.len() == 1 && text_line(lines[0], "宝箱里没有可用奖励。"@)
            } else {
                grants_from(lines, d, grants)
            }
    }
}

fn gold_gain_text(n: u32) -> (s: String)
    ensures
        s@ == gold_gain_line(n),
{
    let s = owned("+");
    let s = concat_str(s, decimal_string(n).as_str());
    concat_str(s, " 金币")
}

fn gold_change_text(lead: &str, a: u32, b: u32) -> (s: String)
    ensures
        s@ == gold_change_line(lead@, a, b),
{
    let s = owned(lead);
    let s = concat_str(s, decimal_string(a).as_str());
    let s = concat_str(s, " -> ");
    concat_str(s, decimal_string(b).as_str())
}

fn progress_text(p: u32, t: u32) -> (s: String)
    ensures
        s@ == progress_line(p, t),
{
    let s = owned("收集进度：");
    let s = concat_str(s, decimal_string(p).as_str());
    let s = concat_str(s, "/");
    concat_str(s, decimal_string(t).as_str())
}

fn xp_gain_text(n: u32) -> (s: String)
    ensures
        s@ == xp_gain_line(n),
{
    let s = owned("+");
    let s = concat_str(s, decimal_string(n).as_str());
    concat_str(s, " 经验")
}

fn level_up_text(n: u32) -> (s: String)
    ensures
        s@ == level_up_line(n),
{
    let s = owned("等级提升到 ");
    concat_str(s, decimal_string(n).as_str())
}

pub(crate) fn stack_cap_of(augments: &Vec<AugmentEntry>, id: AugmentId) -> (c: u32)
    ensures
        c == stack_cap(augments@, id),
{
    match augment_definition(augments, id) {
        Some(e) => e.max_stacks,
        None => u32::MAX,
    }
}

fn card(title: &str, lines: Vec<EventLine>, severity: UiFeedbackSeverity) -> (f: Option<EventReport>)
    ensures
        is_card(f, title@, severity),
        lines_of(f) == lines@,
{
    Some(EventReport { title: owned(title), lines, severity, requires_ack: true, return_phase: GamePhase::Playing })
}

fn warning(title: String, line: String) -> (r: EventApplyResult)
    ensures
        refused(r, title@, line@),
{
    let mut lines: Vec<EventLine> = Vec::new();
    lines.push(EventLine::Text(line));
    EventApplyResult {
        outcome: EventInputOutcome::StayOpen,
        feedback: Some(EventReport {
            title,
            lines,
            severity: UiFeedbackSeverity::Warning,
            requires_ack: false,
            return_phase: GamePhase::EventRoom,
        }),
        body: BodyChange::Unchanged,
    }
}

fn pay_for_augment(
    title: &str,
    cost: u32,
    id: AugmentId,
    gold: &mut u32,
    inventory: &mut AugmentInventory,
    augments: &Vec<AugmentEntry>,
) -> (r: EventApplyResult)
    ensures
        paid_for_augment(r, title@, cost, id, stack_cap(augments@, id), *old(gold), *final(gold),
            old(inventory).augments@, final(inventory).augments@),
{
    if *gold < cost {
        return warning(owned("金币不足"), gold_shortage_text(cost, *gold));
    }
    *gold = *gold - cost;
    let cap = stack_cap_of(augments, id);
    let g = inventory.grant(id, cap);
    let mut lines: Vec<EventLine> = Vec::new();
    lines.push(EventLine::Text(gold_spent_text(cost)));
    lines.push(EventLine::Granted(g));
    EventApplyResult { outcome: EventInputOutcome::Complete, feedback: card(title, lines, UiFeedbackSeverity::Success), body: BodyChange::Unchanged }
}

/// The wheel of fate once its side `good`, its `roll`, the augment `gift` of the lucky
/// third roll and the position `loss_index` of the unlucky third roll are drawn.
pub fn wheel_of_fate_outcome(
    good: bool,
    roll: u32,
    gift: Option<AugmentId>,
    loss_index: usize,
    gold: &mut u32,
    inventory: &mut AugmentInventory,
    level: &mut PlayerLevel,
    curve: &[u32],
    augments: &Vec<AugmentEntry>,
) -> (r: EventApplyResult)
    requires
        xp_threshold_spec(curve@, sat_add(old(level).level, 1) as int) <= u32::MAX,
    ensures
        wheel_settled(r, good, roll, gift, loss_index as int, augments@, curve@, *old(gold), *final(gold),
            old(inventory).augments@, final(inventory).augments@, *old(level), *final(level)),
{
    let mut lines: Vec<EventLine> = Vec::new();
    let mut body = BodyChange::Unchanged;
    if good {
        if roll == 1 {
            level.level = level.level.saturating_add(1);
            level.xp_to_next = xp_threshold(curve, level.level);
            lines.push(EventLine::Text(level_up_text(level.level)));
        } else if roll >= 2 && gift.is_some() {
            let id = gift.unwrap();
            let cap = stack_cap_of(augments, id);
            let g = inventory.grant(id, cap);
            lines.push(EventLine::Granted(g));
        } else {
            *gold = gold.saturating_add(30);
            lines.push(EventLine::Text(gold_gain_text(30)));
        }
    } else {
        if roll == 0 {
            let before = *gold;
            *gold = gold.saturating_sub(20);
            lines.push(EventLine::Text(gold_change_text("金币: ", before, *gold)));
        } else if roll == 1 {
            body = BodyChange::LoseHealthPercent(20);
            lines.push(EventLine::Body);
        } else if inventory.augments.len() == 0 {
            let before = *gold;
            *gold = gold.saturating_sub(20);
            lines.push(EventLine::Text(gold_change_text("没有强化可失去，金币: ", before, *gold)));
        } else {
            let last = inventory.augments.len() - 1;
            let k = if loss_index < last { loss_index } else { last };
            let removed = inventory.remove_at(k);
            let id = removed.unwrap().id;
            lines.push(EventLine::Removed { prefix: owned("失去强化："), id });
        }
    }
    let feedback = if good {
        card("命运之轮：好运", lines, UiFeedbackSeverity::Success)
    } else {
        card("命运之轮：代价", lines, UiFeedbackSeverity::Warning)
    };
    EventApplyResult { outcome: EventInputOutcome::Complete, feedback, body }
}

/// Spin the wheel of fate: a side and a roll below 3 are drawn, then the augment of the
/// lucky third roll or the position of the unlucky one.
fn apply_wheel_of_fate(
    gold: &mut u32,
    inventory: &mut AugmentInventory,
    level: &mut PlayerLevel,
    curve: &[u32],
    augments: &Vec<AugmentEntry>,
    rng: &mut GameRng,
) -> (r: EventApplyResult)
    requires
        xp_threshold_spec(curve@, sat_add(old(level).level, 1) as int) <= u32::MAX,
    ensures
        exists|good: bool, roll: u32, gift: Option<AugmentId>, loss_index: int|
            #![trigger wheel_drawn(augments@, old(inventory).augments@, good, roll, gift, loss_index)]
            wheel_drawn(augments@, old(inventory).augments@, good, roll, gift, loss_index)
            && wheel_settled(r, good, roll, gift, loss_index, augments@, curve@, *old(gold), *final(gold),
                old(inventory).augments@, final(inventory).augments@, *old(level), *final(level)),
{
    let good = rng.gen_below(2) == 0;
    let roll = rng.gen_below(3) as u32;
    let mut gift: Option<AugmentId> = None;
    let mut loss_index: usize = 0;
    if good && roll == 2 {
        match pick_random_augment(augments, rng, AugmentPool::Any) {
            Some(e) => {
                gift = Some(e.id);
            },
            None => {},
        }
    }
    if !good && roll == 2 && inventory.augments.len() > 0 {
        loss_index = rng.gen_index(inventory.augments.len());
    }
    let ghost h0 = inventory.augments@;
    let r = wheel_of_fate_outcome(good, roll, gift, loss_index, gold, inventory, level, curve, augments);
    proof {
        assert(wheel_drawn(augments@, h0, good, roll, gift, loss_index as int));
    }
    r
}

fn grant_card(
    title: &str,
    before: EventLine,
    id: AugmentId,
    inventory: &mut AugmentInventory,
    augments: &Vec<AugmentEntry>,
) -> (r: EventApplyResult)
    ensures
        granted_with(r, title@, id, augments@, old(inventory).augments@, final(inventory).augments@),
        lines_of(r.feedback)[0] == before,
        r.body == BodyChange::Unchanged,
{
    let cap = stack_cap_of(augments, id);
    let g = inventory.grant(id, cap);
    let mut lines: Vec<EventLine> = Vec::new();
    lines.push(before);
    lines.push(EventLine::Granted(g));
    EventApplyResult { outcome: EventInputOutcome::Complete, feedback: card(title, lines, UiFeedbackSeverity::Success), body: BodyChange::Unchanged }
}

fn body_card(title: &str, body: BodyChange) -> (r: EventApplyResult)
    ensures
        r.outcome == EventInputOutcome::Complete,
        is_card(r.feedback, title@, UiFeedbackSeverity::Success),
        lines_of(r.feedback).len() == 1 && lines_of(r.feedback)[0] is Body,
        r.body == body,
{
    let mut lines: Vec<EventLine> = Vec::new();
    lines.push(EventLine::Body);
    EventApplyResult { outcome: EventInputOutcome::Complete, feedback: card(title, lines, UiFeedbackSeverity::Success), body }
}

/// Apply the event choice `payload` to the player's gold, augments and level. Health and
/// energy are left to the caller through the result's body change; `energy_ok` is the
/// caller's finding that the energy held covers the gold altar's energy cost. The wheel of
/// fate draws from `rng` and grants levels along `curve`.
pub fn apply_choice_payload(
    payload: EventChoicePayload,
    gold: &mut u32,
    inventory: &mut AugmentInventory,
    level: &mut PlayerLevel,
    curve: &[u32],
    augments: &Vec<AugmentEntry>,
    energy_ok: bool,
    rng: &mut GameRng,
) -> (r: EventApplyResult)
    requires
        payload is WheelOfFate ==> xp_threshold_spec(curve@, sat_add(old(level).level, 1) as int) <= u32::MAX,
    ensures
        choice_applied(payload, r, augments@, curve@, energy_ok, *old(gold), *final(gold),
            old(inventory).augments@, final(inventory).augments@, *old(level), *final(level)),
{
    match payload {
        EventChoicePayload::Leave => EventApplyResult { outcome: EventInputOutcome::Leave, feedback: None, body: BodyChange::Unchanged },
        EventChoicePayload::Unavailable { title, message } => warning(title, message),
        EventChoicePayload::Gambler { cost, augment_id } => pay_for_augment("赌徒结算", cost, augment_id, gold, inventory, augments),
        EventChoicePayload::BloodPact { hp_percent, augment_id } => {
            let r = grant_card("血契结算", EventLine::Body, augment_id, inventory, augments);
            EventApplyResult { outcome: r.outcome, feedback: r.feedback, body: BodyChange::LoseHealthPercent(hp_percent) }
        },
        EventChoicePayload::Treasure { augment_id, gold_bonus } => {
            let r = grant_card("宝藏结算", EventLine::Text(gold_gain_text(gold_bonus)), augment_id, inventory, augments);
            *gold = gold.saturating_add(gold_bonus);
            r
        },
        EventChoicePayload::HealingSpring { hp_percent, energy_flat, energy_percent } => {
            body_card("治愈泉", BodyChange::SpringRestore { hp_percent, energy_flat, energy_percent })
        },
        EventChoicePayload::Merchant { cost, augment_id } => pay_for_augment("购买成功", cost, augment_id, gold, inventory, augments),
        EventChoicePayload::GoldAltar { gold: gain, hp_basis_points, energy_cost } => {
            if energy_cost > 0 && !energy_ok {
                let mut lines: Vec<EventLine> = Vec::new();
                lines.push(EventLine::Body);
                return EventApplyResult {
                    outcome: EventInputOutcome::StayOpen,
                    feedback: Some(EventReport {
                        title: owned("能量不足"),
                        lines,
                        severity: UiFeedbackSeverity::Warning,
                        requires_ack: false,
                        return_phase: GamePhase::EventRoom,
                    }),
                    body: BodyChange::EnergyShortage(energy_cost),
                };
            }
            *gold = gold.saturating_add(gain);
            let mut lines: Vec<EventLine> = Vec::new();
            lines.push(EventLine::Body);
            lines.push(EventLine::Text(gold_gain_text(gain)));
            EventApplyResult {
                outcome: EventInputOutcome::Complete,
                feedback: card("金币祭坛", lines, UiFeedbackSeverity::Success),
                body: BodyChange::AltarToll { hp_basis_points, energy_cost },
            }
        },
        EventChoicePayload::MysticForge { sacrifice_id, reward_id } => {
            let ghost h0 = inventory.augments@;
            match inventory.remove(sacrifice_id) {
                Some(_) => {
                    let ghost mid = inventory.augments@;
                    let before = EventLine::Removed { prefix: owned("献祭："), id: sacrifice_id };
                    let r = grant_card("神秘铸炉", before, reward_id, inventory, augments);
                    proof {
                        assert(gave_up(h0, mid, sacrifice_id));
                    }
                    r
                },
                None => warning(owned("神秘铸炉"), owned("要献祭的强化已经不存在。")),
            }
        },
        EventChoicePayload::WheelOfFate => apply_wheel_of_fate(gold, inventory, level, curve, augments, rng),
        EventChoicePayload::TravelerRest => body_card("旅者休憩", BodyChange::RestHeal(20)),
        EventChoicePayload::TravelerIntel { lines: intel } => {
            let mut lines: Vec<EventLine> = Vec::new();
            let mut i: usize = 0;
            while i < intel.len()
                invariant
                    i <= intel@.len(),
                    lines@.len() == i,
                    forall|j: int| 0 <= j < i ==> text_line(#[trigger] lines@[j], intel@[j]@),
                decreases intel@.len() - i,
            {
                lines.push(EventLine::Text(intel[i].clone()));
                i = i + 1;
            }
            EventApplyResult { outcome: EventInputOutcome::Complete, feedback: card("旅者情报", lines, UiFeedbackSeverity::Info), body: BodyChange::Unchanged }
        },
        EventChoicePayload::TravelerTrade { sacrifice_id, gold: gain } => {
            let ghost h0 = inventory.augments@;
            match inventory.remove(sacrifice_id) {
                Some(_) => {
                    proof {
                        assert(gave_up(h0, inventory.augments@, sacrifice_id));
                    }
                    *gold = gold.saturating_add(gain);
                    let mut lines: Vec<EventLine> = Vec::new();
                    lines.push(EventLine::Removed { prefix: owned("交出："), id: sacrifice_id });
                    lines.push(EventLine::Text(gold_gain_text(gain)));
                    EventApplyResult { outcome: EventInputOutcome::Complete, feedback: card("旅者交易", lines, UiFeedbackSeverity::Success), body: BodyChange::Unchanged }
                },
                None => warning(owned("旅者交易"), owned("要交易的强化已经不存在。")),
            }
        },
        EventChoicePayload::SacrificeAltar { augment_id } => {
            let r = grant_card("献祭祭坛", EventLine::Body, augment_id, inventory, augments);
            EventApplyResult { outcome: r.outcome, feedback: r.feedback, body: BodyChange::ShrinkMaxHealthPercent(80) }
        },
    }
}


proof fn lemma_grant_chain_extends(
    augments: Seq<AugmentEntry>,
    states: Seq<Seq<HeldAugment>>,
    ids: Seq<AugmentId>,
    grants: Seq<AugmentGrant>,
    next: Seq<HeldAugment>,
    id: AugmentId,
    g: AugmentGrant,
)
    requires
        granted_in_turn(augments, states, ids, grants),
        g == grant_result(states.last(), id, stack_cap(augments, id)),
        granted_into(states.last(), next, id, g.after_stacks),
    ensures
        granted_in_turn(augments, states.push(next), ids.push(id), grants.push(g)),
        states.push(next)[0] == states[0],
        states.push(next).last() == next,
{
    let states2 = states.push(next);
    let ids2 = ids.push(id);
    let grants2 = grants.push(g);
    assert forall|j: int| 0 <= j < ids2.len() implies #[trigger] grant_step(augments, states2, ids2, grants2, j) by {
        if j < ids.len() {
            assert(grant_step(augments, states, ids, grants, j));
        }
    }
}

/// `lines` are the lines `first` followed by one line per grant of `grants`.
pub open spec fn lines_then_grants(lines: Seq<EventLine>, first: Seq<EventLine>, grants: Seq<AugmentGrant>) -> bool {
    &&& forall|j: int| 0 <= j < first.len() ==> #[trigger] lines[j] == first[j]
    &&& grants_from(lines, first.len() as int, grants)
}

proof fn lemma_grant_lines_extend(lines: Seq<EventLine>, first: Seq<EventLine>, grants: Seq<AugmentGrant>, g: AugmentGrant)
    requires
        lines_then_grants(lines, first, grants),
    ensures
        lines_then_grants(lines.push(EventLine::Granted(g)), first, grants.push(g)),
{
    let l2 = lines.push(EventLine::Granted(g));
    let g2 = grants.push(g);
    assert forall|j: int| 0 <= j < first.len() implies #[trigger] l2[j] == first[j] by {
        assert(lines[j] == first[j]);
    }
    assert forall|j: int| 0 <= j < g2.len() implies #[trigger] l2[first.len() + j] == EventLine::Granted(g2[j]) by {
        if j < grants.len() {
            assert(lines[first.len() + j] == EventLine::Granted(grants[j]));
        }
    }
}

/// Draw one augment from each of `pools` and grant it, adding a line per grant to `lines`.
/// Returns the drawn ids, the grants and the inventories passed through.
fn draw_and_grant(
    pools: &Vec<AugmentPool>,
    lines: &mut Vec<EventLine>,
    inventory: &mut AugmentInventory,
    augments: &Vec<AugmentEntry>,
    rng: &mut GameRng,
) -> (w: Ghost<(Seq<AugmentId>, Seq<AugmentGrant>, Seq<Seq<HeldAugment>>)>)
    ensures
        drawn_per_pool(augments@, pools@, w@.0),
        granted_in_turn(augments@, w@.2, w@.0, w@.1),
        w@.2[0] == old(inventory).augments@,
        w@.2.last() == final(inventory).augments@,
        lines_then_grants(final(lines)@, old(lines)@, w@.1),
{
    let ghost first = lines@;
    let ghost h0 = inventory.augments@;
    let ghost mut ids: Seq<AugmentId> = Seq::empty();
    let ghost mut grants: Seq<AugmentGrant> = Seq::empty();
    let ghost mut states: Seq<Seq<HeldAugment>> = seq![h0];
    let mut i: usize = 0;
    while i < pools.len()
        invariant
            i <= pools@.len(),
            lines_then_grants(lines@, first, grants),
            ids.len() == (if augments@.len() > 0 { i as int } else { 0 }),
            forall|j: int| 0 <= j < ids.len() ==> #[trigger] drawn_id(augments@, pools@[j], ids[j]),
            granted_in_turn(augments@, states, ids, grants),
            states[0] == h0,
            states.last() == inventory.augments@,
        decreases pools@.len() - i,
    {
        let pool = pools[i];
        match pick_random_augment(augments, rng, pool) {
            Some(e) => {
                let cap = stack_cap_of(augments, e.id);
                let g = inventory.grant(e.id, cap);
                proof {
                    lemma_grant_lines_extend(lines@, first, grants, g);
                }
                lines.push(EventLine::Granted(g));
                proof {
                    lemma_grant_chain_extends(augments@, states, ids, grants, inventory.augments@, e.id, g);
                    assert(drawn_id(augments@, pools@[i as int], e.id));
                    states = states.push(inventory.augments@);
                    ids = ids.push(e.id);
                    grants = grants.push(g);
                }
            },
            None => {},
        }
        i = i + 1;
    }
    Ghost((ids, grants, states))
}

/// Pay a finished combat event's reward: its gold, and one augment drawn from each of its
/// pools and granted. A card with the event's title reports them, or that no augment was
/// found. Other events pay nothing.
pub fn apply_combat_event_reward(
    event_type: EventType,
    reward_ready: bool,
    flawless_failed: bool,
    gold: &mut u32,
    inventory: &mut AugmentInventory,
    augments: &Vec<AugmentEntry>,
    rng: &mut GameRng,
) -> (r: Option<EventReport>)
    ensures
        combat_reward_paid(event_type, reward_ready, flawless_failed, augments@, *old(gold), *final(gold),
            old(inventory).augments@, final(inventory).augments@, r),
{
    let (pools, bonus, title) = match combat_event_reward(event_type, reward_ready, flawless_failed) {
        Some(t) => t,
        None => {
            return None;
        },
    };
    let mut lines: Vec<EventLine> = Vec::new();
    if bonus > 0 {
        *gold = gold.saturating_add(bonus);
        lines.push(EventLine::Text(gold_gain_text(bonus)));
    }
    let ghost before = lines@;
    let w = draw_and_grant(&pools, &mut lines, inventory, augments, rng);
    proof {
        let (ids, grants, states) = w@;
        if bonus > 0 {
            assert(lines@[0] == before[0]);
        }
        assert(granted_in_turn(augments@, states, ids, grants));
    }
    if lines.len() == 0 {
        lines.push(EventLine::Text(owned("没有找到可用强化，已完成事件。")));
    }
    card(title, lines, UiFeedbackSeverity::Success)
}

/// Open the chest of a finished puzzle. An unsolved puzzle pays nothing and says so.
/// A solved one pays its reward (a timed collection in proportion to what was collected):
/// gold, experience (with the levels it brings) and an augment drawn from its pool and
/// granted. A card reports the collection's progress, the gold, the experience, a level
/// reached and the grant, or that the chest held nothing.
pub fn apply_puzzle_event_reward(
    puzzle: &ActivePuzzle,
    gold: &mut u32,
    inventory: &mut AugmentInventory,
    level: &mut PlayerLevel,
    curve: &[u32],
    augments: &Vec<AugmentEntry>,
    rng: &mut GameRng,
) -> (r: EventReport)
    requires
        puzzle_xp_fits(*puzzle, *old(level), curve@),
    ensures
        puzzle_chest_opened(*puzzle, curve@, augments@, *old(gold), *final(gold), old(inventory).augments@,
            final(inventory).augments@, *old(level), *final(level), r),
{
    let mut lines: Vec<EventLine> = Vec::new();
    if !puzzle.reward_earned {
        lines.push(EventLine::Text(owned("没有获得宝箱奖励。")));
        return EventReport {
            title: owned("谜题失败"),
            lines,
            severity: UiFeedbackSeverity::Warning,
            requires_ack: false,
            return_phase: GamePhase::Playing,
        };
    }
    let reward = puzzle.reward_to_apply();
    let collect = match puzzle.kind {
        Some(PuzzleKind::TimedCollect) => true,
        _ => false,
    };
    if collect {
        let t = puzzle.target_count();
        let shown = if t >= 1 { t } else { 1 };
        lines.push(EventLine::Text(progress_text(puzzle.progress_count(), shown)));
    }
    if reward.gold > 0 {
        *gold = gold.saturating_add(reward.gold);
        lines.push(EventLine::Text(gold_gain_text(reward.gold)));
    }
    if reward.xp > 0 {
        let gained = level.add_xp(reward.xp, curve);
        lines.push(EventLine::Text(xp_gain_text(reward.xp)));
        if gained > 0 {
            lines.push(EventLine::Text(level_up_text(level.level)));
        }
    }
    let mut pools: Vec<AugmentPool> = Vec::new();
    match augment_pool_from_puzzle(reward.augment_pool) {
        Some(pool) => {
            pools.push(pool);
        },
        None => {},
    }
    proof {
        assert(pools@ =~= puzzle_pools(reward.augment_pool));
    }
    let ghost before = lines@;
    let w = draw_and_grant(&pools, &mut lines, inventory, augments, rng);
    proof {
        let (ids, grants, states) = w@;
        assert(granted_in_turn(augments@, states, ids, grants));
    }
    if lines.len() == 0 {
        lines.push(EventLine::Text(owned("宝箱里没有可用奖励。")));
    }
    EventReport {
        title: owned("谜题宝箱"),
        lines,
        severity: UiFeedbackSeverity::Success,
        requires_ack: true,
        return_phase: GamePhase::Playing,
    }
}

/// The event `b` is `a` resolved: it keeps its room and nothing else remains of it.
pub open spec fn event_resolved(a: ActiveEvent, b: ActiveEvent) -> bool {
    &&& b.resolved && b.room == a.room && b.event_type.is_none() && !b.interaction_ready
    &&& b.choices@.len() == 0 && b.choice_payloads@.len() == 0
    &&& !b.combat_reward_ready && !b.flawless_failed && !b.challenge_timer_running
}

/// A room was cleared. When it is the event's room, a puzzle event opens its chest and
/// forgets its puzzle, a combat event pays its reward, and the event is resolved; the
/// report, if any, is what the player is told. Other rooms change nothing.
pub fn resolve_event_room_clear(
    cleared_room: RoomId,
    active: &mut ActiveEvent,
    puzzle: &mut ActivePuzzle,
    gold: &mut u32,
    inventory: &mut AugmentInventory,
    level: &mut PlayerLevel,
    curve: &[u32],
    augments: &Vec<AugmentEntry>,
    rng: &mut GameRng,
) -> (r: Option<EventReport>)
    requires
        old(active).room == Some(cleared_room) && (old(active).event_type matches Some(e) && is_puzzle_spec(e))
            ==> puzzle_xp_fits(*old(puzzle), *old(level), curve@),
    ensures
        old(active).room != Some(cleared_room) ==> {
            &&& r.is_none() && *final(active) == *old(active) && *final(puzzle) == *old(puzzle)
            &&& *final(gold) == *old(gold) && *final(level) == *old(level)
            &&& final(inventory).augments@ == old(inventory).augments@
        },
        old(active).room == Some(cleared_room) ==> {
            &&& event_resolved(*old(active), *final(active))
            &&& match old(active).event_type {
                Some(e) => if is_puzzle_spec(e) {
                    &&& r matches Some(rep) && puzzle_chest_opened(*old(puzzle), curve@, augments@, *old(gold), *final(gold),
                        old(inventory).augments@, final(inventory).augments@, *old(level), *final(level), rep)
                    &&& is_idle_puzzle(*final(puzzle))
                } else {
                    &&& combat_reward_paid(e, old(active).combat_reward_ready, old(active).flawless_failed, augments@,
                        *old(gold), *final(gold), old(inventory).augments@, final(inventory).augments@, r)
                    &&& *final(puzzle) == *old(puzzle) && *final(level) == *old(level)
                },
                None => r.is_none() && *final(puzzle) == *old(puzzle) && *final(gold) == *old(gold)
                    && *final(level) == *old(level) && final(inventory).augments@ == old(inventory).augments@,
            }
        },
{
    let same_room = match active.room {
        Some(room) => room.0 == cleared_room.0,
        None => false,
    };
    if !same_room {
        return None;
    }
    let r = match active.event_type {
        Some(e) => {
            if e.is_puzzle() {
                let rep = apply_puzzle_event_reward(puzzle, gold, inventory, level, curve, augments, rng);
                puzzle.reset();
                Some(rep)
            } else {
                apply_combat_event_reward(e, active.combat_reward_ready, active.flawless_failed, gold, inventory, augments, rng)
            }
        },
        None => None,
    };
    active.mark_resolved();
    r
}

/// The forge's offer `id` was picked at the sanctuary: the augment is granted, and a card
/// reports the forging and the grant.
pub fn apply_forge_grant(id: AugmentId, inventory: &mut AugmentInventory, augments: &Vec<AugmentEntry>) -> (r: EventReport)
    ensures
        r.title@ == "圣所锻造"@ && r.severity == UiFeedbackSeverity::Success,
        r.requires_ack && r.return_phase == GamePhase::Playing,
        r.lines@.len() == 2,
        text_line(r.lines@[0], "锻造完成。"@),
        granted_line(old(inventory).augments@, final(inventory).augments@, id, stack_cap(augments@, id), r.lines@[1]),
{
    let cap = stack_cap_of(augments, id);
    let g = inventory.grant(id, cap);
    let mut lines: Vec<EventLine> = Vec::new();
    lines.push(EventLine::Text(owned("锻造完成。")));
    lines.push(EventLine::Granted(g));
    EventReport {
        title: owned("圣所锻造"),
        lines,
        severity: UiFeedbackSeverity::Success,
        requires_ack: true,
        return_phase: GamePhase::Playing,
    }
}

/// How rare the augments of a pool are: any, common, elite, legendary.
pub open spec fn pool_rarity_rank(p: AugmentPool) -> int {
    match p {
        AugmentPool::Any => 0,
        AugmentPool::CommonOnly => 1,
        AugmentPool::EliteOnly => 2,
        AugmentPool::LegendaryOnly => 3,
    }
}

/// The rewards of the combat events: a flawless trial won without a hit gives one legendary
/// augment and no gold, and with a hit one common augment; a timed challenge won in time
/// gives one elite augment, and otherwise one common one; a hunt gives one elite augment and
/// 40 gold; the cursed vault two elite augments and 90 gold. Winning the harder way always
/// draws from a rarer pool than the other way, whatever the other flag says.
pub proof fn lemma_combat_rewards(reward_ready: bool, flawless_failed: bool)
    ensures
        !flawless_failed ==> combat_reward_spec(EventType::FlawlessTrial, reward_ready, flawless_failed).0
            == seq![AugmentPool::LegendaryOnly],
        flawless_failed ==> combat_reward_spec(EventType::FlawlessTrial, reward_ready, flawless_failed).0
            == seq![AugmentPool::CommonOnly],
        combat_reward_spec(EventType::FlawlessTrial, reward_ready, flawless_failed).1 == 0,
        reward_ready ==> combat_reward_spec(EventType::TimedChallenge, reward_ready, flawless_failed).0
            == seq![AugmentPool::EliteOnly],
        !reward_ready ==> combat_reward_spec(EventType::TimedChallenge, reward_ready, flawless_failed).0
            == seq![AugmentPool::CommonOnly],
        combat_reward_spec(EventType::TimedChallenge, reward_ready, flawless_failed).1 == 0,
        combat_reward_spec(EventType::EliteEncounter, reward_ready, flawless_failed).0 == seq![AugmentPool::EliteOnly],
        combat_reward_spec(EventType::EliteEncounter, reward_ready, flawless_failed).1 == 40,
        combat_reward_spec(EventType::CursedVault, reward_ready, flawless_failed).0
            == seq![AugmentPool::EliteOnly, AugmentPool::EliteOnly],
        combat_reward_spec(EventType::CursedVault, reward_ready, flawless_failed).1 == 90,
        pool_rarity_rank(combat_reward_spec(EventType::FlawlessTrial, reward_ready, false).0[0])
            > pool_rarity_rank(combat_reward_spec(EventType::FlawlessTrial, reward_ready, true).0[0]),
        pool_rarity_rank(combat_reward_spec(EventType::TimedChallenge, true, flawless_failed).0[0])
            > pool_rarity_rank(combat_reward_spec(EventType::TimedChallenge, false, flawless_failed).0[0]),
{
}

} // verus!
