use vstd::prelude::*;

use crate::feedback::{gold_warning_spec, insufficient_gold_feedback, UiFeedback};
use crate::map::{FloorLayout, RoomData, RoomId, RoomType};
use crate::puzzle::{PuzzleKind, PuzzleRewardPool};
use crate::rng::{shuffle_spec, xorshift_step, GameRng};
use crate::session::{AugmentEntry, AugmentId, AugmentRarity};
use crate::states::GamePhase;
use crate::text::{concat_str, owned};

verus! {

/// The kinds of event rooms.
#[derive(Debug, Clone, Copy, PartialEq, Eq, Structural)]
pub enum EventType {
    BulletMaze,
    MemoryBlocks,
    TimedCollect,
    Gambler,
    BloodPact,
    Treasure,
    HealingSpring,
    Merchant,
    GoldAltar,
    MysticBlacksmith,
    WheelOfFate,
    TravelerGift,
    SacrificeAltar,
    TimedChallenge,
    EliteEncounter,
    FlawlessTrial,
    CursedVault,
}

/// Events whose room is a puzzle.
pub open spec fn is_puzzle_spec(e: EventType) -> bool {
    e == EventType::BulletMaze || e == EventType::MemoryBlocks || e == EventType::TimedCollect
}

/// The puzzle of a puzzle event (the bullet maze for any other event).
pub open spec fn puzzle_kind_of(e: EventType) -> PuzzleKind {
    match e {
        EventType::MemoryBlocks => PuzzleKind::MemoryBlocks,
        EventType::TimedCollect => PuzzleKind::TimedCollect,
        _ => PuzzleKind::BulletMaze,
    }
}

/// Events whose room is a fight.
pub open spec fn is_combat_spec(e: EventType) -> bool {
    e == EventType::TimedChallenge || e == EventType::EliteEncounter || e == EventType::FlawlessTrial
        || e == EventType::CursedVault
}

/// The weight of an event when an event room picks its event.
pub open spec fn event_weight_spec(e: EventType) -> u32 {
    match e {
        EventType::Gambler | EventType::BloodPact | EventType::Treasure | EventType::HealingSpring
        | EventType::Merchant => 2,
        _ => 1,
    }
}

/// The events in the order of the weighted pick.
pub open spec fn all_events_spec() -> Seq<EventType> {
    seq![
        EventType::BulletMaze,
        EventType::MemoryBlocks,
        EventType::TimedCollect,
        EventType::Gambler,
        EventType::BloodPact,
        EventType::Treasure,
        EventType::HealingSpring,
        EventType::Merchant,
        EventType::GoldAltar,
        EventType::MysticBlacksmith,
        EventType::WheelOfFate,
        EventType::TravelerGift,
        EventType::SacrificeAltar,
        EventType::TimedChallenge,
        EventType::EliteEncounter,
        EventType::FlawlessTrial,
        EventType::CursedVault,
    ]
}

/// The sum of the weights of the first `n` events of the pick order.
pub open spec fn weight_prefix(n: int) -> int
    decreases n,
{
    if n <= 0 { 0 } else { weight_prefix(n - 1) + event_weight_spec(all_events_spec()[n - 1]) }
}

pub open spec fn config_id_spec(e: EventType) -> Seq<char> {
    match e {
        EventType::BulletMaze => "bullet_maze"@,
        EventType::MemoryBlocks => "memory_blocks"@,
        EventType::TimedCollect => "timed_collect"@,
        EventType::Gambler => "gambler"@,
        EventType::BloodPact => "blood_pact"@,
        EventType::Treasure => "treasure"@,
        EventType::HealingSpring => "healing_spring"@,
        EventType::Merchant => "traveling_merchant"@,
        EventType::GoldAltar => "gold_altar"@,
        EventType::MysticBlacksmith => "mystic_blacksmith"@,
        EventType::WheelOfFate => "wheel_of_fate"@,
        EventType::TravelerGift => "traveler_gift"@,
        EventType::SacrificeAltar => "sacrifice_altar"@,
        EventType::TimedChallenge => "timed_challenge"@,
        EventType::EliteEncounter => "hunt_challenge"@,
        EventType::FlawlessTrial => "flawless_trial"@,
        EventType::CursedVault => "cursed_vault"@,
    }
}

pub open spec fn event_title_spec(e: EventType) -> Seq<char> {
    match e {
        EventType::BulletMaze => "弹幕迷宫"@,
        EventType::MemoryBlocks => "记忆方块"@,
        EventType::TimedCollect => "限时收集"@,
        EventType::Gambler => "赌徒"@,
        EventType::BloodPact => "血契"@,
        EventType::Treasure => "宝箱"@,
        EventType::HealingSpring => "治愈泉"@,
        EventType::Merchant => "流动商贩"@,
        EventType::GoldAltar => "金币祭坛"@,
        EventType::MysticBlacksmith => "神秘铸炉"@,
        EventType::WheelOfFate => "命运之轮"@,
        EventType::TravelerGift => "旅者休憩"@,
        EventType::SacrificeAltar => "献祭祭坛"@,
        EventType::TimedChallenge => "限时清剿"@,
        EventType::EliteEncounter => "猎杀挑战"@,
        EventType::FlawlessTrial => "无伤试炼"@,
        EventType::CursedVault => "诅咒宝库"@,
    }
}

/// One sentence on what event `e` offers.
pub open spec fn event_description_spec(e: EventType) -> Seq<char> {
    match e {
        EventType::BulletMaze => "穿过移动弹幕墙抵达终点。"@,
        EventType::MemoryBlocks => "记住亮起顺序并复现。"@,
        EventType::TimedCollect => "在时间压力下收集闪烁能量球。"@,
        EventType::Gambler => "付出金币，赌一项随机强化。"@,
        EventType::BloodPact => "献出生命，换取一项强化。"@,
        EventType::Treasure => "打开免费宝箱，获得强化与金币。"@,
        EventType::HealingSpring => "恢复生命、能量，或各恢复一部分。"@,
        EventType::Merchant => "挑一件半价强化带走。"@,
        EventType::GoldAltar => "用生命或能量换取金币。"@,
        EventType::MysticBlacksmith => "献祭已有强化，获得同类别更高稀有度强化。"@,
        EventType::WheelOfFate => "转动命运，接受随机奖惩。"@,
        EventType::TravelerGift => "休息、交谈或交易一项强化。"@,
        EventType::SacrificeAltar => "永久献出最大生命，换取传说强化。"@,
        EventType::TimedChallenge => "30 秒内清空房间，可得精英强化。"@,
        EventType::EliteEncounter => "击败多词缀精英，获得精英强化与金币。"@,
        EventType::FlawlessTrial => "无伤清敌可获得传说强化。"@,
        EventType::CursedVault => "连续开箱，金币与伏击并存。"@,
    }
}

/// The symbol on the prompt of event `e`.
pub open spec fn event_symbol_spec(e: EventType) -> Seq<char> {
    match e {
        EventType::Gambler => "◈"@,
        EventType::BloodPact => "♦"@,
        EventType::Treasure => "✦"@,
        EventType::HealingSpring => "✿"@,
        EventType::Merchant => "⚙"@,
        EventType::GoldAltar | EventType::WheelOfFate | EventType::TravelerGift => "◉"@,
        EventType::MysticBlacksmith | EventType::SacrificeAltar => "◆"@,
        EventType::BulletMaze | EventType::MemoryBlocks | EventType::TimedCollect => "⌘"@,
        EventType::TimedChallenge | EventType::EliteEncounter | EventType::FlawlessTrial
        | EventType::CursedVault => "⚔"@,
    }
}

/// The puzzle of event `e`, if its room is a puzzle.
pub open spec fn puzzle_kind_spec(e: EventType) -> Option<PuzzleKind> {
    if is_puzzle_spec(e) { Some(puzzle_kind_of(e)) } else { None }
}

/// How many of the first `n` elements of `s` satisfy `p`.
pub open spec fn count_where<A>(s: Seq<A>, p: spec_fn(A) -> bool, n: int) -> int
    decreases n,
{
    if n <= 0 { 0 } else { count_where(s, p, n - 1) + if p(s[n - 1]) { 1int } else { 0int } }
}

/// Filtering a prefix keeps as many elements as the prefix has satisfying the predicate.
proof fn lemma_filter_len_counts<A>(s: Seq<A>, p: spec_fn(A) -> bool, n: int)
    requires
        0 <= n <= s.len(),
    ensures
        s.take(n).filter(p).len() == count_where(s, p, n),
    decreases n,
{
    if n == 0 {
        s.take(0).lemma_filter_len(p);
    } else {
        lemma_filter_len_counts(s, p, n - 1);
        assert(s.take(n) =~= s.take(n - 1).push(s[n - 1]));
        s.take(n - 1).lemma_filter_len_push(p, s[n - 1]);
    }
}

/// Each event has a name, a description and a symbol that are not empty.
proof fn lemma_event_texts_present(e: EventType)
    ensures
        event_title_spec(e).len() > 0,
        event_description_spec(e).len() > 0,
        event_symbol_spec(e).len() > 0,
{
    match e {
        EventType::BulletMaze => { reveal_strlit("弹幕迷宫"); reveal_strlit("穿过移动弹幕墙抵达终点。"); reveal_strlit("⌘"); },
        EventType::MemoryBlocks => { reveal_strlit("记忆方块"); reveal_strlit("记住亮起顺序并复现。"); reveal_strlit("⌘"); },
        EventType::TimedCollect => { reveal_strlit("限时收集"); reveal_strlit("在时间压力下收集闪烁能量球。"); reveal_strlit("⌘"); },
        EventType::Gambler => { reveal_strlit("赌徒"); reveal_strlit("付出金币，赌一项随机强化。"); reveal_strlit("◈"); },
        EventType::BloodPact => { reveal_strlit("血契"); reveal_strlit("献出生命，换取一项强化。"); reveal_strlit("♦"); },
        EventType::Treasure => { reveal_strlit("宝箱"); reveal_strlit("打开免费宝箱，获得强化与金币。"); reveal_strlit("✦"); },
        EventType::HealingSpring => { reveal_strlit("治愈泉"); reveal_strlit("恢复生命、能量，或各恢复一部分。"); reveal_strlit("✿"); },
        EventType::Merchant => { reveal_strlit("流动商贩"); reveal_strlit("挑一件半价强化带走。"); reveal_strlit("⚙"); },
        EventType::GoldAltar => { reveal_strlit("金币祭坛"); reveal_strlit("用生命或能量换取金币。"); reveal_strlit("◉"); },
        EventType::MysticBlacksmith => { reveal_strlit("神秘铸炉"); reveal_strlit("献祭已有强化，获得同类别更高稀有度强化。"); reveal_strlit("◆"); },
        EventType::WheelOfFate => { reveal_strlit("命运之轮"); reveal_strlit("转动命运，接受随机奖惩。"); reveal_strlit("◉"); },
        EventType::TravelerGift => { reveal_strlit("旅者休憩"); reveal_strlit("休息、交谈或交易一项强化。"); reveal_strlit("◉"); },
        EventType::SacrificeAltar => { reveal_strlit("献祭祭坛"); reveal_strlit("永久献出最大生命，换取传说强化。"); reveal_strlit("◆"); },
        EventType::TimedChallenge => { reveal_strlit("限时清剿"); reveal_strlit("30 秒内清空房间，可得精英强化。"); reveal_strlit("⚔"); },
        EventType::EliteEncounter => { reveal_strlit("猎杀挑战"); reveal_strlit("击败多词缀精英，获得精英强化与金币。"); reveal_strlit("⚔"); },
        EventType::FlawlessTrial => { reveal_strlit("无伤试炼"); reveal_strlit("无伤清敌可获得传说强化。"); reveal_strlit("⚔"); },
        EventType::CursedVault => { reveal_strlit("诅咒宝库"); reveal_strlit("连续开箱，金币与伏击并存。"); reveal_strlit("⚔"); },
    }
}

/// The event catalogue: seventeen events, each once; three puzzles, four fights and ten
/// others; every event has a name, a description and a symbol; and an event's room is a
/// puzzle exactly when the event names a puzzle.
pub proof fn lemma_event_catalogue()
    ensures
        all_events_spec().len() == 17,
        all_events_spec().no_duplicates(),
        all_events_spec().filter(|e: EventType| is_puzzle_spec(e)).len() == 3,
        all_events_spec().filter(|e: EventType| is_combat_spec(e)).len() == 4,
        all_events_spec().filter(|e: EventType| !is_puzzle_spec(e) && !is_combat_spec(e)).len() == 10,
        forall|e: EventType| #[trigger] all_events_spec().contains(e),
        forall|e: EventType| (#[trigger] event_title_spec(e)).len() > 0 && event_description_spec(e).len() > 0
            && event_symbol_spec(e).len() > 0,
        forall|e: EventType| (#[trigger] puzzle_kind_spec(e)) is Some <==> is_puzzle_spec(e),
{
    let all = all_events_spec();
    let puzzle = |e: EventType| is_puzzle_spec(e);
    let combat = |e: EventType| is_combat_spec(e);
    let other = |e: EventType| !is_puzzle_spec(e) && !is_combat_spec(e);
    lemma_filter_len_counts(all, puzzle, 17);
    lemma_filter_len_counts(all, combat, 17);
    lemma_filter_len_counts(all, other, 17);
    assert(all.take(17) =~= all);
    reveal_with_fuel(count_where, 18);
    assert(count_where(all, puzzle, 17) == 3);
    assert(count_where(all, combat, 17) == 4);
    assert(count_where(all, other, 17) == 10);
    assert(all.no_duplicates());
    assert forall|e: EventType| #[trigger] all.contains(e) by {
        let i: int = match e {
            EventType::BulletMaze => 0,
            EventType::MemoryBlocks => 1,
            EventType::TimedCollect => 2,
            EventType::Gambler => 3,
            EventType::BloodPact => 4,
            EventType::Treasure => 5,
            EventType::HealingSpring => 6,
            EventType::Merchant => 7,
            EventType::GoldAltar => 8,
            EventType::MysticBlacksmith => 9,
            EventType::WheelOfFate => 10,
            EventType::TravelerGift => 11,
            EventType::SacrificeAltar => 12,
            EventType::TimedChallenge => 13,
            EventType::EliteEncounter => 14,
            EventType::FlawlessTrial => 15,
            EventType::CursedVault => 16,
        };
        assert(all[i] == e);
    }
    assert forall|e: EventType| (#[trigger] event_title_spec(e)).len() > 0 && event_description_spec(e).len() > 0
        && event_symbol_spec(e).len() > 0 by {
        lemma_event_texts_present(e);
    }
}

impl EventType {
    /// Every event, in the order of the weighted pick.
    pub fn phase3_events() -> (v: [EventType; 17])
        ensures
            v@ == all_events_spec(),
    {
        let v = [
            EventType::BulletMaze,
            EventType::MemoryBlocks,
            EventType::TimedCollect,
            EventType::Gambler,
            EventType::BloodPact,
            EventType::Treasure,
            EventType::HealingSpring,
            EventType::Merchant,
            EventType::GoldAltar,
            EventType::MysticBlacksmith,
            EventType::WheelOfFate,
            EventType::TravelerGift,
            EventType::SacrificeAltar,
            EventType::TimedChallenge,
            EventType::EliteEncounter,
            EventType::FlawlessTrial,
            EventType::CursedVault,
        ];
        proof {
            assert(v@ =~= all_events_spec());
        }
        v
    }

    /// The event's name.
    pub fn title(self) -> (s: &'static str)
        ensures
            s@ == event_title_spec(self),
    {
        match self {
            EventType::BulletMaze => "弹幕迷宫",
            EventType::MemoryBlocks => "记忆方块",
            EventType::TimedCollect => "限时收集",
            EventType::Gambler => "赌徒",
            EventType::BloodPact => "血契",
            EventType::Treasure => "宝箱",
            EventType::HealingSpring => "治愈泉",
            EventType::Merchant => "流动商贩",
            EventType::GoldAltar => "金币祭坛",
            EventType::MysticBlacksmith => "神秘铸炉",
            EventType::WheelOfFate => "命运之轮",
            EventType::TravelerGift => "旅者休憩",
            EventType::SacrificeAltar => "献祭祭坛",
            EventType::TimedChallenge => "限时清剿",
            EventType::EliteEncounter => "猎杀挑战",
            EventType::FlawlessTrial => "无伤试炼",
            EventType::CursedVault => "诅咒宝库",
        }
    }

    /// One sentence on what the event offers.
    pub fn description(self) -> (s: &'static str)
        ensures
            s@ == event_description_spec(self),
    {
        match self {
            EventType::BulletMaze => "穿过移动弹幕墙抵达终点。",
            EventType::MemoryBlocks => "记住亮起顺序并复现。",
            EventType::TimedCollect => "在时间压力下收集闪烁能量球。",
            EventType::Gambler => "付出金币，赌一项随机强化。",
            EventType::BloodPact => "献出生命，换取一项强化。",
            EventType::Treasure => "打开免费宝箱，获得强化与金币。",
            EventType::HealingSpring => "恢复生命、能量，或各恢复一部分。",
            EventType::Merchant => "挑一件半价强化带走。",
            EventType::GoldAltar => "用生命或能量换取金币。",
            EventType::MysticBlacksmith => "献祭已有强化，获得同类别更高稀有度强化。",
            EventType::WheelOfFate => "转动命运，接受随机奖惩。",
            EventType::TravelerGift => "休息、交谈或交易一项强化。",
            EventType::SacrificeAltar => "永久献出最大生命，换取传说强化。",
            EventType::TimedChallenge => "30 秒内清空房间，可得精英强化。",
            EventType::EliteEncounter => "击败多词缀精英，获得精英强化与金币。",
            EventType::FlawlessTrial => "无伤清敌可获得传说强化。",
            EventType::CursedVault => "连续开箱，金币与伏击并存。",
        }
    }

    /// The event's symbol on its prompt.
    pub fn symbol(self) -> (s: &'static str)
        ensures
            s@ == event_symbol_spec(self),
    {
        match self {
            EventType::Gambler => "◈",
            EventType::BloodPact => "♦",
            EventType::Treasure => "✦",
            EventType::HealingSpring => "✿",
            EventType::Merchant => "⚙",
            EventType::GoldAltar | EventType::WheelOfFate | EventType::TravelerGift => "◉",
            EventType::MysticBlacksmith | EventType::SacrificeAltar => "◆",
            EventType::BulletMaze | EventType::MemoryBlocks | EventType::TimedCollect => "⌘",
            EventType::TimedChallenge | EventType::EliteEncounter | EventType::FlawlessTrial
            | EventType::CursedVault => "⚔",
        }
    }

    /// Whether the event room holds a puzzle.
    pub fn is_puzzle(self) -> (b: bool)
        ensures
            b == is_puzzle_spec(self),
    {
        match self {
            EventType::BulletMaze | EventType::MemoryBlocks | EventType::TimedCollect => true,
            _ => false,
        }
    }

    /// The puzzle of a puzzle event.
    pub fn puzzle_kind(self) -> (k: Option<PuzzleKind>)
        ensures
            k == puzzle_kind_spec(self),
    {
        match self {
            EventType::BulletMaze => Some(PuzzleKind::BulletMaze),
            EventType::MemoryBlocks => Some(PuzzleKind::MemoryBlocks),
            EventType::TimedCollect => Some(PuzzleKind::TimedCollect),
            _ => None,
        }
    }

    /// The event's id in the game data.
    pub fn config_id(self) -> (s: &'static str)
        ensures
            s@ == config_id_spec(self),
    {
        match self {
            EventType::BulletMaze => "bullet_maze",
            EventType::MemoryBlocks => "memory_blocks",
            EventType::TimedCollect => "timed_collect",
            EventType::Gambler => "gambler",
            EventType::BloodPact => "blood_pact",
            EventType::Treasure => "treasure",
            EventType::HealingSpring => "healing_spring",
            EventType::Merchant => "traveling_merchant",
            EventType::GoldAltar => "gold_altar",
            EventType::MysticBlacksmith => "mystic_blacksmith",
            EventType::WheelOfFate => "wheel_of_fate",
            EventType::TravelerGift => "traveler_gift",
            EventType::SacrificeAltar => "sacrifice_altar",
            EventType::TimedChallenge => "timed_challenge",
            EventType::EliteEncounter => "hunt_challenge",
            EventType::FlawlessTrial => "flawless_trial",
            EventType::CursedVault => "cursed_vault",
        }
    }

    /// Whether the event room is a fight.
    pub fn is_combat(self) -> (b: bool)
        ensures
            b == is_combat_spec(self),
    {
        match self {
            EventType::TimedChallenge | EventType::EliteEncounter | EventType::FlawlessTrial
            | EventType::CursedVault => true,
            _ => false,
        }
    }

    /// The event's weight in the weighted pick.
    pub fn weight(self) -> (w: u32)
        ensures
            w == event_weight_spec(self),
    {
        match self {
            EventType::Gambler | EventType::BloodPact | EventType::Treasure | EventType::HealingSpring
            | EventType::Merchant => 2,
            _ => 1,
        }
    }
}

/// Of the events, three are puzzles, four are fights and ten are neither, and the pick's
/// weights add up to 22.
pub proof fn lemma_event_matrix()
    ensures
        all_events_spec().filter(|e: EventType| is_puzzle_spec(e)).len() == 3,
        all_events_spec().filter(|e: EventType| is_combat_spec(e)).len() == 4,
        all_events_spec().filter(|e: EventType| !is_puzzle_spec(e) && !is_combat_spec(e)).len() == 10,
        weight_prefix(17) == 22,
{
    reveal_with_fuel(Seq::filter, 18);
    reveal_with_fuel(weight_prefix, 18);
    assert(all_events_spec().filter(|e: EventType| is_puzzle_spec(e)) =~= seq![
        EventType::BulletMaze, EventType::MemoryBlocks, EventType::TimedCollect]);
    assert(all_events_spec().filter(|e: EventType| is_combat_spec(e)) =~= seq![
        EventType::TimedChallenge, EventType::EliteEncounter, EventType::FlawlessTrial, EventType::CursedVault]);
    assert(all_events_spec().filter(|e: EventType| !is_puzzle_spec(e) && !is_combat_spec(e)) =~= seq![
        EventType::Gambler, EventType::BloodPact, EventType::Treasure, EventType::HealingSpring,
        EventType::Merchant, EventType::GoldAltar, EventType::MysticBlacksmith, EventType::WheelOfFate,
        EventType::TravelerGift, EventType::SacrificeAltar]);
}

/// The event that a draw `pick` lands on, walking the events from the `k`-th on: the
/// draw falls to an event when it is below that event's weight, else the weight is taken
/// off and the walk goes on; past the last event it falls back to the bullet maze.
pub open spec fn pick_event_from(pick: int, k: int) -> EventType
    decreases 17 - k,
{
    if k < 0 || k >= 17 {
        EventType::BulletMaze
    } else if pick < event_weight_spec(all_events_spec()[k]) {
        all_events_spec()[k]
    } else {
        pick_event_from(pick - event_weight_spec(all_events_spec()[k]), k + 1)
    }
}

/// The event a weighted draw `pick` lands on.
pub open spec fn event_for_pick_spec(pick: int) -> EventType {
    pick_event_from(pick, 0)
}

/// The event a weighted draw `pick` lands on: the first event (in pick order) whose
/// cumulative weight exceeds the draw.
pub fn event_for_pick(pick: u32) -> (e: EventType)
    ensures
        e == event_for_pick_spec(pick as int),
{
    let events = EventType::phase3_events();
    let mut rest = pick;
    let mut k: usize = 0;
    while k < 17
        invariant
            k <= 17,
            events@ == all_events_spec(),
            pick_event_from(rest as int, k as int) == pick_event_from(pick as int, 0),
        decreases 17 - k,
    {
        let e = events[k];
        let w = e.weight();
        if rest < w {
            return e;
        }
        rest = rest - w;
        k = k + 1;
    }
    EventType::BulletMaze
}

/// Pick the event of an event room by weight: one draw below the total weight 22.
pub fn pick_weighted_event(rng: &mut GameRng) -> (e: EventType)
    ensures
        e == event_for_pick_spec((xorshift_step(old(rng).state()) % 22) as int),
        final(rng).state() == xorshift_step(old(rng).state()),
{
    let pick = rng.gen_below(22) as u32;
    event_for_pick(pick)
}

pub open spec fn room_label_spec(t: RoomType) -> Seq<char> {
    match t {
        RoomType::Start => "起点"@,
        RoomType::Normal => "战斗"@,
        RoomType::Shop => "商店"@,
        RoomType::Reward => "奖励"@,
        RoomType::Event => "事件"@,
        RoomType::Elite => "精英"@,
        RoomType::Boss => "Boss"@,
    }
}

/// The name of a room type in route hints.
pub fn room_type_label(room_type: RoomType) -> (s: &'static str)
    ensures
        s@ == room_label_spec(room_type),
{
    match room_type {
        RoomType::Start => "起点",
        RoomType::Normal => "战斗",
        RoomType::Shop => "商店",
        RoomType::Reward => "奖励",
        RoomType::Event => "事件",
        RoomType::Elite => "精英",
        RoomType::Boss => "Boss",
    }
}

/// The rooms after `current` (by id, in floor order), at most `n` of them.
pub open spec fn upcoming_rooms(rooms: Seq<RoomData>, current: u32, n: int) -> Seq<RoomType>
    decreases rooms.len(),
{
    if rooms.len() == 0 || n <= 0 {
        seq![]
    } else if rooms[0].id.0 > current {
        seq![rooms[0].room_type] + upcoming_rooms(rooms.drop_first(), current, n - 1)
    } else {
        upcoming_rooms(rooms.drop_first(), current, n)
    }
}

/// Room labels joined by " / ".
pub open spec fn joined_labels(types: Seq<RoomType>) -> Seq<char>
    decreases types.len(),
{
    if types.len() == 0 {
        seq![]
    } else if types.len() == 1 {
        room_label_spec(types[0])
    } else {
        joined_labels(types.drop_last()) + " / "@ + room_label_spec(types.last())
    }
}

/// The traveler's route hint: the next three rooms of the floor after the current one.
pub open spec fn intel_line_spec(rooms: Seq<RoomData>, current: u32) -> Seq<char> {
    let up = upcoming_rooms(rooms, current, 3);
    "后续房间："@ + if up.len() == 0 { "暂无可读路线情报"@ } else { joined_labels(up) }
}

proof fn lemma_upcoming_step(rooms: Seq<RoomData>, current: u32, i: int, n: int)
    requires
        0 <= i < rooms.len(),
        n >= 1,
    ensures
        upcoming_rooms(rooms.subrange(i, rooms.len() as int), current, n) == if rooms[i].id.0 > current {
            seq![rooms[i].room_type] + upcoming_rooms(rooms.subrange(i + 1, rooms.len() as int), current, n - 1)
        } else {
            upcoming_rooms(rooms.subrange(i + 1, rooms.len() as int), current, n)
        },
{
    let s = rooms.subrange(i, rooms.len() as int);
    assert(s.drop_first() =~= rooms.subrange(i + 1, rooms.len() as int));
    assert(s[0] == rooms[i]);
}

/// The traveler's route hint for the rooms after `current_room`.
pub fn traveler_intel_lines(layout: &FloorLayout, current_room: RoomId) -> (v: Vec<String>)
    ensures
        v@.len() == 1,
        v@[0]@ == intel_line_spec(layout.rooms@, current_room.0),
{
    let ghost rooms = layout.rooms@;
    let mut upcoming: Vec<RoomType> = Vec::new();
    let mut i: usize = 0;
    proof {
        assert(rooms.subrange(0, rooms.len() as int) =~= rooms);
    }
    while i < layout.rooms.len() && upcoming.len() < 3
        invariant
            rooms == layout.rooms@,
            i <= rooms.len(),
            upcoming@.len() <= 3,
            upcoming@ + upcoming_rooms(rooms.subrange(i as int, rooms.len() as int), current_room.0, 3 - upcoming@.len())
                == upcoming_rooms(rooms, current_room.0, 3),
        decreases rooms.len() - i,
    {
        let ghost before = upcoming@;
        proof {
            lemma_upcoming_step(rooms, current_room.0, i as int, 3 - upcoming@.len());
        }
        if layout.rooms[i].id.0 > current_room.0 {
            upcoming.push(layout.rooms[i].room_type);
            proof {
                assert(upcoming@ =~= before + seq![rooms[i as int].room_type]);
            }
        }
        i = i + 1;
    }
    proof {
        if upcoming@.len() < 3 {
            assert(rooms.subrange(i as int, rooms.len() as int) =~= Seq::<RoomData>::empty());
        }
        assert(upcoming@ =~= upcoming_rooms(rooms, current_room.0, 3));
    }
    let mut line = owned("后续房间：");
    if upcoming.len() == 0 {
        line = concat_str(line, "暂无可读路线情报");
    } else {
        let mut joined = owned(room_type_label(upcoming[0]));
        let mut k: usize = 1;
        proof {
            assert(upcoming@.take(1).drop_last() =~= Seq::<RoomType>::empty());
            assert(joined@ == joined_labels(upcoming@.take(1)));
        }
        while k < upcoming.len()
            invariant
                1 <= k <= upcoming@.len(),
                joined@ == joined_labels(upcoming@.take(k as int)),
            decreases upcoming@.len() - k,
        {
            joined = concat_str(joined, " / ");
            joined = concat_str(joined, room_type_label(upcoming[k]));
            proof {
                assert(upcoming@.take(k + 1).drop_last() =~= upcoming@.take(k as int));
            }
            k = k + 1;
        }
        proof {
            assert(upcoming@.take(upcoming@.len() as int) =~= upcoming@);
        }
        line = concat_str(line, joined.as_str());
    }
    let mut v: Vec<String> = Vec::new();
    v.push(line);
    v
}

/// The rarity one step above `rarity`, if any.
pub fn next_rarity(rarity: AugmentRarity) -> (r: Option<AugmentRarity>)
    ensures
        r == match rarity {
            AugmentRarity::Common => Some(AugmentRarity::Elite),
            AugmentRarity::Elite => Some(AugmentRarity::Legendary),
            AugmentRarity::Legendary => None::<AugmentRarity>,
        },
{
    match rarity {
        AugmentRarity::Common => Some(AugmentRarity::Elite),
        AugmentRarity::Elite => Some(AugmentRarity::Legendary),
        AugmentRarity::Legendary => None,
    }
}

pub open spec fn rarity_rank_spec(rarity: AugmentRarity) -> u8 {
    match rarity {
        AugmentRarity::Common => 0,
        AugmentRarity::Elite => 1,
        AugmentRarity::Legendary => 2,
    }
}

/// The order of rarities: common, elite, legendary.
pub fn rarity_rank(rarity: AugmentRarity) -> (r: u8)
    ensures
        r == rarity_rank_spec(rarity),
{
    match rarity {
        AugmentRarity::Common => 0,
        AugmentRarity::Elite => 1,
        AugmentRarity::Legendary => 2,
    }
}

/// The next rarity always ranks one higher.
pub proof fn lemma_next_rarity_ranks_higher(r: AugmentRarity)
    ensures
        r != AugmentRarity::Legendary ==> rarity_rank_spec(match r {
            AugmentRarity::Common => AugmentRarity::Elite,
            _ => AugmentRarity::Legendary,
        }) == rarity_rank_spec(r) + 1,
{
}

/// The first augment of the game data with id `id`.
pub fn augment_definition(augments: &Vec<AugmentEntry>, id: AugmentId) -> (r: Option<AugmentEntry>)
    ensures
        match r {
            Some(e) => exists|k: int| 0 <= k < augments@.len() && augments@[k] == e && e.id == id
                && forall|j: int| 0 <= j < k ==> (#[trigger] augments@[j]).id != id,
            None => forall|j: int| 0 <= j < augments@.len() ==> (#[trigger] augments@[j]).id != id,
        },
        r == augment_definition_spec(augments@, id),
{
    let mut k: usize = 0;
    while k < augments.len()
        invariant
            k <= augments@.len(),
            forall|j: int| 0 <= j < k ==> (#[trigger] augments@[j]).id != id,
        decreases augments@.len() - k,
    {
        if augments[k].id.0 == id.0 {
            return Some(augments[k]);
        }
        k = k + 1;
    }
    None
}

/// The gold a traveler pays for an augment: by its rarity, 40 when unknown.
pub open spec fn trade_gold_spec(augments: Seq<AugmentEntry>, id: AugmentId) -> u32 {
    match augment_definition_spec(augments, id) {
        Some(e) => match e.rarity {
            AugmentRarity::Common => 40u32,
            AugmentRarity::Elite => 80,
            AugmentRarity::Legendary => 140,
        },
        None => 40,
    }
}

/// The gold a traveler pays for an augment: by its rarity, 40 when unknown.
pub fn trade_gold_for_augment(augments: &Vec<AugmentEntry>, id: AugmentId) -> (g: u32)
    ensures
        g == trade_gold_spec(augments@, id),
{
    match augment_definition(augments, id) {
        Some(e) => match e.rarity {
            AugmentRarity::Common => 40,
            AugmentRarity::Elite => 80,
            AugmentRarity::Legendary => 140,
        },
        None => 40,
    }
}

/// The first augment of `augments` with id `id`.
pub open spec fn augment_definition_spec(augments: Seq<AugmentEntry>, id: AugmentId) -> Option<AugmentEntry> {
    if exists|k: int| 0 <= k < augments.len() && (#[trigger] augments[k]).id == id {
        let k = choose|k: int| 0 <= k < augments.len() && (#[trigger] augments[k]).id == id
            && forall|j: int| 0 <= j < k ==> (#[trigger] augments[j]).id != id;
        Some(augments[k])
    } else {
        None
    }
}

/// Half of an augment's price (its own, else 40, 70 or 120 by rarity), at least 1; 20
/// for an augment the game data does not know.
pub open spec fn half_price_spec(augments: Seq<AugmentEntry>, id: AugmentId) -> u32 {
    match augment_definition_spec(augments, id) {
        Some(e) => {
            let base: u32 = if e.shop_cost > 0 {
                e.shop_cost
            } else {
                match e.rarity {
                    AugmentRarity::Common => 40,
                    AugmentRarity::Elite => 70,
                    AugmentRarity::Legendary => 120,
                }
            };
            let half = (if base >= 1 { base } else { 1 }) / 2;
            if half >= 1 { half } else { 1 }
        },
        None => 20,
    }
}

/// The merchant's half price for an augment.
pub fn half_price_augment_cost(augments: &Vec<AugmentEntry>, id: AugmentId) -> (c: u32)
    ensures
        c == half_price_spec(augments@, id),
{
    match augment_definition(augments, id) {
        Some(e) => {
            let base = if e.shop_cost > 0 {
                e.shop_cost
            } else {
                match e.rarity {
                    AugmentRarity::Common => 40,
                    AugmentRarity::Elite => 70,
                    AugmentRarity::Legendary => 120,
                }
            };
            let half = (if base >= 1 { base } else { 1 }) / 2;
            if half >= 1 {
                half
            } else {
                1
            }
        },
        None => 20,
    }
}

/// Which augments an event may grant.
#[derive(Debug, Clone, Copy, PartialEq, Eq, Structural)]
pub enum AugmentPool {
    Any,
    CommonOnly,
    EliteOnly,
    LegendaryOnly,
}

/// The augments a solved puzzle's reward pool draws from.
pub fn augment_pool_from_puzzle(pool: PuzzleRewardPool) -> (r: Option<AugmentPool>)
    ensures
        r == match pool {
            PuzzleRewardPool::Nothing => None::<AugmentPool>,
            PuzzleRewardPool::Any => Some(AugmentPool::Any),
            PuzzleRewardPool::Elite => Some(AugmentPool::EliteOnly),
            PuzzleRewardPool::Legendary => Some(AugmentPool::LegendaryOnly),
        },
{
    match pool {
        PuzzleRewardPool::Nothing => None,
        PuzzleRewardPool::Any => Some(AugmentPool::Any),
        PuzzleRewardPool::Elite => Some(AugmentPool::EliteOnly),
        PuzzleRewardPool::Legendary => Some(AugmentPool::LegendaryOnly),
    }
}

/// Whether an augment of `rarity` belongs to `pool` (elite pools also take legendaries).
pub open spec fn in_pool(pool: AugmentPool, rarity: AugmentRarity) -> bool {
    match pool {
        AugmentPool::Any => true,
        AugmentPool::CommonOnly => rarity == AugmentRarity::Common,
        AugmentPool::EliteOnly => rarity == AugmentRarity::Elite || rarity == AugmentRarity::Legendary,
        AugmentPool::LegendaryOnly => rarity == AugmentRarity::Legendary,
    }
}

/// The augments of `augments` that belong to `pool`, in their order.
pub open spec fn pool_filter(augments: Seq<AugmentEntry>, pool: AugmentPool) -> Seq<AugmentEntry> {
    augments.filter(|e: AugmentEntry| in_pool(pool, e.rarity))
}

/// What an event draws from: the augments of the pool, or all augments when the pool has none.
pub open spec fn pool_candidates(augments: Seq<AugmentEntry>, pool: AugmentPool) -> Seq<AugmentEntry> {
    if pool_filter(augments, pool).len() > 0 {
        pool_filter(augments, pool)
    } else {
        augments
    }
}

/// An augment drawn for an event from `pool`: one of the game data's augments, and of the
/// pool whenever the pool holds any.
pub open spec fn drawn_from(augments: Seq<AugmentEntry>, pool: AugmentPool, e: AugmentEntry) -> bool {
    &&& augments.contains(e)
    &&& pool_filter(augments, pool).len() > 0 ==> in_pool(pool, e.rarity)
}

/// Up to `count` augments drawn from `pool` in a random order without repeating an entry;
/// when the pool is empty, from all augments. They are the first of the candidates shuffled
/// from the generator's state.
pub fn pick_augment_offers(augments: &Vec<AugmentEntry>, rng: &mut GameRng, pool: AugmentPool, count: usize) -> (v: Vec<AugmentEntry>)
    ensures
        v@ == shuffle_spec(old(rng).state(), pool_candidates(augments@, pool)).0.take(v@.len() as int),
        final(rng).state() == shuffle_spec(old(rng).state(), pool_candidates(augments@, pool)).1,
        v@.len() == crate::session::min_int(count as int, pool_candidates(augments@, pool).len() as int),
        v@.to_multiset().subset_of(pool_candidates(augments@, pool).to_multiset()),
        forall|i: int| 0 <= i < v@.len() ==> drawn_from(augments@, pool, #[trigger] v@[i]),
{
    let mut candidates: Vec<AugmentEntry> = Vec::new();
    let mut k: usize = 0;
    proof {
        assert(augments@.take(0) =~= Seq::<AugmentEntry>::empty());
        assert(candidates@ =~= pool_filter(augments@.take(0), pool));
    }
    while k < augments.len()
        invariant
            k <= augments@.len(),
            candidates@ == pool_filter(augments@.take(k as int), pool),
        decreases augments@.len() - k,
    {
        let e = augments[k];
        let keep = match pool {
            AugmentPool::Any => true,
            AugmentPool::CommonOnly => e.rarity == AugmentRarity::Common,
            AugmentPool::EliteOnly => e.rarity == AugmentRarity::Elite || e.rarity == AugmentRarity::Legendary,
            AugmentPool::LegendaryOnly => e.rarity == AugmentRarity::Legendary,
        };
        proof {
            assert(augments@.take(k + 1) =~= augments@.take(k as int).push(e));
            augments@.take(k as int).lemma_filter_push(e, |x: AugmentEntry| in_pool(pool, x.rarity));
        }
        if keep {
            candidates.push(e);
        }
        k = k + 1;
    }
    proof {
        assert(augments@.take(augments@.len() as int) =~= augments@);
    }
    if candidates.len() == 0 {
        candidates = crate::session::copy_vec(augments);
    }
    let ghost cands_v = candidates@;
    let shuffled = rng.shuffled(candidates);
    let n = if count < shuffled.len() { count } else { shuffled.len() };
    let mut v: Vec<AugmentEntry> = Vec::new();
    let mut i: usize = 0;
    while i < n
        invariant
            n <= shuffled@.len(),
            i <= n,
            v@ == shuffled@.take(i as int),
        decreases n - i,
    {
        v.push(shuffled[i]);
        i = i + 1;
        proof {
            assert(v@ =~= shuffled@.take(i as int));
        }
    }
    proof {
        broadcast use vstd::seq_lib::group_to_multiset_ensures;
        broadcast use vstd::multiset::group_multiset_axioms;
        broadcast use vstd::seq_lib::group_filter_ensures;
        crate::session::lemma_take_submultiset(shuffled@, n as int);
        assert(v@.to_multiset().subset_of(cands_v.to_multiset()));
        assert forall|j: int| 0 <= j < v@.len() implies drawn_from(augments@, pool, #[trigger] v@[j]) by {
            assert(v@.contains(v@[j]));
            assert(v@.to_multiset().count(v@[j]) > 0);
            assert(cands_v.to_multiset().count(v@[j]) > 0);
            assert(cands_v.contains(v@[j]));
            if pool_filter(augments@, pool).len() > 0 {
                let t = choose|t: int| 0 <= t < cands_v.len() && cands_v[t] == v@[j];
                assert(in_pool(pool, pool_filter(augments@, pool)[t].rarity));
                augments@.lemma_filter_contains_rev(|x: AugmentEntry| in_pool(pool, x.rarity), v@[j]);
            }
        }
    }
    v
}

/// A choice of an event.
#[derive(Debug, Clone)]
pub struct EventChoice {
    pub label: String,
    pub description: String,
}

/// The choice that leaves an event without taking anything.
pub fn leave_choice() -> (c: EventChoice)
    ensures
        c.label@ == "离开"@,
        c.description@ == "放弃这次事件，立即返回地图。"@,
{
    EventChoice { label: owned("离开"), description: owned("放弃这次事件，立即返回地图。") }
}

/// What picking a choice of an event does. Shares of health and energy are in percent.
#[derive(Debug, Clone)]
pub enum EventChoicePayload {
    Leave,
    Unavailable { title: String, message: String },
    Gambler { cost: u32, augment_id: AugmentId },
    BloodPact { hp_percent: u32, augment_id: AugmentId },
    Treasure { augment_id: AugmentId, gold_bonus: u32 },
    HealingSpring { hp_percent: u32, energy_flat: u32, energy_percent: u32 },
    Merchant { cost: u32, augment_id: AugmentId },
    GoldAltar { gold: u32, hp_basis_points: u32, energy_cost: u32 },
    MysticForge { sacrifice_id: AugmentId, reward_id: AugmentId },
    WheelOfFate,
    TravelerRest,
    TravelerIntel { lines: Vec<String> },
    TravelerTrade { sacrifice_id: AugmentId, gold: u32 },
    SacrificeAltar { augment_id: AugmentId },
}

/// Whether an event screen stays open, is left, or is done.
#[derive(Debug, Clone, Copy, PartialEq, Eq, Structural)]
pub enum EventInputOutcome {
    StayOpen,
    Leave,
    Complete,
}

/// Pay `cost` gold for an event choice: with enough gold it is paid and the event is
/// done; otherwise nothing is paid, the event stays open and the player is warned.
pub fn charge_event_gold(gold: &mut u32, cost: u32) -> (r: (EventInputOutcome, Option<UiFeedback>))
    ensures
        *old(gold) >= cost ==> *final(gold) == *old(gold) - cost && r.0 == EventInputOutcome::Complete && r.1.is_none(),
        *old(gold) < cost ==> *final(gold) == *old(gold) && r.0 == EventInputOutcome::StayOpen
            && (match r.1 {
                Some(f) => gold_warning_spec(f, cost, *old(gold), GamePhase::EventRoom),
                None => false,
            }),
{
    if *gold < cost {
        return (EventInputOutcome::StayOpen, Some(insufficient_gold_feedback(cost, *gold)));
    }
    *gold = *gold - cost;
    (EventInputOutcome::Complete, None)
}

/// The event of the current event room and how far it has gone. A timed challenge's clock,
/// when it runs, is kept by the caller.
#[derive(Debug)]
pub struct ActiveEvent {
    pub event_type: Option<EventType>,
    pub resolved: bool,
    pub room: Option<RoomId>,
    pub interaction_ready: bool,
    pub choices: Vec<EventChoice>,
    pub choice_payloads: Vec<EventChoicePayload>,
    pub combat_reward_ready: bool,
    pub flawless_failed: bool,
    pub challenge_timer_running: bool,
}

/// The state of an event room with nothing going on.
pub open spec fn is_idle_event(a: ActiveEvent) -> bool {
    &&& a.event_type.is_none()
    &&& !a.resolved
    &&& a.room.is_none()
    &&& !a.interaction_ready
    &&& a.choices@.len() == 0
    &&& a.choice_payloads@.len() == 0
    &&& !a.combat_reward_ready
    &&& !a.flawless_failed
    &&& !a.challenge_timer_running
}

impl ActiveEvent {
    /// No event.
    pub fn new() -> (a: ActiveEvent)
        ensures
            is_idle_event(a),
    {
        ActiveEvent {
            event_type: None,
            resolved: false,
            room: None,
            interaction_ready: false,
            choices: Vec::new(),
            choice_payloads: Vec::new(),
            combat_reward_ready: false,
            flawless_failed: false,
            challenge_timer_running: false,
        }
    }

    /// Forget the event.
    pub fn reset(&mut self)
        ensures
            is_idle_event(*final(self)),
    {
        *self = ActiveEvent::new();
    }

    /// The event is over: it keeps its room and is marked resolved, everything else is cleared.
    pub fn mark_resolved(&mut self)
        ensures
            final(self).resolved,
            final(self).room == old(self).room,
            final(self).event_type.is_none(),
            !final(self).interaction_ready,
            final(self).choices@.len() == 0,
            final(self).choice_payloads@.len() == 0,
            !final(self).combat_reward_ready,
            !final(self).flawless_failed,
            !final(self).challenge_timer_running,
    {
        self.resolved = true;
        self.event_type = None;
        self.interaction_ready = false;
        self.choices.clear();
        self.choice_payloads.clear();
        self.combat_reward_ready = false;
        self.flawless_failed = false;
        self.challenge_timer_running = false;
    }

    /// On entering an event room that has no event yet, pick its event and wait for the
    /// player to interact; any other room, or the same room again, changes nothing.
    pub fn init_for_room(&mut self, room_type: RoomType, current_room: RoomId, rng: &mut GameRng) -> (started: bool)
        ensures
            started == (room_type == RoomType::Event && old(self).room != Some(current_room)),
            started ==> final(self).room == Some(current_room) && final(self).event_type.is_some()
                && final(self).interaction_ready && !final(self).resolved && final(self).choices@.len() == 0
                && final(self).choice_payloads@.len() == 0 && !final(self).combat_reward_ready
                && !final(self).flawless_failed
                && final(self).event_type == Some(event_for_pick_spec((xorshift_step(old(rng).state()) % 22) as int)),
            !started ==> final(self).room == old(self).room && final(self).event_type == old(self).event_type
                && final(self).resolved == old(self).resolved && final(self).interaction_ready == old(self).interaction_ready
                && final(rng).state() == old(rng).state(),
    {
        let same = match self.room {
            Some(r) => r.0 == current_room.0,
            None => false,
        };
        if room_type != RoomType::Event || same {
            return false;
        }
        self.reset();
        self.room = Some(current_room);
        self.event_type = Some(pick_weighted_event(rng));
        self.interaction_ready = true;
        true
    }

    /// Whether the interaction prompt shows: in the event's own event room, while it waits
    /// for the player and is not resolved.
    pub fn prompt_visible(&self, room_type: RoomType, current_room: RoomId) -> (b: bool)
        ensures
            b == (room_type == RoomType::Event && self.room == Some(current_room) && self.interaction_ready && !self.resolved),
    {
        let same = match self.room {
            Some(r) => r.0 == current_room.0,
            None => false,
        };
        room_type == RoomType::Event && same && self.interaction_ready && !self.resolved
    }
}

} // verus!
