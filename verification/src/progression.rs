use vstd::prelude::*;

use crate::rng::{shuffle_spec, GameRng};
use crate::states::AppState;

verus! {

/// The thresholds used when the game data has no experience curve.
pub open spec fn fallback_curve() -> Seq<u32> {
    seq![50u32, 70, 90, 110, 130, 150, 180, 200, 220]
}

/// The configured curve, or the fallback when it is empty.
pub open spec fn threshold_table(curve: Seq<u32>) -> Seq<u32> {
    if curve.len() == 0 { fallback_curve() } else { curve }
}

/// Experience needed to go from `level` to `level + 1`: the table entry for the level,
/// and beyond the table the last entry plus 25 for every further level.
pub open spec fn xp_threshold_spec(curve: Seq<u32>, level: int) -> int {
    let t = threshold_table(curve);
    let idx = if level >= 1 { level - 1 } else { 0 };
    if idx < t.len() {
        t[idx] as int
    } else {
        t[t.len() - 1] + (idx + 1 - t.len()) * 25
    }
}

/// Every entry of the curve is positive.
pub open spec fn curve_positive(curve: Seq<u32>) -> bool {
    forall|i: int| 0 <= i < curve.len() ==> #[trigger] curve[i] > 0
}

/// Experience needed to go from `level` to `level + 1`. Reads the configured curve,
/// extrapolates by 25 per level beyond it, and falls back to 50, 70, 90, ... when the
/// curve is empty.
pub fn xp_threshold(curve: &[u32], level: u32) -> (t: u32)
    requires
        xp_threshold_spec(curve@, level as int) <= u32::MAX,
    ensures
        t == xp_threshold_spec(curve@, level as int),
{
    let fallback: [u32; 9] = [50, 70, 90, 110, 130, 150, 180, 200, 220];
    proof {
        assert(fallback@ =~= fallback_curve());
    }
    let idx: usize = if level >= 1 { (level - 1) as usize } else { 0 };
    if curve.len() == 0 {
        if idx < 9 {
            fallback[idx]
        } else {
            let extra = (idx - 8) as u64 * 25;
            (220u64 + extra) as u32
        }
    } else {
        let len = curve.len();
        if idx < len {
            curve[idx]
        } else {
            let extra = (idx + 1 - len) as u64 * 25;
            (curve[len - 1] as u64 + extra) as u32
        }
    }
}

/// Every threshold is positive when every entry of the curve is.
pub proof fn lemma_threshold_positive(curve: Seq<u32>, level: int)
    requires
        curve_positive(curve),
    ensures
        xp_threshold_spec(curve, level) > 0,
{
    let t = threshold_table(curve);
    assert(t[t.len() - 1] > 0);
}

/// Levels, left-over experience, next threshold and levels gained after adding
/// experience: while the experience reaches the threshold, pay it and go up a level.
pub open spec fn level_up_spec(level: int, xp: int, to_next: int, curve: Seq<u32>) -> (int, int, int, int)
    decreases xp,
{
    if to_next <= 0 || xp < to_next {
        (level, xp, to_next, 0)
    } else {
        let r = level_up_spec(level + 1, xp - to_next, xp_threshold_spec(curve, level + 1), curve);
        (r.0, r.1, r.2, r.3 + 1)
    }
}

/// Every threshold met while levelling up from this state, the first one included, is
/// positive, so levelling up comes to an end.
pub open spec fn thresholds_reached_positive(level: int, xp: int, to_next: int, curve: Seq<u32>) -> bool
    decreases xp,
{
    if to_next <= 0 {
        false
    } else if xp < to_next {
        true
    } else {
        thresholds_reached_positive(level + 1, xp - to_next, xp_threshold_spec(curve, level + 1), curve)
    }
}

/// A curve with only positive entries meets only positive thresholds.
pub proof fn lemma_positive_curve_reaches_positive(level: int, xp: int, to_next: int, curve: Seq<u32>)
    requires
        to_next > 0,
        curve_positive(curve),
    ensures
        thresholds_reached_positive(level, xp, to_next, curve),
    decreases xp,
{
    if xp >= to_next {
        lemma_threshold_positive(curve, level + 1);
        lemma_positive_curve_reaches_positive(level + 1, xp - to_next, xp_threshold_spec(curve, level + 1), curve);
    }
}

/// Levelling up from this state computes only values that fit in 32 bits.
pub open spec fn level_up_fits(level: int, xp: int, to_next: int, curve: Seq<u32>) -> bool
    decreases xp,
{
    if to_next <= 0 || xp < to_next {
        true
    } else {
        &&& level + 1 <= u32::MAX
        &&& xp_threshold_spec(curve, level + 1) <= u32::MAX
        &&& level_up_fits(level + 1, xp - to_next, xp_threshold_spec(curve, level + 1), curve)
    }
}

/// Experience that `n` level-ups cost from `level`, the first at `to_next` and each further
/// one at the threshold of the level it leaves.
pub open spec fn levels_cost(level: int, to_next: int, curve: Seq<u32>, n: nat) -> int
    decreases n,
{
    if n == 0 {
        0
    } else {
        to_next + levels_cost(level + 1, xp_threshold_spec(curve, level + 1), curve, (n - 1) as nat)
    }
}

/// Levelling up gains exactly as many levels as the experience pays for: the thresholds of
/// the levels gained add up to at most the experience, one more would cost more than it,
/// what is left is the experience less that sum, and the next threshold is that of the level
/// reached.
pub proof fn lemma_level_up_pays_thresholds(level: int, xp: int, to_next: int, curve: Seq<u32>)
    requires
        xp >= 0,
        thresholds_reached_positive(level, xp, to_next, curve),
    ensures
        ({
            let r = level_up_spec(level, xp, to_next, curve);
            &&& r.3 >= 0
            &&& r.0 == level + r.3
            &&& levels_cost(level, to_next, curve, r.3 as nat) <= xp
            &&& xp < levels_cost(level, to_next, curve, (r.3 + 1) as nat)
            &&& r.1 == xp - levels_cost(level, to_next, curve, r.3 as nat)
            &&& r.2 == if r.3 == 0 { to_next } else { xp_threshold_spec(curve, level + r.3) }
        }),
    decreases xp,
{
    let r = level_up_spec(level, xp, to_next, curve);
    if xp < to_next {
        assert(levels_cost(level + 1, xp_threshold_spec(curve, level + 1), curve, 0) == 0);
    } else {
        let next = xp_threshold_spec(curve, level + 1);
        lemma_level_up_pays_thresholds(level + 1, xp - to_next, next, curve);
        let r1 = level_up_spec(level + 1, xp - to_next, next, curve);
        assert(r.3 == r1.3 + 1);
        assert(levels_cost(level, to_next, curve, r.3 as nat) == to_next + levels_cost(level + 1, next, curve, r1.3 as nat));
        assert(levels_cost(level, to_next, curve, (r.3 + 1) as nat)
            == to_next + levels_cost(level + 1, next, curve, (r1.3 + 1) as nat));
    }
}

/// The player's level and experience within a run.
#[derive(Debug, Clone, Copy, PartialEq, Eq, Structural)]
pub struct PlayerLevel {
    pub level: u32,
    pub xp: u32,
    pub xp_to_next: u32,
}

impl Default for PlayerLevel {
    /// Level 1 with no experience, needing the first fallback threshold.
    fn default() -> (p: Self)
        ensures
            p.level == 1,
            p.xp == 0,
            p.xp_to_next == xp_threshold_spec(seq![], 1),
    {
        let empty: [u32; 0] = [];
        proof {
            assert(empty@ =~= Seq::<u32>::empty());
        }
        PlayerLevel { level: 1, xp: 0, xp_to_next: xp_threshold(&empty, 1) }
    }
}

impl PlayerLevel {
    /// Add experience and return the number of levels gained. Each level costs the
    /// threshold of the level being left; left-over experience carries over.
    pub fn add_xp(&mut self, amount: u32, curve: &[u32]) -> (gained: u32)
        requires
            thresholds_reached_positive(old(self).level as int, old(self).xp + amount, old(self).xp_to_next as int, curve@),
            old(self).xp + amount <= u32::MAX,
            level_up_fits(old(self).level as int, old(self).xp + amount, old(self).xp_to_next as int, curve@),
        ensures
            ({
                let r = level_up_spec(old(self).level as int, old(self).xp + amount, old(self).xp_to_next as int, curve@);
                &&& final(self).level == r.0
                &&& final(self).xp == r.1
                &&& final(self).xp_to_next == r.2
                &&& gained == r.3
            }),
            final(self).xp < final(self).xp_to_next,
            final(self).level == old(self).level + gained,
            levels_cost(old(self).level as int, old(self).xp_to_next as int, curve@, gained as nat) <= old(self).xp + amount,
            old(self).xp + amount < levels_cost(old(self).level as int, old(self).xp_to_next as int, curve@, (gained + 1) as nat),
            final(self).xp == old(self).xp + amount - levels_cost(old(self).level as int, old(self).xp_to_next as int, curve@, gained as nat),
    {
        proof {
            lemma_level_up_pays_thresholds(old(self).level as int, old(self).xp + amount, old(self).xp_to_next as int, curve@);
        }
        self.xp = self.xp + amount;
        let mut gained: u32 = 0;
        let ghost target = level_up_spec(old(self).level as int, old(self).xp + amount, old(self).xp_to_next as int, curve@);
        while self.xp >= self.xp_to_next
            invariant
                thresholds_reached_positive(self.level as int, self.xp as int, self.xp_to_next as int, curve@),
                level_up_fits(self.level as int, self.xp as int, self.xp_to_next as int, curve@),
                ({
                    let r = level_up_spec(self.level as int, self.xp as int, self.xp_to_next as int, curve@);
                    &&& r.0 == target.0
                    &&& r.1 == target.1
                    &&& r.2 == target.2
                    &&& r.3 + gained == target.3
                }),
                self.level == old(self).level + gained,
            decreases self.xp,
        {
            self.xp = self.xp - self.xp_to_next;
            self.level = self.level + 1;
            gained = gained + 1;
            self.xp_to_next = xp_threshold(curve, self.level);
        }
        gained
    }
}

/// The level numbers reached one by one when `gained` levels lead to `level`.
pub fn reached_levels(level: u32, gained: u32) -> (v: Vec<u32>)
    requires
        gained <= level,
    ensures
        v@.len() == gained,
        forall|i: int| 0 <= i < gained ==> #[trigger] v@[i] == level - gained + i + 1,
{
    let mut v: Vec<u32> = Vec::new();
    let mut i: u32 = 0;
    while i < gained
        invariant
            gained <= level,
            i <= gained,
            v@.len() == i,
            forall|k: int| 0 <= k < i ==> #[trigger] v@[k] == level - gained + k + 1,
        decreases gained - i,
    {
        v.push(level - gained + i + 1);
        i = i + 1;
    }
    v
}

/// The balance values that set the size and length of a run.
#[derive(Debug, Clone, Copy, PartialEq, Eq, Structural)]
pub struct BalanceConfig {
    pub enemy_count_normal_room: u32,
    pub total_floors: u32,
}

pub open spec fn floor_enemy_count_spec(data: BalanceConfig, floor: u32) -> int {
    (if data.enemy_count_normal_room >= 2 { data.enemy_count_normal_room as int } else { 2 })
        + (if floor >= 1 { floor - 1 } else { 0 })
}

/// Enemies in a normal room of `floor`: the configured count (at least two), plus one
/// for every floor after the first.
pub fn get_floor_enemy_count(data: &BalanceConfig, floor: u32) -> (n: u32)
    requires
        floor_enemy_count_spec(*data, floor) <= u32::MAX,
    ensures
        n == floor_enemy_count_spec(*data, floor),
{
    let base = if data.enemy_count_normal_room >= 2 { data.enemy_count_normal_room } else { 2 };
    base + floor.saturating_sub(1)
}

/// Whether `floor` is the last floor of the run (a run has at least one floor).
pub fn is_final_floor(data: &BalanceConfig, floor: u32) -> (b: bool)
    ensures
        b == (floor >= (if data.total_floors >= 1 { data.total_floors } else { 1 })),
{
    floor >= if data.total_floors >= 1 { data.total_floors } else { 1 }
}

/// Deeper floors never have fewer enemies per room.
pub proof fn lemma_enemy_count_monotonic(data: BalanceConfig, a: u32, b: u32)
    requires
        a <= b,
    ensures
        floor_enemy_count_spec(data, a) <= floor_enemy_count_spec(data, b),
{
}

/// Once a floor is final, every later floor is final too.
pub proof fn lemma_final_floor_stays_final(total_floors: u32, a: u32, b: u32)
    requires
        a <= b,
        a >= (if total_floors >= 1 { total_floors } else { 1 }),
    ensures
        b >= (if total_floors >= 1 { total_floors } else { 1 }),
{
}

/// The number of the floor the player is on, counted from 1.
#[derive(Debug, Clone, Copy, PartialEq, Eq, Structural)]
pub struct FloorNumber(pub u32);

impl FloorNumber {
    /// The floor a run starts on.
    pub fn first() -> (f: FloorNumber)
        ensures
            f.0 == 1,
    {
        FloorNumber(1)
    }

    /// Move to the next floor.
    pub fn go_to_next_floor(&mut self)
        requires
            old(self).0 < u32::MAX,
        ensures
            final(self).0 == old(self).0 + 1,
    {
        self.0 = self.0 + 1;
    }
}


/// Levels reached and not yet shown as a level-up choice, oldest first.
#[derive(Debug, Clone)]
pub struct PendingLevelUps {
    pub levels: Vec<u32>,
}

impl Default for PendingLevelUps {
    /// Nothing pending.
    fn default() -> (p: Self)
        ensures
            p.levels@.len() == 0,
    {
        PendingLevelUps { levels: Vec::new() }
    }
}

impl PendingLevelUps {
    /// Queue the levels reached this frame, then hand out the oldest pending level when a
    /// level-up choice can be shown: not in a frame where a room was cleared (that room's
    /// rewards go first), and only inside a solo or cooperative game.
    pub fn queue_and_take(&mut self, reached: &Vec<u32>, room_cleared_pending: bool, app_state: AppState) -> (r: Option<u32>)
        ensures
            ({
                let all = old(self).levels@ + reached@;
                let can_show = all.len() > 0 && !room_cleared_pending
                    && (app_state == AppState::InGame || app_state == AppState::CoopGame);
                &&& can_show ==> r == Some(all[0]) && final(self).levels@ == all.drop_first()
                &&& !can_show ==> r.is_none() && final(self).levels@ == all
            }),
    {
        let ghost all = self.levels@ + reached@;
        let mut i: usize = 0;
        while i < reached.len()
            invariant
                i <= reached@.len(),
                all == old(self).levels@ + reached@,
                self.levels@ == old(self).levels@ + reached@.take(i as int),
            decreases reached@.len() - i,
        {
            self.levels.push(reached[i]);
            i = i + 1;
            proof {
                assert(self.levels@ =~= old(self).levels@ + reached@.take(i as int));
            }
        }
        proof {
            assert(reached@.take(reached@.len() as int) =~= reached@);
        }
        if self.levels.len() == 0 || room_cleared_pending {
            return None;
        }
        let in_game = match app_state {
            AppState::InGame | AppState::CoopGame => true,
            _ => false,
        };
        if !in_game {
            return None;
        }
        let level = self.levels.remove(0);
        proof {
            assert(self.levels@ =~= all.drop_first());
        }
        Some(level)
    }
}

/// What a level-up choice improves.
#[derive(Debug, Clone, Copy, PartialEq, Eq, Structural)]
pub enum LevelUpKind {
    RecoverHealth,
    AttackPower,
    MaxHealth,
    MoveSpeed,
    CritChance,
    MeleeSpeed,
    RangedSpeed,
    DashCooldown,
}

/// The name a level-up choice is shown under: "回血" for healing, and for an attribute the
/// name that its amount follows.
pub open spec fn levelup_name_spec(k: LevelUpKind) -> Seq<char> {
    match k {
        LevelUpKind::RecoverHealth => "回血"@,
        LevelUpKind::AttackPower => "攻击力"@,
        LevelUpKind::MaxHealth => "生命上限"@,
        LevelUpKind::MoveSpeed => "移动速度"@,
        LevelUpKind::CritChance => "暴击率"@,
        LevelUpKind::MeleeSpeed => "近战间隔"@,
        LevelUpKind::RangedSpeed => "远程间隔"@,
        LevelUpKind::DashCooldown => "冲刺冷却"@,
    }
}

/// The sentence that explains a level-up choice (for healing, the line after the amount).
pub open spec fn levelup_summary_spec(k: LevelUpKind) -> Seq<char> {
    match k {
        LevelUpKind::RecoverHealth => "稳住当前状态后继续推进"@,
        LevelUpKind::AttackPower => "提升近战和远程攻击伤害"@,
        LevelUpKind::MaxHealth => "提升最大生命值并回复等量 HP"@,
        LevelUpKind::MoveSpeed => "提升角色移动速度"@,
        LevelUpKind::CritChance => "提升暴击概率"@,
        LevelUpKind::MeleeSpeed => "缩短近战攻击冷却"@,
        LevelUpKind::RangedSpeed => "缩短远程攻击冷却"@,
        LevelUpKind::DashCooldown => "缩短冲刺冷却时间"@,
    }
}

impl LevelUpKind {
    /// The name the choice is shown under; the caller appends the amount, which is fractional.
    pub fn name(self) -> (s: &'static str)
        ensures
            s@ == levelup_name_spec(self),
    {
        match self {
            LevelUpKind::RecoverHealth => "回血",
            LevelUpKind::AttackPower => "攻击力",
            LevelUpKind::MaxHealth => "生命上限",
            LevelUpKind::MoveSpeed => "移动速度",
            LevelUpKind::CritChance => "暴击率",
            LevelUpKind::MeleeSpeed => "近战间隔",
            LevelUpKind::RangedSpeed => "远程间隔",
            LevelUpKind::DashCooldown => "冲刺冷却",
        }
    }

    /// The sentence that explains the choice.
    pub fn summary(self) -> (s: &'static str)
        ensures
            s@ == levelup_summary_spec(self),
    {
        match self {
            LevelUpKind::RecoverHealth => "稳住当前状态后继续推进",
            LevelUpKind::AttackPower => "提升近战和远程攻击伤害",
            LevelUpKind::MaxHealth => "提升最大生命值并回复等量 HP",
            LevelUpKind::MoveSpeed => "提升角色移动速度",
            LevelUpKind::CritChance => "提升暴击概率",
            LevelUpKind::MeleeSpeed => "缩短近战攻击冷却",
            LevelUpKind::RangedSpeed => "缩短远程攻击冷却",
            LevelUpKind::DashCooldown => "缩短冲刺冷却时间",
        }
    }
}

/// The attributes a level-up can raise, in their order.
pub open spec fn levelup_stats_spec() -> Seq<LevelUpKind> {
    seq![
        LevelUpKind::AttackPower,
        LevelUpKind::MaxHealth,
        LevelUpKind::MoveSpeed,
        LevelUpKind::CritChance,
        LevelUpKind::MeleeSpeed,
        LevelUpKind::RangedSpeed,
        LevelUpKind::DashCooldown,
    ]
}

fn levelup_stats() -> (v: Vec<LevelUpKind>)
    ensures
        v@ == levelup_stats_spec(),
{
    let v = vec![
        LevelUpKind::AttackPower,
        LevelUpKind::MaxHealth,
        LevelUpKind::MoveSpeed,
        LevelUpKind::CritChance,
        LevelUpKind::MeleeSpeed,
        LevelUpKind::RangedSpeed,
        LevelUpKind::DashCooldown,
    ];
    proof {
        assert(v@ =~= levelup_stats_spec());
    }
    v
}

/// The choices of a level-up: healing first, then three different attributes drawn at
/// random from the seven: the first three of them shuffled from the generator's state. The
/// amounts, which are fractional, are the caller's.
pub fn build_levelup_options(rng: &mut GameRng) -> (v: Vec<LevelUpKind>)
    ensures
        v@.drop_first() == shuffle_spec(old(rng).state(), levelup_stats_spec()).0.take(3),
        final(rng).state() == shuffle_spec(old(rng).state(), levelup_stats_spec()).1,
        v@.len() == 4,
        v@[0] == LevelUpKind::RecoverHealth,
        levelup_name_spec(v@[0]) == "回血"@,
        v@.drop_first().no_duplicates(),
        forall|i: int| 1 <= i < 4 ==> levelup_stats_spec().contains(#[trigger] v@[i]),
{
    let all = levelup_stats();
    let ghost all_v = all@;
    let shuffled = rng.shuffled(all);
    let mut picked: Vec<LevelUpKind> = Vec::new();
    let mut i: usize = 0;
    while i < 3
        invariant
            shuffled@.len() == 7,
            i <= 3,
            picked@ == shuffled@.take(i as int),
        decreases 3 - i,
    {
        picked.push(shuffled[i]);
        i = i + 1;
        proof {
            assert(picked@ =~= shuffled@.take(i as int));
        }
    }
    proof {
        broadcast use vstd::seq_lib::group_to_multiset_ensures;
        broadcast use vstd::multiset::group_multiset_axioms;
        assert(all_v.no_duplicates()) by {
            assert forall|a: int, b: int| 0 <= a < all_v.len() && 0 <= b < all_v.len() && a != b
                implies all_v[a] != all_v[b] by {
                assert(all_v[a] == levelup_stats_spec()[a]);
                assert(all_v[b] == levelup_stats_spec()[b]);
            }
        }
        all_v.lemma_multiset_has_no_duplicates();
        crate::session::lemma_take_submultiset(shuffled@, 3);
        assert forall|x: LevelUpKind| picked@.to_multiset().count(x) <= 1 by {
            assert(picked@.to_multiset().count(x) <= shuffled@.to_multiset().count(x));
        }
        picked@.lemma_multiset_has_no_duplicates_conv();
        assert forall|j: int| 0 <= j < picked@.len() implies levelup_stats_spec().contains(#[trigger] picked@[j]) by {
            assert(picked@.contains(picked@[j]));
            assert(picked@.to_multiset().count(picked@[j]) > 0);
            assert(all_v.to_multiset().count(picked@[j]) > 0);
            assert(all_v.contains(picked@[j]));
        }
    }
    let mut v: Vec<LevelUpKind> = Vec::new();
    v.push(LevelUpKind::RecoverHealth);
    let mut k: usize = 0;
    while k < 3
        invariant
            k <= 3,
            picked@.len() == 3,
            v@.len() == k + 1,
            v@[0] == LevelUpKind::RecoverHealth,
            forall|j: int| 0 <= j < k ==> v@[j + 1] == picked@[j],
        decreases 3 - k,
    {
        v.push(picked[k]);
        k = k + 1;
    }
    proof {
        assert(v@.drop_first() =~= picked@);
        assert forall|i: int| 1 <= i < 4 implies levelup_stats_spec().contains(#[trigger] v@[i]) by {
            assert(v@[i] == picked@[i - 1]);
        }
    }
    v
}

} // verus!
