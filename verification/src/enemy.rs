use vstd::prelude::*;

use crate::map::{RoomId, RoomType};
use crate::progression::{floor_enemy_count_spec, get_floor_enemy_count, BalanceConfig};
use crate::puzzle::{is_idle_puzzle, ActivePuzzle};
use crate::rng::{shuffle_spec, xorshift_step, GameRng};
use crate::states::RoomState;

verus! {

/// The kinds of enemies.
#[derive(Debug, Clone, Copy, PartialEq, Eq, Hash, Structural)]
pub enum EnemyType {
    MeleeChaser,
    Lobber,
    RangedShooter,
    Charger,
    Flanker,
    Sniper,
    SupportCaster,
    Bomber,
    Shielder,
    Summoner,
    Boss,
}

/// The affixes an elite enemy can carry.
#[derive(Debug, Clone, Copy, PartialEq, Eq, Hash, Structural)]
pub enum EliteAffix {
    Swift,
    Splitting,
    Shielded,
    Vampiric,
    Berserk,
    Teleporting,
}

impl EliteAffix {
    /// The affix's name over the elite.
    pub fn label(&self) -> (s: &'static str)
        ensures
            s@ == match *self {
                EliteAffix::Swift => "迅捷"@,
                EliteAffix::Splitting => "分裂"@,
                EliteAffix::Shielded => "护盾"@,
                EliteAffix::Vampiric => "吸血"@,
                EliteAffix::Berserk => "狂暴"@,
                EliteAffix::Teleporting => "闪现"@,
            },
    {
        match self {
            EliteAffix::Swift => "迅捷",
            EliteAffix::Splitting => "分裂",
            EliteAffix::Shielded => "护盾",
            EliteAffix::Vampiric => "吸血",
            EliteAffix::Berserk => "狂暴",
            EliteAffix::Teleporting => "闪现",
        }
    }
}

/// Every affix, in a fixed order.
pub open spec fn all_affixes_spec() -> Seq<EliteAffix> {
    seq![
        EliteAffix::Swift,
        EliteAffix::Splitting,
        EliteAffix::Shielded,
        EliteAffix::Vampiric,
        EliteAffix::Berserk,
        EliteAffix::Teleporting,
    ]
}

/// Every affix, in a fixed order.
pub fn elite_affixes() -> (v: Vec<EliteAffix>)
    ensures
        v@ == all_affixes_spec(),
{
    let v = vec![
        EliteAffix::Swift,
        EliteAffix::Splitting,
        EliteAffix::Shielded,
        EliteAffix::Vampiric,
        EliteAffix::Berserk,
        EliteAffix::Teleporting,
    ];
    proof {
        assert(v@ =~= all_affixes_spec());
    }
    v
}

/// How many affixes an elite carries on a floor: one, and two from the third floor on.
pub open spec fn affix_count_spec(floor: u32) -> int {
    if floor >= 3 { 2 } else { 1 }
}

/// Elites carry one affix on the first two floors and two from the third floor on, so
/// never fewer on a deeper floor.
pub proof fn lemma_affix_counts(f: u32, g: u32)
    ensures
        f < 3 ==> affix_count_spec(f) == 1,
        f >= 3 ==> affix_count_spec(f) == 2,
        f <= g ==> affix_count_spec(f) <= affix_count_spec(g),
{
}

/// How many affixes an elite carries on `floor_number`.
pub fn elite_affix_count_for_floor(floor_number: u32) -> (n: usize)
    ensures
        n == affix_count_spec(floor_number),
{
    if floor_number >= 3 {
        2
    } else {
        1
    }
}

/// The affixes of an elite on `floor_number`: as many as the floor gives, different from
/// each other, drawn at random: the first of all affixes shuffled from the generator's state.
pub fn pick_elite_affixes(floor_number: u32, rng: &mut GameRng) -> (v: Vec<EliteAffix>)
    ensures
        v@ == shuffle_spec(old(rng).state(), all_affixes_spec()).0.take(affix_count_spec(floor_number) as int),
        final(rng).state() == shuffle_spec(old(rng).state(), all_affixes_spec()).1,
        v@.len() == affix_count_spec(floor_number),
        v@.no_duplicates(),
        forall|i: int| 0 <= i < v@.len() ==> all_affixes_spec().contains(#[trigger] v@[i]),
{
    let all = elite_affixes();
    let ghost all_v = all@;
    let shuffled = rng.shuffled(all);
    let n = elite_affix_count_for_floor(floor_number);
    let mut v: Vec<EliteAffix> = Vec::new();
    let mut i: usize = 0;
    while i < n
        invariant
            n <= 2,
            shuffled@.len() == 6,
            i <= n,
            v@ == shuffled@.take(i as int),
        decreases n - i,
    {
        v.push(shuffled[i]);
        i = i + 1;
        proof {
            assert(v@ =~= shuffled@.take(i as int));
        }
    }
    proof {
        broadcast use vstd::seq_lib::group_to_multiset_ensures;
        broadcast use vstd::multiset::group_multiset_axioms;
        assert(all_v.no_duplicates()) by {
            assert forall|a: int, b: int| 0 <= a < all_v.len() && 0 <= b < all_v.len() && a != b
                implies all_v[a] != all_v[b] by {
                assert(all_v[a] == all_affixes_spec()[a]);
                assert(all_v[b] == all_affixes_spec()[b]);
            }
        }
        all_v.lemma_multiset_has_no_duplicates();
        crate::session::lemma_take_submultiset(shuffled@, n as int);
        assert forall|x: EliteAffix| v@.to_multiset().count(x) <= 1 by {
            assert(v@.to_multiset().count(x) <= shuffled@.to_multiset().count(x));
        }
        v@.lemma_multiset_has_no_duplicates_conv();
        assert forall|j: int| 0 <= j < v@.len() implies all_affixes_spec().contains(#[trigger] v@[j]) by {
            assert(v@.contains(v@[j]));
            assert(v@.to_multiset().count(v@[j]) > 0);
            assert(all_v.to_multiset().count(v@[j]) > 0);
            assert(all_v.contains(v@[j]));
        }
    }
    v
}

/// The affixes of an elite enemy.
#[derive(Debug, Clone)]
pub struct EliteAffixes(pub Vec<EliteAffix>);

impl EliteAffixes {
    /// Whether the elite carries `affix`.
    pub fn contains(&self, affix: EliteAffix) -> (b: bool)
        ensures
            b == self.0@.contains(affix),
    {
        let mut i: usize = 0;
        while i < self.0.len()
            invariant
                i <= self.0@.len(),
                forall|j: int| 0 <= j < i ==> self.0@[j] != affix,
            decreases self.0@.len() - i,
        {
            if self.0[i] == affix {
                proof {
                    assert(self.0@[i as int] == affix);
                }
                return true;
            }
            i = i + 1;
        }
        false
    }
}

/// The four bosses.
#[derive(Debug, Clone, Copy, PartialEq, Eq, Hash, Structural)]
pub enum BossArchetype {
    Floor1Guardian,
    MirrorWarden,
    TideHunter,
    CubeCore,
}

/// The boss of a floor: the guardian on the first floor (and a floor 0), the mirror warden
/// on the second, the tide hunter on the third, the cube core from the fourth on.
pub open spec fn boss_for_floor(floor: u32) -> BossArchetype {
    if floor <= 1 {
        BossArchetype::Floor1Guardian
    } else if floor == 2 {
        BossArchetype::MirrorWarden
    } else if floor == 3 {
        BossArchetype::TideHunter
    } else {
        BossArchetype::CubeCore
    }
}

/// The bosses come in a fixed order: the guardian on the first floor (and a floor 0), then
/// the mirror warden, the tide hunter, and the cube core on the fourth floor and every floor
/// after it; the first four floors each have a boss of their own.
pub proof fn lemma_boss_order(f: u32, g: u32)
    ensures
        f <= 1 ==> boss_for_floor(f) == BossArchetype::Floor1Guardian,
        f == 2 ==> boss_for_floor(f) == BossArchetype::MirrorWarden,
        f == 3 ==> boss_for_floor(f) == BossArchetype::TideHunter,
        f >= 4 ==> boss_for_floor(f) == BossArchetype::CubeCore,
        1 <= f < g <= 4 ==> boss_for_floor(f) != boss_for_floor(g),
        4 <= f && 4 <= g ==> boss_for_floor(f) == boss_for_floor(g),
{
}

impl BossArchetype {
    /// The boss of `floor`.
    pub fn from_floor(floor: u32) -> (b: BossArchetype)
        ensures
            b == boss_for_floor(floor),
    {
        match floor {
            0 | 1 => BossArchetype::Floor1Guardian,
            2 => BossArchetype::MirrorWarden,
            3 => BossArchetype::TideHunter,
            _ => BossArchetype::CubeCore,
        }
    }
}

/// The boss's name.
pub fn boss_name(archetype: BossArchetype) -> (s: &'static str)
    ensures
        s@ == match archetype {
            BossArchetype::Floor1Guardian => "Floor1Boss"@,
            BossArchetype::MirrorWarden => "MirrorWarden"@,
            BossArchetype::TideHunter => "TideHunter"@,
            BossArchetype::CubeCore => "CubeCore"@,
        },
{
    match archetype {
        BossArchetype::Floor1Guardian => "Floor1Boss",
        BossArchetype::MirrorWarden => "MirrorWarden",
        BossArchetype::TideHunter => "TideHunter",
        BossArchetype::CubeCore => "CubeCore",
    }
}

/// The enemies each floor unlocks when the game data gives none: the first list for the
/// first floor, and so on.
pub open spec fn builtin_pools_spec() -> Seq<Seq<EnemyType>> {
    seq![
        seq![EnemyType::MeleeChaser, EnemyType::Lobber, EnemyType::Charger],
        seq![EnemyType::RangedShooter, EnemyType::Flanker, EnemyType::Bomber],
        seq![EnemyType::Sniper, EnemyType::Shielder],
        seq![EnemyType::SupportCaster, EnemyType::Summoner],
    ]
}

/// The lists of a list of lists, by their views.
pub open spec fn pools_view(pools: Seq<Vec<EnemyType>>) -> Seq<Seq<EnemyType>> {
    Seq::new(pools.len(), |i: int| pools[i]@)
}

/// The enemies each floor unlocks when the game data gives none.
pub fn builtin_enemy_pools() -> (v: Vec<Vec<EnemyType>>)
    ensures
        pools_view(v@) == builtin_pools_spec(),
{
    let v = vec![
        vec![EnemyType::MeleeChaser, EnemyType::Lobber, EnemyType::Charger],
        vec![EnemyType::RangedShooter, EnemyType::Flanker, EnemyType::Bomber],
        vec![EnemyType::Sniper, EnemyType::Shielder],
        vec![EnemyType::SupportCaster, EnemyType::Summoner],
    ];
    proof {
        assert(pools_view(v@) =~= builtin_pools_spec());
    }
    v
}

/// The first `n` lists, one after the other.
pub open spec fn tiers_flat(pools: Seq<Seq<EnemyType>>, n: int) -> Seq<EnemyType>
    decreases n,
{
    if n <= 0 {
        Seq::empty()
    } else {
        tiers_flat(pools, n - 1) + pools[n - 1]
    }
}

/// The elements of `s` in order, each kept at its first occurrence only.
pub open spec fn dedup_seq(s: Seq<EnemyType>) -> Seq<EnemyType>
    decreases s.len(),
{
    if s.len() == 0 {
        Seq::empty()
    } else {
        let d = dedup_seq(s.drop_last());
        if d.contains(s.last()) {
            d
        } else {
            d.push(s.last())
        }
    }
}

/// The index of the last tier unlocked on `floor`: floors below the first count as the
/// first, floors past the last tier get all tiers.
pub open spec fn last_tier(pools: Seq<Seq<EnemyType>>, floor: u32) -> int {
    let f = if floor >= 1 { floor as int } else { 1 };
    if f - 1 <= pools.len() - 1 { f - 1 } else { pools.len() - 1 }
}

/// The enemies that can appear on `floor`: every enemy unlocked by the floor or an earlier
/// one, once each, in the order they were unlocked; the melee chaser alone when that is none.
pub open spec fn enemy_pool_spec(pools: Seq<Seq<EnemyType>>, floor: u32) -> Seq<EnemyType> {
    if pools.len() == 0 {
        seq![EnemyType::MeleeChaser]
    } else {
        let d = dedup_seq(tiers_flat(pools, last_tier(pools, floor) + 1));
        if d.len() == 0 { seq![EnemyType::MeleeChaser] } else { d }
    }
}

/// The unlock lists in use: the game data's, else the built-in ones.
pub open spec fn pools_in_use(configured: Seq<Vec<EnemyType>>) -> Seq<Seq<EnemyType>> {
    if configured.len() == 0 { builtin_pools_spec() } else { pools_view(configured) }
}

/// Whether `x` occurs in `v`.
fn contains_type(v: &Vec<EnemyType>, x: EnemyType) -> (b: bool)
    ensures
        b == v@.contains(x),
{
    let mut i: usize = 0;
    while i < v.len()
        invariant
            i <= v@.len(),
            forall|j: int| 0 <= j < i ==> v@[j] != x,
        decreases v@.len() - i,
    {
        if v[i] == x {
            proof {
                assert(v@[i as int] == x);
            }
            return true;
        }
        i = i + 1;
    }
    false
}

proof fn lemma_dedup_push(s: Seq<EnemyType>, x: EnemyType)
    ensures
        dedup_seq(s.push(x)) == if dedup_seq(s).contains(x) { dedup_seq(s) } else { dedup_seq(s).push(x) },
{
    assert(s.push(x).drop_last() =~= s);
}

/// The enemies that can appear on `floor`, from the game data's unlock lists per floor (the
/// built-in lists when it gives none): each enemy unlocked by the floor or an earlier one,
/// once, in the order of unlocking; the melee chaser alone when that is none.
pub fn choose_enemy_types(pools_by_floor: &Vec<Vec<EnemyType>>, floor: u32) -> (v: Vec<EnemyType>)
    ensures
        v@ == enemy_pool_spec(pools_in_use(pools_by_floor@), floor),
{
    let builtin = builtin_enemy_pools();
    let pools = if pools_by_floor.len() == 0 { &builtin } else { pools_by_floor };
    let ghost pv = pools_in_use(pools_by_floor@);
    proof {
        assert(pools_view(pools@) == pv);
    }
    if pools.len() == 0 {
        return vec![EnemyType::MeleeChaser];
    }
    let f: u32 = if floor >= 1 { floor } else { 1 };
    let last: usize = if ((f - 1) as usize) <= pools.len() - 1 { (f - 1) as usize } else { pools.len() - 1 };
    proof {
        assert(last == last_tier(pv, floor));
    }
    let mut pool: Vec<EnemyType> = Vec::new();
    let mut t: usize = 0;
    proof {
        assert(pool@ =~= dedup_seq(tiers_flat(pv, 0)));
    }
    let n_pools = pools.len();
    while t <= last
        invariant
            last < n_pools,
            n_pools == pools@.len(),
            pv == pools_view(pools@),
            t <= last + 1,
            pool@ == dedup_seq(tiers_flat(pv, t as int)),
        decreases last + 1 - t,
    {
        let tier = &pools[t];
        proof {
            assert(pv[t as int] == tier@);
        }
        let mut j: usize = 0;
        proof {
            assert(tiers_flat(pv, t as int) + tier@.take(0) =~= tiers_flat(pv, t as int));
        }
        while j < tier.len()
            invariant
                j <= tier@.len(),
                pool@ == dedup_seq(tiers_flat(pv, t as int) + tier@.take(j as int)),
            decreases tier@.len() - j,
        {
            let x = tier[j];
            let ghost s = tiers_flat(pv, t as int) + tier@.take(j as int);
            proof {
                assert(tiers_flat(pv, t as int) + tier@.take(j + 1) =~= s.push(x));
                lemma_dedup_push(s, x);
            }
            if !contains_type(&pool, x) {
                pool.push(x);
            }
            j = j + 1;
        }
        proof {
            assert(tier@.take(tier@.len() as int) =~= tier@);
            assert(tiers_flat(pv, t + 1) == tiers_flat(pv, t as int) + pv[t as int]);
        }
        t = t + 1;
    }
    if pool.len() == 0 {
        pool.push(EnemyType::MeleeChaser);
        proof {
            assert(pool@ =~= seq![EnemyType::MeleeChaser]);
        }
    }
    pool
}

/// Every element of `dedup_seq(s)` occurs in `s`, and the other way round.
pub proof fn lemma_dedup_same_elements(s: Seq<EnemyType>, x: EnemyType)
    ensures
        dedup_seq(s).contains(x) == s.contains(x),
    decreases s.len(),
{
    if s.len() > 0 {
        let r = s.drop_last();
        let l = s.last();
        let d = dedup_seq(r);
        lemma_dedup_same_elements(r, x);
        assert(s =~= r.push(l));
        if s.contains(x) {
            if x != l {
                let k = choose|k: int| 0 <= k < s.len() && s[k] == x;
                assert(r[k] == x);
                assert(r.contains(x));
                let j = choose|j: int| 0 <= j < d.len() && d[j] == x;
                assert(d.push(l)[j] == x);
            } else if !d.contains(l) {
                assert(d.push(l)[d.len() as int] == x);
            }
        } else {
            assert(!r.contains(x)) by {
                if r.contains(x) {
                    let k = choose|k: int| 0 <= k < r.len() && r[k] == x;
                    assert(s[k] == x);
                }
            }
            assert(x != l) by {
                assert(s[s.len() - 1] == l);
            }
            if !d.contains(l) {
                assert(!d.push(l).contains(x)) by {
                    if d.push(l).contains(x) {
                        let j = choose|j: int| 0 <= j < d.len() + 1 && d.push(l)[j] == x;
                        if j < d.len() {
                            assert(d[j] == x);
                        }
                    }
                }
            }
        }
    }
}

/// No element occurs twice in `dedup_seq(s)`.
pub proof fn lemma_dedup_no_duplicates(s: Seq<EnemyType>)
    ensures
        dedup_seq(s).no_duplicates(),
    decreases s.len(),
{
    if s.len() > 0 {
        lemma_dedup_no_duplicates(s.drop_last());
    }
}

proof fn lemma_tiers_flat_prefix(pools: Seq<Seq<EnemyType>>, n: int, m: int, x: EnemyType)
    requires
        0 <= n <= m,
        tiers_flat(pools, n).contains(x),
    ensures
        tiers_flat(pools, m).contains(x),
    decreases m - n,
{
    if n < m {
        lemma_tiers_flat_prefix(pools, n, m - 1, x);
        let a = tiers_flat(pools, m - 1);
        let k = choose|k: int| 0 <= k < a.len() && a[k] == x;
        assert((a + pools[m - 1])[k] == x);
    }
}

/// The enemy pool of a floor holds no enemy twice.
pub proof fn lemma_enemy_pool_no_duplicates(pools: Seq<Seq<EnemyType>>, floor: u32)
    ensures
        enemy_pool_spec(pools, floor).no_duplicates(),
{
    if pools.len() > 0 {
        lemma_dedup_no_duplicates(tiers_flat(pools, last_tier(pools, floor) + 1));
    }
}

/// The pool is floor-gated and cumulative: an enemy that can appear on a floor can appear
/// on every later floor (unless the earlier floor's pool was the melee chaser standing in
/// for an empty unlock list).
pub proof fn lemma_enemy_pool_grows_with_floor(pools: Seq<Seq<EnemyType>>, a: u32, b: u32, x: EnemyType)
    requires
        a <= b,
        pools.len() > 0,
        tiers_flat(pools, last_tier(pools, a) + 1).len() > 0,
        enemy_pool_spec(pools, a).contains(x),
    ensures
        enemy_pool_spec(pools, b).contains(x),
{
    let na = last_tier(pools, a) + 1;
    let nb = last_tier(pools, b) + 1;
    let sa = tiers_flat(pools, na);
    let sb = tiers_flat(pools, nb);
    let y = sa[0];
    assert(sa.contains(y));
    lemma_dedup_same_elements(sa, y);
    assert(dedup_seq(sa).len() > 0);
    lemma_dedup_same_elements(sa, x);
    lemma_tiers_flat_prefix(pools, na, nb, x);
    lemma_dedup_same_elements(sb, x);
}

/// The melee enemies of the front line.
pub open spec fn is_frontline(t: EnemyType) -> bool {
    t == EnemyType::MeleeChaser || t == EnemyType::Charger || t == EnemyType::Flanker
        || t == EnemyType::Bomber || t == EnemyType::Shielder
}

/// The ranged enemies of the back line.
pub open spec fn is_backline(t: EnemyType) -> bool {
    t == EnemyType::RangedShooter || t == EnemyType::Lobber || t == EnemyType::Sniper
        || t == EnemyType::SupportCaster || t == EnemyType::Summoner
}

/// The enemies of `pool` with a property, or the whole pool when none has it.
pub open spec fn filter_or_all(pool: Seq<EnemyType>, p: spec_fn(EnemyType) -> bool) -> Seq<EnemyType> {
    if pool.filter(p).len() > 0 { pool.filter(p) } else { pool }
}

/// The front-line enemies of `pool` (the whole pool when it has none).
pub fn frontline_enemy_types(pool: &[EnemyType]) -> (v: Vec<EnemyType>)
    ensures
        v@ == filter_or_all(pool@, |t: EnemyType| is_frontline(t)),
{
    let mut v: Vec<EnemyType> = Vec::new();
    let mut i: usize = 0;
    proof {
        assert(pool@.take(0) =~= Seq::<EnemyType>::empty());
        assert(v@ =~= pool@.take(0).filter(|t: EnemyType| is_frontline(t)));
    }
    while i < pool.len()
        invariant
            i <= pool@.len(),
            v@ == pool@.take(i as int).filter(|t: EnemyType| is_frontline(t)),
        decreases pool@.len() - i,
    {
        let t = pool[i];
        proof {
            assert(pool@.take(i + 1) =~= pool@.take(i as int).push(t));
            pool@.take(i as int).lemma_filter_push(t, |t: EnemyType| is_frontline(t));
        }
        match t {
            EnemyType::MeleeChaser | EnemyType::Charger | EnemyType::Flanker | EnemyType::Bomber
            | EnemyType::Shielder => v.push(t),
            _ => {},
        }
        i = i + 1;
    }
    proof {
        assert(pool@.take(pool@.len() as int) =~= pool@);
    }
    if v.len() == 0 {
        let mut all: Vec<EnemyType> = Vec::new();
        let mut k: usize = 0;
        while k < pool.len()
            invariant
                k <= pool@.len(),
                all@ == pool@.take(k as int),
            decreases pool@.len() - k,
        {
            all.push(pool[k]);
            k = k + 1;
            proof {
                assert(all@ =~= pool@.take(k as int));
            }
        }
        proof {
            assert(pool@.take(pool@.len() as int) =~= pool@);
        }
        return all;
    }
    v
}

/// The back-line enemies of `pool` (the whole pool when it has none).
pub fn backline_enemy_types(pool: &[EnemyType]) -> (v: Vec<EnemyType>)
    ensures
        v@ == filter_or_all(pool@, |t: EnemyType| is_backline(t)),
{
    let mut v: Vec<EnemyType> = Vec::new();
    let mut i: usize = 0;
    proof {
        assert(pool@.take(0) =~= Seq::<EnemyType>::empty());
        assert(v@ =~= pool@.take(0).filter(|t: EnemyType| is_backline(t)));
    }
    while i < pool.len()
        invariant
            i <= pool@.len(),
            v@ == pool@.take(i as int).filter(|t: EnemyType| is_backline(t)),
        decreases pool@.len() - i,
    {
        let t = pool[i];
        proof {
            assert(pool@.take(i + 1) =~= pool@.take(i as int).push(t));
            pool@.take(i as int).lemma_filter_push(t, |t: EnemyType| is_backline(t));
        }
        match t {
            EnemyType::RangedShooter | EnemyType::Lobber | EnemyType::Sniper | EnemyType::SupportCaster
            | EnemyType::Summoner => v.push(t),
            _ => {},
        }
        i = i + 1;
    }
    proof {
        assert(pool@.take(pool@.len() as int) =~= pool@);
    }
    if v.len() == 0 {
        let mut all: Vec<EnemyType> = Vec::new();
        let mut k: usize = 0;
        while k < pool.len()
            invariant
                k <= pool@.len(),
                all@ == pool@.take(k as int),
            decreases pool@.len() - k,
        {
            all.push(pool[k]);
            k = k + 1;
            proof {
                assert(all@ =~= pool@.take(k as int));
            }
        }
        proof {
            assert(pool@.take(pool@.len() as int) =~= pool@);
        }
        return all;
    }
    v
}

/// One enemy of `pool` at random; the melee chaser for an empty pool.
pub fn pick_enemy_type(rng: &mut GameRng, pool: &[EnemyType]) -> (t: EnemyType)
    ensures
        pool@.len() == 0 ==> t == EnemyType::MeleeChaser && final(rng).state() == old(rng).state(),
        pool@.len() > 0 ==> t == pool@[(xorshift_step(old(rng).state()) % (pool@.len() as u64)) as int]
            && final(rng).state() == xorshift_step(old(rng).state()),
        pool@.len() > 0 ==> pool@.contains(t),
{
    if pool.len() == 0 {
        return EnemyType::MeleeChaser;
    }
    let i = rng.gen_index(pool.len());
    proof {
        assert(pool@[i as int] == pool[i as int]);
    }
    pool[i]
}


/// The enemies of `pool` that are `a` or `b`, in order.
pub open spec fn either_of(pool: Seq<EnemyType>, a: EnemyType, b: EnemyType) -> Seq<EnemyType> {
    pool.filter(|t: EnemyType| is_either(a, b, t))
}

/// `t` is `a` or `b`.
pub open spec fn is_either(a: EnemyType, b: EnemyType, t: EnemyType) -> bool {
    t == a || t == b
}

fn types_in(pool: &Vec<EnemyType>, a: EnemyType, b: EnemyType) -> (v: Vec<EnemyType>)
    ensures
        v@ == either_of(pool@, a, b),
        forall|i: int| 0 <= i < v@.len() ==> pool@.contains(#[trigger] v@[i]) && (v@[i] == a || v@[i] == b),
        v@.len() == 0 ==> !pool@.contains(a) && !pool@.contains(b),
{
    broadcast use vstd::seq_lib::group_filter_ensures;
    let mut v: Vec<EnemyType> = Vec::new();
    let mut i: usize = 0;
    proof {
        assert(pool@.take(0) =~= Seq::<EnemyType>::empty());
        assert(v@ =~= either_of(pool@.take(0), a, b));
    }
    while i < pool.len()
        invariant
            i <= pool@.len(),
            v@ == either_of(pool@.take(i as int), a, b),
        decreases pool@.len() - i,
    {
        let t = pool[i];
        proof {
            assert(pool@.take(i + 1) =~= pool@.take(i as int).push(t));
            pool@.take(i as int).lemma_filter_push(t, |x: EnemyType| is_either(a, b, x));
        }
        if t == a || t == b {
            v.push(t);
        }
        i = i + 1;
    }
    proof {
        assert(pool@.take(pool@.len() as int) =~= pool@);
        assert forall|k: int| 0 <= k < v@.len() implies pool@.contains(#[trigger] v@[k]) && (v@[k] == a || v@[k] == b) by {
            assert(v@.contains(v@[k]));
            pool@.lemma_filter_contains_rev(|x: EnemyType| is_either(a, b, x), v@[k]);
        }
        if v@.len() == 0 {
            if pool@.contains(a) {
                let k = choose|k: int| 0 <= k < pool@.len() && pool@[k] == a;
                pool@.lemma_filter_contains(|x: EnemyType| is_either(a, b, x), k);
            }
            if pool@.contains(b) {
                let k = choose|k: int| 0 <= k < pool@.len() && pool@[k] == b;
                pool@.lemma_filter_contains(|x: EnemyType| is_either(a, b, x), k);
            }
        }
    }
    v
}

proof fn lemma_filter_or_all_within(pool: Seq<EnemyType>, p: spec_fn(EnemyType) -> bool, x: EnemyType)
    requires
        filter_or_all(pool, p).contains(x),
    ensures
        pool.contains(x),
{
    if pool.filter(p).len() > 0 {
        pool.lemma_filter_contains_rev(p, x);
    }
}

/// The enemy types for a room's `spawn_n` spawns on `floor`, drawn from `pool`: the first
/// from the front line and the second from the back line; on the third floor the third is
/// a flanker or a sniper, and from the fourth floor on the third is a charger or a flanker
/// and the fourth a sniper or a support caster, where the pool has them; every other spawn
/// is any enemy of the pool. The planned spawns are drawn before the others.
pub fn plan_room_enemy_types(pool: &Vec<EnemyType>, floor: u32, spawn_n: usize, rng: &mut GameRng) -> (v: Vec<EnemyType>)
    ensures
        v@.len() == spawn_n,
        pool@.len() > 0 ==> forall|i: int| 0 <= i < v@.len() ==> pool@.contains(#[trigger] v@[i]),
        pool@.len() > 0 && spawn_n > 0 ==> filter_or_all(pool@, |t: EnemyType| is_frontline(t)).contains(v@[0]),
        pool@.len() > 0 && spawn_n > 1 ==> filter_or_all(pool@, |t: EnemyType| is_backline(t)).contains(v@[1]),
        floor == 3 && spawn_n > 2 && (pool@.contains(EnemyType::Flanker) || pool@.contains(EnemyType::Sniper))
            ==> v@[2] == EnemyType::Flanker || v@[2] == EnemyType::Sniper,
        floor >= 4 && spawn_n > 2 && (pool@.contains(EnemyType::Charger) || pool@.contains(EnemyType::Flanker))
            ==> v@[2] == EnemyType::Charger || v@[2] == EnemyType::Flanker,
        floor >= 4 && spawn_n > 3 && (pool@.contains(EnemyType::Sniper) || pool@.contains(EnemyType::SupportCaster))
            ==> v@[3] == EnemyType::Sniper || v@[3] == EnemyType::SupportCaster,
{
    let front = frontline_enemy_types(pool.as_slice());
    let back = backline_enemy_types(pool.as_slice());
    let mut planned: Vec<Option<EnemyType>> = Vec::new();
    let mut k: usize = 0;
    while k < spawn_n
        invariant
            k <= spawn_n,
            planned@.len() == k,
            forall|j: int| 0 <= j < k ==> planned@[j].is_none(),
        decreases spawn_n - k,
    {
        planned.push(None);
        k = k + 1;
    }
    if spawn_n > 0 && front.len() > 0 {
        let t = pick_enemy_type(rng, front.as_slice());
        planned.set(0, Some(t));
    }
    if spawn_n > 1 && back.len() > 0 {
        let t = pick_enemy_type(rng, back.as_slice());
        planned.set(1, Some(t));
    }
    if floor == 3 && spawn_n > 2 {
        let special = types_in(pool, EnemyType::Flanker, EnemyType::Sniper);
        if special.len() > 0 {
            let t = pick_enemy_type(rng, special.as_slice());
            proof {
                assert(special@.contains(t));
            }
            planned.set(2, Some(t));
        }
    } else if floor >= 4 {
        if spawn_n > 2 {
            let aggressive = types_in(pool, EnemyType::Charger, EnemyType::Flanker);
            if aggressive.len() > 0 {
                let t = pick_enemy_type(rng, aggressive.as_slice());
                planned.set(2, Some(t));
            }
        }
        if spawn_n > 3 {
            let pressure = types_in(pool, EnemyType::Sniper, EnemyType::SupportCaster);
            if pressure.len() > 0 {
                let t = pick_enemy_type(rng, pressure.as_slice());
                planned.set(3, Some(t));
            }
        }
    }
    proof {
        assert forall|j: int| 0 <= j < planned@.len() && planned@[j].is_some() implies pool@.contains(#[trigger] planned@[j]->0) by {
            let x = planned@[j]->0;
            if j == 0 {
                assert(front@.contains(x));
                lemma_filter_or_all_within(pool@, |t: EnemyType| is_frontline(t), x);
            } else if j == 1 {
                assert(back@.contains(x));
                lemma_filter_or_all_within(pool@, |t: EnemyType| is_backline(t), x);
            }
        }
    }
    let mut v: Vec<EnemyType> = Vec::new();
    let mut i: usize = 0;
    while i < spawn_n
        invariant
            i <= spawn_n,
            planned@.len() == spawn_n,
            v@.len() == i,
            forall|j: int| 0 <= j < i && planned@[j].is_some() ==> v@[j] == planned@[j]->0,
            pool@.len() > 0 ==> forall|j: int| 0 <= j < planned@.len() && planned@[j].is_some() ==> pool@.contains(#[trigger] planned@[j]->0),
            pool@.len() > 0 ==> forall|j: int| 0 <= j < i ==> pool@.contains(#[trigger] v@[j]),
        decreases spawn_n - i,
    {
        let t = match planned[i] {
            Some(t) => t,
            None => pick_enemy_type(rng, pool.as_slice()),
        };
        proof {
            if pool@.len() > 0 && planned@[i as int].is_some() {
                assert(pool@.contains(planned@[i as int]->0));
            }
        }
        v.push(t);
        i = i + 1;
    }
    v
}


/// How much easier the first fights of the first floor are.
#[derive(Debug, Clone, Copy, PartialEq, Eq, Structural)]
pub enum FirstFloorEase {
    Plain,
    /// The first fight: weaker enemies, and one fewer (at least three).
    FirstFight,
    /// The second fight: slightly weaker enemies.
    SecondFight,
}

/// What entering a room spawns.
#[derive(Debug, Clone, Copy, PartialEq, Eq, Structural)]
pub enum RoomEntrySpawn {
    /// Rooms without a fight.
    Nothing,
    /// A normal fight against `enemy_count` enemies.
    Normal { enemy_count: u32, ease: FirstFloorEase },
    /// An elite fight.
    Elite,
    /// The floor's boss.
    Boss,
}

/// Entering room `current_room` for the first time since the last room: the room's old
/// puzzle is forgotten and the room's fight is planned. Start, reward, shop and event rooms
/// stay idle (a cooperative host fights in event rooms instead); normal rooms lock and spawn
/// the floor's enemy count, kept across the floor's normal rooms once set; elite rooms lock;
/// boss rooms start the boss fight. Returns `None` when the room was already entered.
pub fn room_entry(
    spawned: &mut Option<u32>,
    current_room: RoomId,
    room_type: RoomType,
    coop_host_active: bool,
    floor: u32,
    balance: &BalanceConfig,
    spawn_count: &mut u32,
    room_state: &mut RoomState,
    active_puzzle: &mut ActivePuzzle,
) -> (r: Option<RoomEntrySpawn>)
    requires
        floor_enemy_count_spec(*balance, floor) <= u32::MAX,
    ensures
        *old(spawned) == Some(current_room.0) ==> r.is_none() && *final(spawned) == *old(spawned)
            && *final(spawn_count) == *old(spawn_count) && *final(room_state) == *old(room_state)
            && *final(active_puzzle) == *old(active_puzzle),
        *old(spawned) != Some(current_room.0) ==> {
            let t = if coop_host_active && room_type == RoomType::Event { RoomType::Normal } else { room_type };
            let count = if *old(spawn_count) == 0 { floor_enemy_count_spec(*balance, floor) } else { *old(spawn_count) as int };
            &&& *final(spawned) == Some(current_room.0)
            &&& is_idle_puzzle(*final(active_puzzle))
            &&& (t == RoomType::Normal ==> *final(spawn_count) == count) && (t != RoomType::Normal ==> *final(spawn_count) == *old(spawn_count))
            &&& r == Some(match t {
                RoomType::Normal => RoomEntrySpawn::Normal {
                    enemy_count: (if floor == 1 && current_room.0 == 1 {
                        if count - 1 >= 3 { count - 1 } else { 3 }
                    } else {
                        count
                    }) as u32,
                    ease: if floor == 1 && current_room.0 == 1 {
                        FirstFloorEase::FirstFight
                    } else if floor == 1 && current_room.0 == 2 {
                        FirstFloorEase::SecondFight
                    } else {
                        FirstFloorEase::Plain
                    },
                },
                RoomType::Elite => RoomEntrySpawn::Elite,
                RoomType::Boss => RoomEntrySpawn::Boss,
                _ => RoomEntrySpawn::Nothing,
            })
            &&& *final(room_state) == match t {
                RoomType::Normal | RoomType::Elite => RoomState::Locked,
                RoomType::Boss => RoomState::BossFight,
                _ => RoomState::Idle,
            }
        },
{
    if *spawned == Some(current_room.0) {
        return None;
    }
    *spawned = Some(current_room.0);
    active_puzzle.reset();
    let t = if coop_host_active && room_type == RoomType::Event { RoomType::Normal } else { room_type };
    match t {
        RoomType::Normal => {
            *room_state = RoomState::Locked;
            if *spawn_count == 0 {
                *spawn_count = get_floor_enemy_count(balance, floor);
            }
            let mut enemy_count = *spawn_count;
            let mut ease = FirstFloorEase::Plain;
            if floor == 1 {
                if current_room.0 == 1 {
                    let fewer = enemy_count.saturating_sub(1);
                    enemy_count = if fewer >= 3 { fewer } else { 3 };
                    ease = FirstFloorEase::FirstFight;
                } else if current_room.0 == 2 {
                    ease = FirstFloorEase::SecondFight;
                }
            }
            Some(RoomEntrySpawn::Normal { enemy_count, ease })
        },
        RoomType::Elite => {
            *room_state = RoomState::Locked;
            Some(RoomEntrySpawn::Elite)
        },
        RoomType::Boss => {
            *room_state = RoomState::BossFight;
            Some(RoomEntrySpawn::Boss)
        },
        _ => {
            *room_state = RoomState::Idle;
            Some(RoomEntrySpawn::Nothing)
        },
    }
}

/// After enemies die: whether the fight of the current room is over, so that the room is
/// cleared. Only a locked room or a boss fight can end this way; an event room (one that a
/// cooperative host fights in counts as a normal room) whose event is a puzzle ends with its
/// puzzle; the short grace after entering must be over; and no enemy may be left.
pub fn fight_cleared(
    room_state: RoomState,
    room_type: RoomType,
    coop_host_active: bool,
    puzzle_event_here: bool,
    grace_over: bool,
    enemies_left: bool,
) -> (b: bool)
    ensures
        b == {
            let t = if coop_host_active && room_type == RoomType::Event { RoomType::Normal } else { room_type };
            &&& (room_state == RoomState::Locked || room_state == RoomState::BossFight)
            &&& !(t == RoomType::Event && puzzle_event_here)
            &&& grace_over
            &&& !enemies_left
        },
{
    if room_state != RoomState::Locked && room_state != RoomState::BossFight {
        return false;
    }
    let t = if coop_host_active && room_type == RoomType::Event { RoomType::Normal } else { room_type };
    if t == RoomType::Event && puzzle_event_here {
        return false;
    }
    grace_over && !enemies_left
}

} // verus!
