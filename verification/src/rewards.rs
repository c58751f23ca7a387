use vstd::prelude::*;

use crate::event::{augment_definition, augment_definition_spec};
use crate::event_choices::{augment_title_and_description, title_of};
use crate::map::{RoomId, RoomType};
use crate::progression::{build_levelup_options, levelup_stats_spec, xp_threshold, xp_threshold_spec, LevelUpKind, PlayerLevel};
use crate::rng::{shuffle_spec, GameRng};
use crate::session::{min_int, AugmentEntry, AugmentId, AugmentRarity, PostRewardDecision};
use crate::shop::AugmentText;
use crate::skills::SkillType;
use crate::states::{GamePhase, RoomState};

verus! {

/// An augment the player holds, with its stacks.
#[derive(Debug, Clone, Copy, PartialEq, Eq, Structural)]
pub struct HeldAugment {
    pub id: AugmentId,
    pub stacks: u32,
}

/// The augments the player holds, in the order they were gained.
#[derive(Debug, Clone)]
pub struct AugmentInventory {
    pub augments: Vec<HeldAugment>,
}

/// The stacks held of augment `id`: those of its first entry, 0 when not held.
pub open spec fn held_stacks(held: Seq<HeldAugment>, id: AugmentId) -> u32
    decreases held.len(),
{
    if held.len() == 0 {
        0
    } else if held[0].id == id {
        held[0].stacks
    } else {
        held_stacks(held.drop_first(), id)
    }
}

proof fn lemma_held_stacks_step(held: Seq<HeldAugment>, id: AugmentId, k: int)
    requires
        0 <= k < held.len(),
    ensures
        held_stacks(held.subrange(k, held.len() as int), id) == if held[k].id == id {
            held[k].stacks
        } else {
            held_stacks(held.subrange(k + 1, held.len() as int), id)
        },
{
    let s = held.subrange(k, held.len() as int);
    assert(s.drop_first() =~= held.subrange(k + 1, held.len() as int));
    assert(s[0] == held[k]);
}

impl AugmentInventory {
    /// The stacks held of augment `id`.
    pub fn stacks(&self, id: AugmentId) -> (n: u32)
        ensures
            n == held_stacks(self.augments@, id),
    {
        let mut k: usize = 0;
        proof {
            assert(self.augments@.subrange(0, self.augments@.len() as int) =~= self.augments@);
        }
        while k < self.augments.len()
            invariant
                k <= self.augments@.len(),
                held_stacks(self.augments@.subrange(k as int, self.augments@.len() as int), id)
                    == held_stacks(self.augments@, id),
            decreases self.augments@.len() - k,
        {
            proof {
                lemma_held_stacks_step(self.augments@, id, k as int);
            }
            if self.augments[k].id.0 == id.0 {
                return self.augments[k].stacks;
            }
            k = k + 1;
        }
        proof {
            assert(self.augments@.subrange(k as int, self.augments@.len() as int) =~= Seq::<HeldAugment>::empty());
        }
        0
    }

    /// Where augment `id` is held, if it is: the position of its first entry.
    fn position(&self, id: AugmentId) -> (r: Option<usize>)
        ensures
            match r {
                Some(k) => first_held_at(self.augments@, id, k as int)
                    && held_stacks(self.augments@, id) == self.augments@[k as int].stacks,
                None => !holds(self.augments@, id) && held_stacks(self.augments@, id) == 0,
            },
    {
        let mut k: usize = 0;
        proof {
            assert(self.augments@.subrange(0, self.augments@.len() as int) =~= self.augments@);
        }
        while k < self.augments.len()
            invariant
                k <= self.augments@.len(),
                forall|j: int| 0 <= j < k ==> (#[trigger] self.augments@[j]).id != id,
                held_stacks(self.augments@.subrange(k as int, self.augments@.len() as int), id)
                    == held_stacks(self.augments@, id),
            decreases self.augments@.len() - k,
        {
            proof {
                lemma_held_stacks_step(self.augments@, id, k as int);
            }
            if self.augments[k].id.0 == id.0 {
                return Some(k);
            }
            k = k + 1;
        }
        proof {
            assert(self.augments@.subrange(k as int, self.augments@.len() as int) =~= Seq::<HeldAugment>::empty());
        }
        None
    }

    /// Grant augment `id`: a new augment is held with one stack; a held one gains a stack
    /// while it is below `cap`, and stays as it is at `cap`.
    pub fn grant(&mut self, id: AugmentId, cap: u32) -> (g: AugmentGrant)
        ensures
            g == grant_result(old(self).augments@, id, cap),
            granted_into(old(self).augments@, final(self).augments@, id, g.after_stacks),
            cap >= 1 ==> g.after_stacks >= 1,
            stacks_positive(old(self).augments@) ==> stacks_positive(final(self).augments@),
    {
        match self.position(id) {
            Some(k) => {
                let before = self.augments[k].stacks;
                let after = if before < cap { before + 1 } else { before };
                self.augments.set(k, HeldAugment { id, stacks: after });
                AugmentGrant { id, before_stacks: before, after_stacks: after }
            },
            None => {
                self.augments.push(HeldAugment { id, stacks: 1 });
                AugmentGrant { id, before_stacks: 0, after_stacks: 1 }
            },
        }
    }

    /// Take augment `id` out of the inventory (its first entry), if it is held.
    pub fn remove(&mut self, id: AugmentId) -> (r: Option<HeldAugment>)
        ensures
            match r {
                Some(h) => exists|k: int| #[trigger] first_held_at(old(self).augments@, id, k)
                    && h == old(self).augments@[k] && final(self).augments@ == old(self).augments@.remove(k),
                None => !holds(old(self).augments@, id) && final(self).augments@ == old(self).augments@,
            },
            stacks_positive(old(self).augments@) ==> stacks_positive(final(self).augments@),
    {
        match self.position(id) {
            Some(k) => {
                let h = self.augments.remove(k);
                Some(h)
            },
            None => None,
        }
    }

    /// Take out the augment at position `index`, if there is one.
    pub fn remove_at(&mut self, index: usize) -> (r: Option<HeldAugment>)
        ensures
            index < old(self).augments@.len() ==> r == Some(old(self).augments@[index as int])
                && final(self).augments@ == old(self).augments@.remove(index as int),
            index >= old(self).augments@.len() ==> r.is_none() && final(self).augments@ == old(self).augments@,
            stacks_positive(old(self).augments@) ==> stacks_positive(final(self).augments@),
    {
        if index < self.augments.len() {
            Some(self.augments.remove(index))
        } else {
            None
        }
    }
}

/// What granting an augment did: its stacks before and after.
#[derive(Debug, Clone, Copy, PartialEq, Eq, Structural)]
pub struct AugmentGrant {
    pub id: AugmentId,
    pub before_stacks: u32,
    pub after_stacks: u32,
}

/// Every held augment has at least one stack: grants, removals and new inventories keep it so.
pub open spec fn stacks_positive(held: Seq<HeldAugment>) -> bool {
    forall|k: int| 0 <= k < held.len() ==> (#[trigger] held[k]).stacks >= 1
}

/// Augment `id`'s first entry is at position `k`.
pub open spec fn first_held_at(held: Seq<HeldAugment>, id: AugmentId, k: int) -> bool {
    &&& 0 <= k < held.len()
    &&& held[k].id == id
    &&& forall|j: int| 0 <= j < k ==> (#[trigger] held[j]).id != id
}

/// The result of granting `id` with stacks capped at `cap`.
pub open spec fn grant_result(held: Seq<HeldAugment>, id: AugmentId, cap: u32) -> AugmentGrant {
    let before = held_stacks(held, id);
    AugmentGrant {
        id,
        before_stacks: before,
        after_stacks: if !holds(held, id) {
            1
        } else if before < cap {
            (before + 1) as u32
        } else {
            before
        },
    }
}

/// The inventory after a grant that left augment `id` with `after` stacks: its first entry
/// is updated in place, or a new entry is added at the end.
pub open spec fn granted_into(old: Seq<HeldAugment>, new: Seq<HeldAugment>, id: AugmentId, after: u32) -> bool {
    if holds(old, id) {
        exists|k: int| #[trigger] first_held_at(old, id, k) && new == old.update(k, HeldAugment { id, stacks: after })
    } else {
        new == old.push(HeldAugment { id, stacks: after })
    }
}

/// An augment offered as a reward: its id, title and rarity, whether it would raise a held
/// augment's stacks, and the stack level whose description is shown.
#[derive(Debug, Clone)]
pub struct AugmentChoiceOption {
    pub id: AugmentId,
    pub title: String,
    pub rarity: AugmentRarity,
    pub is_upgrade: bool,
    pub shown_level: u32,
}

/// Whether a held augment can still be raised: the game data knows it and its stacks are
/// below its maximum.
pub open spec fn can_raise(augments: Seq<AugmentEntry>, h: HeldAugment) -> bool {
    augment_definition_spec(augments, h.id) matches Some(d) && h.stacks < d.max_stacks
}

/// The held augments that can be raised, in the order they were gained.
pub open spec fn raisable(augments: Seq<AugmentEntry>, held: Seq<HeldAugment>) -> Seq<HeldAugment> {
    held.filter(|h: HeldAugment| can_raise(augments, h))
}

/// The upgrade offer for held augment `h`.
pub open spec fn upgrade_option_ok(augments: Seq<AugmentEntry>, texts: Seq<AugmentText>, h: HeldAugment, o: AugmentChoiceOption) -> bool {
    &&& o.id == h.id
    &&& o.title@ == title_of(texts, h.id)
    &&& augment_definition_spec(augments, h.id) matches Some(d) && o.rarity == d.rarity
    &&& o.is_upgrade
    &&& o.shown_level == h.stacks + 1
}

/// The sanctuary's upgrades: the first three held augments that can still be raised, each
/// offered at its next stack level.
pub fn build_upgrade_candidates(augments: &Vec<AugmentEntry>, texts: &Vec<AugmentText>, inventory: &AugmentInventory) -> (v: Vec<AugmentChoiceOption>)
    ensures
        v@.len() == min_int(3, raisable(augments@, inventory.augments@).len() as int),
        forall|i: int| 0 <= i < v@.len() ==> upgrade_option_ok(augments@, texts@, raisable(augments@, inventory.augments@)[i], #[trigger] v@[i]),
{
    let held = &inventory.augments;
    let ghost r = raisable(augments@, held@);
    let mut v: Vec<AugmentChoiceOption> = Vec::new();
    let mut k: usize = 0;
    proof {
        assert(held@.take(0) =~= Seq::<HeldAugment>::empty());
        assert(raisable(augments@, held@.take(0)) =~= Seq::<HeldAugment>::empty());
    }
    while k < held.len() && v.len() < 3
        invariant
            k <= held@.len(),
            r == raisable(augments@, held@),
            v@.len() == min_int(3, raisable(augments@, held@.take(k as int)).len() as int),
            forall|i: int| 0 <= i < v@.len() ==> upgrade_option_ok(augments@, texts@, raisable(augments@, held@.take(k as int))[i], #[trigger] v@[i]),
        decreases held@.len() - k,
    {
        let h = held[k];
        let ghost before = raisable(augments@, held@.take(k as int));
        proof {
            assert(held@.take(k + 1) =~= held@.take(k as int).push(h));
            held@.take(k as int).lemma_filter_push(h, |x: HeldAugment| can_raise(augments@, x));
        }
        match augment_definition(augments, h.id) {
            Some(d) => {
                if h.stacks < d.max_stacks {
                    let (title, _description) = augment_title_and_description(texts, d.id);
                    let ghost vb = v@;
                    v.push(AugmentChoiceOption { id: d.id, title, rarity: d.rarity, is_upgrade: true, shown_level: h.stacks + 1 });
                    proof {
                        assert(raisable(augments@, held@.take(k + 1)) == before.push(h));
                        assert forall|i: int| 0 <= i < v@.len() implies upgrade_option_ok(augments@, texts@, raisable(augments@, held@.take(k + 1))[i], #[trigger] v@[i]) by {
                            if i < vb.len() {
                                assert(v@[i] == vb[i]);
                                assert(raisable(augments@, held@.take(k + 1))[i] == before[i]);
                            }
                        }
                    }
                }
            },
            None => {},
        }
        k = k + 1;
    }
    proof {
        if v@.len() < 3 {
            assert(held@.take(held@.len() as int) =~= held@);
        } else {
            lemma_raisable_prefix(augments@, held@, k as int);
        }
    }
    v
}

proof fn lemma_raisable_prefix(augments: Seq<AugmentEntry>, held: Seq<HeldAugment>, k: int)
    requires
        0 <= k <= held.len(),
    ensures
        raisable(augments, held.take(k)).len() <= raisable(augments, held).len(),
        forall|i: int| 0 <= i < raisable(augments, held.take(k)).len() ==>
            #[trigger] raisable(augments, held.take(k))[i] == raisable(augments, held)[i],
    decreases held.len() - k,
{
    if k < held.len() {
        lemma_raisable_prefix(augments, held, k + 1);
        assert(held.take(k + 1) =~= held.take(k).push(held[k]));
        held.take(k).lemma_filter_push(held[k], |x: HeldAugment| can_raise(augments, x));
        let a = raisable(augments, held.take(k));
        let b = raisable(augments, held.take(k + 1));
        assert(a.len() <= b.len());
        assert forall|i: int| 0 <= i < a.len() implies #[trigger] a[i] == raisable(augments, held)[i] by {
            assert(a[i] == b[i]);
            assert(b[i] == raisable(augments, held)[i]);
        }
    } else {
        assert(held.take(k) =~= held);
    }
}


/// Whether the player holds augment `id`.
pub open spec fn holds(held: Seq<HeldAugment>, id: AugmentId) -> bool {
    exists|j: int| 0 <= j < held.len() && (#[trigger] held[j]).id == id
}

fn holds_id(held: &Vec<HeldAugment>, id: AugmentId) -> (b: bool)
    ensures
        b == holds(held@, id),
{
    let mut j: usize = 0;
    while j < held.len()
        invariant
            j <= held@.len(),
            forall|i: int| 0 <= i < j ==> (#[trigger] held@[i]).id != id,
        decreases held@.len() - j,
    {
        if held[j].id.0 == id.0 {
            proof {
                assert(held@[j as int].id == id);
            }
            return true;
        }
        j = j + 1;
    }
    false
}

/// The forge's tiers of candidates: legendaries not held, any legendary, elites or
/// legendaries not held, any elite or legendary.
pub open spec fn forge_tier_pred(held: Seq<HeldAugment>, tier: int, e: AugmentEntry) -> bool {
    let high = e.rarity == AugmentRarity::Legendary;
    let good = e.rarity == AugmentRarity::Elite || e.rarity == AugmentRarity::Legendary;
    if tier == 0 {
        high && !holds(held, e.id)
    } else if tier == 1 {
        high
    } else if tier == 2 {
        good && !holds(held, e.id)
    } else {
        good
    }
}

/// The candidates of one tier, in order.
pub open spec fn forge_tier(augments: Seq<AugmentEntry>, held: Seq<HeldAugment>, tier: int) -> Seq<AugmentEntry> {
    augments.filter(|e: AugmentEntry| forge_tier_pred(held, tier, e))
}

/// What the forge draws from: the first tier that is not empty (the last tier otherwise).
pub open spec fn forge_pool(augments: Seq<AugmentEntry>, held: Seq<HeldAugment>) -> Seq<AugmentEntry> {
    if forge_tier(augments, held, 0).len() > 0 {
        forge_tier(augments, held, 0)
    } else if forge_tier(augments, held, 1).len() > 0 {
        forge_tier(augments, held, 1)
    } else if forge_tier(augments, held, 2).len() > 0 {
        forge_tier(augments, held, 2)
    } else {
        forge_tier(augments, held, 3)
    }
}

fn collect_forge_tier(augments: &Vec<AugmentEntry>, held: &Vec<HeldAugment>, tier: u8) -> (v: Vec<AugmentEntry>)
    ensures
        v@ == forge_tier(augments@, held@, tier as int),
{
    let mut v: Vec<AugmentEntry> = Vec::new();
    let mut k: usize = 0;
    proof {
        assert(augments@.take(0) =~= Seq::<AugmentEntry>::empty());
        assert(v@ =~= forge_tier(augments@.take(0), held@, tier as int));
    }
    while k < augments.len()
        invariant
            k <= augments@.len(),
            v@ == forge_tier(augments@.take(k as int), held@, tier as int),
        decreases augments@.len() - k,
    {
        let e = augments[k];
        let high = e.rarity == AugmentRarity::Legendary;
        let good = e.rarity == AugmentRarity::Elite || e.rarity == AugmentRarity::Legendary;
        let keep = if tier == 0 {
            high && !holds_id(held, e.id)
        } else if tier == 1 {
            high
        } else if tier == 2 {
            good && !holds_id(held, e.id)
        } else {
            good
        };
        proof {
            assert(augments@.take(k + 1) =~= augments@.take(k as int).push(e));
            augments@.take(k as int).lemma_filter_push(e, |x: AugmentEntry| forge_tier_pred(held@, tier as int, x));
        }
        if keep {
            v.push(e);
        }
        k = k + 1;
    }
    proof {
        assert(augments@.take(augments@.len() as int) =~= augments@);
    }
    v
}

/// An offer of augment `e`, not an upgrade, shown at its first level.
pub open spec fn new_option_ok(texts: Seq<AugmentText>, e: AugmentEntry, o: AugmentChoiceOption) -> bool {
    &&& o.id == e.id
    &&& o.title@ == title_of(texts, e.id)
    &&& o.rarity == e.rarity
    &&& !o.is_upgrade
    &&& o.shown_level == 1
}

/// Up to `count` entries of `pool` in a random order, each entry used once: the first of
/// them shuffled from the generator's state.
fn draw_entries(pool: Vec<AugmentEntry>, rng: &mut GameRng, count: usize) -> (v: Vec<AugmentEntry>)
    ensures
        v@ == shuffle_spec(old(rng).state(), pool@).0.take(v@.len() as int),
        final(rng).state() == shuffle_spec(old(rng).state(), pool@).1,
        v@.len() == min_int(count as int, pool@.len() as int),
        v@.to_multiset().subset_of(pool@.to_multiset()),
        forall|i: int| 0 <= i < v@.len() ==> pool@.contains(#[trigger] v@[i]),
{
    let ghost pool_v = pool@;
    let shuffled = rng.shuffled(pool);
    let n = if count < shuffled.len() { count } else { shuffled.len() };
    let mut v: Vec<AugmentEntry> = Vec::new();
    let mut i: usize = 0;
    while i < n
        invariant
            n <= shuffled@.len(),
            i <= n,
            v@ == shuffled@.take(i as int),
        decreases n - i,
    {
        v.push(shuffled[i]);
        i = i + 1;
        proof {
            assert(v@ =~= shuffled@.take(i as int));
        }
    }
    proof {
        broadcast use vstd::seq_lib::group_to_multiset_ensures;
        broadcast use vstd::multiset::group_multiset_axioms;
        crate::session::lemma_take_submultiset(shuffled@, n as int);
        assert forall|j: int| 0 <= j < v@.len() implies pool_v.contains(#[trigger] v@[j]) by {
            assert(v@.contains(v@[j]));
            assert(v@.to_multiset().count(v@[j]) > 0);
            assert(pool_v.to_multiset().count(v@[j]) > 0);
        }
    }
    v
}

/// The sanctuary forge's offers when nothing can be upgraded: two augments drawn from the
/// best tier that has any (legendaries not held first).
pub fn build_legendary_forge_choices(
    augments: &Vec<AugmentEntry>,
    texts: &Vec<AugmentText>,
    rng: &mut GameRng,
    inventory: Option<&AugmentInventory>,
) -> (v: Vec<AugmentChoiceOption>)
    ensures
        v@.len() == min_int(2, forge_pool(augments@, inventory_held(inventory)).len() as int),
        forall|i: int| 0 <= i < v@.len() ==> #[trigger] forge_offer_from_pool(augments@, inventory_held(inventory), texts@, v@[i]),
        offers_drawn_from(v@, forge_pool(augments@, inventory_held(inventory)),
            |e: AugmentEntry, o: AugmentChoiceOption| new_option_ok(texts@, e, o)),
{
    let empty: Vec<HeldAugment> = Vec::new();
    let held = match inventory {
        Some(inv) => &inv.augments,
        None => &empty,
    };
    let mut pool = collect_forge_tier(augments, held, 0);
    if pool.len() == 0 {
        pool = collect_forge_tier(augments, held, 1);
    }
    if pool.len() == 0 {
        pool = collect_forge_tier(augments, held, 2);
    }
    if pool.len() == 0 {
        pool = collect_forge_tier(augments, held, 3);
    }
    let ghost pool_v = pool@;
    proof {
        assert(pool_v == forge_pool(augments@, inventory_held(inventory)));
    }
    let picked = draw_entries(pool, rng, 2);
    let mut v: Vec<AugmentChoiceOption> = Vec::new();
    let mut i: usize = 0;
    while i < picked.len()
        invariant
            i <= picked@.len(),
            v@.len() == i,
            forall|j: int| 0 <= j < picked@.len() ==> pool_v.contains(#[trigger] picked@[j]),
            forall|j: int| 0 <= j < i ==> new_option_ok(texts@, picked@[j], #[trigger] v@[j]),
        decreases picked@.len() - i,
    {
        let e = picked[i];
        let (title, _description) = augment_title_and_description(texts, e.id);
        v.push(AugmentChoiceOption { id: e.id, title, rarity: e.rarity, is_upgrade: false, shown_level: 1 });
        i = i + 1;
    }
    proof {
        assert forall|j: int| 0 <= j < v@.len() implies #[trigger] forge_offer_from_pool(augments@, inventory_held(inventory), texts@, v@[j]) by {
            assert(pool_v.contains(picked@[j]));
            assert(new_option_ok(texts@, picked@[j], v@[j]));
        }
        let ok = |e: AugmentEntry, o: AugmentChoiceOption| new_option_ok(texts@, e, o);
        assert(picked@.to_multiset().subset_of(pool_v.to_multiset()));
        assert forall|i: int| 0 <= i < v@.len() implies ok(picked@[i], #[trigger] v@[i]) by {
            assert(new_option_ok(texts@, picked@[i], v@[i]));
        }
    }
    v
}

/// The offers `v` are of entries drawn from `pool` without taking an entry more often than
/// the pool holds it, each offered as `ok` says.
pub open spec fn offers_drawn_from(v: Seq<AugmentChoiceOption>, pool: Seq<AugmentEntry>, ok: spec_fn(AugmentEntry, AugmentChoiceOption) -> bool) -> bool {
    exists|picked: Seq<AugmentEntry>| {
        &&& picked.len() == v.len()
        &&& #[trigger] picked.to_multiset().subset_of(pool.to_multiset())
        &&& forall|i: int| 0 <= i < v.len() ==> ok(picked[i], #[trigger] v[i])
    }
}

/// `o` offers an augment of the forge's pool.
pub open spec fn forge_offer_from_pool(augments: Seq<AugmentEntry>, held: Seq<HeldAugment>, texts: Seq<AugmentText>, o: AugmentChoiceOption) -> bool {
    exists|e: AugmentEntry| #[trigger] forge_pool(augments, held).contains(e) && new_option_ok(texts, e, o)
}

/// `o` offers an augment that a cleared room may offer.
pub open spec fn reward_offer_from_pool(augments: Seq<AugmentEntry>, is_boss: bool, has_inventory: bool, held: Seq<HeldAugment>, texts: Seq<AugmentText>, o: AugmentChoiceOption) -> bool {
    exists|e: AugmentEntry| #[trigger] reward_pool(augments, is_boss, has_inventory, held).contains(e)
        && reward_option_ok(texts, held, e, o)
}

/// The held augments, none without an inventory.
pub open spec fn inventory_held(inventory: Option<&AugmentInventory>) -> Seq<HeldAugment> {
    match inventory {
        Some(inv) => inv.augments@,
        None => Seq::empty(),
    }
}

/// The sanctuary's forge offers: upgrades of held augments when there are any, else new
/// augments from the best tier.
pub fn build_sanctuary_draft(
    augments: &Vec<AugmentEntry>,
    texts: &Vec<AugmentText>,
    rng: &mut GameRng,
    inventory: Option<&AugmentInventory>,
) -> (v: Vec<AugmentChoiceOption>)
    ensures
        raisable(augments@, inventory_held(inventory)).len() > 0 ==> {
            &&& v@.len() == min_int(3, raisable(augments@, inventory_held(inventory)).len() as int)
            &&& forall|i: int| 0 <= i < v@.len() ==> upgrade_option_ok(augments@, texts@, raisable(augments@, inventory_held(inventory))[i], #[trigger] v@[i])
        },
        raisable(augments@, inventory_held(inventory)).len() == 0 ==> {
            &&& v@.len() == min_int(2, forge_pool(augments@, inventory_held(inventory)).len() as int)
            &&& forall|i: int| 0 <= i < v@.len() ==> #[trigger] forge_offer_from_pool(augments@, inventory_held(inventory), texts@, v@[i])
        },
{
    match inventory {
        Some(inv) => {
            let upgrades = build_upgrade_candidates(augments, texts, inv);
            if upgrades.len() > 0 {
                return upgrades;
            }
        },
        None => {
            proof {
                assert(raisable(augments@, Seq::<HeldAugment>::empty()) =~= Seq::<HeldAugment>::empty()) by {
                    reveal(Seq::filter);
                }
            }
        },
    }
    build_legendary_forge_choices(augments, texts, rng, inventory)
}

/// Whether an augment is at its maximum stacks (never without an inventory).
pub open spec fn is_maxed(has_inventory: bool, held: Seq<HeldAugment>, e: AugmentEntry) -> bool {
    has_inventory && held_stacks(held, e.id) >= e.max_stacks
}

/// The augments a cleared room may offer: not at their maximum, and common or elite (elite
/// or legendary after a boss).
pub open spec fn reward_pred(is_boss: bool, has_inventory: bool, held: Seq<HeldAugment>, e: AugmentEntry) -> bool {
    &&& !is_maxed(has_inventory, held, e)
    &&& if is_boss {
        e.rarity == AugmentRarity::Elite || e.rarity == AugmentRarity::Legendary
    } else {
        e.rarity == AugmentRarity::Common || e.rarity == AugmentRarity::Elite
    }
}

/// The augments a cleared room may offer, in order.
pub open spec fn reward_pool(augments: Seq<AugmentEntry>, is_boss: bool, has_inventory: bool, held: Seq<HeldAugment>) -> Seq<AugmentEntry> {
    augments.filter(|e: AugmentEntry| reward_pred(is_boss, has_inventory, held, e))
}

/// The offer of augment `e` after a cleared room: an upgrade when some but not all of its
/// stacks are held, shown at the next level then.
pub open spec fn reward_option_ok(texts: Seq<AugmentText>, held: Seq<HeldAugment>, e: AugmentEntry, o: AugmentChoiceOption) -> bool {
    let h = held_stacks(held, e.id);
    &&& o.id == e.id
    &&& o.title@ == title_of(texts, e.id)
    &&& o.rarity == e.rarity
    &&& o.is_upgrade == (h > 0 && h < e.max_stacks)
    &&& o.shown_level == if o.is_upgrade { h + 1 } else { 1 }
}

/// Up to three augments offered after a cleared room, drawn at random from those the
/// room may offer.
pub fn generate_augment_choices(
    augments: &Vec<AugmentEntry>,
    texts: &Vec<AugmentText>,
    rng: &mut GameRng,
    is_boss: bool,
    inventory: Option<&AugmentInventory>,
) -> (v: Vec<AugmentChoiceOption>)
    ensures
        v@.len() == min_int(3, reward_pool(augments@, is_boss, inventory.is_some(), inventory_held(inventory)).len() as int),
        forall|i: int| 0 <= i < v@.len() ==> #[trigger] reward_offer_from_pool(augments@, is_boss, inventory.is_some(), inventory_held(inventory), texts@, v@[i]),
        offers_drawn_from(v@, reward_pool(augments@, is_boss, inventory.is_some(), inventory_held(inventory)),
            |e: AugmentEntry, o: AugmentChoiceOption| reward_option_ok(texts@, inventory_held(inventory), e, o)),
{
    let empty = AugmentInventory { augments: Vec::new() };
    let has_inv = inventory.is_some();
    let inv = match inventory {
        Some(i) => i,
        None => &empty,
    };
    let ghost held = inventory_held(inventory);
    proof {
        assert(inv.augments@ == held);
    }
    let mut pool: Vec<AugmentEntry> = Vec::new();
    let mut k: usize = 0;
    proof {
        assert(augments@.take(0) =~= Seq::<AugmentEntry>::empty());
        assert(pool@ =~= reward_pool(augments@.take(0), is_boss, has_inv, held));
    }
    while k < augments.len()
        invariant
            k <= augments@.len(),
            inv.augments@ == held,
            pool@ == reward_pool(augments@.take(k as int), is_boss, has_inv, held),
        decreases augments@.len() - k,
    {
        let e = augments[k];
        let maxed = has_inv && inv.stacks(e.id) >= e.max_stacks;
        let band = if is_boss {
            e.rarity == AugmentRarity::Elite || e.rarity == AugmentRarity::Legendary
        } else {
            e.rarity == AugmentRarity::Common || e.rarity == AugmentRarity::Elite
        };
        proof {
            assert(augments@.take(k + 1) =~= augments@.take(k as int).push(e));
            augments@.take(k as int).lemma_filter_push(e, |x: AugmentEntry| reward_pred(is_boss, has_inv, held, x));
        }
        if !maxed && band {
            pool.push(e);
        }
        k = k + 1;
    }
    proof {
        assert(augments@.take(augments@.len() as int) =~= augments@);
    }
    let ghost pool_v = pool@;
    let picked = draw_entries(pool, rng, 3);
    let mut v: Vec<AugmentChoiceOption> = Vec::new();
    let mut i: usize = 0;
    while i < picked.len()
        invariant
            i <= picked@.len(),
            v@.len() == i,
            inv.augments@ == held,
            forall|j: int| 0 <= j < picked@.len() ==> pool_v.contains(#[trigger] picked@[j]),
            forall|j: int| 0 <= j < i ==> reward_option_ok(texts@, held, picked@[j], #[trigger] v@[j]),
        decreases picked@.len() - i,
    {
        let e = picked[i];
        let h = inv.stacks(e.id);
        let is_upgrade = h > 0 && h < e.max_stacks;
        let shown_level = if is_upgrade { h + 1 } else { 1 };
        let (title, _description) = augment_title_and_description(texts, e.id);
        v.push(AugmentChoiceOption { id: e.id, title, rarity: e.rarity, is_upgrade, shown_level });
        i = i + 1;
    }
    proof {
        assert forall|j: int| 0 <= j < v@.len() implies #[trigger] reward_offer_from_pool(augments@, is_boss, inventory.is_some(), inventory_held(inventory), texts@, v@[j]) by {
            assert(pool_v.contains(picked@[j]));
            assert(reward_option_ok(texts@, held, picked@[j], v@[j]));
        }
        let ok = |e: AugmentEntry, o: AugmentChoiceOption| reward_option_ok(texts@, inventory_held(inventory), e, o);
        assert(picked@.to_multiset().subset_of(pool_v.to_multiset()));
        assert forall|i: int| 0 <= i < v@.len() implies ok(picked@[i], #[trigger] v@[i]) by {
            assert(reward_option_ok(texts@, held, picked@[i], v@[i]));
        }
    }
    v
}


/// The sanctuary's revelation: one level up, the threshold of the new level, and 50 gold.
pub fn apply_revelation_reward(level: &mut PlayerLevel, gold: &mut u32, curve: &[u32])
    requires
        old(level).level < u32::MAX,
        xp_threshold_spec(curve@, old(level).level + 1) <= u32::MAX,
    ensures
        final(level).level == old(level).level + 1,
        final(level).xp == old(level).xp,
        final(level).xp_to_next == xp_threshold_spec(curve@, old(level).level + 1),
        *final(gold) == (if *old(gold) as int + 50 <= u32::MAX { *old(gold) + 50 } else { u32::MAX as int }),
{
    level.level = level.level + 1;
    level.xp_to_next = xp_threshold(curve, level.level);
    *gold = gold.saturating_add(50);
}

/// The level-up choice being offered: its options, the phase to return to, and the level
/// reached.
#[derive(Debug, Clone)]
pub struct LevelUpChoices {
    pub options: Vec<LevelUpKind>,
    pub return_state: Option<GamePhase>,
    pub new_level: u32,
}

/// Offer the revelation's level-up choice for `new_level`: healing and three different
/// attributes, returning to play afterwards.
pub fn configure_revelation_choices(choices: &mut LevelUpChoices, rng: &mut GameRng, new_level: u32)
    ensures
        final(choices).options@.len() == 4,
        final(choices).options@[0] == LevelUpKind::RecoverHealth,
        final(choices).options@.drop_first().no_duplicates(),
        forall|i: int| 1 <= i < 4 ==> levelup_stats_spec().contains(#[trigger] final(choices).options@[i]),
        final(choices).options@.drop_first() == shuffle_spec(old(rng).state(), levelup_stats_spec()).0.take(3),
        final(rng).state() == shuffle_spec(old(rng).state(), levelup_stats_spec()).1,
        final(choices).return_state == Some(GamePhase::Playing),
        final(choices).new_level == new_level,
{
    choices.options = build_levelup_options(rng);
    choices.return_state = Some(GamePhase::Playing);
    choices.new_level = new_level;
}

/// Where a reward room stands.
#[derive(Debug, Clone)]
pub enum RewardFlowStep {
    /// No reward room is open.
    Inactive,
    /// The sanctuary shows its three services; the forge would offer these.
    Sanctuary(Vec<AugmentChoiceOption>),
    /// The forge's offers are shown.
    ForgePick(Vec<AugmentChoiceOption>),
}

/// The reward room in progress, and the portal that a cleared boss leaves.
#[derive(Debug)]
pub struct RewardFlow {
    pub room: Option<RoomId>,
    pub step: RewardFlowStep,
    pub spawn_portal: bool,
    pub portal_is_victory: bool,
}

/// A choice on the reward screens.
#[derive(Debug, Clone, Copy, PartialEq, Eq, Structural)]
pub enum RewardUiAction {
    Select(usize),
    Back,
}

/// The reward screens' keys: in the sanctuary a digit 1 to 3 picks a service; at the forge
/// Escape goes back and a digit picks one of the shown offers.
pub fn reward_choice_key(step: &RewardFlowStep, digit: Option<u8>, escape: bool) -> (r: Option<RewardUiAction>)
    ensures
        match *step {
            RewardFlowStep::Inactive => r.is_none(),
            RewardFlowStep::Sanctuary(_) => r == match digit {
                Some(d) => if 1 <= d <= 3 { Some(RewardUiAction::Select((d - 1) as usize)) } else { None },
                None => None,
            },
            RewardFlowStep::ForgePick(options) => r == if escape {
                Some(RewardUiAction::Back)
            } else {
                match digit {
                    Some(d) => if 1 <= d <= 3 && d <= options@.len() {
                        Some(RewardUiAction::Select((d - 1) as usize))
                    } else {
                        None
                    },
                    None => None,
                }
            },
        },
{
    match step {
        RewardFlowStep::Inactive => None,
        RewardFlowStep::Sanctuary(_) => match digit {
            Some(d) => if 1 <= d && d <= 3 { Some(RewardUiAction::Select((d - 1) as usize)) } else { None },
            None => None,
        },
        RewardFlowStep::ForgePick(options) => {
            if escape {
                return Some(RewardUiAction::Back);
            }
            match digit {
                Some(d) => if 1 <= d && d <= 3 && (d as usize) <= options.len() {
                    Some(RewardUiAction::Select((d - 1) as usize))
                } else {
                    None
                },
                None => None,
            }
        },
    }
}

/// What a reward action asks of the caller.
#[derive(Debug, Clone, Copy, PartialEq, Eq, Structural)]
pub enum RewardEffect {
    /// Nothing to do.
    Nothing,
    /// Restore health and energy fully and clear the player's ailments.
    FullRestore,
    /// The forge was opened.
    OpenForge,
    /// The forge has nothing to offer; the sanctuary stays.
    ForgeUnavailable,
    /// Grant the revelation: a level, 50 gold and a level-up choice.
    Revelation,
    /// Back to the sanctuary with the same forge offers.
    BackToSanctuary,
    /// Grant this augment.
    ForgeGrant(AugmentId),
}

/// The result of a reward action: what to do, the room reported as cleared, and the
/// phase to go to.
#[derive(Debug, Clone, Copy, PartialEq, Eq, Structural)]
pub struct RewardOutcome {
    pub effect: RewardEffect,
    pub cleared_room: Option<RoomId>,
    pub next_phase: Option<GamePhase>,
}

/// Close the reward room: its room (if any) is cleared and reported, the flow ends.
pub fn finish_reward_room(flow: &mut RewardFlow, room_state: &mut RoomState) -> (cleared: Option<RoomId>)
    ensures
        cleared == old(flow).room,
        final(flow).room.is_none(),
        final(flow).step is Inactive,
        final(flow).spawn_portal == old(flow).spawn_portal,
        final(flow).portal_is_victory == old(flow).portal_is_victory,
        *final(room_state) == (if old(flow).room.is_some() { RoomState::Cleared } else { *old(room_state) }),
{
    let room = flow.room;
    if room.is_some() {
        *room_state = RoomState::Cleared;
    }
    flow.room = None;
    flow.step = RewardFlowStep::Inactive;
    room
}

/// Apply a reward action. In the sanctuary the first service heals and closes the room,
/// the second opens the forge when it has offers, and the third grants the revelation and
/// closes the room into a level-up choice (with a player to grant it to). At the forge,
/// going back keeps the same offers, and picking a shown offer grants it and closes the room.
pub fn apply_reward_action(flow: &mut RewardFlow, room_state: &mut RoomState, action: RewardUiAction, player_present: bool) -> (r: RewardOutcome)
    ensures
        r.effect == RewardEffect::Nothing || r.effect == RewardEffect::ForgeUnavailable ==> r.cleared_room.is_none()
            && r.next_phase.is_none() && final(flow).room == old(flow).room
            && *final(room_state) == *old(room_state),
        r.effect == RewardEffect::FullRestore || r.effect == RewardEffect::Revelation || r.effect is ForgeGrant ==> {
            &&& r.cleared_room == old(flow).room
            &&& final(flow).room.is_none()
            &&& final(flow).step is Inactive
            &&& *final(room_state) == (if old(flow).room.is_some() { RoomState::Cleared } else { *old(room_state) })
        },
        r.effect == RewardEffect::FullRestore ==> r.next_phase == Some(GamePhase::Playing),
        r.effect == RewardEffect::Revelation ==> r.next_phase == Some(GamePhase::LevelUpSelect),
        r.effect is ForgeGrant ==> r.next_phase == Some(GamePhase::Playing),
        match old(flow).step {
            RewardFlowStep::Inactive => r.effect == RewardEffect::Nothing,
            RewardFlowStep::Sanctuary(options) => match action {
                RewardUiAction::Back => r.effect == RewardEffect::Nothing,
                RewardUiAction::Select(i) => if i == 0 {
                    r.effect == RewardEffect::FullRestore
                } else if i == 1 {
                    if options@.len() == 0 {
                        r.effect == RewardEffect::ForgeUnavailable
                    } else {
                        r.effect == RewardEffect::OpenForge && r.cleared_room.is_none() && r.next_phase.is_none()
                            && (final(flow).step matches RewardFlowStep::ForgePick(o) && o@ == options@)
                            && final(flow).room == old(flow).room && *final(room_state) == *old(room_state)
                    }
                } else if i == 2 {
                    r.effect == (if player_present { RewardEffect::Revelation } else { RewardEffect::Nothing })
                } else {
                    r.effect == RewardEffect::Nothing
                },
            },
            RewardFlowStep::ForgePick(options) => match action {
                RewardUiAction::Back => r.effect == RewardEffect::BackToSanctuary && r.cleared_room.is_none()
                    && r.next_phase.is_none()
                    && (final(flow).step matches RewardFlowStep::Sanctuary(o) && o@ == options@)
                    && final(flow).room == old(flow).room && *final(room_state) == *old(room_state),
                RewardUiAction::Select(i) => if i < options@.len() && player_present {
                    r.effect == RewardEffect::ForgeGrant(options@[i as int].id)
                } else {
                    r.effect == RewardEffect::Nothing
                },
            },
        },
{
    let nothing = RewardOutcome { effect: RewardEffect::Nothing, cleared_room: None, next_phase: None };
    let mut step = RewardFlowStep::Inactive;
    std::mem::swap(&mut step, &mut flow.step);
    match step {
        RewardFlowStep::Inactive => {
            flow.step = RewardFlowStep::Inactive;
            nothing
        },
        RewardFlowStep::Sanctuary(options) => match action {
            RewardUiAction::Back => {
                flow.step = RewardFlowStep::Sanctuary(options);
                nothing
            },
            RewardUiAction::Select(i) => {
                if i == 0 {
                    flow.step = RewardFlowStep::Sanctuary(options);
                    let cleared = finish_reward_room(flow, room_state);
                    RewardOutcome { effect: RewardEffect::FullRestore, cleared_room: cleared, next_phase: Some(GamePhase::Playing) }
                } else if i == 1 {
                    if options.len() == 0 {
                        flow.step = RewardFlowStep::Sanctuary(options);
                        RewardOutcome { effect: RewardEffect::ForgeUnavailable, cleared_room: None, next_phase: None }
                    } else {
                        flow.step = RewardFlowStep::ForgePick(options);
                        RewardOutcome { effect: RewardEffect::OpenForge, cleared_room: None, next_phase: None }
                    }
                } else if i == 2 && player_present {
                    flow.step = RewardFlowStep::Sanctuary(options);
                    let cleared = finish_reward_room(flow, room_state);
                    RewardOutcome { effect: RewardEffect::Revelation, cleared_room: cleared, next_phase: Some(GamePhase::LevelUpSelect) }
                } else {
                    flow.step = RewardFlowStep::Sanctuary(options);
                    nothing
                }
            },
        },
        RewardFlowStep::ForgePick(options) => match action {
            RewardUiAction::Back => {
                flow.step = RewardFlowStep::Sanctuary(options);
                RewardOutcome { effect: RewardEffect::BackToSanctuary, cleared_room: None, next_phase: None }
            },
            RewardUiAction::Select(i) => {
                if i < options.len() && player_present {
                    let id = options[i].id;
                    flow.step = RewardFlowStep::ForgePick(options);
                    let cleared = finish_reward_room(flow, room_state);
                    RewardOutcome { effect: RewardEffect::ForgeGrant(id), cleared_room: cleared, next_phase: Some(GamePhase::Playing) }
                } else {
                    flow.step = RewardFlowStep::ForgePick(options);
                    nothing
                }
            },
        },
    }
}

/// Up to three skills offered after a boss, drawn at random from the game data's skills: the
/// first of them shuffled from the generator's state.
pub fn generate_skill_choices(skills: &Vec<SkillType>, rng: &mut GameRng) -> (v: Vec<SkillType>)
    ensures
        v@ == shuffle_spec(old(rng).state(), skills@).0.take(v@.len() as int),
        final(rng).state() == shuffle_spec(old(rng).state(), skills@).1,
        v@.len() == min_int(3, skills@.len() as int),
        v@.to_multiset().subset_of(skills@.to_multiset()),
{
    let all = crate::session::copy_vec(skills);
    let shuffled = rng.shuffled(all);
    let n = if shuffled.len() < 3 { shuffled.len() } else { 3 };
    let mut v: Vec<SkillType> = Vec::new();
    let mut i: usize = 0;
    while i < n
        invariant
            n <= shuffled@.len(),
            i <= n,
            v@ == shuffled@.take(i as int),
        decreases n - i,
    {
        v.push(shuffled[i]);
        i = i + 1;
        proof {
            assert(v@ =~= shuffled@.take(i as int));
        }
    }
    proof {
        crate::session::lemma_take_submultiset(shuffled@, n as int);
    }
    v
}

/// What clearing a room offers: nothing in reward and event rooms (they have their own),
/// an augment pick after an elite room (after a normal room only on a lucky roll), and
/// the boss's rewards after a boss.
#[derive(Debug, Clone, Copy, PartialEq, Eq, Structural)]
pub enum ClearRewardPlan {
    Skip,
    MaybeAugment { guaranteed: bool },
    Boss,
}

/// The reward plan for a cleared room.
pub fn clear_reward_plan(room_type: RoomType) -> (p: ClearRewardPlan)
    ensures
        p == match room_type {
            RoomType::Reward | RoomType::Event => ClearRewardPlan::Skip,
            RoomType::Boss => ClearRewardPlan::Boss,
            RoomType::Elite => ClearRewardPlan::MaybeAugment { guaranteed: true },
            _ => ClearRewardPlan::MaybeAugment { guaranteed: false },
        },
{
    match room_type {
        RoomType::Reward | RoomType::Event => ClearRewardPlan::Skip,
        RoomType::Boss => ClearRewardPlan::Boss,
        RoomType::Elite => ClearRewardPlan::MaybeAugment { guaranteed: true },
        _ => ClearRewardPlan::MaybeAugment { guaranteed: false },
    }
}

/// A cleared boss leaves a portal, to victory when the run is won.
pub fn open_boss_portal(flow: &mut RewardFlow, post_reward: PostRewardDecision)
    ensures
        final(flow).spawn_portal,
        final(flow).portal_is_victory == (post_reward == PostRewardDecision::Victory),
        final(flow).room == old(flow).room,
{
    flow.spawn_portal = true;
    flow.portal_is_victory = post_reward == PostRewardDecision::Victory;
}

/// The screens after a boss: the skill pick first when skills are offered (then the
/// augment pick if augments are offered too), else the augment pick, else back to play.
/// Returns the phase to go to and, for the skill pick, the phase after it.
pub fn boss_reward_route(augments_offered: bool, skills_offered: bool) -> (r: (GamePhase, Option<GamePhase>))
    ensures
        r == (if skills_offered {
            (GamePhase::SkillSelect, Some(if augments_offered { GamePhase::AugmentSelect } else { GamePhase::Playing }))
        } else if augments_offered {
            (GamePhase::AugmentSelect, None)
        } else {
            (GamePhase::Playing, None)
        }),
{
    if skills_offered {
        (GamePhase::SkillSelect, Some(if augments_offered { GamePhase::AugmentSelect } else { GamePhase::Playing }))
    } else if augments_offered {
        (GamePhase::AugmentSelect, None)
    } else {
        (GamePhase::Playing, None)
    }
}

/// Entering a reward room opens its sanctuary once per floor: when reward rooms give a
/// choice, the room is a reward room, and it was not claimed before. The room is then
/// claimed and locked, and the sanctuary shows `offers`.
pub fn offer_sanctuary(
    claims: &mut Vec<RoomId>,
    flow: &mut RewardFlow,
    room_state: &mut RoomState,
    enabled: bool,
    room_type: RoomType,
    room: RoomId,
    offers: Vec<AugmentChoiceOption>,
) -> (opened: bool)
    ensures
        opened == (enabled && room_type == RoomType::Reward && !old(claims)@.contains(room)),
        opened ==> final(claims)@ == old(claims)@.push(room) && *final(room_state) == RoomState::Locked
            && final(flow).room == Some(room)
            && (final(flow).step matches RewardFlowStep::Sanctuary(o) && o@ == offers@),
        !opened ==> final(claims)@ == old(claims)@ && *final(room_state) == *old(room_state)
            && final(flow).room == old(flow).room,
{
    if !enabled || room_type != RoomType::Reward {
        return false;
    }
    let mut i: usize = 0;
    while i < claims.len()
        invariant
            i <= claims@.len(),
            forall|j: int| 0 <= j < i ==> claims@[j] != room,
        decreases claims@.len() - i,
    {
        if claims[i].0 == room.0 {
            proof {
                assert(claims@[i as int] == room);
            }
            return false;
        }
        i = i + 1;
    }
    claims.push(room);
    *room_state = RoomState::Locked;
    flow.room = Some(room);
    flow.step = RewardFlowStep::Sanctuary(offers);
    true
}


/// The rewards a level-up or a reward room can grant.
#[derive(Debug, Clone, Copy, PartialEq, Eq, Hash, Structural)]
pub enum RewardType {
    EnhanceMeleeWeapon,
    IncreaseAttackSpeed,
    IncreaseMaxHealth,
    ReduceDashCooldown,
    LifeStealOnKill,
    IncreaseCritChance,
    IncreaseMoveSpeed,
    DashDamageTrail,
    EnhanceRangedWeapon,
}

/// The highest level of a common reward.
pub const COMMON_REWARD_MAX_LEVEL: u8 = 3;

/// The highest mastery of a weapon.
pub const WEAPON_MASTERY_MAX_LEVEL: u8 = 6;

/// The levels of the rewards the player has taken.
#[derive(Debug, Clone, Copy, PartialEq, Eq, Structural)]
pub struct RewardLevels {
    pub melee_mastery_stacks: u32,
    pub ranged_mastery_stacks: u32,
    pub dash_damage_trail: bool,
    pub attack_speed_level: u8,
    pub max_health_level: u8,
    pub dash_cooldown_level: u8,
    pub lifesteal_level: u8,
    pub crit_level: u8,
    pub move_speed_level: u8,
}

/// The volley of the ranged weapon, by its mastery.
#[derive(Debug, Clone, Copy, PartialEq, Eq, Structural)]
pub enum RangedVolleyPattern {
    Single,
    Double,
    Triple,
    Nova,
}

/// The current and highest level of a reward: weapon masteries (counted up to their
/// maximum), the dash trail (taken or not), and the common rewards.
pub open spec fn reward_level_spec(m: RewardLevels, reward: RewardType) -> (u8, u8) {
    let mastery_cap = WEAPON_MASTERY_MAX_LEVEL as u32;
    match reward {
        RewardType::EnhanceMeleeWeapon => (
            (if m.melee_mastery_stacks <= mastery_cap { m.melee_mastery_stacks } else { mastery_cap }) as u8,
            WEAPON_MASTERY_MAX_LEVEL,
        ),
        RewardType::EnhanceRangedWeapon => (
            (if m.ranged_mastery_stacks <= mastery_cap { m.ranged_mastery_stacks } else { mastery_cap }) as u8,
            WEAPON_MASTERY_MAX_LEVEL,
        ),
        RewardType::DashDamageTrail => (if m.dash_damage_trail { 1u8 } else { 0u8 }, 1u8),
        RewardType::IncreaseAttackSpeed => (m.attack_speed_level, COMMON_REWARD_MAX_LEVEL),
        RewardType::IncreaseMaxHealth => (m.max_health_level, COMMON_REWARD_MAX_LEVEL),
        RewardType::ReduceDashCooldown => (m.dash_cooldown_level, COMMON_REWARD_MAX_LEVEL),
        RewardType::LifeStealOnKill => (m.lifesteal_level, COMMON_REWARD_MAX_LEVEL),
        RewardType::IncreaseCritChance => (m.crit_level, COMMON_REWARD_MAX_LEVEL),
        RewardType::IncreaseMoveSpeed => (m.move_speed_level, COMMON_REWARD_MAX_LEVEL),
    }
}

/// The levels after taking `reward`: a weapon mastery rises by one up to its maximum, the
/// dash trail is gained, and any other reward rises one level unless it is at its maximum.
pub open spec fn levels_after_reward(m: RewardLevels, reward: RewardType) -> RewardLevels {
    let at_max = reward_level_spec(m, reward).0 >= reward_level_spec(m, reward).1;
    let cap = WEAPON_MASTERY_MAX_LEVEL as u32;
    match reward {
        RewardType::EnhanceMeleeWeapon => RewardLevels {
            melee_mastery_stacks: if m.melee_mastery_stacks + 1 <= cap { (m.melee_mastery_stacks + 1) as u32 } else { cap },
            ..m
        },
        RewardType::EnhanceRangedWeapon => RewardLevels {
            ranged_mastery_stacks: if m.ranged_mastery_stacks + 1 <= cap { (m.ranged_mastery_stacks + 1) as u32 } else { cap },
            ..m
        },
        RewardType::DashDamageTrail => RewardLevels { dash_damage_trail: true, ..m },
        RewardType::IncreaseAttackSpeed => if at_max { m } else { RewardLevels { attack_speed_level: (m.attack_speed_level + 1) as u8, ..m } },
        RewardType::IncreaseMaxHealth => if at_max { m } else { RewardLevels { max_health_level: (m.max_health_level + 1) as u8, ..m } },
        RewardType::ReduceDashCooldown => if at_max { m } else { RewardLevels { dash_cooldown_level: (m.dash_cooldown_level + 1) as u8, ..m } },
        RewardType::LifeStealOnKill => if at_max { m } else { RewardLevels { lifesteal_level: (m.lifesteal_level + 1) as u8, ..m } },
        RewardType::IncreaseCritChance => if at_max { m } else { RewardLevels { crit_level: (m.crit_level + 1) as u8, ..m } },
        RewardType::IncreaseMoveSpeed => if at_max { m } else { RewardLevels { move_speed_level: (m.move_speed_level + 1) as u8, ..m } },
    }
}

/// The rewards whose levels bring a fractional gain: all but the masteries and the dash trail.
pub open spec fn is_common_reward(reward: RewardType) -> bool {
    !(reward == RewardType::EnhanceMeleeWeapon || reward == RewardType::EnhanceRangedWeapon
        || reward == RewardType::DashDamageTrail)
}

/// Taking a reward never lifts it past its maximum, and below its maximum it rises by one.
pub proof fn lemma_reward_levels_stay_capped(m: RewardLevels, reward: RewardType)
    requires
        reward_level_spec(m, reward).0 <= reward_level_spec(m, reward).1,
    ensures
        reward_level_spec(levels_after_reward(m, reward), reward).0 <= reward_level_spec(m, reward).1,
        reward_level_spec(m, reward).0 < reward_level_spec(m, reward).1 ==>
            reward_level_spec(levels_after_reward(m, reward), reward).0 == reward_level_spec(m, reward).0 + 1,
{
}

impl RewardLevels {
    /// Take `reward`: a weapon mastery rises by one up to its maximum, the dash trail is
    /// gained, and any other reward rises one level unless it is at its maximum. Returns
    /// whether a common reward rose, so that the caller adds its fractional gain.
    pub fn apply_reward(&mut self, reward: RewardType) -> (raised: bool)
        requires
            reward == RewardType::EnhanceMeleeWeapon ==> old(self).melee_mastery_stacks < u32::MAX,
            reward == RewardType::EnhanceRangedWeapon ==> old(self).ranged_mastery_stacks < u32::MAX,
        ensures
            *final(self) == levels_after_reward(*old(self), reward),
            raised == (is_common_reward(reward)
                && reward_level_spec(*old(self), reward).0 < reward_level_spec(*old(self), reward).1),
    {
        let at_max = self.reward_at_max(reward);
        match reward {
            RewardType::EnhanceMeleeWeapon => {
                let next = self.melee_mastery_stacks + 1;
                self.melee_mastery_stacks = if next <= 6 { next } else { 6 };
                false
            },
            RewardType::EnhanceRangedWeapon => {
                let next = self.ranged_mastery_stacks + 1;
                self.ranged_mastery_stacks = if next <= 6 { next } else { 6 };
                false
            },
            RewardType::DashDamageTrail => {
                self.dash_damage_trail = true;
                false
            },
            _ => {
                if at_max {
                    return false;
                }
                match reward {
                    RewardType::IncreaseAttackSpeed => self.attack_speed_level = self.attack_speed_level + 1,
                    RewardType::IncreaseMaxHealth => self.max_health_level = self.max_health_level + 1,
                    RewardType::ReduceDashCooldown => self.dash_cooldown_level = self.dash_cooldown_level + 1,
                    RewardType::LifeStealOnKill => self.lifesteal_level = self.lifesteal_level + 1,
                    RewardType::IncreaseCritChance => self.crit_level = self.crit_level + 1,
                    _ => self.move_speed_level = self.move_speed_level + 1,
                }
                true
            },
        }
    }

    /// No reward taken.
    pub fn new() -> (m: RewardLevels)
        ensures
            m.melee_mastery_stacks == 0 && m.ranged_mastery_stacks == 0 && !m.dash_damage_trail,
            m.attack_speed_level == 0 && m.max_health_level == 0 && m.dash_cooldown_level == 0,
            m.lifesteal_level == 0 && m.crit_level == 0 && m.move_speed_level == 0,
    {
        RewardLevels {
            melee_mastery_stacks: 0,
            ranged_mastery_stacks: 0,
            dash_damage_trail: false,
            attack_speed_level: 0,
            max_health_level: 0,
            dash_cooldown_level: 0,
            lifesteal_level: 0,
            crit_level: 0,
            move_speed_level: 0,
        }
    }

    /// The current and highest level of `reward`.
    pub fn reward_level(self, reward: RewardType) -> (r: (u8, u8))
        ensures
            r == reward_level_spec(self, reward),
    {
        match reward {
            RewardType::EnhanceMeleeWeapon => (
                (if self.melee_mastery_stacks <= 6 { self.melee_mastery_stacks } else { 6 }) as u8,
                WEAPON_MASTERY_MAX_LEVEL,
            ),
            RewardType::EnhanceRangedWeapon => (
                (if self.ranged_mastery_stacks <= 6 { self.ranged_mastery_stacks } else { 6 }) as u8,
                WEAPON_MASTERY_MAX_LEVEL,
            ),
            RewardType::DashDamageTrail => (if self.dash_damage_trail { 1 } else { 0 }, 1),
            RewardType::IncreaseAttackSpeed => (self.attack_speed_level, COMMON_REWARD_MAX_LEVEL),
            RewardType::IncreaseMaxHealth => (self.max_health_level, COMMON_REWARD_MAX_LEVEL),
            RewardType::ReduceDashCooldown => (self.dash_cooldown_level, COMMON_REWARD_MAX_LEVEL),
            RewardType::LifeStealOnKill => (self.lifesteal_level, COMMON_REWARD_MAX_LEVEL),
            RewardType::IncreaseCritChance => (self.crit_level, COMMON_REWARD_MAX_LEVEL),
            RewardType::IncreaseMoveSpeed => (self.move_speed_level, COMMON_REWARD_MAX_LEVEL),
        }
    }

    /// Whether `reward` is at its highest level.
    pub fn reward_at_max(self, reward: RewardType) -> (b: bool)
        ensures
            b == (reward_level_spec(self, reward).0 >= reward_level_spec(self, reward).1),
    {
        let (current, max) = self.reward_level(reward);
        current >= max
    }

    /// Melee lifesteal comes with the second mastery.
    pub fn melee_lifesteal_unlocked(self) -> (b: bool)
        ensures
            b == (self.melee_mastery_stacks >= 2),
    {
        self.melee_mastery_stacks >= 2
    }

    /// Rupture comes with the fourth mastery.
    pub fn melee_rupture_unlocked(self) -> (b: bool)
        ensures
            b == (self.melee_mastery_stacks >= 4),
    {
        self.melee_mastery_stacks >= 4
    }

    /// Reflecting projectiles comes with the fourth mastery.
    pub fn melee_projectile_reflect_unlocked(self) -> (b: bool)
        ensures
            b == (self.melee_mastery_stacks >= 4),
    {
        self.melee_mastery_stacks >= 4
    }

    /// The sword wave comes with the sixth mastery.
    pub fn melee_sword_wave_unlocked(self) -> (b: bool)
        ensures
            b == (self.melee_mastery_stacks >= 6),
    {
        self.melee_mastery_stacks >= 6
    }

    /// What the melee mastery has unlocked, in words.
    pub fn melee_feature_summary(self) -> (s: &'static str)
        ensures
            s@ == if self.melee_mastery_stacks <= 1 {
                "未解锁"@
            } else if self.melee_mastery_stacks <= 3 {
                "吸血"@
            } else if self.melee_mastery_stacks <= 5 {
                "吸血、裂伤、弹反"@
            } else {
                "吸血、裂伤、弹反、剑风"@
            },
    {
        if self.melee_mastery_stacks <= 1 {
            "未解锁"
        } else if self.melee_mastery_stacks <= 3 {
            "吸血"
        } else if self.melee_mastery_stacks <= 5 {
            "吸血、裂伤、弹反"
        } else {
            "吸血、裂伤、弹反、剑风"
        }
    }

    /// The ranged volley: single, double from the second mastery, triple from the fourth,
    /// a nova from the sixth.
    pub fn ranged_volley_pattern(self) -> (p: RangedVolleyPattern)
        ensures
            p == if self.ranged_mastery_stacks >= 6 {
                RangedVolleyPattern::Nova
            } else if self.ranged_mastery_stacks >= 4 {
                RangedVolleyPattern::Triple
            } else if self.ranged_mastery_stacks >= 2 {
                RangedVolleyPattern::Double
            } else {
                RangedVolleyPattern::Single
            },
    {
        if self.ranged_mastery_stacks >= 6 {
            RangedVolleyPattern::Nova
        } else if self.ranged_mastery_stacks >= 4 {
            RangedVolleyPattern::Triple
        } else if self.ranged_mastery_stacks >= 2 {
            RangedVolleyPattern::Double
        } else {
            RangedVolleyPattern::Single
        }
    }
}


} // verus!
