use vstd::prelude::*;
use vstd::multiset::Multiset;

use crate::event::{
    augment_definition, augment_definition_spec, drawn_from, half_price_augment_cost, half_price_spec,
    intel_line_spec, is_combat_spec, is_puzzle_spec, puzzle_kind_of, leave_choice, pick_augment_offers, pool_candidates,
    pool_filter, rarity_rank, rarity_rank_spec, trade_gold_for_augment, trade_gold_spec, traveler_intel_lines,
    ActiveEvent, AugmentPool, EventChoice, EventChoicePayload, EventInputOutcome, EventType,
};
use crate::map::{FloorLayout, RoomData, RoomId, RoomType};
use crate::progression::{floor_enemy_count_spec, get_floor_enemy_count, BalanceConfig};
use crate::puzzle::{ActivePuzzle, PuzzleEventConfig, PuzzleKind};
use crate::states::RoomState;
use crate::rng::{shuffle_spec, GameRng};
use crate::session::{copy_vec, min_int, AugmentEntry, AugmentId};
use crate::shop::AugmentText;
use crate::text::{concat_str, decimal_spec, decimal_string, owned};

verus! {

/// The augments an event draws from, with their texts.
#[derive(Debug)]
pub struct EventCatalog {
    pub augments: Vec<AugmentEntry>,
    pub texts: Vec<AugmentText>,
}

/// The first text of `texts` for augment `id`.
pub open spec fn first_text(texts: Seq<AugmentText>, id: AugmentId) -> Option<AugmentText>
    decreases texts.len(),
{
    if texts.len() == 0 {
        None
    } else if texts[0].id == id {
        Some(texts[0])
    } else {
        first_text(texts.drop_first(), id)
    }
}

/// The title of augment `id`, empty when the texts lack it.
pub open spec fn title_of(texts: Seq<AugmentText>, id: AugmentId) -> Seq<char> {
    match first_text(texts, id) {
        Some(t) => t.title@,
        None => Seq::empty(),
    }
}

/// The description of augment `id`, empty when the texts lack it.
pub open spec fn description_of(texts: Seq<AugmentText>, id: AugmentId) -> Seq<char> {
    match first_text(texts, id) {
        Some(t) => t.description@,
        None => Seq::empty(),
    }
}

/// The first text for `id` from position `k` on is the one at `k`, or else the first from `k + 1` on.
pub proof fn lemma_first_text_step(texts: Seq<AugmentText>, id: AugmentId, k: int)
    requires
        0 <= k < texts.len(),
    ensures
        first_text(texts.subrange(k, texts.len() as int), id) == if texts[k].id == id {
            Some(texts[k])
        } else {
            first_text(texts.subrange(k + 1, texts.len() as int), id)
        },
{
    let s = texts.subrange(k, texts.len() as int);
    assert(s.drop_first() =~= texts.subrange(k + 1, texts.len() as int));
    assert(s[0] == texts[k]);
}

/// The title and description of augment `id`, both empty when the texts lack it.
pub fn augment_title_and_description(texts: &Vec<AugmentText>, id: AugmentId) -> (r: (String, String))
    ensures
        r.0@ == title_of(texts@, id),
        r.1@ == description_of(texts@, id),
{
    let mut k: usize = 0;
    proof {
        assert(texts@.subrange(0, texts@.len() as int) =~= texts@);
    }
    while k < texts.len()
        invariant
            k <= texts@.len(),
            first_text(texts@.subrange(k as int, texts@.len() as int), id) == first_text(texts@, id),
        decreases texts@.len() - k,
    {
        proof {
            lemma_first_text_step(texts@, id, k as int);
        }
        if texts[k].id.0 == id.0 {
            return (texts[k].title.clone(), texts[k].description.clone());
        }
        k = k + 1;
    }
    proof {
        assert(texts@.subrange(k as int, texts@.len() as int) =~= Seq::<AugmentText>::empty());
    }
    (String::new(), String::new())
}

/// One augment drawn from `pool` (from all augments when the pool is empty); none only
/// when the game data has no augment at all.
pub fn pick_random_augment(augments: &Vec<AugmentEntry>, rng: &mut GameRng, pool: AugmentPool) -> (r: Option<AugmentEntry>)
    ensures
        r.is_some() == (augments@.len() > 0),
        r matches Some(e) ==> drawn_from(augments@, pool, e),
{
    let offers = pick_augment_offers(augments, rng, pool, 1);
    proof {
        if augments@.len() > 0 {
            if pool_candidates(augments@, pool).len() == 0 {
                assert(pool_candidates(augments@, pool) == augments@);
            }
        }
    }
    if offers.len() == 0 {
        None
    } else {
        Some(offers[0])
    }
}

/// Whether `e` may replace the sacrificed augment `sac` at the forge: same category, another
/// augment, and of a higher rarity (exactly one step higher when `next_step` is set).
pub open spec fn upgrade_pred(sac: AugmentEntry, next_step: bool, e: AugmentEntry) -> bool {
    &&& e.category == sac.category
    &&& e.id != sac.id
    &&& if next_step {
        rarity_rank_spec(e.rarity) == rarity_rank_spec(sac.rarity) + 1
    } else {
        rarity_rank_spec(e.rarity) > rarity_rank_spec(sac.rarity)
    }
}

/// The augments that may replace `sac`, in their order.
pub open spec fn upgrades(augments: Seq<AugmentEntry>, sac: AugmentEntry, next_step: bool) -> Seq<AugmentEntry> {
    augments.filter(|e: AugmentEntry| upgrade_pred(sac, next_step, e))
}

fn collect_upgrades(augments: &Vec<AugmentEntry>, sac: AugmentEntry, next_step: bool) -> (v: Vec<AugmentEntry>)
    ensures
        v@ == upgrades(augments@, sac, next_step),
{
    let mut v: Vec<AugmentEntry> = Vec::new();
    let mut k: usize = 0;
    let sac_rank = rarity_rank(sac.rarity);
    proof {
        assert(augments@.take(0) =~= Seq::<AugmentEntry>::empty());
        assert(v@ =~= upgrades(augments@.take(0), sac, next_step));
    }
    while k < augments.len()
        invariant
            k <= augments@.len(),
            sac_rank == rarity_rank_spec(sac.rarity),
            v@ == upgrades(augments@.take(k as int), sac, next_step),
        decreases augments@.len() - k,
    {
        let e = augments[k];
        let rank = rarity_rank(e.rarity);
        let keep = e.category.0 == sac.category.0 && e.id.0 != sac.id.0 && if next_step {
            rank == sac_rank + 1
        } else {
            rank > sac_rank
        };
        proof {
            assert(augments@.take(k + 1) =~= augments@.take(k as int).push(e));
            augments@.take(k as int).lemma_filter_push(e, |x: AugmentEntry| upgrade_pred(sac, next_step, x));
        }
        if keep {
            v.push(e);
        }
        k = k + 1;
    }
    proof {
        assert(augments@.take(augments@.len() as int) =~= augments@);
    }
    v
}

/// The augments that may replace `sac` at the forge: those one rarity step higher, or any
/// higher ones when the game data has none one step higher.
pub open spec fn forge_candidates(augments: Seq<AugmentEntry>, sac: AugmentEntry) -> Seq<AugmentEntry> {
    if upgrades(augments, sac, true).len() > 0 { upgrades(augments, sac, true) } else { upgrades(augments, sac, false) }
}

/// The forge's reward for sacrificing `sac`: an augment of the same category and a higher
/// rarity, one step higher whenever the game data has such an augment; the first of those
/// candidates shuffled from the generator's state.
pub fn pick_higher_rarity_same_category(augments: &Vec<AugmentEntry>, rng: &mut GameRng, sac: AugmentEntry) -> (r: Option<AugmentEntry>)
    ensures
        ({
            let c = forge_candidates(augments@, sac);
            let s = shuffle_spec(old(rng).state(), c);
            &&& r == if c.len() > 0 { Some(s.0[0]) } else { None::<AugmentEntry> }
            &&& final(rng).state() == s.1
        }),
        r.is_some() == (upgrades(augments@, sac, false).len() > 0),
        r matches Some(e) ==> augments@.contains(e) && upgrade_pred(sac, false, e)
            && (upgrades(augments@, sac, true).len() > 0 ==> upgrade_pred(sac, true, e)),
{
    broadcast use vstd::seq_lib::group_filter_ensures;
    broadcast use vstd::seq_lib::group_to_multiset_ensures;
    let strict = collect_upgrades(augments, sac, true);
    let candidates = if strict.len() > 0 {
        strict
    } else {
        collect_upgrades(augments, sac, false)
    };
    proof {
        if strict@.len() > 0 {
            assert forall|i: int| 0 <= i < strict@.len() implies upgrade_pred(sac, false, #[trigger] strict@[i]) by {
                assert(upgrade_pred(sac, true, strict@[i]));
            }
            let e0 = strict@[0];
            augments@.lemma_filter_contains_rev(|x: AugmentEntry| upgrade_pred(sac, true, x), e0);
            let k = choose|k: int| 0 <= k < augments@.len() && augments@[k] == e0;
            augments@.lemma_filter_contains(|x: AugmentEntry| upgrade_pred(sac, false, x), k);
        }
    }
    let ghost cands = candidates@;
    let shuffled = rng.shuffled(candidates);
    if shuffled.len() == 0 {
        return None;
    }
    let e = shuffled[0];
    proof {
        broadcast use vstd::multiset::group_multiset_axioms;
        assert(shuffled@.contains(e));
        assert(shuffled@.to_multiset().count(e) > 0);
        assert(cands.to_multiset().count(e) > 0);
        assert(cands.contains(e));
        let t = choose|t: int| 0 <= t < cands.len() && cands[t] == e;
        if strict@.len() > 0 {
            assert(upgrade_pred(sac, true, cands[t]));
            augments@.lemma_filter_contains_rev(|x: AugmentEntry| upgrade_pred(sac, true, x), e);
        } else {
            assert(upgrade_pred(sac, false, cands[t]));
            augments@.lemma_filter_contains_rev(|x: AugmentEntry| upgrade_pred(sac, false, x), e);
        }
    }
    Some(e)
}

/// Whether the held augment `id` can be sacrificed at the forge: the game data knows it and
/// has an augment that may replace it.
pub open spec fn upgradable(augments: Seq<AugmentEntry>, id: AugmentId) -> bool {
    match augment_definition_spec(augments, id) {
        Some(sac) => upgrades(augments, sac, false).len() > 0,
        None => false,
    }
}

/// How many of the held augments, counted with repeats, can be sacrificed at the forge.
pub open spec fn upgradable_count(augments: Seq<AugmentEntry>, held: Seq<AugmentId>) -> nat {
    held.filter(|id: AugmentId| upgradable(augments, id)).len()
}

/// Filtering keeps, of each value, as many copies as the sequence has when the value passes.
proof fn lemma_filter_len_by_multiset<A>(s: Seq<A>, p: spec_fn(A) -> bool)
    ensures
        s.filter(p).len() == s.to_multiset().filter(p).len(),
    decreases s.len(),
{
    broadcast use vstd::seq_lib::group_to_multiset_ensures;
    broadcast use vstd::multiset::group_multiset_axioms;
    if s.len() == 0 {
        assert(s.filter(p) =~= Seq::<A>::empty());
        assert(s.to_multiset() =~= Multiset::<A>::empty());
        assert(s.to_multiset().filter(p) =~= Multiset::<A>::empty());
    } else {
        let t = s.drop_last();
        let x = s.last();
        assert(s =~= t.push(x));
        lemma_filter_len_by_multiset(t, p);
        t.lemma_filter_len_push(p, x);
        vstd::seq_lib::to_multiset_build(t, x);
        if p(x) {
            assert(t.to_multiset().insert(x).filter(p) =~= t.to_multiset().filter(p).insert(x));
        } else {
            assert(t.to_multiset().insert(x).filter(p) =~= t.to_multiset().filter(p));
        }
    }
}

/// Two sequences with the same elements, counted with multiplicity, keep as many under a filter.
proof fn lemma_filter_len_permutation<A>(a: Seq<A>, b: Seq<A>, p: spec_fn(A) -> bool)
    requires
        a.to_multiset() == b.to_multiset(),
    ensures
        a.filter(p).len() == b.filter(p).len(),
{
    lemma_filter_len_by_multiset(a, p);
    lemma_filter_len_by_multiset(b, p);
}

/// An offer of the forge: sacrifice a held augment for a higher-rarity one of its category.
#[derive(Debug, Clone)]
pub struct ForgeOffer {
    pub sacrifice_id: AugmentId,
    pub sacrifice_title: String,
    pub reward_id: AugmentId,
    pub reward_title: String,
    pub reward_description: String,
}

/// Whether the game data knows augment `sacrifice_id` and `reward_id` is the id of an
/// augment that may replace it.
#[verifier::opaque]
pub open spec fn forge_pair_ok(augments: Seq<AugmentEntry>, sacrifice_id: AugmentId, reward_id: AugmentId) -> bool {
    augment_definition_spec(augments, sacrifice_id) matches Some(sac) && exists|e: AugmentEntry|
        #[trigger] augments.contains(e) && e.id == reward_id && upgrade_pred(sac, false, e)
}

/// Whether sacrificing held augment `sacrifice_id` for `reward_id` is a valid forge trade.
pub open spec fn forge_trade_ok(augments: Seq<AugmentEntry>, held: Seq<AugmentId>, sacrifice_id: AugmentId, reward_id: AugmentId) -> bool {
    &&& held.contains(sacrifice_id)
    &&& forge_pair_ok(augments, sacrifice_id, reward_id)
}

/// Whether `o` is a valid forge offer with the texts of its two augments.
pub open spec fn forge_offer_ok(augments: Seq<AugmentEntry>, texts: Seq<AugmentText>, held: Seq<AugmentId>, o: ForgeOffer) -> bool {
    &&& forge_trade_ok(augments, held, o.sacrifice_id, o.reward_id)
    &&& o.sacrifice_title@ == title_of(texts, o.sacrifice_id)
    &&& o.reward_title@ == title_of(texts, o.reward_id)
    &&& o.reward_description@ == description_of(texts, o.reward_id)
}

/// Two sequences with the same elements, counted with multiplicity, contain the same things.
proof fn lemma_same_elements<A>(a: Seq<A>, b: Seq<A>, x: A)
    requires
        a.to_multiset() == b.to_multiset(),
        a.contains(x),
    ensures
        b.contains(x),
{
    broadcast use vstd::seq_lib::group_to_multiset_ensures;
    assert(a.to_multiset().count(x) > 0);
    assert(b.to_multiset().count(x) > 0);
}

/// The forge offer for held augment `id`, when it can be sacrificed.
fn forge_offer_for(augments: &Vec<AugmentEntry>, texts: &Vec<AugmentText>, rng: &mut GameRng, id: AugmentId) -> (r: Option<ForgeOffer>)
    ensures
        r.is_some() == upgradable(augments@, id),
        r matches Some(o) ==> {
            &&& o.sacrifice_id == id
            &&& forge_pair_ok(augments@, id, o.reward_id)
            &&& o.sacrifice_title@ == title_of(texts@, id)
            &&& o.reward_title@ == title_of(texts@, o.reward_id)
            &&& o.reward_description@ == description_of(texts@, o.reward_id)
        },
{
    let sac = match augment_definition(augments, id) {
        Some(sac) => sac,
        None => return None,
    };
    let reward = match pick_higher_rarity_same_category(augments, rng, sac) {
        Some(reward) => reward,
        None => return None,
    };
    let (sacrifice_title, _sacrifice_description) = augment_title_and_description(texts, sac.id);
    let (reward_title, reward_description) = augment_title_and_description(texts, reward.id);
    proof {
        assert(augments@.contains(reward));
        assert(forge_pair_ok(augments@, id, reward.id)) by {
            reveal(forge_pair_ok);
        }
    }
    Some(ForgeOffer { sacrifice_id: sac.id, sacrifice_title, reward_id: reward.id, reward_title, reward_description })
}

/// The held augments that a list of forge offers would sacrifice, in order.
pub open spec fn forge_sacrifices(v: Seq<ForgeOffer>) -> Seq<AugmentId> {
    v.map_values(|o: ForgeOffer| o.sacrifice_id)
}

/// Up to `count` forge offers, one per held augment that can be sacrificed, going through the
/// held augments in a random order. None only when no held augment can be sacrificed (or
/// `count` is 0).
pub fn build_forge_offers(
    augments: &Vec<AugmentEntry>,
    texts: &Vec<AugmentText>,
    rng: &mut GameRng,
    held: Option<&Vec<AugmentId>>,
    count: usize,
) -> (v: Vec<ForgeOffer>)
    ensures
        v@.len() <= count,
        held.is_none() ==> v@.len() == 0,
        held matches Some(h) ==> forall|i: int| 0 <= i < v@.len() ==> forge_offer_ok(augments@, texts@, h@, #[trigger] v@[i]),
        held matches Some(h) ==> v@.len() == min_int(count as int, upgradable_count(augments@, h@) as int),
        held matches Some(h) ==> forge_sacrifices(v@).to_multiset().subset_of(h@.to_multiset()),
        held matches Some(h) ==> (count > 0 && exists|j: int| 0 <= j < h@.len() && upgradable(augments@, #[trigger] h@[j]))
            ==> v@.len() > 0,
{
    let mut v: Vec<ForgeOffer> = Vec::new();
    let held = match held {
        Some(h) => h,
        None => return v,
    };
    let ghost held_v = held@;
    let ghost pred = |id: AugmentId| upgradable(augments@, id);
    let order = rng.shuffled(copy_vec(held));
    let mut i: usize = 0;
    proof {
        broadcast use vstd::seq_lib::group_to_multiset_ensures;
        broadcast use vstd::multiset::group_multiset_axioms;
        assert(forge_sacrifices(v@) =~= Seq::<AugmentId>::empty());
        assert(order@.take(0) =~= Seq::<AugmentId>::empty());
        assert(forge_sacrifices(v@).to_multiset() =~= Multiset::empty());
    }
    while i < order.len() && v.len() < count
        invariant
            i <= order@.len(),
            v@.len() <= count,
            order@.to_multiset() == held_v.to_multiset(),
            forall|k: int| 0 <= k < v@.len() ==> forge_offer_ok(augments@, texts@, held_v, #[trigger] v@[k]),
            v@.len() == 0 ==> forall|j: int| 0 <= j < i ==> !upgradable(augments@, #[trigger] order@[j]),
            v@.len() == order@.take(i as int).filter(pred).len(),
            pred == (|id: AugmentId| upgradable(augments@, id)),
            forge_sacrifices(v@).to_multiset().subset_of(order@.take(i as int).to_multiset()),
        decreases order@.len() - i,
    {
        let id = order[i];
        proof {
            assert(order@[i as int] == id);
            lemma_same_elements(order@, held_v, id);
            assert(order@.take(i + 1) =~= order@.take(i as int).push(id));
            order@.take(i as int).lemma_filter_len_push(pred, id);
            assert(pred(id) == upgradable(augments@, id));
        }
        match forge_offer_for(augments, texts, rng, id) {
            Some(offer) => {
                let ghost before = v@;
                v.push(offer);
                proof {
                    broadcast use vstd::seq_lib::group_to_multiset_ensures;
                    broadcast use vstd::multiset::group_multiset_axioms;
                    assert(v@ =~= before.push(offer));
                    assert(forge_offer_ok(augments@, texts@, held_v, offer));
                    assert(forge_sacrifices(v@) =~= forge_sacrifices(before).push(id));
                    assert(forge_sacrifices(v@).to_multiset() =~= forge_sacrifices(before).to_multiset().insert(id));
                    assert(order@.take(i + 1).to_multiset() =~= order@.take(i as int).to_multiset().insert(id));
                }
            },
            None => {
                proof {
                    broadcast use vstd::seq_lib::group_to_multiset_ensures;
                    broadcast use vstd::multiset::group_multiset_axioms;
                    assert(order@.take(i + 1).to_multiset() =~= order@.take(i as int).to_multiset().insert(id));
                }
            },
        }
        i = i + 1;
    }
    proof {
        crate::session::lemma_take_submultiset(order@, i as int);
        lemma_filter_len_permutation(order@, held_v, pred);
        order@.lemma_filter_take_len(pred, i as int);
        if i == order@.len() {
            assert(order@.take(i as int) =~= order@);
        }
        assert(upgradable_count(augments@, held_v) == held_v.filter(pred).len());
        if count > 0 && v@.len() == 0 {
            assert forall|j: int| 0 <= j < held_v.len() implies !upgradable(augments@, #[trigger] held_v[j]) by {
                assert(held_v.contains(held_v[j]));
                lemma_same_elements(held_v, order@, held_v[j]);
            }
        }
    }
    v
}

/// A choice showing `label` and `description`.
pub open spec fn choice_is(c: EventChoice, label: Seq<char>, description: Seq<char>) -> bool {
    c.label@ == label && c.description@ == description
}

/// The choice that leaves the event.
pub open spec fn is_leave(c: EventChoice) -> bool {
    choice_is(c, "离开"@, "放弃这次事件，立即返回地图。"@)
}

/// The event offers nothing but leaving.
pub open spec fn leave_only(a: ActiveEvent) -> bool {
    &&& a.choices@.len() == 1
    &&& a.choice_payloads@.len() == 1
    &&& is_leave(a.choices@[0])
    &&& a.choice_payloads@[0] is Leave
}

/// Everything but the choices is as before.
pub open spec fn same_event_state(a: ActiveEvent, b: ActiveEvent) -> bool {
    &&& a.event_type == b.event_type
    &&& a.resolved == b.resolved
    &&& a.room == b.room
    &&& a.interaction_ready == b.interaction_ready
    &&& a.combat_reward_ready == b.combat_reward_ready
    &&& a.flawless_failed == b.flawless_failed
    &&& a.challenge_timer_running == b.challenge_timer_running
}

/// `id` is the id of an augment drawn from `pool`.
pub open spec fn drawn_id(augments: Seq<AugmentEntry>, pool: AugmentPool, id: AugmentId) -> bool {
    exists|e: AugmentEntry| #[trigger] drawn_from(augments, pool, e) && e.id == id
}

/// The augments of the game data, none without it.
pub open spec fn catalog_augments(data: Option<&EventCatalog>) -> Seq<AugmentEntry> {
    match data {
        Some(d) => d.augments@,
        None => Seq::empty(),
    }
}

/// The augment texts of the game data, none without it.
pub open spec fn catalog_texts(data: Option<&EventCatalog>) -> Seq<AugmentText> {
    match data {
        Some(d) => d.texts@,
        None => Seq::empty(),
    }
}

/// The held augments, none when the player has no inventory.
pub open spec fn held_ids(held: Option<&Vec<AugmentId>>) -> Seq<AugmentId> {
    match held {
        Some(h) => h@,
        None => Seq::empty(),
    }
}

/// The gambler: 50 gold for any augment or 100 for an elite one.
pub open spec fn gambler_spec(a: ActiveEvent, augs: Seq<AugmentEntry>) -> bool {
    if augs.len() == 0 {
        leave_only(a)
    } else {
        &&& a.choices@.len() == 3
        &&& a.choice_payloads@.len() == 3
        &&& choice_is(a.choices@[0], "50 金币赌一把"@, "支付 50 金币，随机获得一项强化。"@)
        &&& choice_is(a.choices@[1], "100 金币赌精英"@, "支付 100 金币，随机获得一项精英强化。"@)
        &&& is_leave(a.choices@[2])
        &&& a.choice_payloads@[0] matches EventChoicePayload::Gambler { cost, augment_id }
            && cost == 50 && drawn_id(augs, AugmentPool::Any, augment_id)
        &&& a.choice_payloads@[1] matches EventChoicePayload::Gambler { cost, augment_id }
            && cost == 100 && drawn_id(augs, AugmentPool::EliteOnly, augment_id)
        &&& a.choice_payloads@[2] is Leave
    }
}

/// The blood pact: 20% of the current health for a common augment, 40% for an elite one.
pub open spec fn blood_pact_spec(a: ActiveEvent, augs: Seq<AugmentEntry>, texts: Seq<AugmentText>) -> bool {
    if augs.len() == 0 {
        leave_only(a)
    } else {
        &&& a.choices@.len() == 3
        &&& a.choice_payloads@.len() == 3
        &&& a.choice_payloads@[0] matches EventChoicePayload::BloodPact { hp_percent, augment_id }
            && hp_percent == 20 && drawn_id(augs, AugmentPool::CommonOnly, augment_id)
            && choice_is(a.choices@[0], "20% 当前 HP："@ + title_of(texts, augment_id),
                "失去 20% 当前生命，获得普通强化。"@ + description_of(texts, augment_id))
        &&& a.choice_payloads@[1] matches EventChoicePayload::BloodPact { hp_percent, augment_id }
            && hp_percent == 40 && drawn_id(augs, AugmentPool::EliteOnly, augment_id)
            && choice_is(a.choices@[1], "40% 当前 HP："@ + title_of(texts, augment_id),
                "失去 40% 当前生命，获得精英强化。"@ + description_of(texts, augment_id))
        &&& is_leave(a.choices@[2])
        &&& a.choice_payloads@[2] is Leave
    }
}

/// The treasure: a free augment and 20 to 40 gold.
pub open spec fn treasure_spec(a: ActiveEvent, augs: Seq<AugmentEntry>) -> bool {
    if augs.len() == 0 {
        leave_only(a)
    } else {
        &&& a.choices@.len() == 1
        &&& a.choice_payloads@.len() == 1
        &&& a.choice_payloads@[0] matches EventChoicePayload::Treasure { augment_id, gold_bonus }
            && drawn_id(augs, AugmentPool::Any, augment_id) && 20 <= gold_bonus <= 40
            && choice_is(a.choices@[0], "打开宝箱"@,
                "免费获得一项强化，并获得 "@ + decimal_spec(gold_bonus as nat) + " 金币。"@)
    }
}

/// The healing spring's three ways to heal.
pub open spec fn healing_spring_spec(a: ActiveEvent) -> bool {
    &&& a.choices@.len() == 3
    &&& a.choice_payloads@.len() == 3
    &&& choice_is(a.choices@[0], "恢复 40% HP"@, "恢复 40% 最大生命值。"@)
    &&& choice_is(a.choices@[1], "20% HP + 30 能量"@, "恢复 20% 最大生命与 30 点能量。"@)
    &&& choice_is(a.choices@[2], "两者各恢复 25%"@, "恢复 25% 最大生命与 25% 最大能量。"@)
    &&& a.choice_payloads@[0] matches EventChoicePayload::HealingSpring { hp_percent, energy_flat, energy_percent }
        && hp_percent == 40 && energy_flat == 0 && energy_percent == 0
    &&& a.choice_payloads@[1] matches EventChoicePayload::HealingSpring { hp_percent, energy_flat, energy_percent }
        && hp_percent == 20 && energy_flat == 30 && energy_percent == 0
    &&& a.choice_payloads@[2] matches EventChoicePayload::HealingSpring { hp_percent, energy_flat, energy_percent }
        && hp_percent == 25 && energy_flat == 0 && energy_percent == 25
}

/// The `k`-th choice of the merchant: a drawn augment at half price.
pub open spec fn merchant_entry_ok(augs: Seq<AugmentEntry>, texts: Seq<AugmentText>, c: EventChoice, p: EventChoicePayload) -> bool {
    p matches EventChoicePayload::Merchant { cost, augment_id }
        && drawn_id(augs, AugmentPool::Any, augment_id) && cost == half_price_spec(augs, augment_id)
        && choice_is(c, title_of(texts, augment_id) + " - "@ + decimal_spec(cost as nat) + " 金币"@,
            "半价购入一项强化。"@ + description_of(texts, augment_id))
}

/// The merchant: two augments (fewer when the game data has fewer) at half price.
/// Payload `p` sells augment `e`.
pub open spec fn merchant_sells(p: EventChoicePayload, e: AugmentEntry) -> bool {
    p matches EventChoicePayload::Merchant { augment_id, .. } && augment_id == e.id
}

pub open spec fn merchant_spec(a: ActiveEvent, augs: Seq<AugmentEntry>, texts: Seq<AugmentText>) -> bool {
    if augs.len() == 0 {
        leave_only(a)
    } else {
        let n = min_int(2, augs.len() as int);
        &&& a.choices@.len() == n + 1
        &&& a.choice_payloads@.len() == n + 1
        &&& forall|k: int| 0 <= k < n ==> #[trigger] merchant_entry_ok(augs, texts, a.choices@[k], a.choice_payloads@[k])
        &&& exists|picked: Seq<AugmentEntry>| #[trigger] picked.to_multiset().subset_of(augs.to_multiset())
            && picked.len() == n && forall|k: int| 0 <= k < n ==> #[trigger] merchant_sells(a.choice_payloads@[k], picked[k])
        &&& is_leave(a.choices@[n])
        &&& a.choice_payloads@[n] is Leave
    }
}

/// The gold of the gold altar's random trade for `hp_basis_points` ten-thousandths of the
/// health: 80 gold for half of it, in proportion and rounded to the nearest coin, at least 20.
pub open spec fn altar_gold_spec(hp_basis_points: u32) -> u32 {
    let g = (4 * hp_basis_points + 125) / 250;
    if g >= 20 { g as u32 } else { 20 }
}

/// The whole percent shown for `hp_basis_points` ten-thousandths: the nearest one, a tie
/// going to the even percent.
pub open spec fn shown_percent_spec(hp_basis_points: u32) -> u32 {
    let q = hp_basis_points / 100;
    let r = hp_basis_points % 100;
    if r > 50 || (r == 50 && q % 2 == 1) { (q + 1) as u32 } else { q }
}

/// The gold altar: three fixed trades and one random trade of health for gold.
pub open spec fn gold_altar_spec(a: ActiveEvent) -> bool {
    &&& a.choices@.len() == 4
    &&& a.choice_payloads@.len() == 4
    &&& choice_is(a.choices@[0], "能量换少量金币"@, "失去 20 能量，获得 25 金币。"@)
    &&& choice_is(a.choices@[1], "少量血换少量金币"@, "失去 15% 当前生命，获得 30 金币。"@)
    &&& choice_is(a.choices@[2], "大量血换大量金币"@, "失去 50% 当前生命，获得 80 金币。"@)
    &&& a.choice_payloads@[0] matches EventChoicePayload::GoldAltar { gold, hp_basis_points, energy_cost }
        && gold == 25 && hp_basis_points == 0 && energy_cost == 20
    &&& a.choice_payloads@[1] matches EventChoicePayload::GoldAltar { gold, hp_basis_points, energy_cost }
        && gold == 30 && hp_basis_points == 1500 && energy_cost == 0
    &&& a.choice_payloads@[2] matches EventChoicePayload::GoldAltar { gold, hp_basis_points, energy_cost }
        && gold == 80 && hp_basis_points == 5000 && energy_cost == 0
    &&& a.choice_payloads@[3] matches EventChoicePayload::GoldAltar { gold, hp_basis_points, energy_cost }
        && 1000 <= hp_basis_points < 5000 && energy_cost == 0 && gold == altar_gold_spec(hp_basis_points)
        && choice_is(a.choices@[3], "随机血换随机金币"@,
            "失去 "@ + decimal_spec(shown_percent_spec(hp_basis_points) as nat) + "% 当前生命，获得 "@
                + decimal_spec(gold as nat) + " 金币。"@)
}

/// The `k`-th choice of the forge: a held augment for a higher-rarity one of its category.
pub open spec fn forge_entry_ok(augs: Seq<AugmentEntry>, texts: Seq<AugmentText>, held: Seq<AugmentId>, c: EventChoice, p: EventChoicePayload) -> bool {
    p matches EventChoicePayload::MysticForge { sacrifice_id, reward_id }
        && forge_trade_ok(augs, held, sacrifice_id, reward_id)
        && choice_is(c, "献祭："@ + title_of(texts, sacrifice_id),
            "获得同类别更高稀有度强化："@ + title_of(texts, reward_id) + "。"@ + description_of(texts, reward_id))
}

/// The held augment a forge choice would sacrifice (none for any other choice).
pub open spec fn payload_sacrifice(p: EventChoicePayload) -> Option<AugmentId> {
    match p {
        EventChoicePayload::MysticForge { sacrifice_id, .. } => Some(sacrifice_id),
        _ => None,
    }
}

/// The held augments that the forge choices among `payloads` would sacrifice, in order.
pub open spec fn payload_sacrifices(payloads: Seq<EventChoicePayload>) -> Seq<AugmentId> {
    payloads.filter(|p: EventChoicePayload| payload_sacrifice(p) is Some).map_values(
        |p: EventChoicePayload| payload_sacrifice(p)->0)
}

/// Adding a choice adds its sacrifice, if it is a forge choice.
proof fn lemma_payload_sacrifices_push(ps: Seq<EventChoicePayload>, p: EventChoicePayload)
    ensures
        payload_sacrifices(ps.push(p)) == match payload_sacrifice(p) {
            Some(id) => payload_sacrifices(ps).push(id),
            None => payload_sacrifices(ps),
        },
{
    let pred = |q: EventChoicePayload| payload_sacrifice(q) is Some;
    let f = |q: EventChoicePayload| payload_sacrifice(q)->0;
    ps.lemma_filter_push(p, pred);
    if pred(p) {
        assert(ps.push(p).filter(pred).map_values(f) =~= ps.filter(pred).map_values(f).push(f(p)));
    }
}

/// The mystic forge: one trade of a held augment for a better one per held augment that can
/// be traded, at most three, or a notice that no held augment can be traded.
pub open spec fn forge_spec(a: ActiveEvent, has_data: bool, augs: Seq<AugmentEntry>, texts: Seq<AugmentText>, held: Seq<AugmentId>) -> bool {
    if !has_data {
        leave_only(a)
    } else {
        let n = a.choices@.len() - 1;
        &&& a.choice_payloads@.len() == a.choices@.len()
        &&& 2 <= a.choices@.len() <= 4
        &&& is_leave(a.choices@[n])
        &&& a.choice_payloads@[n] is Leave
        &&& if a.choice_payloads@[0] is Unavailable {
            &&& n == 1
            &&& choice_is(a.choices@[0], "无可献祭强化"@, "需要至少 1 个可升阶的普通或精英强化。"@)
            &&& a.choice_payloads@[0] matches EventChoicePayload::Unavailable { title, message }
                && title@ == "神秘铸炉"@ && message@ == "没有可升阶的强化。"@
            &&& forall|j: int| 0 <= j < held.len() ==> !upgradable(augs, #[trigger] held[j])
            &&& upgradable_count(augs, held) == 0
        } else {
            &&& n == min_int(3, upgradable_count(augs, held) as int)
            &&& payload_sacrifices(a.choice_payloads@).to_multiset().subset_of(held.to_multiset())
            &&& forall|k: int| 0 <= k < n ==> #[trigger] forge_entry_ok(augs, texts, held, a.choices@[k], a.choice_payloads@[k])
        }
    }
}

/// The wheel of fate: spin or leave.
pub open spec fn wheel_spec(a: ActiveEvent) -> bool {
    &&& a.choices@.len() == 2
    &&& a.choice_payloads@.len() == 2
    &&& choice_is(a.choices@[0], "转动命运"@, "随机触发好/坏各半的结果：金币、等级、强化、生命或失去强化。"@)
    &&& is_leave(a.choices@[1])
    &&& a.choice_payloads@[0] is WheelOfFate
    &&& a.choice_payloads@[1] is Leave
}

/// The traveler: rest, the route ahead, or a trade of the first held augment for gold.
pub open spec fn traveler_spec(a: ActiveEvent, augs: Seq<AugmentEntry>, held: Seq<AugmentId>, rooms: Seq<RoomData>, current: u32) -> bool {
    &&& a.choices@.len() == 3
    &&& a.choice_payloads@.len() == 3
    &&& choice_is(a.choices@[0], "休息"@, "恢复 20% 最大生命。"@)
    &&& choice_is(a.choices@[1], "交谈"@, "获得后续路线情报：显示前 3 个房间类型。"@)
    &&& a.choice_payloads@[0] is TravelerRest
    &&& a.choice_payloads@[1] matches EventChoicePayload::TravelerIntel { lines }
        && lines@.len() == 1 && lines@[0]@ == intel_line_spec(rooms, current)
    &&& if held.len() > 0 {
        a.choice_payloads@[2] matches EventChoicePayload::TravelerTrade { sacrifice_id, gold }
            && sacrifice_id == held[0] && gold == trade_gold_spec(augs, held[0])
            && choice_is(a.choices@[2], "交易"@, "用 1 个强化换取 "@ + decimal_spec(gold as nat) + " 金币。"@)
    } else {
        a.choice_payloads@[2] matches EventChoicePayload::Unavailable { title, message }
            && title@ == "旅者交易"@ && message@ == "当前没有可交易的强化。"@
            && choice_is(a.choices@[2], "交易"@, "没有可交易的强化。"@)
    }
}

/// The sacrifice altar: a fifth of the maximum health for a legendary augment.
pub open spec fn sacrifice_spec(a: ActiveEvent, augs: Seq<AugmentEntry>) -> bool {
    if augs.len() == 0 {
        leave_only(a)
    } else {
        &&& a.choices@.len() == 2
        &&& a.choice_payloads@.len() == 2
        &&& choice_is(a.choices@[0], "失去 20% 最大 HP"@, "永久失去 20% 最大生命，获得传说强化。"@)
        &&& is_leave(a.choices@[1])
        &&& a.choice_payloads@[0] matches EventChoicePayload::SacrificeAltar { augment_id }
            && drawn_id(augs, AugmentPool::LegendaryOnly, augment_id)
        &&& a.choice_payloads@[1] is Leave
    }
}

/// The choices a non-combat event `e` offers.
pub open spec fn configured_spec(a: ActiveEvent, e: EventType, data: Option<&EventCatalog>, held: Seq<AugmentId>, rooms: Seq<RoomData>, current: u32) -> bool {
    let augs = catalog_augments(data);
    let texts = catalog_texts(data);
    match e {
        EventType::Gambler => gambler_spec(a, augs),
        EventType::BloodPact => blood_pact_spec(a, augs, texts),
        EventType::Treasure => treasure_spec(a, augs),
        EventType::HealingSpring => healing_spring_spec(a),
        EventType::Merchant => merchant_spec(a, augs, texts),
        EventType::GoldAltar => gold_altar_spec(a),
        EventType::MysticBlacksmith => forge_spec(a, data.is_some(), augs, texts, held),
        EventType::WheelOfFate => wheel_spec(a),
        EventType::TravelerGift => traveler_spec(a, augs, held, rooms, current),
        EventType::SacrificeAltar => sacrifice_spec(a, augs),
        _ => true,
    }
}

fn fixed_choice(label: &str, description: &str) -> (c: EventChoice)
    ensures
        choice_is(c, label@, description@),
{
    EventChoice { label: owned(label), description: owned(description) }
}

fn set_choices(active: &mut ActiveEvent, choices: Vec<EventChoice>, payloads: Vec<EventChoicePayload>)
    ensures
        final(active).choices@ == choices@,
        final(active).choice_payloads@ == payloads@,
        same_event_state(*old(active), *final(active)),
{
    active.choices = choices;
    active.choice_payloads = payloads;
}

fn set_leave_only(active: &mut ActiveEvent)
    ensures
        leave_only(*final(active)),
        same_event_state(*old(active), *final(active)),
{
    let mut choices: Vec<EventChoice> = Vec::new();
    choices.push(leave_choice());
    let mut payloads: Vec<EventChoicePayload> = Vec::new();
    payloads.push(EventChoicePayload::Leave);
    set_choices(active, choices, payloads);
}

fn configure_gambler(active: &mut ActiveEvent, augs: &Vec<AugmentEntry>, rng: &mut GameRng)
    ensures
        gambler_spec(*final(active), augs@),
        same_event_state(*old(active), *final(active)),
{
    let lite = match pick_random_augment(augs, rng, AugmentPool::Any) {
        Some(e) => e,
        None => {
            set_leave_only(active);
            return;
        },
    };
    let elite = match pick_random_augment(augs, rng, AugmentPool::EliteOnly) {
        Some(e) => e,
        None => {
            set_leave_only(active);
            return;
        },
    };
    let mut choices: Vec<EventChoice> = Vec::new();
    choices.push(fixed_choice("50 金币赌一把", "支付 50 金币，随机获得一项强化。"));
    choices.push(fixed_choice("100 金币赌精英", "支付 100 金币，随机获得一项精英强化。"));
    choices.push(leave_choice());
    let mut payloads: Vec<EventChoicePayload> = Vec::new();
    payloads.push(EventChoicePayload::Gambler { cost: 50, augment_id: lite.id });
    payloads.push(EventChoicePayload::Gambler { cost: 100, augment_id: elite.id });
    payloads.push(EventChoicePayload::Leave);
    proof {
        assert(drawn_from(augs@, AugmentPool::Any, lite));
        assert(drawn_from(augs@, AugmentPool::EliteOnly, elite));
    }
    set_choices(active, choices, payloads);
}

fn configure_blood_pact(active: &mut ActiveEvent, augs: &Vec<AugmentEntry>, texts: &Vec<AugmentText>, rng: &mut GameRng)
    ensures
        blood_pact_spec(*final(active), augs@, texts@),
        same_event_state(*old(active), *final(active)),
{
    let common = pick_random_augment(augs, rng, AugmentPool::CommonOnly);
    let elite = pick_random_augment(augs, rng, AugmentPool::EliteOnly);
    let (common, elite) = match (common, elite) {
        (Some(c), Some(e)) => (c, e),
        _ => {
            set_leave_only(active);
            return;
        },
    };
    let (common_title, common_desc) = augment_title_and_description(texts, common.id);
    let (elite_title, elite_desc) = augment_title_and_description(texts, elite.id);
    let mut choices: Vec<EventChoice> = Vec::new();
    choices.push(EventChoice {
        label: concat_str(owned("20% 当前 HP："), common_title.as_str()),
        description: concat_str(owned("失去 20% 当前生命，获得普通强化。"), common_desc.as_str()),
    });
    choices.push(EventChoice {
        label: concat_str(owned("40% 当前 HP："), elite_title.as_str()),
        description: concat_str(owned("失去 40% 当前生命，获得精英强化。"), elite_desc.as_str()),
    });
    choices.push(leave_choice());
    let mut payloads: Vec<EventChoicePayload> = Vec::new();
    payloads.push(EventChoicePayload::BloodPact { hp_percent: 20, augment_id: common.id });
    payloads.push(EventChoicePayload::BloodPact { hp_percent: 40, augment_id: elite.id });
    payloads.push(EventChoicePayload::Leave);
    proof {
        assert(drawn_from(augs@, AugmentPool::CommonOnly, common));
        assert(drawn_from(augs@, AugmentPool::EliteOnly, elite));
    }
    set_choices(active, choices, payloads);
}

fn configure_treasure(active: &mut ActiveEvent, augs: &Vec<AugmentEntry>, rng: &mut GameRng)
    ensures
        treasure_spec(*final(active), augs@),
        same_event_state(*old(active), *final(active)),
{
    let augment = match pick_random_augment(augs, rng, AugmentPool::Any) {
        Some(e) => e,
        None => {
            set_leave_only(active);
            return;
        },
    };
    let gold_bonus: u32 = 20 + rng.gen_below(21) as u32;
    let description = concat_str(
        concat_str(owned("免费获得一项强化，并获得 "), decimal_string(gold_bonus).as_str()),
        " 金币。",
    );
    let mut choices: Vec<EventChoice> = Vec::new();
    choices.push(EventChoice { label: owned("打开宝箱"), description });
    let mut payloads: Vec<EventChoicePayload> = Vec::new();
    payloads.push(EventChoicePayload::Treasure { augment_id: augment.id, gold_bonus });
    proof {
        assert(drawn_from(augs@, AugmentPool::Any, augment));
    }
    set_choices(active, choices, payloads);
}

fn configure_healing_spring(active: &mut ActiveEvent)
    ensures
        healing_spring_spec(*final(active)),
        same_event_state(*old(active), *final(active)),
{
    let mut choices: Vec<EventChoice> = Vec::new();
    choices.push(fixed_choice("恢复 40% HP", "恢复 40% 最大生命值。"));
    choices.push(fixed_choice("20% HP + 30 能量", "恢复 20% 最大生命与 30 点能量。"));
    choices.push(fixed_choice("两者各恢复 25%", "恢复 25% 最大生命与 25% 最大能量。"));
    let mut payloads: Vec<EventChoicePayload> = Vec::new();
    payloads.push(EventChoicePayload::HealingSpring { hp_percent: 40, energy_flat: 0, energy_percent: 0 });
    payloads.push(EventChoicePayload::HealingSpring { hp_percent: 20, energy_flat: 30, energy_percent: 0 });
    payloads.push(EventChoicePayload::HealingSpring { hp_percent: 25, energy_flat: 0, energy_percent: 25 });
    set_choices(active, choices, payloads);
}

proof fn lemma_any_pool_keeps_all(augs: Seq<AugmentEntry>)
    ensures
        pool_filter(augs, AugmentPool::Any) == augs,
    decreases augs.len(),
{
    if augs.len() > 0 {
        let rest = augs.drop_last();
        lemma_any_pool_keeps_all(rest);
        rest.lemma_filter_push(augs.last(), |e: AugmentEntry| crate::event::in_pool(AugmentPool::Any, e.rarity));
        assert(rest.push(augs.last()) =~= augs);
    } else {
        assert(augs.filter(|e: AugmentEntry| crate::event::in_pool(AugmentPool::Any, e.rarity)) =~= augs) by {
            reveal(Seq::filter);
        }
    }
}

fn configure_merchant(active: &mut ActiveEvent, augs: &Vec<AugmentEntry>, texts: &Vec<AugmentText>, rng: &mut GameRng)
    ensures
        merchant_spec(*final(active), augs@, texts@),
        same_event_state(*old(active), *final(active)),
{
    let offers = pick_augment_offers(augs, rng, AugmentPool::Any, 2);
    proof {
        lemma_any_pool_keeps_all(augs@);
    }
    if offers.len() == 0 {
        set_leave_only(active);
        return;
    }
    let mut choices: Vec<EventChoice> = Vec::new();
    let mut payloads: Vec<EventChoicePayload> = Vec::new();
    let mut i: usize = 0;
    while i < offers.len()
        invariant
            i <= offers@.len(),
            choices@.len() == i,
            payloads@.len() == i,
            forall|j: int| 0 <= j < offers@.len() ==> drawn_from(augs@, AugmentPool::Any, #[trigger] offers@[j]),
            forall|k: int| 0 <= k < i ==> #[trigger] merchant_entry_ok(augs@, texts@, choices@[k], payloads@[k]),
            forall|k: int| 0 <= k < i ==> #[trigger] merchant_sells(payloads@[k], offers@[k]),
        decreases offers@.len() - i,
    {
        let offer = offers[i];
        let cost = half_price_augment_cost(augs, offer.id);
        let (title, description) = augment_title_and_description(texts, offer.id);
        let label = concat_str(concat_str(concat_str(title, " - "), decimal_string(cost).as_str()), " 金币");
        let choice = EventChoice { label, description: concat_str(owned("半价购入一项强化。"), description.as_str()) };
        let payload = EventChoicePayload::Merchant { cost, augment_id: offer.id };
        proof {
            assert(drawn_from(augs@, AugmentPool::Any, offers@[i as int]));
            assert(merchant_entry_ok(augs@, texts@, choice, payload));
        }
        let ghost before_c = choices@;
        let ghost before_p = payloads@;
        choices.push(choice);
        payloads.push(payload);
        proof {
            assert forall|k: int| 0 <= k < i + 1 implies #[trigger] merchant_entry_ok(augs@, texts@, choices@[k], payloads@[k]) by {
                if k < i {
                    assert(merchant_entry_ok(augs@, texts@, before_c[k], before_p[k]));
                }
            }
            assert forall|k: int| 0 <= k < i + 1 implies #[trigger] merchant_sells(payloads@[k], offers@[k]) by {
                if k < i {
                    assert(merchant_sells(before_p[k], offers@[k]));
                }
            }
        }
        i = i + 1;
    }
    let ghost before_c = choices@;
    let ghost before_p = payloads@;
    choices.push(leave_choice());
    payloads.push(EventChoicePayload::Leave);
    proof {
        let n = offers@.len() as int;
        assert forall|k: int| 0 <= k < n implies #[trigger] merchant_entry_ok(augs@, texts@, choices@[k], payloads@[k]) by {
            assert(merchant_entry_ok(augs@, texts@, before_c[k], before_p[k]));
        }
        assert forall|k: int| 0 <= k < n implies #[trigger] merchant_sells(payloads@[k], offers@[k]) by {
            assert(merchant_sells(before_p[k], offers@[k]));
        }
        assert(offers@.to_multiset().subset_of(augs@.to_multiset()));
    }
    set_choices(active, choices, payloads);
}

fn configure_gold_altar(active: &mut ActiveEvent, rng: &mut GameRng)
    ensures
        gold_altar_spec(*final(active)),
        same_event_state(*old(active), *final(active)),
{
    let hp_basis_points: u32 = 1000 + rng.gen_below(4000) as u32;
    let scaled: u32 = (4 * hp_basis_points + 125) / 250;
    let gold: u32 = if scaled >= 20 { scaled } else { 20 };
    let q: u32 = hp_basis_points / 100;
    let r: u32 = hp_basis_points % 100;
    let shown: u32 = if r > 50 || (r == 50 && q % 2 == 1) { q + 1 } else { q };
    let description = concat_str(
        concat_str(
            concat_str(concat_str(owned("失去 "), decimal_string(shown).as_str()), "% 当前生命，获得 "),
            decimal_string(gold).as_str(),
        ),
        " 金币。",
    );
    let mut choices: Vec<EventChoice> = Vec::new();
    choices.push(fixed_choice("能量换少量金币", "失去 20 能量，获得 25 金币。"));
    choices.push(fixed_choice("少量血换少量金币", "失去 15% 当前生命，获得 30 金币。"));
    choices.push(fixed_choice("大量血换大量金币", "失去 50% 当前生命，获得 80 金币。"));
    choices.push(EventChoice { label: owned("随机血换随机金币"), description });
    let mut payloads: Vec<EventChoicePayload> = Vec::new();
    payloads.push(EventChoicePayload::GoldAltar { gold: 25, hp_basis_points: 0, energy_cost: 20 });
    payloads.push(EventChoicePayload::GoldAltar { gold: 30, hp_basis_points: 1500, energy_cost: 0 });
    payloads.push(EventChoicePayload::GoldAltar { gold: 80, hp_basis_points: 5000, energy_cost: 0 });
    payloads.push(EventChoicePayload::GoldAltar { gold, hp_basis_points, energy_cost: 0 });
    set_choices(active, choices, payloads);
}

fn configure_forge(
    active: &mut ActiveEvent,
    data: Option<&EventCatalog>,
    rng: &mut GameRng,
    held: Option<&Vec<AugmentId>>,
)
    ensures
        forge_spec(*final(active), data.is_some(), catalog_augments(data), catalog_texts(data), held_ids(held)),
        same_event_state(*old(active), *final(active)),
{
    let data = match data {
        Some(d) => d,
        None => {
            set_leave_only(active);
            return;
        },
    };
    let offers = build_forge_offers(&data.augments, &data.texts, rng, held, 3);
    let ghost augs = data.augments@;
    let ghost texts = data.texts@;
    let ghost held_v = held_ids(held);
    proof {
        if held.is_none() {
            assert(held_v.filter(|id: AugmentId| upgradable(augs, id)) =~= Seq::<AugmentId>::empty());
        }
        assert(offers@.len() == min_int(3, upgradable_count(augs, held_v) as int));
    }
    let mut choices: Vec<EventChoice> = Vec::new();
    let mut payloads: Vec<EventChoicePayload> = Vec::new();
    if offers.len() == 0 {
        choices.push(fixed_choice("无可献祭强化", "需要至少 1 个可升阶的普通或精英强化。"));
        choices.push(leave_choice());
        payloads.push(EventChoicePayload::Unavailable { title: owned("神秘铸炉"), message: owned("没有可升阶的强化。") });
        payloads.push(EventChoicePayload::Leave);
        set_choices(active, choices, payloads);
        return;
    }
    let mut i: usize = 0;
    while i < offers.len()
        invariant
            i <= offers@.len(),
            offers@.len() <= 3,
            choices@.len() == i,
            payloads@.len() == i,
            augs == data.augments@,
            texts == data.texts@,
            held_v == held_ids(held),
            held.is_some(),
            forall|j: int| 0 <= j < offers@.len() ==> forge_offer_ok(augs, texts, held_v, #[trigger] offers@[j]),
            forall|k: int| 0 <= k < i ==> #[trigger] forge_entry_ok(augs, texts, held_v, choices@[k], payloads@[k]),
            payload_sacrifices(payloads@) == forge_sacrifices(offers@.take(i as int)),
        decreases offers@.len() - i,
    {
        let offer = &offers[i];
        let label = concat_str(owned("献祭："), offer.sacrifice_title.as_str());
        let description = concat_str(
            concat_str(
                concat_str(owned("获得同类别更高稀有度强化："), offer.reward_title.as_str()),
                "。",
            ),
            offer.reward_description.as_str(),
        );
        let choice = EventChoice { label, description };
        let payload = EventChoicePayload::MysticForge { sacrifice_id: offer.sacrifice_id, reward_id: offer.reward_id };
        proof {
            assert(forge_offer_ok(augs, texts, held_v, offers@[i as int]));
            assert(forge_entry_ok(augs, texts, held_v, choice, payload));
        }
        let ghost before_c = choices@;
        let ghost before_p = payloads@;
        choices.push(choice);
        payloads.push(payload);
        proof {
            lemma_payload_sacrifices_push(before_p, payload);
            assert(offers@.take(i + 1) =~= offers@.take(i as int).push(offers@[i as int]));
            assert(forge_sacrifices(offers@.take(i + 1)) =~= forge_sacrifices(offers@.take(i as int)).push(offers@[i as int].sacrifice_id));
            assert forall|k: int| 0 <= k < i + 1 implies #[trigger] forge_entry_ok(augs, texts, held_v, choices@[k], payloads@[k]) by {
                if k < i {
                    assert(forge_entry_ok(augs, texts, held_v, before_c[k], before_p[k]));
                }
            }
        }
        i = i + 1;
    }
    let ghost before_c = choices@;
    let ghost before_p = payloads@;
    choices.push(leave_choice());
    payloads.push(EventChoicePayload::Leave);
    proof {
        let n = offers@.len() as int;
        assert forall|k: int| 0 <= k < n implies #[trigger] forge_entry_ok(augs, texts, held_v, choices@[k], payloads@[k]) by {
            assert(forge_entry_ok(augs, texts, held_v, before_c[k], before_p[k]));
        }
        assert(forge_entry_ok(augs, texts, held_v, choices@[0], payloads@[0]));
        assert(!(payloads@[0] is Unavailable));
        lemma_payload_sacrifices_push(before_p, EventChoicePayload::Leave);
        assert(offers@.take(n) =~= offers@);
    }
    set_choices(active, choices, payloads);
}

fn configure_wheel(active: &mut ActiveEvent)
    ensures
        wheel_spec(*final(active)),
        same_event_state(*old(active), *final(active)),
{
    let mut choices: Vec<EventChoice> = Vec::new();
    choices.push(fixed_choice("转动命运", "随机触发好/坏各半的结果：金币、等级、强化、生命或失去强化。"));
    choices.push(leave_choice());
    let mut payloads: Vec<EventChoicePayload> = Vec::new();
    payloads.push(EventChoicePayload::WheelOfFate);
    payloads.push(EventChoicePayload::Leave);
    set_choices(active, choices, payloads);
}

fn configure_traveler(
    active: &mut ActiveEvent,
    augs: &Vec<AugmentEntry>,
    held: Option<&Vec<AugmentId>>,
    layout: &FloorLayout,
    current_room: RoomId,
)
    ensures
        traveler_spec(*final(active), augs@, held_ids(held), layout.rooms@, current_room.0),
        same_event_state(*old(active), *final(active)),
{
    let intel = traveler_intel_lines(layout, current_room);
    let first_held: Option<AugmentId> = match held {
        Some(h) => if h.len() > 0 { Some(h[0]) } else { None },
        None => None,
    };
    let mut choices: Vec<EventChoice> = Vec::new();
    choices.push(fixed_choice("休息", "恢复 20% 最大生命。"));
    choices.push(fixed_choice("交谈", "获得后续路线情报：显示前 3 个房间类型。"));
    let mut payloads: Vec<EventChoicePayload> = Vec::new();
    payloads.push(EventChoicePayload::TravelerRest);
    payloads.push(EventChoicePayload::TravelerIntel { lines: intel });
    match first_held {
        Some(id) => {
            let gold = trade_gold_for_augment(augs, id);
            let description = concat_str(
                concat_str(owned("用 1 个强化换取 "), decimal_string(gold).as_str()),
                " 金币。",
            );
            choices.push(EventChoice { label: owned("交易"), description });
            payloads.push(EventChoicePayload::TravelerTrade { sacrifice_id: id, gold });
        },
        None => {
            choices.push(fixed_choice("交易", "没有可交易的强化。"));
            payloads.push(EventChoicePayload::Unavailable { title: owned("旅者交易"), message: owned("当前没有可交易的强化。") });
        },
    }
    set_choices(active, choices, payloads);
}

fn configure_sacrifice(active: &mut ActiveEvent, augs: &Vec<AugmentEntry>, rng: &mut GameRng)
    ensures
        sacrifice_spec(*final(active), augs@),
        same_event_state(*old(active), *final(active)),
{
    let augment = match pick_random_augment(augs, rng, AugmentPool::LegendaryOnly) {
        Some(e) => e,
        None => {
            set_leave_only(active);
            return;
        },
    };
    let mut choices: Vec<EventChoice> = Vec::new();
    choices.push(fixed_choice("失去 20% 最大 HP", "永久失去 20% 最大生命，获得传说强化。"));
    choices.push(leave_choice());
    let mut payloads: Vec<EventChoicePayload> = Vec::new();
    payloads.push(EventChoicePayload::SacrificeAltar { augment_id: augment.id });
    payloads.push(EventChoicePayload::Leave);
    proof {
        assert(drawn_from(augs@, AugmentPool::LegendaryOnly, augment));
    }
    set_choices(active, choices, payloads);
}

/// Set up the choices of the current event when it is neither a puzzle nor a fight: what
/// each one shows and what picking it does. Augments are drawn from the game data (the
/// events that need one offer only leaving without it), the forge and the traveler look at
/// the held augments, and the traveler reads the route ahead from the floor layout. Puzzle
/// and combat events, and no event at all, leave the choices as they are.
pub fn configure_non_combat_event(
    active: &mut ActiveEvent,
    data: Option<&EventCatalog>,
    rng: &mut GameRng,
    held: Option<&Vec<AugmentId>>,
    layout: &FloorLayout,
    current_room: RoomId,
)
    ensures
        same_event_state(*old(active), *final(active)),
        match old(active).event_type {
            Some(e) => if is_puzzle_spec(e) || is_combat_spec(e) {
                final(active).choices@ == old(active).choices@
                    && final(active).choice_payloads@ == old(active).choice_payloads@
            } else {
                configured_spec(*final(active), e, data, held_ids(held), layout.rooms@, current_room.0)
            },
            None => final(active).choices@ == old(active).choices@
                && final(active).choice_payloads@ == old(active).choice_payloads@,
        },
{
    let event_type = match active.event_type {
        Some(e) => e,
        None => return,
    };
    let empty_augments: Vec<AugmentEntry> = Vec::new();
    let empty_texts: Vec<AugmentText> = Vec::new();
    let (augs, texts) = match data {
        Some(d) => (&d.augments, &d.texts),
        None => (&empty_augments, &empty_texts),
    };
    match event_type {
        EventType::Gambler => configure_gambler(active, augs, rng),
        EventType::BloodPact => configure_blood_pact(active, augs, texts, rng),
        EventType::Treasure => configure_treasure(active, augs, rng),
        EventType::HealingSpring => configure_healing_spring(active),
        EventType::Merchant => configure_merchant(active, augs, texts, rng),
        EventType::GoldAltar => configure_gold_altar(active, rng),
        EventType::MysticBlacksmith => configure_forge(active, data, rng, held),
        EventType::WheelOfFate => configure_wheel(active),
        EventType::TravelerGift => configure_traveler(active, augs, held, layout, current_room),
        EventType::SacrificeAltar => configure_sacrifice(active, augs, rng),
        _ => {},
    }
}


/// What the caller does after the player pressed the interaction key in an event room.
#[derive(Debug, Clone, Copy, PartialEq, Eq, Structural)]
pub enum EventInteraction {
    /// The key press did not reach the event: nothing changed.
    Ignored,
    /// The prompt is used up and nothing more happens.
    PromptCleared,
    /// The event lacks its game data and was resolved.
    Resolved,
    /// The event's menu opens again with the choices it already has.
    ReopenMenu,
    /// The puzzle was started in the locked room: spawn its pieces.
    SpawnPuzzle(PuzzleKind),
    /// Spawn `count` enemies of the floor in the locked room; `timed` when the room must be
    /// cleared against the clock.
    SpawnEnemies { count: u32, timed: bool },
    /// Spawn the hunt's elites in the locked room.
    SpawnHunt,
    /// The menu opens with fresh choices in the locked room.
    OpenMenu,
}

/// The enemies of a combat event on `floor`: at least four, and for the cursed vault two
/// more than a normal room and at least five.
pub open spec fn combat_event_enemy_count(e: EventType, balance: BalanceConfig, floor: u32) -> int {
    let base = floor_enemy_count_spec(balance, floor);
    if e == EventType::CursedVault {
        let more = if base + 2 <= u32::MAX { base + 2 } else { u32::MAX as int };
        if more >= 5 { more } else { 5 }
    } else if base >= 4 {
        base
    } else {
        4
    }
}

/// The interaction key was pressed in an event room. It reaches the event when no room
/// transition runs, the event waits for the player and is not resolved, the current room
/// is this event's event room, and the player stands by the prompt. Then the prompt is used
/// up and the event starts: a configured menu reopens as it was; otherwise the choices are
/// cleared, and a puzzle starts with its settings, a fight spawns its enemies (the timed
/// challenge starts its clock), or a menu is set up with fresh choices; the room locks. A
/// puzzle without settings, or a fight without balance data, resolves the event instead.
pub fn event_interaction(
    active: &mut ActiveEvent,
    interact_pressed: bool,
    transition_active: bool,
    room_type: Option<RoomType>,
    current_room: RoomId,
    player_near_prompt: bool,
    puzzle_config: Option<&PuzzleEventConfig>,
    balance: Option<&BalanceConfig>,
    floor: Option<u32>,
    data: Option<&EventCatalog>,
    held: Option<&Vec<AugmentId>>,
    layout: &FloorLayout,
    active_puzzle: &mut ActivePuzzle,
    room_state: &mut RoomState,
    rng: &mut GameRng,
) -> (r: EventInteraction)
    requires
        balance matches Some(b) ==> floor_enemy_count_spec(*b, match floor { Some(f) => f, None => 1 }) <= u32::MAX,
    ensures
        ({
            let reaches = interact_pressed && !transition_active && old(active).interaction_ready
                && !old(active).resolved && room_type == Some(RoomType::Event)
                && old(active).room == Some(current_room) && player_near_prompt;
            let fl = match floor { Some(f) => f, None => 1u32 };
            &&& !reaches ==> r == EventInteraction::Ignored && *final(active) == *old(active)
                && *final(room_state) == *old(room_state) && *final(active_puzzle) == *old(active_puzzle)
            &&& reaches ==> !final(active).interaction_ready
            &&& reaches ==> match old(active).event_type {
              None => r == EventInteraction::PromptCleared && *final(room_state) == *old(room_state),
              Some(e) => {
                let fresh = is_puzzle_spec(e) || is_combat_spec(e) || old(active).choice_payloads@.len() == 0;
                &&& !fresh ==> r == EventInteraction::ReopenMenu
                    && final(active).choices@ == old(active).choices@
                    && final(active).choice_payloads@ == old(active).choice_payloads@
                    && *final(room_state) == *old(room_state)
                &&& fresh && is_puzzle_spec(e) ==> match puzzle_config {
                    None => r == EventInteraction::Resolved && final(active).resolved
                        && *final(room_state) == *old(room_state),
                    Some(c) => r == EventInteraction::SpawnPuzzle(puzzle_kind_of(e))
                        && *final(room_state) == RoomState::Locked
                        && final(active_puzzle).room == Some(current_room)
                        && final(active_puzzle).kind == Some(puzzle_kind_of(e))
                        && final(active_puzzle).timed == c.timed
                        && final(active_puzzle).reward.gold == c.gold_reward
                        && final(active_puzzle).reward.xp == c.xp_reward
                        && final(active_puzzle).reward.augment_pool == c.augment_pool
                        && final(active_puzzle).progress_count == 0
                        && !final(active_puzzle).completed
                        && final(active).choices@.len() == 0 && final(active).choice_payloads@.len() == 0,
                }
                &&& fresh && is_combat_spec(e) ==> match balance {
                    None => r == EventInteraction::Resolved && final(active).resolved
                        && *final(room_state) == *old(room_state),
                    Some(b) => *final(room_state) == RoomState::Locked && final(active).combat_reward_ready
                        && final(active).choices@.len() == 0 && final(active).choice_payloads@.len() == 0
                        && final(active).challenge_timer_running == (e == EventType::TimedChallenge)
                        && (e == EventType::FlawlessTrial ==> !final(active).flawless_failed)
                        && if e == EventType::EliteEncounter {
                            r == EventInteraction::SpawnHunt
                        } else {
                            r == (EventInteraction::SpawnEnemies {
                                count: combat_event_enemy_count(e, *b, fl) as u32,
                                timed: e == EventType::TimedChallenge,
                            })
                        },
                }
                &&& fresh && !is_puzzle_spec(e) && !is_combat_spec(e) ==> r == EventInteraction::OpenMenu
                    && *final(room_state) == RoomState::Locked
                    && final(active).event_type == old(active).event_type
                    && !final(active).combat_reward_ready
                    && configured_spec(*final(active), e, data, held_ids(held), layout.rooms@, current_room.0)
              },
            }
        }),
{
    if !interact_pressed || transition_active {
        return EventInteraction::Ignored;
    }
    if !active.interaction_ready || active.resolved {
        return EventInteraction::Ignored;
    }
    let in_room = match room_type {
        Some(t) => t == RoomType::Event,
        None => false,
    };
    let same_room = match active.room {
        Some(r) => r.0 == current_room.0,
        None => false,
    };
    if !in_room || !same_room || !player_near_prompt {
        return EventInteraction::Ignored;
    }
    active.interaction_ready = false;
    let event_type = match active.event_type {
        Some(e) => e,
        None => return EventInteraction::PromptCleared,
    };
    if !event_type.is_combat() && !event_type.is_puzzle() && active.choice_payloads.len() > 0 {
        return EventInteraction::ReopenMenu;
    }
    active.choices.clear();
    active.choice_payloads.clear();
    active.combat_reward_ready = event_type.is_combat();
    active.challenge_timer_running = false;
    match event_type.puzzle_kind() {
        Some(kind) => {
            let config = match puzzle_config {
                Some(c) => c,
                None => {
                    active.mark_resolved();
                    return EventInteraction::Resolved;
                },
            };
            *room_state = RoomState::Locked;
            active_puzzle.start(current_room, kind, config);
            return EventInteraction::SpawnPuzzle(kind);
        },
        None => {},
    }
    if event_type.is_combat() {
        let b = match balance {
            Some(b) => b,
            None => {
                active.mark_resolved();
                return EventInteraction::Resolved;
            },
        };
        *room_state = RoomState::Locked;
        active.combat_reward_ready = true;
        let fl: u32 = match floor {
            Some(f) => f,
            None => 1,
        };
        let base = get_floor_enemy_count(b, fl);
        match event_type {
            EventType::TimedChallenge => {
                active.challenge_timer_running = true;
                let count = if base >= 4 { base } else { 4 };
                EventInteraction::SpawnEnemies { count, timed: true }
            },
            EventType::FlawlessTrial => {
                active.flawless_failed = false;
                let count = if base >= 4 { base } else { 4 };
                EventInteraction::SpawnEnemies { count, timed: false }
            },
            EventType::CursedVault => {
                let more = base.saturating_add(2);
                let count = if more >= 5 { more } else { 5 };
                EventInteraction::SpawnEnemies { count, timed: false }
            },
            _ => EventInteraction::SpawnHunt,
        }
    } else {
        configure_non_combat_event(active, data, rng, held, layout, current_room);
        *room_state = RoomState::Locked;
        EventInteraction::OpenMenu
    }
}


/// What the event menu does with this frame's input.
#[derive(Debug, Clone, Copy, PartialEq, Eq, Structural)]
pub enum EventMenuStep {
    /// Back to play: the event is over or gone.
    Close,
    /// Back to play; the event waits for the player to interact again.
    Postpone,
    /// No choice was picked.
    Wait,
    /// Apply the choice with this index.
    Apply(usize),
}

/// The event menu's input: with no event room or a resolved event the menu closes; Escape
/// postpones the event; a picked choice that exists is applied; anything else waits.
pub fn event_menu_step(active: &mut ActiveEvent, escape_pressed: bool, selected: Option<usize>) -> (r: EventMenuStep)
    ensures
        old(active).room.is_none() || old(active).resolved ==> r is Close && *final(active) == *old(active),
        old(active).room.is_some() && !old(active).resolved && escape_pressed ==> r is Postpone
            && final(active).interaction_ready
            && final(active).choices@ == old(active).choices@
            && final(active).choice_payloads@ == old(active).choice_payloads@
            && same_event_state_but_ready(*old(active), *final(active)),
        old(active).room.is_some() && !old(active).resolved && !escape_pressed ==> *final(active) == *old(active)
            && match selected {
                Some(i) => if i < old(active).choice_payloads@.len() {
                    r == EventMenuStep::Apply(i)
                } else {
                    r is Wait
                },
                None => r is Wait,
            },
{
    if active.room.is_none() || active.resolved {
        return EventMenuStep::Close;
    }
    if escape_pressed {
        active.interaction_ready = true;
        return EventMenuStep::Postpone;
    }
    match selected {
        Some(i) => if i < active.choice_payloads.len() {
            EventMenuStep::Apply(i)
        } else {
            EventMenuStep::Wait
        },
        None => EventMenuStep::Wait,
    }
}

/// Everything but the readiness for interaction is as before.
pub open spec fn same_event_state_but_ready(a: ActiveEvent, b: ActiveEvent) -> bool {
    &&& a.event_type == b.event_type
    &&& a.resolved == b.resolved
    &&& a.room == b.room
    &&& a.combat_reward_ready == b.combat_reward_ready
    &&& a.flawless_failed == b.flawless_failed
    &&& a.challenge_timer_running == b.challenge_timer_running
}

/// After a choice was applied: when the event stays open nothing changes; otherwise the
/// room is cleared and the event resolved, and a completed event (not one that was left)
/// reports its room as cleared.
pub fn finish_event_choice(active: &mut ActiveEvent, room_state: &mut RoomState, outcome: EventInputOutcome) -> (cleared: Option<RoomId>)
    ensures
        outcome == EventInputOutcome::StayOpen ==> cleared.is_none() && *final(active) == *old(active)
            && *final(room_state) == *old(room_state),
        outcome != EventInputOutcome::StayOpen ==> *final(room_state) == RoomState::Cleared
            && final(active).resolved && final(active).room == old(active).room
            && final(active).event_type.is_none() && final(active).choices@.len() == 0
            && final(active).choice_payloads@.len() == 0,
        outcome == EventInputOutcome::Leave ==> cleared.is_none(),
        outcome == EventInputOutcome::Complete ==> cleared == old(active).room,
{
    match outcome {
        EventInputOutcome::StayOpen => None,
        EventInputOutcome::Leave => {
            *room_state = RoomState::Cleared;
            active.mark_resolved();
            None
        },
        EventInputOutcome::Complete => {
            let room = active.room;
            *room_state = RoomState::Cleared;
            active.mark_resolved();
            room
        },
    }
}

/// The reward of a finished combat event: the pools its augments are drawn from, its gold
/// and its title.
pub open spec fn combat_reward_spec(event_type: EventType, reward_ready: bool, flawless_failed: bool) -> (Seq<AugmentPool>, u32, Seq<char>) {
    match event_type {
        EventType::TimedChallenge => if reward_ready {
            (seq![AugmentPool::EliteOnly], 0, "限时清剿达成"@)
        } else {
            (seq![AugmentPool::CommonOnly], 0, "限时清剿超时"@)
        },
        EventType::EliteEncounter => (seq![AugmentPool::EliteOnly], 40, "猎杀挑战完成"@),
        EventType::FlawlessTrial => if !flawless_failed {
            (seq![AugmentPool::LegendaryOnly], 0, "无伤试炼达成"@)
        } else {
            (seq![AugmentPool::CommonOnly], 0, "无伤试炼受伤"@)
        },
        _ => (seq![AugmentPool::EliteOnly, AugmentPool::EliteOnly], 90, "诅咒宝库清空"@),
    }
}

/// The reward of a won combat event: the pools its augments are drawn from, its gold and
/// its title. Other events give none.
pub fn combat_event_reward(event_type: EventType, reward_ready: bool, flawless_failed: bool) -> (r: Option<(Vec<AugmentPool>, u32, &'static str)>)
    ensures
        match r {
            None => !is_combat_spec(event_type),
            Some((pools, gold, title)) => is_combat_spec(event_type)
                && (pools@, gold, title@) == combat_reward_spec(event_type, reward_ready, flawless_failed),
        },
{
    let mut pools: Vec<AugmentPool> = Vec::new();
    match event_type {
        EventType::TimedChallenge => {
            if reward_ready {
                pools.push(AugmentPool::EliteOnly);
                Some((pools, 0, "限时清剿达成"))
            } else {
                pools.push(AugmentPool::CommonOnly);
                Some((pools, 0, "限时清剿超时"))
            }
        },
        EventType::EliteEncounter => {
            pools.push(AugmentPool::EliteOnly);
            Some((pools, 40, "猎杀挑战完成"))
        },
        EventType::FlawlessTrial => {
            if !flawless_failed {
                pools.push(AugmentPool::LegendaryOnly);
                Some((pools, 0, "无伤试炼达成"))
            } else {
                pools.push(AugmentPool::CommonOnly);
                Some((pools, 0, "无伤试炼受伤"))
            }
        },
        EventType::CursedVault => {
            pools.push(AugmentPool::EliteOnly);
            pools.push(AugmentPool::EliteOnly);
            Some((pools, 90, "诅咒宝库清空"))
        },
        _ => None,
    }
}

/// The timed challenge's clock ran out: its reward is no longer earned and the clock stops.
/// Other events, and a resolved challenge, are left alone.
pub fn timed_challenge_expired(active: &mut ActiveEvent)
    ensures
        old(active).event_type == Some(EventType::TimedChallenge) && !old(active).resolved ==> {
            &&& !final(active).combat_reward_ready
            &&& !final(active).challenge_timer_running
            &&& final(active).event_type == old(active).event_type
            &&& final(active).resolved == old(active).resolved
            &&& final(active).room == old(active).room
        },
        !(old(active).event_type == Some(EventType::TimedChallenge) && !old(active).resolved) ==> *final(active) == *old(active),
{
    let is_challenge = match active.event_type {
        Some(EventType::TimedChallenge) => true,
        _ => false,
    };
    if !is_challenge || active.resolved {
        return;
    }
    active.combat_reward_ready = false;
    active.challenge_timer_running = false;
}

/// The player took damage from an enemy: a running flawless trial is failed and its reward
/// lost. Other events, and a resolved trial, are left alone.
pub fn flawless_trial_hit(active: &mut ActiveEvent)
    ensures
        old(active).event_type == Some(EventType::FlawlessTrial) && !old(active).resolved ==> {
            &&& final(active).flawless_failed
            &&& !final(active).combat_reward_ready
            &&& final(active).event_type == old(active).event_type
            &&& final(active).resolved == old(active).resolved
            &&& final(active).room == old(active).room
        },
        !(old(active).event_type == Some(EventType::FlawlessTrial) && !old(active).resolved) ==> *final(active) == *old(active),
{
    let is_trial = match active.event_type {
        Some(EventType::FlawlessTrial) => true,
        _ => false,
    };
    if !is_trial || active.resolved {
        return;
    }
    active.flawless_failed = true;
    active.combat_reward_ready = false;
}

} // verus!
