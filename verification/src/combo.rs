use vstd::prelude::*;

verus! {

/// A damage event as the combo counter sees it.
#[derive(Debug, Clone, Copy, PartialEq, Eq, Structural)]
pub enum ComboHit {
    /// The player's side dealt damage.
    Dealt,
    /// An enemy hit this player.
    Taken,
    /// Anything else.
    Other,
}

/// One event's effect on the combo: a hit dealt raises the count (saturating) and earns a
/// charge when it reaches a new multiple of ten; a hit taken breaks the combo.
pub open spec fn combo_step(count: u32, hit: ComboHit) -> (u32, bool) {
    match hit {
        ComboHit::Dealt => {
            let next: u32 = if count < u32::MAX { (count + 1) as u32 } else { count };
            (next, count / 10 != next / 10 && next >= 10)
        },
        ComboHit::Taken => (0, false),
        ComboHit::Other => (count, false),
    }
}

/// The count after `hits`, and how many charges they earned.
pub open spec fn combo_after(count: u32, hits: Seq<ComboHit>) -> (u32, nat)
    decreases hits.len(),
{
    if hits.len() == 0 {
        (count, 0)
    } else {
        let (c, n) = combo_after(count, hits.drop_last());
        let (c2, charged) = combo_step(c, hits.last());
        (c2, if charged { n + 1 } else { n })
    }
}

/// What a frame did to the combo.
#[derive(Debug, Clone, Copy, PartialEq, Eq, Structural)]
pub struct ComboUpdate {
    /// Charges earned, one per new multiple of ten.
    pub charges: u64,
    /// Whether the combo window restarts (on any hit dealt or taken).
    pub restart_window: bool,
}

/// A frame of the combo counter: when the combo window ran out the count drops to zero,
/// then this frame's damage events are applied in order.
pub fn update_combo(count: &mut u32, window_finished: bool, hits: &Vec<ComboHit>) -> (u: ComboUpdate)
    ensures
        ({
            let start: u32 = if window_finished { 0 } else { *old(count) };
            let (c, n) = combo_after(start, hits@);
            &&& *final(count) == c
            &&& u.charges == n
            &&& u.restart_window == (exists|i: int| 0 <= i < hits@.len() && #[trigger] hits@[i] != ComboHit::Other)
        }),
{
    if window_finished {
        *count = 0;
    }
    let ghost start: u32 = *count;
    let mut charges: u64 = 0;
    let n = hits.len();
    let mut restart = false;
    let mut i: usize = 0;
    proof {
        assert(hits@.take(0) =~= Seq::<ComboHit>::empty());
    }
    while i < n
        invariant
            i <= hits@.len(),
            n == hits@.len(),
            charges <= i,
            (*count, charges as nat) == combo_after(start, hits@.take(i as int)),
            restart == (exists|j: int| 0 <= j < i && #[trigger] hits@[j] != ComboHit::Other),
        decreases hits@.len() - i,
    {
        let hit = hits[i];
        proof {
            assert(hits@.take(i + 1).drop_last() =~= hits@.take(i as int));
            assert(hits@.take(i + 1).last() == hit);
        }
        match hit {
            ComboHit::Dealt => {
                let previous = *count;
                *count = count.saturating_add(1);
                restart = true;
                if previous / 10 != *count / 10 && *count >= 10 {
                    charges = charges + 1;
                }
            },
            ComboHit::Taken => {
                *count = 0;
                restart = true;
            },
            ComboHit::Other => {},
        }
        proof {
            if hit != ComboHit::Other {
                assert(hits@[i as int] != ComboHit::Other);
            }
        }
        i = i + 1;
    }
    proof {
        assert(hits@.take(hits@.len() as int) =~= hits@);
    }
    ComboUpdate { charges, restart_window: restart }
}

/// In an unbroken run of hits dealt, the count rises by one per hit and a charge is earned
/// at every multiple of ten that the count passes.
pub proof fn lemma_charge_every_tenth_hit(count: u32, hits: Seq<ComboHit>)
    requires
        count + hits.len() <= u32::MAX,
        forall|i: int| 0 <= i < hits.len() ==> #[trigger] hits[i] == ComboHit::Dealt,
    ensures
        combo_after(count, hits).0 == count + hits.len(),
        combo_after(count, hits).1 == (count + hits.len()) / 10 - count / 10,
    decreases hits.len(),
{
    if hits.len() > 0 {
        let rest = hits.drop_last();
        assert forall|i: int| 0 <= i < rest.len() implies #[trigger] rest[i] == ComboHit::Dealt by {
            assert(rest[i] == hits[i]);
        }
        lemma_charge_every_tenth_hit(count, rest);
        assert(hits.last() == hits[hits.len() - 1]);
        let c = count + rest.len();
        assert(c < u32::MAX);
        assert((c + 1) / 10 - c / 10 == if c / 10 != (c + 1) / 10 { 1int } else { 0int });
        assert(c / 10 != (c + 1) / 10 ==> c + 1 >= 10);
    }
}

/// A hit taken always breaks the combo, whatever came before.
pub proof fn lemma_hit_taken_breaks_combo(count: u32, hits: Seq<ComboHit>)
    requires
        hits.len() > 0,
        hits.last() == ComboHit::Taken,
    ensures
        combo_after(count, hits).0 == 0,
{
}

} // verus!
