use vstd::prelude::*;

verus! {

/// One of the four finisher skill slots, bound to keys 1 to 4.
#[derive(Debug, Clone, Copy, PartialEq, Eq, Hash, Structural)]
pub enum SkillSlot {
    One,
    Two,
    Three,
    Four,
}

/// A finisher skill.
#[derive(Debug, Clone, Copy, PartialEq, Eq, Hash, Structural)]
pub enum SkillType {
    GroundSlam,
    BladeDance,
    FrostField,
    WarCry,
    BulletBarrage,
    MeteorFall,
    ExecutionBlade,
    LifeDrain,
    TimeRift,
}

pub open spec fn slot_index_spec(slot: SkillSlot) -> int {
    match slot {
        SkillSlot::One => 0,
        SkillSlot::Two => 1,
        SkillSlot::Three => 2,
        SkillSlot::Four => 3,
    }
}

pub open spec fn slot_at(i: int) -> SkillSlot {
    if i == 0 {
        SkillSlot::One
    } else if i == 1 {
        SkillSlot::Two
    } else if i == 2 {
        SkillSlot::Three
    } else {
        SkillSlot::Four
    }
}

impl SkillSlot {
    /// All slots in key order.
    pub fn all() -> (v: [SkillSlot; 4])
        ensures
            v@ == seq![SkillSlot::One, SkillSlot::Two, SkillSlot::Three, SkillSlot::Four],
    {
        [SkillSlot::One, SkillSlot::Two, SkillSlot::Three, SkillSlot::Four]
    }

    /// Position of the slot, from 0 for key 1 to 3 for key 4.
    pub fn index(self) -> (i: usize)
        ensures
            i == slot_index_spec(self),
            i < 4,
    {
        match self {
            SkillSlot::One => 0,
            SkillSlot::Two => 1,
            SkillSlot::Three => 2,
            SkillSlot::Four => 3,
        }
    }

    /// The key that fires the slot.
    pub fn key_label(self) -> (s: &'static str)
        ensures
            s@.len() == 1,
            s@[0] == match self {
                SkillSlot::One => '1',
                SkillSlot::Two => '2',
                SkillSlot::Three => '3',
                SkillSlot::Four => '4',
            },
    {
        proof {
            reveal_strlit("1");
            reveal_strlit("2");
            reveal_strlit("3");
            reveal_strlit("4");
        }
        match self {
            SkillSlot::One => "1",
            SkillSlot::Two => "2",
            SkillSlot::Three => "3",
            SkillSlot::Four => "4",
        }
    }
}

/// The state of one slot: its skill, if any, and whether it is unlocked.
#[derive(Debug, Clone, Copy, PartialEq, Eq, Structural)]
pub struct SkillSlotState {
    pub skill: Option<SkillType>,
    pub unlocked: bool,
}

/// The player's four finisher slots.
#[derive(Debug, Clone, Copy)]
pub struct SkillSlots {
    pub slots: [SkillSlotState; 4],
}

impl Default for SkillSlots {
    /// Ground slam in the first, unlocked slot; the other three slots empty and locked.
    fn default() -> (s: Self)
        ensures
            s.slots@ == seq![
                SkillSlotState { skill: Some(SkillType::GroundSlam), unlocked: true },
                SkillSlotState { skill: None, unlocked: false },
                SkillSlotState { skill: None, unlocked: false },
                SkillSlotState { skill: None, unlocked: false },
            ],
    {
        let s = SkillSlots {
            slots: [
                SkillSlotState { skill: Some(SkillType::GroundSlam), unlocked: true },
                SkillSlotState { skill: None, unlocked: false },
                SkillSlotState { skill: None, unlocked: false },
                SkillSlotState { skill: None, unlocked: false },
            ],
        };
        proof {
            assert(s.slots@ =~= seq![
                SkillSlotState { skill: Some(SkillType::GroundSlam), unlocked: true },
                SkillSlotState { skill: None, unlocked: false },
                SkillSlotState { skill: None, unlocked: false },
                SkillSlotState { skill: None, unlocked: false },
            ]);
        }
        s
    }
}

/// Index of the first slot without a skill.
pub open spec fn first_empty(slots: Seq<SkillSlotState>, k: int) -> bool {
    &&& 0 <= k < slots.len()
    &&& slots[k].skill.is_none()
    &&& forall|j: int| 0 <= j < k ==> (#[trigger] slots[j]).skill.is_some()
}

impl SkillSlots {
    /// The state of `slot`.
    pub fn state(self, slot: SkillSlot) -> (st: SkillSlotState)
        ensures
            st == self.slots@[slot_index_spec(slot)],
    {
        self.slots[slot.index()]
    }

    /// Unlock `slot`; the result tells whether it was locked before.
    pub fn unlock(&mut self, slot: SkillSlot) -> (was_locked: bool)
        ensures
            was_locked == !old(self).slots@[slot_index_spec(slot)].unlocked,
            final(self).slots@ == old(self).slots@.update(
                slot_index_spec(slot),
                SkillSlotState { skill: old(self).slots@[slot_index_spec(slot)].skill, unlocked: true },
            ),
    {
        let i = slot.index();
        let st = self.slots[i];
        let was_locked = !st.unlocked;
        self.slots[i] = SkillSlotState { skill: st.skill, unlocked: true };
        was_locked
    }

    /// Put `skill` into the first slot without a skill, unlocking that slot; no slot
    /// changes when all four hold a skill.
    pub fn equip_empty_slot(&mut self, skill: SkillType) -> (r: Option<SkillSlot>)
        ensures
            match r {
                Some(slot) => first_empty(old(self).slots@, slot_index_spec(slot))
                    && final(self).slots@ == old(self).slots@.update(
                        slot_index_spec(slot),
                        SkillSlotState { skill: Some(skill), unlocked: true },
                    ),
                None => (forall|j: int| 0 <= j < 4 ==> (#[trigger] old(self).slots@[j]).skill.is_some())
                    && final(self).slots@ == old(self).slots@,
            },
    {
        let order = SkillSlot::all();
        let mut k: usize = 0;
        while k < 4
            invariant
                k <= 4,
                order@ == seq![SkillSlot::One, SkillSlot::Two, SkillSlot::Three, SkillSlot::Four],
                self.slots@ == old(self).slots@,
                forall|j: int| 0 <= j < k ==> (#[trigger] self.slots@[j]).skill.is_some(),
            decreases 4 - k,
        {
            let slot = order[k];
            let i = slot.index();
            if self.slots[i].skill.is_none() {
                self.slots[i] = SkillSlotState { skill: Some(skill), unlocked: true };
                return Some(slot);
            }
            k = k + 1;
        }
        None
    }

    /// Put `skill` into `slot`, replacing what it held; a locked slot is left as it is
    /// and the result is `false`.
    pub fn replace_slot(&mut self, slot: SkillSlot, skill: SkillType) -> (ok: bool)
        ensures
            ok == old(self).slots@[slot_index_spec(slot)].unlocked,
            final(self).slots@ == if ok {
                old(self).slots@.update(slot_index_spec(slot), SkillSlotState { skill: Some(skill), unlocked: true })
            } else {
                old(self).slots@
            },
    {
        let i = slot.index();
        if !self.slots[i].unlocked {
            return false;
        }
        self.slots[i] = SkillSlotState { skill: Some(skill), unlocked: true };
        true
    }

    /// Unlock the slots a floor grants (slot 2 from floor 2, slot 3 from floor 3, slot 4
    /// from floor 4) and return the slots that were locked before, in key order.
    pub fn unlock_for_floor(&mut self, floor: u32) -> (newly: Vec<SkillSlot>)
        ensures
            forall|j: int| 0 <= j < 4 ==> (#[trigger] final(self).slots@[j]).skill == old(self).slots@[j].skill,
            forall|j: int| 0 <= j < 4 ==> (#[trigger] final(self).slots@[j]).unlocked
                == (old(self).slots@[j].unlocked || (1 <= j && j + 1 <= floor)),
            forall|i: int| 0 <= i < newly@.len() ==> {
                let j = slot_index_spec(#[trigger] newly@[i]);
                1 <= j && j + 1 <= floor && !old(self).slots@[j].unlocked
            },
            forall|j: int| 1 <= j < 4 && j + 1 <= floor && !old(self).slots@[j].unlocked ==>
                newly@.contains(#[trigger] slot_at(j)),
    {
        let mut newly: Vec<SkillSlot> = Vec::new();
        let ghost o = self.slots@;
        if floor >= 2 && self.unlock(SkillSlot::Two) {
            newly.push(SkillSlot::Two);
        }
        assert(floor >= 2 && !o[1].unlocked ==> newly@.contains(SkillSlot::Two)) by {
            if floor >= 2 && !o[1].unlocked {
                assert(newly@[0] == SkillSlot::Two);
            }
        }
        let ghost n1 = newly@;
        if floor >= 3 && self.unlock(SkillSlot::Three) {
            newly.push(SkillSlot::Three);
        }
        assert(floor >= 3 && !o[2].unlocked ==> newly@.contains(SkillSlot::Three)) by {
            if floor >= 3 && !o[2].unlocked {
                assert(newly@[newly@.len() - 1] == SkillSlot::Three);
            }
        }
        assert(n1.contains(SkillSlot::Two) ==> newly@.contains(SkillSlot::Two)) by {
            if n1.contains(SkillSlot::Two) {
                let w = choose|w: int| 0 <= w < n1.len() && n1[w] == SkillSlot::Two;
                assert(newly@[w] == SkillSlot::Two);
            }
        }
        let ghost n2 = newly@;
        if floor >= 4 && self.unlock(SkillSlot::Four) {
            newly.push(SkillSlot::Four);
        }
        assert(floor >= 4 && !o[3].unlocked ==> newly@.contains(SkillSlot::Four)) by {
            if floor >= 4 && !o[3].unlocked {
                assert(newly@[newly@.len() - 1] == SkillSlot::Four);
            }
        }
        assert forall|t: SkillSlot| n2.contains(t) implies newly@.contains(t) by {
            let w = choose|w: int| 0 <= w < n2.len() && n2[w] == t;
            assert(newly@[w] == t);
        }
        proof {
            assert forall|j: int| 1 <= j < 4 && j + 1 <= floor && !o[j].unlocked implies newly@.contains(#[trigger] slot_at(j)) by {
                if j == 1 {
                    assert(n2.contains(SkillSlot::Two));
                } else if j == 2 {
                    assert(n2.contains(SkillSlot::Three));
                }
            }
        }
        newly
    }
}

/// `slot` is the lowest pressed key, nothing blocks skills, and the slot is unlocked and
/// holds `skill`.
pub open spec fn skill_request_ok(
    slots: Seq<SkillSlotState>,
    pressed: Seq<bool>,
    attacks_blocked: bool,
    dashing: bool,
    slot: SkillSlot,
    skill: SkillType,
) -> bool {
    &&& !attacks_blocked && !dashing
    &&& pressed[slot_index_spec(slot)]
    &&& forall|j: int| 0 <= j < slot_index_spec(slot) ==> !#[trigger] pressed[j]
    &&& slots[slot_index_spec(slot)].unlocked
    &&& slots[slot_index_spec(slot)].skill == Some(skill)
}

/// Which finisher a press of skill keys requests: the lowest pressed key, if its slot is
/// unlocked and holds a skill. Nothing fires while attacks are blocked or during a dash.
pub fn requested_skill(
    slots: &SkillSlots,
    pressed: [bool; 4],
    attacks_blocked: bool,
    dashing: bool,
) -> (r: Option<(SkillSlot, SkillType)>)
    ensures
        match r {
            Some((slot, skill)) => skill_request_ok(slots.slots@, pressed@, attacks_blocked, dashing, slot, skill),
            None => attacks_blocked || dashing || (forall|j: int| 0 <= j < 4 ==> !#[trigger] pressed@[j])
                || exists|k: int| 0 <= k < 4 && pressed@[k]
                    && (forall|j: int| 0 <= j < k ==> !#[trigger] pressed@[j])
                    && (!slots.slots@[k].unlocked || slots.slots@[k].skill.is_none()),
        },
{
    if attacks_blocked || dashing {
        return None;
    }
    let order = SkillSlot::all();
    let mut k: usize = 0;
    while k < 4
        invariant
            k <= 4,
            order@ == seq![SkillSlot::One, SkillSlot::Two, SkillSlot::Three, SkillSlot::Four],
            forall|j: int| 0 <= j < k ==> !#[trigger] pressed@[j],
            !attacks_blocked && !dashing,
        decreases 4 - k,
    {
        if pressed[k] {
            let slot = order[k];
            proof {
                if k == 0 {
                    assert(slot == SkillSlot::One);
                } else if k == 1 {
                    assert(slot == SkillSlot::Two);
                } else if k == 2 {
                    assert(slot == SkillSlot::Three);
                } else {
                    assert(slot == SkillSlot::Four);
                }
                assert(slot_index_spec(slot) == k);
            }
            let st = slots.slots[k];
            if !st.unlocked {
                return None;
            }
            match st.skill {
                Some(skill) => {
                    assert(slots.slots@[k as int] == st);
                    assert(pressed@[k as int]);
                    assert(slot_index_spec(slot) == k as int);
                    assert(st.skill == Some(skill));
                    assert(slots.slots@[slot_index_spec(slot)].unlocked);
                    assert(slots.slots@[slot_index_spec(slot)].skill == Some(skill));
                    assert(pressed@[slot_index_spec(slot)]);
                    assert(skill_request_ok(slots.slots@, pressed@, attacks_blocked, dashing, slot, skill));
                    return Some((slot, skill));
                },
                None => {
                    return None;
                },
            }
        }
        k = k + 1;
    }
    None
}

} // verus!
