use vstd::prelude::*;

verus! {

/// The attack a rune is socketed into.
#[derive(Debug, Clone, Copy, PartialEq, Eq, Hash, Structural)]
pub enum RuneSlot {
    Melee,
    Ranged,
    Dash,
    Finisher,
}

impl RuneSlot {
    /// All rune slots.
    pub fn all() -> (v: [RuneSlot; 4])
        ensures
            v@ == seq![RuneSlot::Melee, RuneSlot::Ranged, RuneSlot::Dash, RuneSlot::Finisher],
    {
        [RuneSlot::Melee, RuneSlot::Ranged, RuneSlot::Dash, RuneSlot::Finisher]
    }
}

/// How rare a rune is.
#[derive(Debug, Clone, Copy, PartialEq, Eq, Hash, Structural)]
pub enum RuneTier {
    Common,
    Elite,
    Legendary,
}

/// A rune.
#[derive(Debug, Clone, Copy, PartialEq, Eq, Hash, Structural)]
pub enum RuneId {
    ImpactWave,
    SlowOnHit,
    ThirdStrikeExpand,
    WhirlSlash,
    ChainLightning,
    ExplosiveFist,
    VampireBlade,
    FrostTouch,
    PierceOne,
    MarkOnHit,
    RapidFireWeak,
    Scatter,
    HomingBullet,
    VenomShot,
    BarrageMode,
    DashEndShockwave,
    DashFirstCrit,
    Afterimage,
    ShadowClone,
    PhaseDash,
    BlinkDash,
    GroundSplitter,
    BoomerangBlade,
    DeathChain,
    WeaknessExpose,
    StormField,
    InstantThunder,
    PhoenixSoul,
    Berserker,
    ThornBody,
    EnergyShield,
}

/// The runes socketed in each slot.
#[derive(Debug, Clone, Copy, Default, PartialEq, Eq, Structural)]
pub struct RuneLoadout {
    pub melee: Option<RuneId>,
    pub ranged: Option<RuneId>,
    pub dash: Option<RuneId>,
    pub finisher: Option<RuneId>,
}

/// The rune of `slot` in `l`.
pub open spec fn rune_in(l: RuneLoadout, slot: RuneSlot) -> Option<RuneId> {
    match slot {
        RuneSlot::Melee => l.melee,
        RuneSlot::Ranged => l.ranged,
        RuneSlot::Dash => l.dash,
        RuneSlot::Finisher => l.finisher,
    }
}

impl RuneLoadout {
    /// The rune socketed in `slot`.
    pub fn get(&self, slot: RuneSlot) -> (r: Option<RuneId>)
        ensures
            r == rune_in(*self, slot),
    {
        match slot {
            RuneSlot::Melee => self.melee,
            RuneSlot::Ranged => self.ranged,
            RuneSlot::Dash => self.dash,
            RuneSlot::Finisher => self.finisher,
        }
    }

    /// Socket `rune` in `slot` and return the rune it replaced; the other slots keep theirs.
    pub fn equip(&mut self, slot: RuneSlot, rune: RuneId) -> (old_rune: Option<RuneId>)
        ensures
            old_rune == rune_in(*old(self), slot),
            rune_in(*final(self), slot) == Some(rune),
            forall|other: RuneSlot| other != slot ==> rune_in(*final(self), other) == rune_in(*old(self), other),
    {
        match slot {
            RuneSlot::Melee => {
                let o = self.melee;
                self.melee = Some(rune);
                o
            },
            RuneSlot::Ranged => {
                let o = self.ranged;
                self.ranged = Some(rune);
                o
            },
            RuneSlot::Dash => {
                let o = self.dash;
                self.dash = Some(rune);
                o
            },
            RuneSlot::Finisher => {
                let o = self.finisher;
                self.finisher = Some(rune);
                o
            },
        }
    }
}

} // verus!
