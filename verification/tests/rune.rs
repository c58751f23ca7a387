use block_city_adventure::rune::{RuneId, RuneLoadout, RuneSlot};

#[test]
fn equipping_a_rune_replaces_only_its_slot() {
    let mut loadout = RuneLoadout::default();
    assert_eq!(loadout.equip(RuneSlot::Melee, RuneId::ImpactWave), None);
    assert_eq!(loadout.equip(RuneSlot::Dash, RuneId::BlinkDash), None);
    assert_eq!(loadout.equip(RuneSlot::Melee, RuneId::VampireBlade), Some(RuneId::ImpactWave));
    assert_eq!(loadout.get(RuneSlot::Melee), Some(RuneId::VampireBlade));
    assert_eq!(loadout.get(RuneSlot::Dash), Some(RuneId::BlinkDash));
    assert_eq!(loadout.get(RuneSlot::Ranged), None);
    assert_eq!(loadout.get(RuneSlot::Finisher), None);
}
