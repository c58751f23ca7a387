use block_city_adventure::skills::{requested_skill, SkillSlot, SkillSlots, SkillType};

#[test]
fn skill_slots_default_to_first_slot_only() {
    let slots = SkillSlots::default();

    assert!(slots.state(SkillSlot::One).unlocked);
    assert_eq!(slots.state(SkillSlot::One).skill, Some(SkillType::GroundSlam));
    assert!(!slots.state(SkillSlot::Two).unlocked);
    assert!(!slots.state(SkillSlot::Three).unlocked);
    assert!(!slots.state(SkillSlot::Four).unlocked);
}

#[test]
fn equip_empty_slot_unlocks_empty_slot_without_replacing_existing_skill() {
    let mut slots = SkillSlots::default();

    let equipped = slots.equip_empty_slot(SkillType::FrostField);

    assert_eq!(equipped, Some(SkillSlot::Two));
    assert_eq!(slots.state(SkillSlot::One).skill, Some(SkillType::GroundSlam));
    assert_eq!(slots.state(SkillSlot::Two).skill, Some(SkillType::FrostField));
    assert!(slots.state(SkillSlot::Two).unlocked);
}

#[test]
fn full_slots_require_explicit_replacement() {
    let mut slots = SkillSlots::default();
    assert_eq!(slots.equip_empty_slot(SkillType::WarCry), Some(SkillSlot::Two));
    assert_eq!(slots.equip_empty_slot(SkillType::BulletBarrage), Some(SkillSlot::Three));
    assert_eq!(slots.equip_empty_slot(SkillType::MeteorFall), Some(SkillSlot::Four));

    let equipped = slots.equip_empty_slot(SkillType::FrostField);

    assert_eq!(equipped, None);
    assert_eq!(slots.state(SkillSlot::One).skill, Some(SkillType::GroundSlam));
    assert_eq!(slots.state(SkillSlot::Two).skill, Some(SkillType::WarCry));

    assert!(slots.replace_slot(SkillSlot::Two, SkillType::FrostField));
    assert_eq!(slots.state(SkillSlot::Two).skill, Some(SkillType::FrostField));
}

#[test]
fn locked_slots_cannot_be_replaced() {
    let mut slots = SkillSlots::default();
    assert!(!slots.replace_slot(SkillSlot::Three, SkillType::LifeDrain));
    assert_eq!(slots.state(SkillSlot::Three).skill, None);
}

#[test]
fn floors_unlock_the_later_slots_once() {
    let mut slots = SkillSlots::default();
    assert_eq!(slots.unlock_for_floor(1), Vec::<SkillSlot>::new());
    assert_eq!(slots.unlock_for_floor(3), vec![SkillSlot::Two, SkillSlot::Three]);
    assert_eq!(slots.unlock_for_floor(4), vec![SkillSlot::Four]);
    assert_eq!(slots.unlock_for_floor(4), Vec::<SkillSlot>::new());
    assert!(slots.state(SkillSlot::Four).unlocked);
}

#[test]
fn slot_keys_and_indices() {
    assert_eq!(SkillSlot::One.index(), 0);
    assert_eq!(SkillSlot::Four.index(), 3);
    assert_eq!(SkillSlot::all(), [SkillSlot::One, SkillSlot::Two, SkillSlot::Three, SkillSlot::Four]);
}

#[test]
fn the_lowest_pressed_key_with_a_skill_fires() {
    let mut slots = SkillSlots::default();
    slots.equip_empty_slot(SkillType::FrostField);
    assert_eq!(requested_skill(&slots, [false, true, true, false], false, false), Some((SkillSlot::Two, SkillType::FrostField)));
    assert_eq!(requested_skill(&slots, [true, true, false, false], false, false), Some((SkillSlot::One, SkillType::GroundSlam)));
    assert_eq!(requested_skill(&slots, [false, false, true, false], false, false), None);
    assert_eq!(requested_skill(&slots, [true, false, false, false], true, false), None);
    assert_eq!(requested_skill(&slots, [true, false, false, false], false, true), None);
    assert_eq!(requested_skill(&slots, [false; 4], false, false), None);
    assert_eq!(SkillSlot::Three.key_label(), "3");
}
