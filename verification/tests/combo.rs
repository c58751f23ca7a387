use block_city_adventure::combo::{update_combo, ComboHit};

#[test]
fn every_tenth_hit_earns_a_charge() {
    let mut count = 8;
    let hits = vec![ComboHit::Dealt; 3];
    let update = update_combo(&mut count, false, &hits);
    assert_eq!(count, 11);
    assert_eq!(update.charges, 1);
    assert!(update.restart_window);

    let hits = vec![ComboHit::Dealt; 20];
    let update = update_combo(&mut count, false, &hits);
    assert_eq!(count, 31);
    assert_eq!(update.charges, 2);
}

#[test]
fn a_hit_taken_or_an_expired_window_breaks_the_combo() {
    let mut count = 9;
    let update = update_combo(&mut count, false, &vec![ComboHit::Taken, ComboHit::Dealt]);
    assert_eq!(count, 1);
    assert_eq!(update.charges, 0);

    let mut count = 15;
    let update = update_combo(&mut count, true, &vec![ComboHit::Other]);
    assert_eq!(count, 0);
    assert!(!update.restart_window);
}

#[test]
fn the_count_saturates() {
    let mut count = u32::MAX;
    let update = update_combo(&mut count, false, &vec![ComboHit::Dealt]);
    assert_eq!(count, u32::MAX);
    assert_eq!(update.charges, 0);
}
