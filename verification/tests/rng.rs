use block_city_adventure::rng::GameRng;

#[test]
fn shuffling_keeps_the_elements_and_advances_the_generator() {
    let mut rng = GameRng::default();
    rng.reseed(42);
    let out = rng.shuffled((0u32..8).collect::<Vec<u32>>());
    let mut sorted = out.clone();
    sorted.sort();
    assert_eq!(sorted, (0u32..8).collect::<Vec<u32>>());

    let mut again = GameRng::default();
    again.reseed(42);
    assert_eq!(again.shuffled((0u32..8).collect::<Vec<u32>>()), out);
    let mut fresh = GameRng::default();
    fresh.reseed(42);
    for _ in 0..8 {
        fresh.next_u64();
    }
    assert_eq!(rng.next_u64(), fresh.next_u64());
}
