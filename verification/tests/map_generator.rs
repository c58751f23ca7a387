use block_city_adventure::map::{
    build_rooms, pick_weighted_unique_room_types, enforce_reward_room_rules, enforce_room_rules, make_room, opposite_direction,
    room_weight, Direction, FloorLayout, RoomData, RoomId, RoomType,
};
use block_city_adventure::rng::GameRng;

fn dummy_room(id: u32, room_type: RoomType) -> RoomData {
    make_room(RoomId(id), room_type, false, Vec::new())
}

#[test]
fn reward_room_weight_is_available_on_floor_one() {
    assert_eq!(room_weight(RoomType::Reward, 2, 1), 1);
}

#[test]
fn reward_room_rules_keep_at_most_one_reward_room() {
    let rooms = vec![
        dummy_room(0, RoomType::Start),
        dummy_room(1, RoomType::Reward),
        dummy_room(2, RoomType::Normal),
        dummy_room(3, RoomType::Reward),
        dummy_room(4, RoomType::Reward),
    ];

    let rewards = enforce_reward_room_rules(rooms)
        .into_iter()
        .filter(|room| room.room_type == RoomType::Reward)
        .count();

    assert_eq!(rewards, 1);
}

#[test]
fn room_rules_block_consecutive_shop_event_specials() {
    let rooms = vec![
        dummy_room(0, RoomType::Start),
        dummy_room(1, RoomType::Shop),
        dummy_room(2, RoomType::Event),
        dummy_room(3, RoomType::Shop),
        dummy_room(4, RoomType::Boss),
    ];

    let rooms = enforce_room_rules(rooms);
    assert_eq!(rooms[1].room_type, RoomType::Shop);
    assert_eq!(rooms[2].room_type, RoomType::Normal);
    assert_eq!(rooms[3].room_type, RoomType::Shop);
}

#[test]
fn generated_phase3_floor_has_boss_and_room_rule_invariants() {
    let mut rng = GameRng::default();
    rng.reseed(19);
    let rooms = build_rooms(None, 3, &mut rng);

    assert!(rooms.len() >= 10);
    assert_eq!(rooms.first().unwrap().room_type, RoomType::Start);
    assert!(rooms.iter().any(|room| room.room_type == RoomType::Boss));
    assert!(rooms.iter().any(|room| room.room_type == RoomType::Normal));
    assert!(rooms.iter().filter(|room| room.room_type == RoomType::Reward).count() <= 1);

    let mut previous_special = false;
    for room in rooms.iter().filter(|room| !matches!(room.room_type, RoomType::Start | RoomType::Boss)) {
        let special = matches!(room.room_type, RoomType::Shop | RoomType::Event);
        assert!(!(previous_special && special));
        previous_special = special;
    }
}

#[test]
fn room_rules_add_a_normal_room_when_none_is_left() {
    let rooms = vec![
        dummy_room(0, RoomType::Start),
        dummy_room(1, RoomType::Shop),
        dummy_room(2, RoomType::Boss),
    ];
    let rooms = enforce_room_rules(rooms);
    assert_eq!(rooms[0].room_type, RoomType::Start);
    assert_eq!(rooms[1].room_type, RoomType::Normal);
    assert_eq!(rooms[2].room_type, RoomType::Boss);
}

#[test]
fn room_rules_keep_a_floor_that_already_obeys_them() {
    let rooms = vec![
        dummy_room(0, RoomType::Start),
        dummy_room(1, RoomType::Normal),
        dummy_room(2, RoomType::Shop),
        dummy_room(3, RoomType::Normal),
        dummy_room(4, RoomType::Event),
        dummy_room(5, RoomType::Reward),
        dummy_room(6, RoomType::Boss),
    ];
    let types: Vec<RoomType> = rooms.iter().map(|room| room.room_type).collect();
    let out = enforce_room_rules(rooms);
    let after: Vec<RoomType> = out.iter().map(|room| room.room_type).collect();
    assert_eq!(after, types);
}

#[test]
fn opposite_direction_is_an_involution() {
    for dir in [Direction::Up, Direction::Down, Direction::Left, Direction::Right] {
        assert_eq!(opposite_direction(opposite_direction(dir)), dir);
        assert_ne!(opposite_direction(dir), dir);
    }
}

#[test]
fn generated_floors_are_reproducible_from_the_seed() {
    let mut a = GameRng::default();
    a.reseed(42);
    let mut b = GameRng::default();
    b.reseed(42);
    let first: Vec<(u32, RoomType)> = build_rooms(None, 2, &mut a).iter().map(|r| (r.id.0, r.room_type)).collect();
    let second: Vec<(u32, RoomType)> = build_rooms(None, 2, &mut b).iter().map(|r| (r.id.0, r.room_type)).collect();
    assert_eq!(first, second);
}

#[test]
fn floor_layout_finds_rooms_by_id() {
    let layout = FloorLayout { rooms: vec![dummy_room(0, RoomType::Start), dummy_room(5, RoomType::Shop)], current: RoomId(0) };
    assert_eq!(layout.room(RoomId(5)).map(|room| room.room_type), Some(RoomType::Shop));
    assert!(layout.room(RoomId(3)).is_none());
}

#[test]
fn generated_floors_keep_bosses_last_and_specials_apart() {
    for seed in 0..24u64 {
        for floor in 1..4u32 {
            let mut rng = GameRng::default();
            rng.reseed(seed);
            let rooms = build_rooms(None, floor, &mut rng);
            let first_boss = rooms.iter().position(|room| room.room_type == RoomType::Boss).unwrap();
            assert!(rooms[first_boss..].iter().all(|room| room.room_type == RoomType::Boss));
            let kept: Vec<RoomType> = rooms
                .iter()
                .map(|room| room.room_type)
                .filter(|t| !matches!(t, RoomType::Start | RoomType::Boss))
                .collect();
            for pair in kept.windows(2) {
                let special = |t: &RoomType| matches!(t, RoomType::Shop | RoomType::Event);
                assert!(!(special(&pair[0]) && special(&pair[1])));
            }
        }
    }
}

#[test]
fn first_floor_layers_draw_no_elites_and_no_repeats() {
    for seed in 1..40u64 {
        let mut rng = GameRng::default();
        rng.reseed(seed);
        let types = pick_weighted_unique_room_types(3, 3, 1, &mut rng);
        assert_eq!(types.len(), 3);
        assert!(types.contains(&RoomType::Normal));
        assert!(!types.contains(&RoomType::Elite));
        assert!(types[0] != types[1] && types[0] != types[2] && types[1] != types[2]);
        let mut rng = GameRng::default();
        rng.reseed(seed);
        let rooms = build_rooms(None, 1, &mut rng);
        assert!(rooms.iter().all(|room| room.room_type != RoomType::Elite));
    }
}
