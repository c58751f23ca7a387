use block_city_adventure::map::RoomId;
use block_city_adventure::puzzle::{
    scale_reward_amount, ActivePuzzle, MemoryTouch, PuzzleEventConfig, PuzzleKind, PuzzleReward,
    PuzzleRewardPool, SwitchOrderState, SwitchPress,
};
use block_city_adventure::states::RoomState;

#[test]
fn spawn_puzzle_for_kind_maps_config_to_reward_and_state() {
    let mut active = ActivePuzzle::default();
    let config = PuzzleEventConfig {
        timed: true,
        target_count: 5,
        lives: 3,
        gold_reward: 30,
        xp_reward: 25,
        augment_pool: PuzzleRewardPool::Elite,
    };

    active.reset();
    active.room = Some(RoomId(7));
    active.kind = Some(PuzzleKind::TimedCollect);
    active.target_count = config.target_count;
    active.lives_remaining = config.lives;
    active.reward = PuzzleReward { gold: config.gold_reward, xp: config.xp_reward, augment_pool: config.augment_pool };

    assert_eq!(active.room, Some(RoomId(7)));
    assert_eq!(active.kind, Some(PuzzleKind::TimedCollect));
    assert_eq!(active.reward.gold, 30);
    assert_eq!(active.reward.xp, 25);
    assert_eq!(active.reward.augment_pool, PuzzleRewardPool::Elite);
}

#[test]
fn timed_collect_reward_scales_by_collected_count() {
    let mut active = ActivePuzzle {
        kind: Some(PuzzleKind::TimedCollect),
        reward_earned: true,
        reward: PuzzleReward { gold: 25, xp: 25, augment_pool: PuzzleRewardPool::Any },
        target_count: 5,
        progress_count: 3,
        ..Default::default()
    };

    let reward = active.reward_to_apply();

    assert_eq!(reward.gold, 15);
    assert_eq!(reward.xp, 15);
    assert_eq!(reward.augment_pool, PuzzleRewardPool::Nothing);

    active.progress_count = 5;
    assert_eq!(active.reward_to_apply().augment_pool, PuzzleRewardPool::Any);
}

#[test]
fn start_maps_the_config_onto_the_puzzle() {
    let mut active = ActivePuzzle::default();
    let config = PuzzleEventConfig {
        timed: true,
        target_count: 5,
        lives: 0,
        gold_reward: 30,
        xp_reward: 25,
        augment_pool: PuzzleRewardPool::Elite,
    };
    active.start(RoomId(7), PuzzleKind::MemoryBlocks, &config);
    assert_eq!(active.room, Some(RoomId(7)));
    assert_eq!(active.kind, Some(PuzzleKind::MemoryBlocks));
    assert_eq!(active.target_count, 5);
    assert_eq!(active.lives_remaining, 1);
    assert!(active.timed);
    assert_eq!(active.memory_sequence, vec![1, 2, 3, 4, 5]);
    assert_eq!(active.reward, PuzzleReward { gold: 30, xp: 25, augment_pool: PuzzleRewardPool::Elite });
}

#[test]
fn scaled_rewards_round_half_up_and_keep_at_least_one() {
    assert_eq!(scale_reward_amount(25, 3, 5), 15);
    assert_eq!(scale_reward_amount(10, 1, 4), 3);
    assert_eq!(scale_reward_amount(10, 0, 4), 1);
    assert_eq!(scale_reward_amount(0, 4, 4), 0);
    assert_eq!(scale_reward_amount(7, 4, 4), 7);
}

#[test]
fn unearned_reward_pays_nothing() {
    let active = ActivePuzzle {
        kind: Some(PuzzleKind::BulletMaze),
        reward_earned: false,
        reward: PuzzleReward { gold: 25, xp: 25, augment_pool: PuzzleRewardPool::Any },
        ..Default::default()
    };
    assert_eq!(active.reward_to_apply(), PuzzleReward::default());
}

#[test]
fn memory_rounds_grow_until_solved_and_a_wrong_block_restarts() {
    let mut active = ActivePuzzle::default();
    let config = PuzzleEventConfig {
        timed: false,
        target_count: 4,
        lives: 2,
        gold_reward: 10,
        xp_reward: 10,
        augment_pool: PuzzleRewardPool::Any,
    };
    active.start(RoomId(3), PuzzleKind::MemoryBlocks, &config);
    assert_eq!(active.memory_round_len(), 2);
    assert_eq!(active.memory_block_touched(1), MemoryTouch::Correct);
    assert_eq!(active.memory_block_touched(2), MemoryTouch::RoundComplete);
    assert_eq!(active.memory_round_len(), 3);
    assert_eq!(active.memory_block_touched(9), MemoryTouch::Wrong);
    assert_eq!(active.lives_remaining, 1);
    assert_eq!(active.memory_round, 1);
    assert_eq!(active.memory_block_touched(1), MemoryTouch::Correct);
    assert_eq!(active.memory_block_touched(2), MemoryTouch::RoundComplete);
    assert_eq!(active.memory_block_touched(1), MemoryTouch::Correct);
    assert_eq!(active.memory_block_touched(2), MemoryTouch::Correct);
    assert_eq!(active.memory_block_touched(3), MemoryTouch::RoundComplete);
    assert_eq!(active.memory_block_touched(1), MemoryTouch::Correct);
    assert_eq!(active.memory_block_touched(2), MemoryTouch::Correct);
    assert_eq!(active.memory_block_touched(3), MemoryTouch::Correct);
    assert_eq!(active.memory_block_touched(4), MemoryTouch::Solved);
    assert!(active.completed && active.reward_earned);
}

#[test]
fn maze_hazards_end_the_puzzle_when_lives_run_out() {
    let mut active = ActivePuzzle::default();
    let config = PuzzleEventConfig {
        timed: false,
        target_count: 1,
        lives: 2,
        gold_reward: 10,
        xp_reward: 0,
        augment_pool: PuzzleRewardPool::Nothing,
    };
    active.start(RoomId(2), PuzzleKind::BulletMaze, &config);
    active.maze_hazard_hit();
    assert!(!active.completed);
    active.maze_hazard_hit();
    assert!(active.completed && !active.reward_earned);
}

#[test]
fn a_finished_puzzle_clears_its_locked_room_once() {
    let mut active = ActivePuzzle::default();
    let config = PuzzleEventConfig {
        timed: true,
        target_count: 2,
        lives: 1,
        gold_reward: 10,
        xp_reward: 0,
        augment_pool: PuzzleRewardPool::Nothing,
    };
    active.start(RoomId(4), PuzzleKind::TimedCollect, &config);
    active.collectible_collected();
    assert!(!active.take_completion(Some(RoomId(4)), RoomState::Locked));
    active.collectible_collected();
    assert!(!active.take_completion(Some(RoomId(5)), RoomState::Locked));
    assert!(active.take_completion(Some(RoomId(4)), RoomState::Locked));
    assert!(!active.take_completion(Some(RoomId(4)), RoomState::Locked));
}

#[test]
fn switches_must_be_pressed_in_order() {
    let mut state = SwitchOrderState::new();
    assert_eq!(state.press(1), SwitchPress::Advanced);
    assert!(state.is_lit(1));
    assert_eq!(state.press(3), SwitchPress::Reset);
    assert!(!state.is_lit(1));
    assert_eq!(state.press(1), SwitchPress::Advanced);
    assert_eq!(state.press(2), SwitchPress::Advanced);
    assert_eq!(state.press(3), SwitchPress::Completed);
    assert_eq!(state.expected_next, 1);
}

#[test]
fn a_puzzle_runs_only_in_its_locked_room() {
    let mut active = ActivePuzzle::default();
    active.room = Some(RoomId(4));
    active.kind = Some(PuzzleKind::BulletMaze);
    assert!(active.is_active(RoomState::Locked, Some(RoomId(4)), PuzzleKind::BulletMaze));
    assert!(!active.is_active(RoomState::Cleared, Some(RoomId(4)), PuzzleKind::BulletMaze));
    assert!(!active.is_active(RoomState::Locked, Some(RoomId(5)), PuzzleKind::BulletMaze));
    assert!(!active.is_active(RoomState::Locked, Some(RoomId(4)), PuzzleKind::MemoryBlocks));
    assert!(!active.is_active(RoomState::Locked, None, PuzzleKind::BulletMaze));

    active.maze_goal_reached();
    assert!(active.completed);
    assert!(active.reward_earned);
}
