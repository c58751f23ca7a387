use block_city_adventure::states::{coop_phase_blocks_player_movement, AppState, CoopPhase, GamePhase};

#[test]
fn coop_door_choice_does_not_block_movement() {
    assert!(!coop_phase_blocks_player_movement(CoopPhase::DoorChoice));
}

#[test]
fn coop_reward_still_blocks_movement() {
    assert!(coop_phase_blocks_player_movement(CoopPhase::Reward));
}

#[test]
fn coop_phases_that_stop_players() {
    assert!(!coop_phase_blocks_player_movement(CoopPhase::Inactive));
    assert!(coop_phase_blocks_player_movement(CoopPhase::Paused));
    assert!(coop_phase_blocks_player_movement(CoopPhase::Rps));
    assert!(coop_phase_blocks_player_movement(CoopPhase::Shop));
    assert!(coop_phase_blocks_player_movement(CoopPhase::MatchOver));
}

#[test]
fn session_phase_exists_only_in_games() {
    assert_eq!(GamePhase::should_exist(Some(AppState::InGame)), Some(GamePhase::Playing));
    assert_eq!(GamePhase::should_exist(Some(AppState::CoopGame)), Some(GamePhase::Playing));
    assert_eq!(GamePhase::should_exist(Some(AppState::PvpGame)), None);
    assert_eq!(GamePhase::should_exist(None), None);
}
