use vstd::prelude::*;

verus! {

/// The top-level screens of the game.
#[derive(Debug, Clone, Copy, PartialEq, Eq, Hash, Structural)]
pub enum AppState {
    Loading,
    MainMenu,
    InGame,
    MultiplayerMenu,
    CoopMenu,
    CoopLobby,
    CoopGame,
    PvpMenu,
    PvpLobby,
    PvpGame,
    PvpResult,
}

impl Default for AppState {
    fn default() -> (s: Self)
        ensures
            s == AppState::Loading,
    {
        AppState::Loading
    }
}

/// The phase of a session, layered on top of a solo or cooperative game.
#[derive(Debug, Clone, Copy, PartialEq, Eq, Hash, Structural)]
pub enum GamePhase {
    Playing,
    Paused,
    RewardSelect,
    AugmentSelect,
    SkillSelect,
    LevelUpSelect,
    Shop,
    EventRoom,
    GameOver,
    Victory,
}

impl Default for GamePhase {
    fn default() -> (p: Self)
        ensures
            p == GamePhase::Playing,
    {
        GamePhase::Playing
    }
}

impl GamePhase {
    /// A session phase exists only inside a solo or cooperative game, and starts at
    /// `Playing`.
    pub fn should_exist(source: Option<AppState>) -> (p: Option<GamePhase>)
        ensures
            p == (if source == Some(AppState::InGame) || source == Some(AppState::CoopGame) {
                Some(GamePhase::Playing)
            } else {
                None::<GamePhase>
            }),
    {
        match source {
            Some(AppState::InGame) | Some(AppState::CoopGame) => Some(GamePhase::Playing),
            _ => None,
        }
    }
}

/// Whether the current room is idle, locked in a fight, cleared or in a boss fight.
#[derive(Debug, Clone, Copy, PartialEq, Eq, Hash, Structural)]
pub enum RoomState {
    Idle,
    Locked,
    Cleared,
    BossFight,
}

impl Default for RoomState {
    fn default() -> (s: Self)
        ensures
            s == RoomState::Idle,
    {
        RoomState::Idle
    }
}

/// The phase of a cooperative match.
#[derive(Debug, Clone, Copy, PartialEq, Eq, Hash, Structural)]
pub enum CoopPhase {
    Inactive,
    DoorChoice,
    Paused,
    Reward,
    Rps,
    Shop,
    MatchOver,
}

/// Whether players stand still in this phase of a cooperative match: while paused,
/// choosing rewards, playing rock-paper-scissors, shopping or after the match. Choosing a
/// door does not stop them.
pub fn coop_phase_blocks_player_movement(phase: CoopPhase) -> (b: bool)
    ensures
        b == (phase == CoopPhase::Paused || phase == CoopPhase::Reward || phase == CoopPhase::Rps
            || phase == CoopPhase::Shop || phase == CoopPhase::MatchOver),
{
    match phase {
        CoopPhase::Paused | CoopPhase::Reward | CoopPhase::Rps | CoopPhase::Shop | CoopPhase::MatchOver => true,
        _ => false,
    }
}

} // verus!
