use block_city_adventure::pvp::{
    on_pvp_message, reset_pvp_network, settle_round, wants_hello, NetMode, PvpJoinIp, PvpLink,
    PvpLives, PvpMenuCommand, PvpMsgKind, PVP_PORT,
};
use block_city_adventure::states::AppState;

#[test]
fn duelists_start_with_three_lives() {
    assert_eq!(PvpLives::default().lives, 3);
    assert_eq!(NetMode::default(), NetMode::Off);
    assert_eq!(PVP_PORT, 3456);
}

#[test]
fn a_host_greeted_in_the_lobby_welcomes_player_two_and_starts() {
    let mut link = PvpLink::closed();
    link.start_host();
    assert_eq!(link.my_id, Some(1));
    let r = on_pvp_message(&mut link, NetMode::Host, AppState::PvpLobby, PvpMsgKind::Hello);
    assert!(r.adopt_sender);
    assert_eq!(r.reply_welcome, Some(2));
    assert_eq!(r.next_state, Some(AppState::PvpGame));
    assert!(link.connected && link.has_peer);
}

#[test]
fn a_guest_is_welcomed_with_its_id() {
    let mut link = PvpLink::closed();
    link.start_client();
    link.has_peer = true;
    assert!(wants_hello(AppState::PvpLobby, NetMode::Client, &link));
    let r = on_pvp_message(&mut link, NetMode::Client, AppState::PvpLobby, PvpMsgKind::Welcome { your_id: 2 });
    assert_eq!(link.my_id, Some(2));
    assert_eq!(r.next_state, Some(AppState::PvpGame));
    assert_eq!(r.reply_welcome, None);
    assert!(!wants_hello(AppState::PvpLobby, NetMode::Client, &link));
    let ignored = on_pvp_message(&mut link, NetMode::Client, AppState::PvpGame, PvpMsgKind::Hello);
    assert!(!ignored.adopt_sender && ignored.next_state.is_none());
}

#[test]
fn results_and_snapshots() {
    let mut link = PvpLink::closed();
    let r = on_pvp_message(&mut link, NetMode::Client, AppState::PvpGame, PvpMsgKind::Result { winner: 1 });
    assert_eq!(link.winner, Some(1));
    assert_eq!(r.next_state, Some(AppState::PvpResult));
    let again = on_pvp_message(&mut link, NetMode::Client, AppState::PvpResult, PvpMsgKind::Result { winner: 1 });
    assert_eq!(again.next_state, None);
    assert!(on_pvp_message(&mut link, NetMode::Client, AppState::PvpGame, PvpMsgKind::State).keep_state);
    assert!(!on_pvp_message(&mut link, NetMode::Host, AppState::PvpGame, PvpMsgKind::State).keep_state);
    assert!(on_pvp_message(&mut link, NetMode::Host, AppState::PvpGame, PvpMsgKind::Input).keep_input);
    let mut mode = NetMode::Host;
    reset_pvp_network(&mut mode, &mut link);
    assert_eq!(mode, NetMode::Off);
    assert_eq!(link, PvpLink::closed());
}

#[test]
fn the_duel_ends_when_a_duelist_runs_out_of_lives() {
    let mut p1 = PvpLives::default();
    let mut p2 = PvpLives::default();
    assert_eq!(settle_round(false, true, &mut p1, &mut p2), None);
    assert_eq!(settle_round(false, true, &mut p1, &mut p2), None);
    assert_eq!(p2.lives, 1);
    assert_eq!(settle_round(true, true, &mut p1, &mut p2), Some(1));
    assert_eq!((p1.lives, p2.lives), (2, 0));
}

#[test]
fn the_join_address_accepts_digits_dots_and_colons() {
    let mut ip = PvpJoinIp { ip: Vec::new() };
    let typed: Vec<char> = "192.168.x1:2".chars().collect();
    assert_eq!(ip.menu_input(false, false, &typed, false, false), PvpMenuCommand::Stay);
    assert_eq!(ip.ip.iter().collect::<String>(), "192.168.1:2");
    assert_eq!(ip.menu_input(false, false, &Vec::new(), true, true), PvpMenuCommand::Join);
    assert_eq!(ip.ip.iter().collect::<String>(), "192.168.1:");
    assert_eq!(ip.menu_input(true, true, &typed, false, true), PvpMenuCommand::Back);
    assert_eq!(ip.menu_input(false, true, &typed, false, true), PvpMenuCommand::Host);
    let mut empty = PvpJoinIp { ip: Vec::new() };
    assert_eq!(empty.menu_input(false, false, &Vec::new(), true, true), PvpMenuCommand::Stay);
    let long: Vec<char> = std::iter::repeat('1').take(80).collect();
    empty.menu_input(false, false, &long, false, false);
    assert_eq!(empty.ip.len(), 64);
}
