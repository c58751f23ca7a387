use vstd::prelude::*;

use crate::states::AppState;

verus! {

/// Whether this game hosts a duel, joins one, or neither.
#[derive(Debug, Clone, Copy, PartialEq, Eq, Structural)]
pub enum NetMode {
    Off,
    Host,
    Client,
}

impl Default for NetMode {
    fn default() -> (m: Self)
        ensures
            m == NetMode::Off,
    {
        NetMode::Off
    }
}

/// A duelist: the host is player 1, the guest player 2.
#[derive(Debug, Clone, Copy, PartialEq, Eq, Structural)]
pub struct PvpPlayerId(pub u8);

/// The lives a duelist has left.
#[derive(Debug, Clone, Copy, PartialEq, Eq, Structural)]
pub struct PvpLives {
    pub lives: u8,
}

impl Default for PvpLives {
    /// A duelist starts with three lives.
    fn default() -> (l: Self)
        ensures
            l.lives == 3,
    {
        PvpLives { lives: 3 }
    }
}

/// The state of the duel's link that the game decides on; the socket and the peer's
/// address are kept by the caller, which reports whether it has them.
#[derive(Debug, Clone, Copy, PartialEq, Eq, Structural)]
pub struct PvpLink {
    pub has_socket: bool,
    pub has_peer: bool,
    pub connected: bool,
    pub my_id: Option<u8>,
    pub winner: Option<u8>,
}

/// A link with no socket, no peer and no duel.
pub open spec fn is_closed_link(l: PvpLink) -> bool {
    &&& !l.has_socket
    &&& !l.has_peer
    &&& !l.connected
    &&& l.my_id.is_none()
    &&& l.winner.is_none()
}

impl PvpLink {
    /// No socket, no peer, no duel.
    pub fn closed() -> (l: PvpLink)
        ensures
            is_closed_link(l),
    {
        PvpLink { has_socket: false, has_peer: false, connected: false, my_id: None, winner: None }
    }

    /// A host's socket is open: it is player 1 and waits for a guest.
    pub fn start_host(&mut self)
        ensures
            final(self).has_socket,
            !final(self).has_peer,
            !final(self).connected,
            final(self).my_id == Some(1u8),
            final(self).winner.is_none(),
    {
        self.has_socket = true;
        self.has_peer = false;
        self.connected = false;
        self.my_id = Some(1);
        self.winner = None;
    }

    /// A guest's socket is open: it waits for the host to give it its id.
    pub fn start_client(&mut self)
        ensures
            final(self).has_socket,
            !final(self).has_peer,
            !final(self).connected,
            final(self).my_id.is_none(),
            final(self).winner.is_none(),
    {
        self.has_socket = true;
        self.has_peer = false;
        self.connected = false;
        self.my_id = None;
        self.winner = None;
    }

    /// Forget the result of the last duel.
    pub fn clear_runtime(&mut self)
        ensures
            final(self).winner.is_none(),
            final(self).has_socket == old(self).has_socket,
            final(self).has_peer == old(self).has_peer,
            final(self).connected == old(self).connected,
            final(self).my_id == old(self).my_id,
    {
        self.winner = None;
    }
}

/// Leave networking: no mode, no socket, no peer, no duel.
pub fn reset_pvp_network(mode: &mut NetMode, link: &mut PvpLink)
    ensures
        *final(mode) == NetMode::Off,
        is_closed_link(*final(link)),
{
    *mode = NetMode::Off;
    *link = PvpLink::closed();
}

/// The kinds of messages of a duel; what movement, snapshots and shots carry stays with
/// the caller.
#[derive(Debug, Clone, Copy, PartialEq, Eq, Structural)]
pub enum PvpMsgKind {
    Hello,
    Welcome { your_id: u8 },
    Input,
    State,
    Fire,
    Result { winner: u8 },
}

/// What the caller does with a received message.
#[derive(Debug, Clone, Copy, PartialEq, Eq, Structural)]
pub struct PvpReaction {
    /// The sender becomes the peer.
    pub adopt_sender: bool,
    /// Answer the sender with a welcome that gives it this id.
    pub reply_welcome: Option<u8>,
    /// Move to this screen.
    pub next_state: Option<AppState>,
    /// Keep the guest's input for the simulation.
    pub keep_input: bool,
    /// Keep the host's snapshot.
    pub keep_state: bool,
    /// Keep the shot for its visual.
    pub keep_fire: bool,
}

/// A reaction that does nothing.
pub open spec fn no_reaction() -> PvpReaction {
    PvpReaction {
        adopt_sender: false,
        reply_welcome: None,
        next_state: None,
        keep_input: false,
        keep_state: false,
        keep_fire: false,
    }
}

/// How a duel reacts to a message: a host greeted by a guest connects as player 1 and
/// welcomes the guest as player 2; a guest welcomed by the host connects with the given id;
/// either starts the duel when in the lobby. Inputs are kept, snapshots only by a guest,
/// shots always; a result records the winner and shows the result screen.
pub open spec fn reaction_spec(link: PvpLink, mode: NetMode, app_state: AppState, msg: PvpMsgKind) -> (PvpLink, PvpReaction) {
    let to_game = if app_state == AppState::PvpLobby { Some(AppState::PvpGame) } else { None };
    match msg {
        PvpMsgKind::Hello => if mode == NetMode::Host {
            (PvpLink { has_peer: true, connected: true, my_id: Some(1u8), ..link },
             PvpReaction { adopt_sender: true, reply_welcome: Some(2u8), next_state: to_game, ..no_reaction() })
        } else {
            (link, no_reaction())
        },
        PvpMsgKind::Welcome { your_id } => if mode == NetMode::Client {
            (PvpLink { has_peer: true, connected: true, my_id: Some(your_id), ..link },
             PvpReaction { adopt_sender: true, next_state: to_game, ..no_reaction() })
        } else {
            (link, no_reaction())
        },
        PvpMsgKind::Input => (link, PvpReaction { keep_input: true, ..no_reaction() }),
        PvpMsgKind::State => (link, PvpReaction { keep_state: mode == NetMode::Client, ..no_reaction() }),
        PvpMsgKind::Fire => (link, PvpReaction { keep_fire: true, ..no_reaction() }),
        PvpMsgKind::Result { winner } => (
            PvpLink { winner: Some(winner), ..link },
            PvpReaction {
                next_state: if app_state != AppState::PvpResult { Some(AppState::PvpResult) } else { None },
                ..no_reaction()
            },
        ),
    }
}

/// Shots, inputs and results are handled alike by host and guest: every received shot is
/// kept for its visual and changes nothing else, every received input is kept, and a result
/// records its winner; only a guest keeps a snapshot, only a host answers a greeting, and
/// only a guest takes a welcome.
pub proof fn lemma_pvp_reactions(link: PvpLink, mode: NetMode, app_state: AppState, winner: u8, your_id: u8)
    ensures
        reaction_spec(link, mode, app_state, PvpMsgKind::Fire).1.keep_fire,
        reaction_spec(link, mode, app_state, PvpMsgKind::Fire).0 == link,
        reaction_spec(link, NetMode::Host, app_state, PvpMsgKind::Fire)
            == reaction_spec(link, NetMode::Client, app_state, PvpMsgKind::Fire),
        !reaction_spec(link, mode, app_state, PvpMsgKind::Fire).1.keep_input,
        !reaction_spec(link, mode, app_state, PvpMsgKind::Fire).1.keep_state,
        mode == NetMode::Host && app_state == AppState::PvpLobby ==>
            reaction_spec(link, mode, app_state, PvpMsgKind::Hello).1.next_state == Some(AppState::PvpGame),
        mode == NetMode::Host ==> reaction_spec(link, mode, app_state, PvpMsgKind::Hello).0.my_id == Some(1u8),
        mode == NetMode::Client ==> reaction_spec(link, mode, app_state, PvpMsgKind::Welcome { your_id }).0.my_id == Some(your_id),
        mode == NetMode::Client && app_state == AppState::PvpLobby ==>
            reaction_spec(link, mode, app_state, PvpMsgKind::Welcome { your_id }).1.next_state == Some(AppState::PvpGame),
        app_state != AppState::PvpLobby ==> reaction_spec(link, mode, app_state, PvpMsgKind::Hello).1.next_state.is_none(),
        app_state != AppState::PvpResult ==>
            reaction_spec(link, mode, app_state, PvpMsgKind::Result { winner }).1.next_state == Some(AppState::PvpResult),
        reaction_spec(link, mode, app_state, PvpMsgKind::Input).1.keep_input,
        !reaction_spec(link, mode, app_state, PvpMsgKind::Input).1.keep_fire,
        reaction_spec(link, mode, app_state, PvpMsgKind::State).1.keep_state <==> mode == NetMode::Client,
        reaction_spec(link, mode, app_state, PvpMsgKind::Result { winner }).0.winner == Some(winner),
        (reaction_spec(link, mode, app_state, PvpMsgKind::Hello).1.reply_welcome == Some(2u8)) <==> mode == NetMode::Host,
        reaction_spec(link, mode, app_state, PvpMsgKind::Welcome { your_id }).0.connected <==> (mode == NetMode::Client || link.connected),
{
}

/// React to a received message.
pub fn on_pvp_message(link: &mut PvpLink, mode: NetMode, app_state: AppState, msg: PvpMsgKind) -> (r: PvpReaction)
    ensures
        (*final(link), r) == reaction_spec(*old(link), mode, app_state, msg),
{
    let to_game = if app_state == AppState::PvpLobby { Some(AppState::PvpGame) } else { None };
    let none = PvpReaction {
        adopt_sender: false,
        reply_welcome: None,
        next_state: None,
        keep_input: false,
        keep_state: false,
        keep_fire: false,
    };
    match msg {
        PvpMsgKind::Hello => {
            if mode == NetMode::Host {
                link.has_peer = true;
                link.connected = true;
                link.my_id = Some(1);
                PvpReaction { adopt_sender: true, reply_welcome: Some(2), next_state: to_game, ..none }
            } else {
                none
            }
        },
        PvpMsgKind::Welcome { your_id } => {
            if mode == NetMode::Client {
                link.has_peer = true;
                link.connected = true;
                link.my_id = Some(your_id);
                PvpReaction { adopt_sender: true, next_state: to_game, ..none }
            } else {
                none
            }
        },
        PvpMsgKind::Input => PvpReaction { keep_input: true, ..none },
        PvpMsgKind::State => PvpReaction { keep_state: mode == NetMode::Client, ..none },
        PvpMsgKind::Fire => PvpReaction { keep_fire: true, ..none },
        PvpMsgKind::Result { winner } => {
            link.winner = Some(winner);
            PvpReaction {
                next_state: if app_state != AppState::PvpResult { Some(AppState::PvpResult) } else { None },
                ..none
            }
        },
    }
}

/// Whether a guest greets the host this tick: in the lobby, not yet connected, with the
/// host's address known.
pub fn wants_hello(app_state: AppState, mode: NetMode, link: &PvpLink) -> (b: bool)
    ensures
        b == (app_state == AppState::PvpLobby && mode == NetMode::Client && !link.connected && link.has_peer),
{
    app_state == AppState::PvpLobby && mode == NetMode::Client && !link.connected && link.has_peer
}

/// Whether the socket is dropped at the end of a tick: when networking was left.
pub fn drop_socket_after_tick(mode: NetMode, link: &mut PvpLink) -> (dropped: bool)
    ensures
        dropped == (mode == NetMode::Off && old(link).has_socket),
        final(link).has_socket == (old(link).has_socket && !dropped),
        final(link).has_peer == old(link).has_peer,
        final(link).connected == old(link).connected,
        final(link).my_id == old(link).my_id,
        final(link).winner == old(link).winner,
{
    if mode == NetMode::Off && link.has_socket {
        link.has_socket = false;
        true
    } else {
        false
    }
}

/// A duelist whose health ran out loses a life and respawns, while it has one to lose.
pub fn lose_life(lives: &mut PvpLives) -> (respawned: bool)
    ensures
        respawned == (old(lives).lives > 0),
        final(lives).lives == (if old(lives).lives > 0 { old(lives).lives - 1 } else { 0 }),
{
    if lives.lives == 0 {
        return false;
    }
    lives.lives = lives.lives - 1;
    true
}

/// The winner once a duelist is out of lives: the one with lives left (player 2 when both
/// are out).
pub open spec fn winner_spec(p1_lives: u8, p2_lives: u8) -> Option<u8> {
    if p1_lives == 0 || p2_lives == 0 {
        Some(if p1_lives > 0 { 1u8 } else { 2u8 })
    } else {
        None
    }
}

/// The end of an exchange of blows: each duelist whose health ran out loses a life, then
/// the duel is won when one of them has none left.
pub fn settle_round(p1_down: bool, p2_down: bool, p1: &mut PvpLives, p2: &mut PvpLives) -> (winner: Option<u8>)
    ensures
        final(p1).lives == (if p1_down && old(p1).lives > 0 { old(p1).lives - 1 } else { old(p1).lives as int }),
        final(p2).lives == (if p2_down && old(p2).lives > 0 { old(p2).lives - 1 } else { old(p2).lives as int }),
        winner == winner_spec(final(p1).lives, final(p2).lives),
{
    if p1_down {
        lose_life(p1);
    }
    if p2_down {
        lose_life(p2);
    }
    if p1.lives == 0 || p2.lives == 0 {
        Some(if p1.lives > 0 { 1 } else { 2 })
    } else {
        None
    }
}

/// A winner is named exactly when someone is out of lives, and it is a duelist with lives
/// left whenever one has any.
pub proof fn lemma_winner_has_lives(p1_lives: u8, p2_lives: u8)
    ensures
        winner_spec(p1_lives, p2_lives).is_some() == (p1_lives == 0 || p2_lives == 0),
        winner_spec(p1_lives, p2_lives) == Some(1u8) ==> p1_lives > 0 && p2_lives == 0,
        winner_spec(p1_lives, p2_lives) == Some(2u8) && (p1_lives > 0 || p2_lives > 0) ==> p2_lives > 0,
{
}


/// The port a host listens on.
pub const PVP_PORT: u16 = 3456;

/// Characters accepted in the host's address: digits, dots and colons.
pub open spec fn ip_char_ok(c: char) -> bool {
    ('0' <= c && c <= '9') || c == '.' || c == ':'
}

/// The host's address after typing `typed`: each accepted character is added while the
/// address is shorter than 64 characters.
pub open spec fn typed_ip(ip: Seq<char>, typed: Seq<char>) -> Seq<char>
    decreases typed.len(),
{
    if typed.len() == 0 {
        ip
    } else {
        let before = typed_ip(ip, typed.drop_last());
        let c = typed.last();
        if ip_char_ok(c) && before.len() < 64 { before.push(c) } else { before }
    }
}

/// The address of the host to join, as typed on the duel menu.
#[derive(Debug, Clone)]
pub struct PvpJoinIp {
    pub ip: Vec<char>,
}

/// What the duel menu does this frame.
#[derive(Debug, Clone, Copy, PartialEq, Eq, Structural)]
pub enum PvpMenuCommand {
    /// Leave networking and go back to the multiplayer menu.
    Back,
    /// Open a host's socket and wait in the lobby.
    Host,
    /// Open a guest's socket towards the typed address and wait in the lobby.
    Join,
    /// Stay on the menu.
    Stay,
}

impl PvpJoinIp {
    /// The duel menu's input: Escape goes back and the host key hosts, before any typing;
    /// otherwise the typed characters are added, Backspace removes the last one, and the
    /// join key joins when an address was typed.
    pub fn menu_input(&mut self, escape: bool, host_key: bool, typed: &Vec<char>, backspace: bool, join_key: bool) -> (c: PvpMenuCommand)
        ensures
            escape ==> c == PvpMenuCommand::Back && final(self).ip@ == old(self).ip@,
            !escape && host_key ==> c == PvpMenuCommand::Host && final(self).ip@ == old(self).ip@,
            !escape && !host_key ==> {
                let t = typed_ip(old(self).ip@, typed@);
                &&& final(self).ip@ == (if backspace && t.len() > 0 { t.drop_last() } else { t })
                &&& c == (if join_key && final(self).ip@.len() > 0 { PvpMenuCommand::Join } else { PvpMenuCommand::Stay })
            },
    {
        if escape {
            return PvpMenuCommand::Back;
        }
        if host_key {
            return PvpMenuCommand::Host;
        }
        let ghost start = self.ip@;
        let mut i: usize = 0;
        proof {
            assert(typed@.take(0) =~= Seq::<char>::empty());
        }
        while i < typed.len()
            invariant
                i <= typed@.len(),
                self.ip@ == typed_ip(start, typed@.take(i as int)),
            decreases typed@.len() - i,
        {
            let c = typed[i];
            proof {
                assert(typed@.take(i + 1).drop_last() =~= typed@.take(i as int));
                assert(typed@.take(i + 1).last() == c);
            }
            if (('0' <= c && c <= '9') || c == '.' || c == ':') && self.ip.len() < 64 {
                self.ip.push(c);
            }
            i = i + 1;
        }
        proof {
            assert(typed@.take(typed@.len() as int) =~= typed@);
        }
        if backspace && self.ip.len() > 0 {
            self.ip.pop();
        }
        if join_key && self.ip.len() > 0 {
            PvpMenuCommand::Join
        } else {
            PvpMenuCommand::Stay
        }
    }
}

/// The typed address never grows past 64 characters and holds only digits, dots and colons
/// when it started so.
pub proof fn lemma_typed_ip_stays_valid(ip: Seq<char>, typed: Seq<char>)
    requires
        ip.len() <= 64,
        forall|i: int| 0 <= i < ip.len() ==> ip_char_ok(#[trigger] ip[i]),
    ensures
        typed_ip(ip, typed).len() <= 64,
        forall|i: int| 0 <= i < typed_ip(ip, typed).len() ==> ip_char_ok(#[trigger] typed_ip(ip, typed)[i]),
    decreases typed.len(),
{
    if typed.len() > 0 {
        lemma_typed_ip_stays_valid(ip, typed.drop_last());
        let before = typed_ip(ip, typed.drop_last());
        let c = typed.last();
        if ip_char_ok(c) && before.len() < 64 {
            assert forall|i: int| 0 <= i < before.push(c).len() implies ip_char_ok(#[trigger] before.push(c)[i]) by {
                if i < before.len() {
                    assert(before.push(c)[i] == before[i]);
                }
            }
        }
    }
}

} // verus!
