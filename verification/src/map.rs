use vstd::prelude::*;

use crate::rng::{xorshift_step, GameRng};

verus! {

/// Identifier of a room on the current floor.
#[derive(Debug, Clone, Copy, PartialEq, Eq, Hash, Structural)]
pub struct RoomId(pub u32);

/// The kind of a room on a floor.
#[derive(Debug, Clone, Copy, PartialEq, Eq, Hash, Structural)]
pub enum RoomType {
    Start,
    Normal,
    Shop,
    Reward,
    Event,
    Elite,
    Boss,
}

impl Default for RoomType {
    fn default() -> (r: Self)
        ensures
            r == RoomType::Start,
    {
        RoomType::Start
    }
}

/// The side of a room on which an exit sits.
#[derive(Debug, Clone, Copy, PartialEq, Eq, Hash, Structural)]
pub enum Direction {
    Up,
    Down,
    Left,
    Right,
}

/// The exits of a room, each a side and the room it leads to.
#[derive(Debug, Clone)]
pub struct RoomConnections {
    pub exits: Vec<(Direction, RoomId)>,
}

/// One room of a floor.
#[derive(Debug, Clone)]
pub struct RoomData {
    pub id: RoomId,
    pub room_type: RoomType,
    pub mystery: bool,
    pub connections: RoomConnections,
}

/// All rooms of a floor and the room the player stands in.
#[derive(Debug, Clone)]
pub struct FloorLayout {
    pub rooms: Vec<RoomData>,
    pub current: RoomId,
}

/// A room type chosen by the generator, before ids and exits are assigned.
#[derive(Debug, Clone, Copy, PartialEq, Eq, Structural)]
pub struct GeneratedRoom {
    pub room_type: RoomType,
    pub mystery: bool,
}

/// Shop and event rooms are the "special" rooms that may not follow each other.
pub open spec fn is_special(t: RoomType) -> bool {
    t == RoomType::Shop || t == RoomType::Event
}

/// Whether the nearest room before index `i` that is not a start room is special.
pub open spec fn last_non_start_special(s: Seq<RoomData>, i: int) -> bool
    decreases i,
{
    if i <= 0 {
        false
    } else if s[i - 1].room_type == RoomType::Start {
        last_non_start_special(s, i - 1)
    } else {
        is_special(s[i - 1].room_type)
    }
}

/// Whether a reward room stands before index `i`.
pub open spec fn reward_before(s: Seq<RoomData>, i: int) -> bool {
    exists|j: int| 0 <= j < i && #[trigger] s[j].room_type == RoomType::Reward
}

/// At most one room of the sequence is a reward room.
pub open spec fn at_most_one_reward(s: Seq<RoomData>) -> bool {
    forall|i: int, j: int|
        0 <= i < j < s.len() ==> !(#[trigger] s[i].room_type == RoomType::Reward
            && #[trigger] s[j].room_type == RoomType::Reward)
}

/// No shop or event room directly follows another one (start rooms are skipped).
pub open spec fn no_consecutive_specials(s: Seq<RoomData>) -> bool {
    forall|i: int| 0 <= i < s.len() && #[trigger] is_special(s[i].room_type) ==> !last_non_start_special(s, i)
}

/// Some room is neither a start nor a boss room.
pub open spec fn has_fightable_room(s: Seq<RoomData>) -> bool {
    exists|i: int| 0 <= i < s.len() && !(#[trigger] s[i].room_type == RoomType::Start || s[i].room_type == RoomType::Boss)
}

/// Some room is a normal room.
pub open spec fn has_room_type(s: Seq<RoomData>, t: RoomType) -> bool {
    exists|i: int| 0 <= i < s.len() && #[trigger] s[i].room_type == t
}

/// The type a room gets from the reward and special-room rules of the first pass.
pub open spec fn first_pass_type(input: Seq<RoomData>, out: Seq<RoomData>, i: int) -> RoomType {
    let t = input[i].room_type;
    if t == RoomType::Reward {
        if reward_before(input, i) { RoomType::Normal } else { RoomType::Reward }
    } else if is_special(t) {
        if last_non_start_special(out, i) { RoomType::Normal } else { t }
    } else {
        t
    }
}

/// `out` keeps the ids and exits of `input`, and a room whose type changed lost its mystery flag.
pub open spec fn same_rooms_except_types(input: Seq<RoomData>, out: Seq<RoomData>) -> bool {
    &&& out.len() == input.len()
    &&& forall|i: int| 0 <= i < input.len() ==> {
        &&& #[trigger] out[i].id == input[i].id
        &&& out[i].connections.exits@ == input[i].connections.exits@
        &&& out[i].mystery == (if out[i].room_type == input[i].room_type { input[i].mystery } else { false })
    }
}

/// The result of the first pass of the room rules.
pub open spec fn first_pass_result(input: Seq<RoomData>, out: Seq<RoomData>) -> bool {
    &&& same_rooms_except_types(input, out)
    &&& forall|i: int| 0 <= i < input.len() ==> #[trigger] out[i].room_type == first_pass_type(input, out, i)
}

/// `out` is `input` after the floor's room rules: the two passes, and what follows from them.
pub open spec fn room_rules_applied(input: Seq<RoomData>, out: Seq<RoomData>) -> bool {
    &&& exists|mid: Seq<RoomData>| first_pass_result(input, mid) && #[trigger] second_pass_result(mid, out)
    &&& same_rooms_except_types(input, out)
    &&& at_most_one_reward(out)
    &&& no_consecutive_specials(out)
    &&& has_fightable_room(input) ==> has_room_type(out, RoomType::Normal)
    &&& forall|i: int| 0 <= i < input.len() ==> (#[trigger] out[i].room_type == input[i].room_type
        || (out[i].room_type == RoomType::Normal && input[i].room_type != RoomType::Normal
            && input[i].room_type != RoomType::Start && input[i].room_type != RoomType::Boss))
}

/// The index of the first room that is neither a start nor a boss room.
pub open spec fn first_fightable(s: Seq<RoomData>, k: int) -> bool {
    &&& 0 <= k < s.len()
    &&& !(s[k].room_type == RoomType::Start || s[k].room_type == RoomType::Boss)
    &&& forall|j: int| 0 <= j < k ==> (#[trigger] s[j].room_type == RoomType::Start || s[j].room_type == RoomType::Boss)
}

/// The result of the second pass: when no normal room is left, the first room that is
/// neither start nor boss becomes a normal room; otherwise nothing changes.
pub open spec fn second_pass_result(mid: Seq<RoomData>, out: Seq<RoomData>) -> bool {
    &&& same_rooms_except_types(mid, out)
    &&& if has_room_type(mid, RoomType::Normal) || !has_fightable_room(mid) {
        forall|i: int| 0 <= i < mid.len() ==> #[trigger] out[i].room_type == mid[i].room_type
    } else {
        exists|k: int| #[trigger] first_fightable(mid, k) && forall|i: int| 0 <= i < mid.len() ==>
            #[trigger] out[i].room_type == (if i == k { RoomType::Normal } else { mid[i].room_type })
    }
}

/// Weight of a room type in the weighted pick for a layer of a floor.
pub open spec fn room_weight_spec(room_type: RoomType, layer_index: int, floor: int) -> u32 {
    match room_type {
        RoomType::Normal => if layer_index <= 2 { 6 } else if floor >= 4 { 4 } else { 5 },
        RoomType::Shop => if layer_index == 2 { 1 } else { 2 },
        RoomType::Event => 2,
        RoomType::Reward => 1,
        RoomType::Elite => if floor >= 2 { 2 } else { 0 },
        RoomType::Start | RoomType::Boss => 0,
    }
}

/// The weights of the layer pick: elite rooms weigh 2 from the second floor on and nothing
/// before it; start and boss rooms are never drawn; event rooms weigh 2 and reward rooms 1
/// everywhere; a shop weighs 2 except on the second layer, where it weighs 1; and a normal
/// room weighs 6 on the first two layers, then 5, or 4 from the fourth floor on, so it
/// outweighs every other room type on every layer of every floor.
pub proof fn lemma_room_weights(layer_index: int, floor: int)
    ensures
        floor >= 2 ==> room_weight_spec(RoomType::Elite, layer_index, floor) == 2,
        floor < 2 ==> room_weight_spec(RoomType::Elite, layer_index, floor) == 0,
        room_weight_spec(RoomType::Start, layer_index, floor) == 0,
        room_weight_spec(RoomType::Boss, layer_index, floor) == 0,
        room_weight_spec(RoomType::Event, layer_index, floor) == 2,
        room_weight_spec(RoomType::Reward, layer_index, floor) == 1,
        room_weight_spec(RoomType::Shop, layer_index, floor) == if layer_index == 2 { 1u32 } else { 2u32 },
        layer_index <= 2 ==> room_weight_spec(RoomType::Normal, layer_index, floor) == 6,
        layer_index > 2 && floor >= 4 ==> room_weight_spec(RoomType::Normal, layer_index, floor) == 4,
        layer_index > 2 && floor < 4 ==> room_weight_spec(RoomType::Normal, layer_index, floor) == 5,
        forall|t: RoomType| t != RoomType::Normal ==>
            #[trigger] room_weight_spec(t, layer_index, floor) < room_weight_spec(RoomType::Normal, layer_index, floor),
{
}

/// Going to a deeper floor never makes an elite room less likely to be drawn on a layer.
pub proof fn lemma_elite_weight_grows_with_floor(layer_index: int, f1: int, f2: int)
    requires
        f1 <= f2,
    ensures
        room_weight_spec(RoomType::Elite, layer_index, f1) <= room_weight_spec(RoomType::Elite, layer_index, f2),
        f2 >= 2 ==> room_weight_spec(RoomType::Elite, layer_index, f2) > 0,
{
}

/// Weight of `room_type` when picking the rooms of layer `layer_index` on `floor`.
pub fn room_weight(room_type: RoomType, layer_index: usize, floor: u32) -> (w: u32)
    ensures
        w == room_weight_spec(room_type, layer_index as int, floor as int),
{
    match room_type {
        RoomType::Normal => {
            if layer_index <= 2 {
                6
            } else if floor >= 4 {
                4
            } else {
                5
            }
        },
        RoomType::Shop => {
            if layer_index == 2 {
                1
            } else {
                2
            }
        },
        RoomType::Event => 2,
        RoomType::Reward => 1,
        RoomType::Start | RoomType::Boss | RoomType::Elite => {
            if floor >= 2 && room_type == RoomType::Elite {
                2
            } else {
                0
            }
        },
    }
}

/// The exit sides used for a layer of `width` rooms.
pub open spec fn directions_spec(width: int) -> Seq<Direction> {
    if width <= 0 {
        seq![]
    } else if width == 1 {
        seq![Direction::Right]
    } else if width == 2 {
        seq![Direction::Left, Direction::Right]
    } else {
        seq![Direction::Left, Direction::Up, Direction::Right]
    }
}

/// The exit sides used for a layer of `width` rooms.
pub fn directions_for_width(width: usize) -> (v: Vec<Direction>)
    ensures
        v@ == directions_spec(width as int),
{
    if width == 0 {
        Vec::new()
    } else if width == 1 {
        vec![Direction::Right]
    } else if width == 2 {
        vec![Direction::Left, Direction::Right]
    } else {
        vec![Direction::Left, Direction::Up, Direction::Right]
    }
}

pub open spec fn opposite_spec(dir: Direction) -> Direction {
    match dir {
        Direction::Up => Direction::Down,
        Direction::Down => Direction::Up,
        Direction::Left => Direction::Right,
        Direction::Right => Direction::Left,
    }
}

/// The side opposite to `dir`.
pub fn opposite_direction(dir: Direction) -> (d: Direction)
    ensures
        d == opposite_spec(dir),
{
    match dir {
        Direction::Up => Direction::Down,
        Direction::Down => Direction::Up,
        Direction::Left => Direction::Right,
        Direction::Right => Direction::Left,
    }
}

/// Turning around twice faces the same side again.
pub proof fn lemma_opposite_involution(dir: Direction)
    ensures
        opposite_spec(opposite_spec(dir)) == dir,
{
}

/// A room with the given id, type, mystery flag and exits.
pub fn make_room(id: RoomId, room_type: RoomType, mystery: bool, exits: Vec<(Direction, RoomId)>) -> (r: RoomData)
    ensures
        r.id == id,
        r.room_type == room_type,
        r.mystery == mystery,
        r.connections.exits@ == exits@,
{
    RoomData { id, room_type, mystery, connections: RoomConnections { exits } }
}

impl FloorLayout {
    /// The first room of the floor with id `id`, if there is one.
    pub fn room(&self, id: RoomId) -> (r: Option<&RoomData>)
        ensures
            match r {
                Some(room) => exists|k: int|
                    0 <= k < self.rooms@.len() && self.rooms@[k] == *room && room.id == id
                        && forall|j: int| 0 <= j < k ==> #[trigger] self.rooms@[j].id != id,
                None => forall|j: int| 0 <= j < self.rooms@.len() ==> #[trigger] self.rooms@[j].id != id,
            },
    {
        let mut k: usize = 0;
        while k < self.rooms.len()
            invariant
                k <= self.rooms@.len(),
                forall|j: int| 0 <= j < k ==> #[trigger] self.rooms@[j].id != id,
            decreases self.rooms@.len() - k,
        {
            if self.rooms[k].id.0 == id.0 {
                return Some(&self.rooms[k]);
            }
            k = k + 1;
        }
        None
    }
}

/// The exits of room `i` of a straight corridor of `count` rooms.
pub open spec fn linear_exits(i: int, count: int) -> Seq<(Direction, RoomId)> {
    let left: Seq<(Direction, RoomId)> = if i > 0 { seq![(Direction::Left, RoomId((i - 1) as u32))] } else { seq![] };
    if i + 1 < count { left.push((Direction::Right, RoomId((i + 1) as u32))) } else { left }
}

/// Room `i` of a straight corridor built from `sequence`.
pub open spec fn linear_room_ok(r: RoomData, i: int, sequence: Seq<GeneratedRoom>) -> bool {
    &&& r.id == RoomId(i as u32)
    &&& r.room_type == sequence[i].room_type
    &&& r.mystery == sequence[i].mystery
    &&& r.connections.exits@ == linear_exits(i, sequence.len() as int)
}

/// Rooms of a straight corridor: room `i` has id `i`, the type from the sequence, and
/// exits to its left and right neighbours.
pub fn linear_rooms(sequence: Vec<GeneratedRoom>) -> (rooms: Vec<RoomData>)
    requires
        sequence@.len() <= u32::MAX,
    ensures
        rooms@.len() == sequence@.len(),
        forall|i: int| 0 <= i < rooms@.len() ==> linear_room_ok(#[trigger] rooms@[i], i, sequence@),
{
    let count = sequence.len();
    let mut rooms: Vec<RoomData> = Vec::new();
    let mut i: usize = 0;
    while i < count
        invariant
            count == sequence@.len(),
            count <= u32::MAX,
            i <= count,
            rooms@.len() == i,
            forall|k: int| 0 <= k < i ==> linear_room_ok(#[trigger] rooms@[k], k, sequence@),
        decreases count - i,
    {
        let room = sequence[i];
        let mut exits: Vec<(Direction, RoomId)> = Vec::new();
        if i > 0 {
            exits.push((Direction::Left, RoomId((i - 1) as u32)));
        }
        if i + 1 < count {
            exits.push((Direction::Right, RoomId((i + 1) as u32)));
        }
        proof {
            assert(exits@ =~= linear_exits(i as int, count as int));
        }
        let r = make_room(RoomId(i as u32), room.room_type, room.mystery, exits);
        assert(linear_room_ok(r, i as int, sequence@));
        rooms.push(r);
        i = i + 1;
    }
    rooms
}

/// `last_non_start_special` at index `i` only looks at the room types before `i`.
pub proof fn lemma_lnss_prefix(a: Seq<RoomData>, b: Seq<RoomData>, i: int)
    requires
        0 <= i <= a.len(),
        i <= b.len(),
        forall|j: int| 0 <= j < i ==> #[trigger] a[j].room_type == b[j].room_type,
    ensures
        last_non_start_special(a, i) == last_non_start_special(b, i),
    decreases i,
{
    if i > 0 {
        lemma_lnss_prefix(a, b, i - 1);
    }
}

/// Whether some room of `v` before index `n` is a normal room.
fn any_normal(v: &Vec<RoomData>) -> (b: bool)
    ensures
        b == has_room_type(v@, RoomType::Normal),
{
    let mut k: usize = 0;
    while k < v.len()
        invariant
            k <= v@.len(),
            forall|j: int| 0 <= j < k ==> #[trigger] v@[j].room_type != RoomType::Normal,
        decreases v@.len() - k,
    {
        if v[k].room_type == RoomType::Normal {
            return true;
        }
        k = k + 1;
    }
    false
}

/// Turn room `k` into a normal room that is no mystery.
fn demote_to_normal(rooms: &mut Vec<RoomData>, k: usize)
    requires
        k < old(rooms)@.len(),
    ensures
        final(rooms)@.len() == old(rooms)@.len(),
        final(rooms)@[k as int].room_type == RoomType::Normal,
        final(rooms)@[k as int].mystery == false,
        final(rooms)@[k as int].id == old(rooms)@[k as int].id,
        final(rooms)@[k as int].connections.exits@ == old(rooms)@[k as int].connections.exits@,
        forall|j: int| 0 <= j < old(rooms)@.len() && j != k ==> #[trigger] final(rooms)@[j] == old(rooms)@[j],
{
    let mut room = rooms.remove(k);
    room.room_type = RoomType::Normal;
    room.mystery = false;
    rooms.insert(k, room);
}

/// The first pass of the room rules: later reward rooms and special rooms that follow
/// another special room become normal rooms.
fn apply_special_rules(rooms: Vec<RoomData>) -> (out: Vec<RoomData>)
    ensures
        first_pass_result(rooms@, out@),
{
    let ghost input = rooms@;
    let mut rooms = rooms;
    let mut reward_kept = false;
    let mut previous_special = false;
    let mut i: usize = 0;
    while i < rooms.len()
        invariant
            rooms@.len() == input.len(),
            i <= input.len(),
            reward_kept == reward_before(input, i as int),
            previous_special == last_non_start_special(rooms@, i as int),
            forall|j: int| i <= j < input.len() ==> #[trigger] rooms@[j] == input[j],
            same_rooms_except_types(input, rooms@),
            forall|j: int| 0 <= j < i ==> #[trigger] rooms@[j].room_type == first_pass_type(input, rooms@, j),
        decreases input.len() - i,
    {
        let ghost before = rooms@;
        let t = rooms[i].room_type;
        if t == RoomType::Reward {
            if reward_kept {
                demote_to_normal(&mut rooms, i);
            } else {
                reward_kept = true;
            }
        } else if t == RoomType::Shop || t == RoomType::Event {
            if previous_special {
                demote_to_normal(&mut rooms, i);
            }
        }
        let nt = rooms[i].room_type;
        if nt == RoomType::Shop || nt == RoomType::Event {
            previous_special = true;
        } else if nt != RoomType::Start {
            previous_special = false;
        }
        proof {
            assert forall|j: int| 0 <= j < input.len() implies {
                &&& #[trigger] rooms@[j].id == input[j].id
                &&& rooms@[j].connections.exits@ == input[j].connections.exits@
                &&& rooms@[j].mystery == (if rooms@[j].room_type == input[j].room_type { input[j].mystery } else { false })
            } by {
                if j != i {
                    assert(rooms@[j] == before[j]);
                    assert(before[j].id == input[j].id);
                } else {
                    assert(before[j] == input[j]);
                }
            }
            assert(same_rooms_except_types(input, rooms@));
            assert forall|j: int| 0 <= j <= i implies #[trigger] rooms@[j].room_type == before[j].room_type || j == i by {}
            lemma_lnss_prefix(rooms@, before, i as int);
            assert(rooms@[i as int].room_type == first_pass_type(input, rooms@, i as int));
            assert forall|j: int| 0 <= j < i + 1 implies #[trigger] rooms@[j].room_type == first_pass_type(input, rooms@, j) by {
                if j < i {
                    lemma_lnss_prefix(rooms@, before, j);
                    assert(before[j].room_type == first_pass_type(input, before, j));
                }
            }
            assert(reward_kept == reward_before(input, i + 1)) by {
                if input[i as int].room_type == RoomType::Reward {
                    assert(input[i as int].room_type == RoomType::Reward);
                }
            }
            assert(previous_special == last_non_start_special(rooms@, i + 1));
        }
        i = i + 1;
    }
    rooms
}

/// The first pass leaves at most one reward room and no special room right after another.
pub proof fn lemma_first_pass_laws(input: Seq<RoomData>, out: Seq<RoomData>)
    requires
        first_pass_result(input, out),
    ensures
        at_most_one_reward(out),
        no_consecutive_specials(out),
        forall|i: int| 0 <= i < input.len() ==> (#[trigger] out[i].room_type == input[i].room_type
            || (out[i].room_type == RoomType::Normal && input[i].room_type != RoomType::Normal
                && input[i].room_type != RoomType::Start && input[i].room_type != RoomType::Boss)),
{
    assert forall|i: int, j: int| 0 <= i < j < out.len() implies !(#[trigger] out[i].room_type == RoomType::Reward
        && #[trigger] out[j].room_type == RoomType::Reward) by {
        if out[i].room_type == RoomType::Reward && out[j].room_type == RoomType::Reward {
            assert(out[i].room_type == first_pass_type(input, out, i));
            assert(out[j].room_type == first_pass_type(input, out, j));
            assert(input[i].room_type == RoomType::Reward);
            assert(reward_before(input, j));
        }
    }
    assert forall|i: int| 0 <= i < out.len() && #[trigger] is_special(out[i].room_type) implies !last_non_start_special(out, i) by {
        assert(out[i].room_type == first_pass_type(input, out, i));
    }
    assert forall|i: int| 0 <= i < input.len() implies (#[trigger] out[i].room_type == input[i].room_type
        || (out[i].room_type == RoomType::Normal && input[i].room_type != RoomType::Normal
            && input[i].room_type != RoomType::Start && input[i].room_type != RoomType::Boss)) by {
        assert(out[i].room_type == first_pass_type(input, out, i));
    }
}

/// Making one non-start room a normal room never makes a later room follow a special room.
pub proof fn lemma_lnss_after_demotion(mid: Seq<RoomData>, out: Seq<RoomData>, k: int, i: int)
    requires
        mid.len() == out.len(),
        0 <= k < mid.len(),
        0 <= i <= mid.len(),
        mid[k].room_type != RoomType::Start,
        out[k].room_type == RoomType::Normal,
        forall|j: int| 0 <= j < mid.len() && j != k ==> #[trigger] out[j].room_type == mid[j].room_type,
    ensures
        last_non_start_special(out, i) ==> last_non_start_special(mid, i),
    decreases i,
{
    if i > 0 {
        lemma_lnss_after_demotion(mid, out, k, i - 1);
    }
}

/// Index of the first room that is neither a start nor a boss room, if any.
fn find_first_fightable(v: &Vec<RoomData>) -> (r: Option<usize>)
    ensures
        match r {
            Some(k) => first_fightable(v@, k as int),
            None => !has_fightable_room(v@),
        },
{
    let mut k: usize = 0;
    while k < v.len()
        invariant
            k <= v@.len(),
            forall|j: int| 0 <= j < k ==> (#[trigger] v@[j].room_type == RoomType::Start || v@[j].room_type == RoomType::Boss),
        decreases v@.len() - k,
    {
        let t = v[k].room_type;
        if !(t == RoomType::Start || t == RoomType::Boss) {
            return Some(k);
        }
        k = k + 1;
    }
    None
}

/// The second pass of the room rules: a floor with no normal room gets one.
fn ensure_normal_room(rooms: Vec<RoomData>) -> (out: Vec<RoomData>)
    ensures
        second_pass_result(rooms@, out@),
{
    let ghost mid = rooms@;
    let mut rooms = rooms;
    if !any_normal(&rooms) {
        if let Some(k) = find_first_fightable(&rooms) {
            demote_to_normal(&mut rooms, k);
            proof {
                assert forall|i: int| 0 <= i < mid.len() implies
                    #[trigger] rooms@[i].room_type == (if i == k { RoomType::Normal } else { mid[i].room_type }) by {}
                assert(first_fightable(mid, k as int));
            }
        }
    }
    rooms
}

/// Two rounds of demotions to normal rooms keep ids and exits, and clear the mystery flag
/// of every room whose type changed.
proof fn lemma_compose_same_rooms(input: Seq<RoomData>, mid: Seq<RoomData>, out: Seq<RoomData>)
    requires
        same_rooms_except_types(input, mid),
        same_rooms_except_types(mid, out),
        forall|i: int| 0 <= i < input.len() ==> (#[trigger] mid[i].room_type == input[i].room_type
            || (mid[i].room_type == RoomType::Normal && input[i].room_type != RoomType::Normal)),
        forall|i: int| 0 <= i < mid.len() ==> (#[trigger] out[i].room_type == mid[i].room_type
            || (out[i].room_type == RoomType::Normal && mid[i].room_type != RoomType::Normal)),
    ensures
        same_rooms_except_types(input, out),
{
    assert forall|i: int| 0 <= i < input.len() implies {
        &&& #[trigger] out[i].id == input[i].id
        &&& out[i].connections.exits@ == input[i].connections.exits@
        &&& out[i].mystery == (if out[i].room_type == input[i].room_type { input[i].mystery } else { false })
    } by {
        assert(out[i].id == mid[i].id);
        assert(mid[i].id == input[i].id);
        assert(mid[i].room_type == input[i].room_type
            || (mid[i].room_type == RoomType::Normal && input[i].room_type != RoomType::Normal));
        assert(out[i].room_type == mid[i].room_type
            || (out[i].room_type == RoomType::Normal && mid[i].room_type != RoomType::Normal));
    }
}

/// The room rules, which among others keep at most one reward room on a floor.
pub fn enforce_reward_room_rules(rooms: Vec<RoomData>) -> (out: Vec<RoomData>)
    ensures
        room_rules_applied(rooms@, out@),
        at_most_one_reward(out@),
        no_consecutive_specials(out@),
{
    enforce_room_rules(rooms)
}

#[verifier::spinoff_prover]
/// Enforce the floor's room rules: at most one reward room, no shop or event room right
/// after another shop or event room, and at least one normal room when the floor has a
/// room that is neither the start nor a boss room. Rules only turn rooms into normal rooms.
pub fn enforce_room_rules(rooms: Vec<RoomData>) -> (out: Vec<RoomData>)
    ensures
        room_rules_applied(rooms@, out@),
        exists|mid: Seq<RoomData>| first_pass_result(rooms@, mid) && #[trigger] second_pass_result(mid, out@),
        same_rooms_except_types(rooms@, out@),
        at_most_one_reward(out@),
        no_consecutive_specials(out@),
        has_fightable_room(rooms@) ==> has_room_type(out@, RoomType::Normal),
        forall|i: int| 0 <= i < rooms@.len() ==> (#[trigger] out@[i].room_type == rooms@[i].room_type
            || (out@[i].room_type == RoomType::Normal && rooms@[i].room_type != RoomType::Normal
                && rooms@[i].room_type != RoomType::Start && rooms@[i].room_type != RoomType::Boss)),
{
    let ghost input = rooms@;
    let mid = apply_special_rules(rooms);
    let ghost midv = mid@;
    proof {
        lemma_first_pass_laws(input, midv);
    }
    let out = ensure_normal_room(mid);
    proof {
        let o = out@;
        if has_room_type(midv, RoomType::Normal) || !has_fightable_room(midv) {
            assert(forall|i: int| 0 <= i < midv.len() ==> #[trigger] o[i].room_type == midv[i].room_type);
            assert forall|i: int, j: int| 0 <= i < j < o.len() implies !(#[trigger] o[i].room_type == RoomType::Reward
                && #[trigger] o[j].room_type == RoomType::Reward) by {
                assert(o[i].room_type == midv[i].room_type);
                assert(o[j].room_type == midv[j].room_type);
            }
            assert forall|i: int| 0 <= i < o.len() && #[trigger] is_special(o[i].room_type) implies !last_non_start_special(o, i) by {
                assert(o[i].room_type == midv[i].room_type);
                lemma_lnss_prefix(o, midv, i);
            }
            if has_fightable_room(input) {
                let w = choose|i: int| 0 <= i < input.len() && !(#[trigger] input[i].room_type == RoomType::Start || input[i].room_type == RoomType::Boss);
                assert(midv[w].room_type == input[w].room_type || midv[w].room_type == RoomType::Normal);
                assert(!(midv[w].room_type == RoomType::Start || midv[w].room_type == RoomType::Boss));
                assert(has_fightable_room(midv));
                let n = choose|i: int| 0 <= i < midv.len() && #[trigger] midv[i].room_type == RoomType::Normal;
                assert(o[n].room_type == RoomType::Normal);
            }
        } else {
            let k = choose|k: int| #[trigger] first_fightable(midv, k) && forall|i: int| 0 <= i < midv.len() ==>
                #[trigger] o[i].room_type == (if i == k { RoomType::Normal } else { midv[i].room_type });
            assert(o[k].room_type == RoomType::Normal);
            assert forall|i: int, j: int| 0 <= i < j < o.len() implies !(#[trigger] o[i].room_type == RoomType::Reward
                && #[trigger] o[j].room_type == RoomType::Reward) by {
                assert(o[i].room_type == (if i == k { RoomType::Normal } else { midv[i].room_type }));
                assert(o[j].room_type == (if j == k { RoomType::Normal } else { midv[j].room_type }));
            }
            assert forall|i: int| 0 <= i < o.len() && #[trigger] is_special(o[i].room_type) implies !last_non_start_special(o, i) by {
                assert(o[i].room_type == (if i == k { RoomType::Normal } else { midv[i].room_type }));
                lemma_lnss_after_demotion(midv, o, k, i);
            }
            assert(has_room_type(o, RoomType::Normal));
        }
        assert forall|i: int| 0 <= i < midv.len() implies (#[trigger] o[i].room_type == midv[i].room_type
            || (o[i].room_type == RoomType::Normal && midv[i].room_type != RoomType::Normal)) by {
            if has_room_type(midv, RoomType::Normal) || !has_fightable_room(midv) {
            } else {
                let k = choose|k: int| #[trigger] first_fightable(midv, k) && forall|i: int| 0 <= i < midv.len() ==>
                    #[trigger] o[i].room_type == (if i == k { RoomType::Normal } else { midv[i].room_type });
                assert(o[i].room_type == (if i == k { RoomType::Normal } else { midv[i].room_type }));
                if midv[i].room_type == RoomType::Normal {
                    assert(has_room_type(midv, RoomType::Normal));
                }
            }
        }
        lemma_compose_same_rooms(input, midv, o);
        assert forall|i: int| 0 <= i < input.len() implies (#[trigger] o[i].room_type == input[i].room_type
            || (o[i].room_type == RoomType::Normal && input[i].room_type != RoomType::Normal
                && input[i].room_type != RoomType::Start && input[i].room_type != RoomType::Boss)) by {
            assert(midv[i].room_type == input[i].room_type || (midv[i].room_type == RoomType::Normal && input[i].room_type != RoomType::Normal
                && input[i].room_type != RoomType::Start && input[i].room_type != RoomType::Boss));
            assert(o[i].id == midv[i].id);
        }
    }
    out
}

/// Room types the weighted pick may choose for a layer.
pub open spec fn is_layer_candidate(t: RoomType) -> bool {
    t == RoomType::Normal || t == RoomType::Shop || t == RoomType::Event || t == RoomType::Reward
        || t == RoomType::Elite
}

/// How many rooms a layer of the branching floor has: two (58 in 100) or three. The draw
/// is the generator's next value modulo 100.
pub fn branch_width(rng: &mut GameRng) -> (w: usize)
    ensures
        w == 2 || w == 3,
        w == if xorshift_step(old(rng).state()) % 100 < 58 { 2usize } else { 3usize },
        final(rng).state() == xorshift_step(old(rng).state()),
{
    if rng.gen_below(100) < 58 {
        2
    } else {
        3
    }
}

/// Whether `t` is one of the types in `v`.
fn contains_type(v: &Vec<RoomType>, t: RoomType) -> (b: bool)
    ensures
        b == v@.contains(t),
{
    let mut k: usize = 0;
    while k < v.len()
        invariant
            k <= v@.len(),
            forall|j: int| 0 <= j < k ==> #[trigger] v@[j] != t,
        decreases v@.len() - k,
    {
        if v[k] == t {
            proof {
                assert(v@[k as int] == t);
            }
            return true;
        }
        k = k + 1;
    }
    false
}

/// The room types a layer's weighted pick goes through, in order.
pub open spec fn layer_candidates() -> Seq<RoomType> {
    seq![RoomType::Normal, RoomType::Shop, RoomType::Event, RoomType::Reward, RoomType::Elite]
}

/// The weight of the first `c` candidates that are not yet among `chosen`.
pub open spec fn unchosen_weight(chosen: Seq<RoomType>, c: int, layer_index: int, floor: int) -> int
    decreases c,
{
    if c <= 0 {
        0
    } else {
        unchosen_weight(chosen, c - 1, layer_index, floor) + if chosen.contains(layer_candidates()[c - 1]) {
            0int
        } else {
            room_weight_spec(layer_candidates()[c - 1], layer_index, floor) as int
        }
    }
}

/// Every candidate not yet among `chosen` has weight 0.
pub open spec fn all_unchosen_weightless(chosen: Seq<RoomType>, layer_index: int, floor: int) -> bool {
    forall|t: RoomType| is_layer_candidate(t) && !chosen.contains(t) ==> #[trigger] room_weight_spec(t, layer_index, floor) == 0
}

/// A type the weighted pick may add after `chosen`: a candidate not yet chosen and of positive
/// weight, or a normal room when every candidate left has weight 0.
pub open spec fn weighted_pick_ok(chosen: Seq<RoomType>, t: RoomType, layer_index: int, floor: int) -> bool {
    ||| is_layer_candidate(t) && !chosen.contains(t) && room_weight_spec(t, layer_index, floor) > 0
    ||| t == RoomType::Normal && all_unchosen_weightless(chosen, layer_index, floor)
}

/// The picks of a layer in the order drawn: a normal room first, then each type as the
/// weighted pick may add it after the ones before.
pub open spec fn layer_draw_ok(sel: Seq<RoomType>, layer_index: int, floor: int) -> bool {
    &&& sel.len() >= 1
    &&& sel[0] == RoomType::Normal
    &&& forall|k: int| 1 <= k < sel.len() ==> #[trigger] weighted_pick_ok(sel.take(k), sel[k], layer_index, floor)
}

/// The candidates' weights add up to 0 only when each candidate left has weight 0.
proof fn lemma_no_weight_left(chosen: Seq<RoomType>, layer_index: int, floor: int)
    requires
        unchosen_weight(chosen, 5, layer_index, floor) == 0,
    ensures
        all_unchosen_weightless(chosen, layer_index, floor),
{
    reveal_with_fuel(unchosen_weight, 6);
    assert forall|t: RoomType| is_layer_candidate(t) && !chosen.contains(t) implies #[trigger] room_weight_spec(t, layer_index, floor) == 0 by {
        assert(layer_candidates()[0] == RoomType::Normal);
        assert(layer_candidates()[1] == RoomType::Shop);
        assert(layer_candidates()[2] == RoomType::Event);
        assert(layer_candidates()[3] == RoomType::Reward);
        assert(layer_candidates()[4] == RoomType::Elite);
    }
}

/// `max(width, 1)` room types for a layer, drawn by weight without repeating a type
/// (a normal room is always among them), in random order.
pub fn pick_weighted_unique_room_types(width: usize, layer_index: usize, floor: u32, rng: &mut GameRng) -> (v: Vec<RoomType>)
    ensures
        v@.len() == if width >= 1 { width as int } else { 1 },
        v@.contains(RoomType::Normal),
        forall|i: int| 0 <= i < v@.len() ==> is_layer_candidate(#[trigger] v@[i]),
        exists|sel: Seq<RoomType>| #[trigger] layer_draw_ok(sel, layer_index as int, floor as int)
            && v@.to_multiset() == sel.to_multiset(),
        forall|i: int| 0 <= i < v@.len() ==> #[trigger] v@[i] == RoomType::Normal
            || room_weight_spec(v@[i], layer_index as int, floor as int) > 0,
{
    let candidates = [RoomType::Normal, RoomType::Shop, RoomType::Event, RoomType::Reward, RoomType::Elite];
    let mut selected: Vec<RoomType> = Vec::new();
    selected.push(RoomType::Normal);
    proof {
        assert(selected@[0] == RoomType::Normal);
    }
    while selected.len() < width
        invariant
            1 <= selected@.len() <= if width >= 1 { width as int } else { 1 },
            selected@[0] == RoomType::Normal,
            forall|i: int| 0 <= i < selected@.len() ==> is_layer_candidate(#[trigger] selected@[i]),
            layer_draw_ok(selected@, layer_index as int, floor as int),
            candidates@ == layer_candidates(),
        decreases width - selected@.len(),
    {
        let mut total: u32 = 0;
        let mut c: usize = 0;
        while c < 5
            invariant
                c <= 5,
                total <= 6 * c,
                total == unchosen_weight(selected@, c as int, layer_index as int, floor as int),
                candidates@ == layer_candidates(),
            decreases 5 - c,
        {
            let t = candidates[c];
            if !contains_type(&selected, t) {
                total = total + room_weight(t, layer_index, floor);
            }
            c = c + 1;
        }
        let ghost raw = total;
        if total == 0 {
            total = 1;
        }
        let pick0: u32 = rng.gen_below(total as u64) as u32;
        let mut pick: u32 = pick0;
        let mut chosen = RoomType::Normal;
        let mut found = false;
        let mut c: usize = 0;
        while c < 5
            invariant
                c <= 5,
                is_layer_candidate(chosen),
                candidates@ == layer_candidates(),
                found ==> !selected@.contains(chosen) && room_weight_spec(chosen, layer_index as int, floor as int) > 0,
                !found ==> chosen == RoomType::Normal
                    && pick0 == pick + unchosen_weight(selected@, c as int, layer_index as int, floor as int),
            decreases 5 - c,
        {
            let t = candidates[c];
            if !found && !contains_type(&selected, t) {
                let weight = room_weight(t, layer_index, floor);
                if pick < weight {
                    chosen = t;
                    found = true;
                } else {
                    pick = pick - weight;
                }
            }
            c = c + 1;
        }
        proof {
            if !found {
                assert(raw == 0);
                lemma_no_weight_left(selected@, layer_index as int, floor as int);
            }
            assert(weighted_pick_ok(selected@, chosen, layer_index as int, floor as int));
        }
        let ghost before_sel = selected@;
        selected.push(chosen);
        proof {
            assert(selected@.take(before_sel.len() as int) =~= before_sel);
            assert forall|k: int| 1 <= k < selected@.len() implies #[trigger] weighted_pick_ok(selected@.take(k), selected@[k], layer_index as int, floor as int) by {
                if k < before_sel.len() {
                    assert(selected@.take(k) =~= before_sel.take(k));
                    assert(weighted_pick_ok(before_sel.take(k), before_sel[k], layer_index as int, floor as int));
                }
            }
        }
    }
    let ghost before = selected@;
    let out = rng.shuffled(selected);
    proof {
        broadcast use vstd::seq_lib::group_to_multiset_ensures;
        assert(layer_draw_ok(before, layer_index as int, floor as int));
        assert(before.contains(RoomType::Normal)) by {
            assert(before[0] == RoomType::Normal);
        }
        assert(out@.to_multiset().count(RoomType::Normal) > 0);
        assert forall|i: int| 0 <= i < out@.len() implies is_layer_candidate(#[trigger] out@[i]) by {
            assert(out@.contains(out@[i]));
            assert(before.to_multiset().count(out@[i]) > 0);
            assert(before.contains(out@[i]));
        }
        assert forall|i: int| 0 <= i < out@.len() implies #[trigger] out@[i] == RoomType::Normal
            || room_weight_spec(out@[i], layer_index as int, floor as int) > 0 by {
            assert(out@.contains(out@[i]));
            assert(before.to_multiset().count(out@[i]) > 0);
            assert(before.contains(out@[i]));
            let k = choose|k: int| 0 <= k < before.len() && before[k] == out@[i];
            if k >= 1 {
                assert(weighted_pick_ok(before.take(k), before[k], layer_index as int, floor as int));
            }
        }
    }
    out
}

/// The rooms of layer `layer_index` of a branching floor. The first layer after the
/// entrance is all normal rooms; later layers are drawn by weight, and their event
/// rooms are mystery rooms.
pub fn build_layer_rooms(layer_index: usize, width: usize, floor: u32, rng: &mut GameRng) -> (v: Vec<GeneratedRoom>)
    ensures
        v@.len() == if layer_index == 1 || width >= 1 { width as int } else { 1 },
        forall|i: int| 0 <= i < v@.len() ==> is_layer_candidate(#[trigger] v@[i].room_type),
        forall|i: int| 0 <= i < v@.len() ==> #[trigger] v@[i].mystery == (v@[i].room_type == RoomType::Event),
        layer_index == 1 ==> forall|i: int| 0 <= i < v@.len() ==> #[trigger] v@[i].room_type == RoomType::Normal,
        forall|i: int| 0 <= i < v@.len() ==> #[trigger] v@[i].room_type == RoomType::Normal
            || room_weight_spec(v@[i].room_type, layer_index as int, floor as int) > 0,
        layer_index != 1 ==> exists|sel: Seq<RoomType>| #[trigger] layer_draw_ok(sel, layer_index as int, floor as int)
            && v@.map_values(|g: GeneratedRoom| g.room_type).to_multiset() == sel.to_multiset(),
{
    let mut out: Vec<GeneratedRoom> = Vec::new();
    if layer_index == 1 {
        let mut i: usize = 0;
        while i < width
            invariant
                i <= width,
                out@.len() == i,
                forall|k: int| 0 <= k < out@.len() ==> #[trigger] out@[k] == (GeneratedRoom { room_type: RoomType::Normal, mystery: false }),
            decreases width - i,
        {
            out.push(GeneratedRoom { room_type: RoomType::Normal, mystery: false });
            i = i + 1;
        }
        return out;
    }
    let types = pick_weighted_unique_room_types(width, layer_index, floor, rng);
    let mut i: usize = 0;
    while i < types.len()
        invariant
            i <= types@.len(),
            out@.len() == i,
            forall|k: int| 0 <= k < types@.len() ==> is_layer_candidate(#[trigger] types@[k]),
            forall|k: int| 0 <= k < types@.len() ==> #[trigger] types@[k] == RoomType::Normal
                || room_weight_spec(types@[k], layer_index as int, floor as int) > 0,
            forall|k: int| 0 <= k < out@.len() ==> #[trigger] out@[k] == (GeneratedRoom { room_type: types@[k], mystery: types@[k] == RoomType::Event }),
        decreases types@.len() - i,
    {
        let t = types[i];
        out.push(GeneratedRoom { room_type: t, mystery: t == RoomType::Event });
        i = i + 1;
    }
    proof {
        assert(out@.map_values(|g: GeneratedRoom| g.room_type) =~= types@);
        assert forall|k: int| 0 <= k < out@.len() implies #[trigger] out@[k].room_type == RoomType::Normal
            || room_weight_spec(out@[k].room_type, layer_index as int, floor as int) > 0 by {
            assert(out@[k].room_type == types@[k]);
        }
    }
    out
}

/// The exits from a room to the `width` rooms of the next layer, whose ids start at `first`.
pub open spec fn layer_exits_spec(width: int, first: int) -> Seq<(Direction, RoomId)> {
    let dirs = directions_spec(width);
    let n = if dirs.len() < width { dirs.len() as int } else { width };
    Seq::new(n as nat, |i: int| (dirs[i], RoomId((first + i) as u32)))
}

/// The exits from a room to the `width` rooms of the next layer, whose ids start at `first`.
fn layer_exits(width: usize, first: u32) -> (v: Vec<(Direction, RoomId)>)
    requires
        first as int + width <= u32::MAX,
    ensures
        v@ == layer_exits_spec(width as int, first as int),
{
    let dirs = directions_for_width(width);
    let n = if dirs.len() < width { dirs.len() } else { width };
    let mut v: Vec<(Direction, RoomId)> = Vec::new();
    let mut i: usize = 0;
    while i < n
        invariant
            n <= dirs@.len(),
            n <= width,
            first as int + width <= u32::MAX,
            dirs@ == directions_spec(width as int),
            n == (if dirs@.len() < width { dirs@.len() as int } else { width as int }),
            i <= n,
            v@ == layer_exits_spec(width as int, first as int).take(i as int),
        decreases n - i,
    {
        v.push((dirs[i], RoomId(first + i as u32)));
        i = i + 1;
        proof {
            assert(v@ =~= layer_exits_spec(width as int, first as int).take(i as int));
        }
    }
    proof {
        assert(v@ =~= layer_exits_spec(width as int, first as int));
    }
    v
}

/// Every exit of room `k` leads to a later room that exists.
pub open spec fn exits_lead_forward(rooms: Seq<RoomData>, k: int, bound: int) -> bool {
    forall|e: int| 0 <= e < rooms[k].connections.exits@.len() ==>
        k < (#[trigger] rooms[k].connections.exits@[e]).1.0 < bound
}

/// One past the largest id the exits of layer `l - 1` may use, when layer `l` starts at `base`.
pub open spec fn exit_bound(lv: Seq<Vec<GeneratedRoom>>, l: int, base: int) -> int {
    if l < lv.len() { base + lv[l]@.len() } else { base }
}

/// The layers of a branching floor as the generator draws them.
pub open spec fn layers_ok(layers: Seq<Vec<GeneratedRoom>>, layer_count: int) -> bool {
    &&& layers.len() >= 1
    &&& layers[0]@ == seq![GeneratedRoom { room_type: RoomType::Normal, mystery: false }]
    &&& forall|l: int| 0 <= l < layers.len() ==> 1 <= (#[trigger] layers[l])@.len() <= 3
    &&& forall|l: int| 1 <= l < layers.len() ==> 2 <= (#[trigger] layers[l])@.len()
    &&& forall|l: int, r: int| 0 <= l < layers.len() && 0 <= r < layers[l]@.len() ==>
        (#[trigger] layers[l]@[r]).room_type != RoomType::Start
    &&& forall|l: int, r: int| 0 <= l < layers.len() && 0 <= r < layers[l]@.len() ==>
        ((#[trigger] layers[l]@[r]).room_type == RoomType::Boss <==> l == layer_count - 1)
}

/// Boss rooms come last: after the first boss room every room is a boss room.
pub open spec fn bosses_last(rooms: Seq<RoomData>) -> bool {
    forall|i: int, j: int| 0 <= i < j < rooms.len() && (#[trigger] rooms[i]).room_type == RoomType::Boss
        ==> (#[trigger] rooms[j]).room_type == RoomType::Boss
}

/// A room that is neither a start nor a boss room.
pub open spec fn fightable(r: RoomData) -> bool {
    !(r.room_type == RoomType::Start || r.room_type == RoomType::Boss)
}

/// Some room strictly between rooms `i` and `j` is neither a start nor a boss room.
pub open spec fn fightable_between(rooms: Seq<RoomData>, i: int, j: int) -> bool {
    exists|k: int| i < k < j && #[trigger] fightable(rooms[k])
}

/// Between any two shop or event rooms stands a room that is neither a start nor a boss
/// room: with the start and boss rooms taken out, no two shop or event rooms are neighbours.
pub open spec fn specials_apart(rooms: Seq<RoomData>) -> bool {
    forall|i: int, j: int| 0 <= i < j < rooms.len() && is_special(rooms[i].room_type) && is_special(rooms[j].room_type)
        ==> #[trigger] fightable_between(rooms, i, j)
}

/// Going back from `j` over start rooms only, the nearest room that is not a start room is
/// room `i`.
proof fn lemma_lnss_over_starts(s: Seq<RoomData>, i: int, j: int)
    requires
        0 <= i < j <= s.len(),
        s[i].room_type != RoomType::Start,
        forall|k: int| i < k < j ==> (#[trigger] s[k]).room_type == RoomType::Start,
    ensures
        last_non_start_special(s, j) == is_special(s[i].room_type),
    decreases j - i,
{
    if j > i + 1 {
        assert(s[j - 1].room_type == RoomType::Start);
        lemma_lnss_over_starts(s, i, j - 1);
    }
}

/// Two shop or event rooms of such a floor have a fightable room between them.
proof fn lemma_specials_apart_pair(rooms: Seq<RoomData>, i: int, j: int)
    requires
        no_consecutive_specials(rooms),
        bosses_last(rooms),
        0 <= i < j < rooms.len(),
        is_special(rooms[i].room_type),
        is_special(rooms[j].room_type),
    ensures
        fightable_between(rooms, i, j),
{
    if !fightable_between(rooms, i, j) {
        assert forall|k: int| i < k < j implies (#[trigger] rooms[k]).room_type == RoomType::Start by {
            assert(!fightable(rooms[k]));
            if rooms[k].room_type == RoomType::Boss {
                assert(rooms[j].room_type == RoomType::Boss);
            }
        }
        lemma_lnss_over_starts(rooms, i, j);
        assert(is_special(rooms[j].room_type) ==> !last_non_start_special(rooms, j));
    }
}

/// On a floor whose boss rooms come last, the rule that no shop or event room follows another
/// (skipping start rooms) keeps them apart also when boss rooms are taken out.
pub proof fn lemma_specials_apart(rooms: Seq<RoomData>)
    requires
        no_consecutive_specials(rooms),
        bosses_last(rooms),
    ensures
        specials_apart(rooms),
{
    assert forall|i: int, j: int| 0 <= i < j < rooms.len() && is_special(rooms[i].room_type)
        && is_special(rooms[j].room_type) implies #[trigger] fightable_between(rooms, i, j) by {
        lemma_specials_apart_pair(rooms, i, j);
    }
}

/// The shape of a branching floor: room `k` has id `k`, the entrance is room 0 and is the
/// only start room, room 1 is a normal room, the last room is a boss room, boss rooms are
/// the only rooms without exits and come last, and every exit leads to a later room of the
/// floor.
pub open spec fn branching_shape(rooms: Seq<RoomData>) -> bool {
    &&& rooms.len() >= 2
    &&& bosses_last(rooms)
    &&& forall|k: int| 0 <= k < rooms.len() ==> (#[trigger] rooms[k]).id == RoomId(k as u32)
    &&& rooms[0].room_type == RoomType::Start
    &&& rooms[1].room_type == RoomType::Normal
    &&& rooms[rooms.len() - 1].room_type == RoomType::Boss
    &&& forall|k: int| 1 <= k < rooms.len() ==> (#[trigger] rooms[k]).room_type != RoomType::Start
    &&& forall|k: int| 0 <= k < rooms.len() ==> ((#[trigger] rooms[k]).room_type == RoomType::Boss
        <==> rooms[k].connections.exits@.len() == 0)
    &&& forall|k: int| 0 <= k < rooms.len() ==> #[trigger] exits_lead_forward(rooms, k, rooms.len() as int)
}

/// A branching floor: an entrance, then `max(total_rooms, 7) - 1` layers of two or three
/// rooms (one normal room first), every room leading to all rooms of the next layer, and
/// a last layer of boss rooms.
pub fn branching_rooms(total_rooms: u32, floor: u32, rng: &mut GameRng) -> (rooms: Vec<RoomData>)
    requires
        3 * (total_rooms as int) < u32::MAX,
    ensures
        branching_shape(rooms@),
        rooms@.len() >= 2 * ((if total_rooms >= 7 { total_rooms as int } else { 7 }) - 1),
        floor < 2 ==> !has_room_type(rooms@, RoomType::Elite),
{
    let layer_count: usize = if total_rooms >= 7 { (total_rooms - 1) as usize } else { 6 };
    let mut layers: Vec<Vec<GeneratedRoom>> = Vec::new();
    let first_layer = vec![GeneratedRoom { room_type: RoomType::Normal, mystery: false }];
    layers.push(first_layer);
    proof {
        assert(layers@[0]@ =~= seq![GeneratedRoom { room_type: RoomType::Normal, mystery: false }]);
    }
    let mut layer_index: usize = 1;
    while layer_index < layer_count
        invariant
            6 <= layer_count,
            1 <= layer_index <= layer_count,
            layers@.len() == layer_index,
            layers_ok(layers@, layer_count as int),
            floor < 2 ==> forall|l: int, r: int| 0 <= l < layers@.len() && 0 <= r < layers@[l]@.len() ==>
                (#[trigger] layers@[l]@[r]).room_type != RoomType::Elite,
        decreases layer_count - layer_index,
    {
        let width = branch_width(rng);
        let ghost before = layers@;
        if layer_index == layer_count - 1 {
            let mut bosses: Vec<GeneratedRoom> = Vec::new();
            let mut i: usize = 0;
            while i < width
                invariant
                    i <= width,
                    bosses@.len() == i,
                    forall|k: int| 0 <= k < bosses@.len() ==> #[trigger] bosses@[k] == (GeneratedRoom { room_type: RoomType::Boss, mystery: false }),
                decreases width - i,
            {
                bosses.push(GeneratedRoom { room_type: RoomType::Boss, mystery: false });
                i = i + 1;
            }
            layers.push(bosses);
        } else {
            let layer = build_layer_rooms(layer_index, width, floor, rng);
            layers.push(layer);
        }
        proof {
            assert(layers@ == before.push(layers@[layer_index as int]));
            assert forall|l: int, r: int| 0 <= l < layers@.len() && 0 <= r < layers@[l]@.len() implies
                ((#[trigger] layers@[l]@[r]).room_type == RoomType::Boss <==> l == layer_count - 1) by {
                if l < layer_index {
                    assert(layers@[l] == before[l]);
                }
            }
            assert forall|l: int, r: int| 0 <= l < layers@.len() && 0 <= r < layers@[l]@.len() implies
                (#[trigger] layers@[l]@[r]).room_type != RoomType::Start by {
                if l < layer_index {
                    assert(layers@[l] == before[l]);
                }
            }
            assert(layers@[0] == before[0]);
            if floor < 2 {
                assert forall|l: int, r: int| 0 <= l < layers@.len() && 0 <= r < layers@[l]@.len() implies
                    (#[trigger] layers@[l]@[r]).room_type != RoomType::Elite by {
                    if l < layer_index {
                        assert(layers@[l] == before[l]);
                    } else {
                        assert(room_weight_spec(RoomType::Elite, layer_index as int, floor as int) == 0);
                    }
                }
            }
        }
        layer_index = layer_index + 1;
    }
    let ghost lv = layers@;
    let mut rooms: Vec<RoomData> = Vec::new();
    let first_exits = layer_exits(layers[0].len(), 1);
    rooms.push(make_room(RoomId(0), RoomType::Start, false, first_exits));
    let mut next_id: u32 = 1;
    let mut l: usize = 0;
    let n_layers = layers.len();
    while l < n_layers
        invariant
            n_layers == layers@.len(),
            n_layers == layer_count,
            6 <= layer_count,
            3 * (layer_count as int) + 3 < u32::MAX,
            layers@ == lv,
            layers_ok(lv, layer_count as int),
            floor < 2 ==> forall|a: int, b: int| 0 <= a < lv.len() && 0 <= b < lv[a]@.len() ==>
                (#[trigger] lv[a]@[b]).room_type != RoomType::Elite,
            floor < 2 ==> forall|k: int| 0 <= k < rooms@.len() ==> (#[trigger] rooms@[k]).room_type != RoomType::Elite,
            l <= n_layers,
            rooms@.len() == next_id,
            1 <= next_id <= 1 + 3 * l,
            l >= 1 ==> next_id >= 2 * l,
            l == 0 ==> next_id == 1,
            l >= 1 ==> rooms@[1].room_type == RoomType::Normal,
            l == n_layers ==> rooms@[rooms@.len() - 1].room_type == RoomType::Boss,
            l < n_layers ==> forall|k: int| 0 <= k < rooms@.len() ==> (#[trigger] rooms@[k]).room_type != RoomType::Boss,
            bosses_last(rooms@),
            forall|k: int| 0 <= k < rooms@.len() ==> (#[trigger] rooms@[k]).id == RoomId(k as u32),
            rooms@[0].room_type == RoomType::Start,
            forall|k: int| 1 <= k < rooms@.len() ==> (#[trigger] rooms@[k]).room_type != RoomType::Start,
            forall|k: int| 0 <= k < rooms@.len() ==> ((#[trigger] rooms@[k]).room_type == RoomType::Boss
                <==> rooms@[k].connections.exits@.len() == 0),
            forall|k: int| 0 <= k < rooms@.len() ==> #[trigger] exits_lead_forward(rooms@, k,
                exit_bound(lv, l as int, next_id as int)),
        decreases n_layers - l,
    {
        let w = layers[l].len();
        let next_start: u32 = next_id + w as u32;
        proof {
            assert(exit_bound(lv, l as int, next_id as int) == next_start);
        }
        let mut r: usize = 0;
        while r < w
            invariant
                n_layers == layers@.len(),
                n_layers == layer_count,
                layers@ == lv,
                layers_ok(lv, layer_count as int),
                l < n_layers,
                floor < 2 ==> forall|a: int, b: int| 0 <= a < lv.len() && 0 <= b < lv[a]@.len() ==>
                    (#[trigger] lv[a]@[b]).room_type != RoomType::Elite,
                floor < 2 ==> forall|k: int| 0 <= k < rooms@.len() ==> (#[trigger] rooms@[k]).room_type != RoomType::Elite,
                3 * (layer_count as int) + 3 < u32::MAX,
                1 <= next_id,
                l == 0 ==> next_id == 1,
                next_id as int + 6 <= u32::MAX,
                l >= 1 ==> next_id >= 2,
                w == lv[l as int]@.len(),
                1 <= w <= 3,
                next_start == next_id + w,
                r <= w,
                rooms@.len() == next_id + r,
                l >= 1 ==> rooms@[1].room_type == RoomType::Normal,
                l == 0 && r >= 1 ==> rooms@[1].room_type == RoomType::Normal,
                forall|k: int| 0 <= k < rooms@.len() ==> (#[trigger] rooms@[k]).id == RoomId(k as u32),
                rooms@[0].room_type == RoomType::Start,
                forall|k: int| 1 <= k < rooms@.len() ==> (#[trigger] rooms@[k]).room_type != RoomType::Start,
                forall|k: int| 0 <= k < rooms@.len() ==> ((#[trigger] rooms@[k]).room_type == RoomType::Boss
                    <==> rooms@[k].connections.exits@.len() == 0),
                forall|k: int| 0 <= k < next_id ==> #[trigger] exits_lead_forward(rooms@, k, next_start as int),
                forall|k: int| next_id <= k < rooms@.len() ==> #[trigger] exits_lead_forward(rooms@, k,
                    exit_bound(lv, l + 1, next_start as int)),
                r >= 1 ==> rooms@[rooms@.len() - 1].room_type == lv[l as int]@[r - 1].room_type,
                forall|k: int| 0 <= k < next_id ==> (#[trigger] rooms@[k]).room_type != RoomType::Boss,
                forall|k: int| next_id <= k < rooms@.len() ==> ((#[trigger] rooms@[k]).room_type == RoomType::Boss
                    <==> l == n_layers - 1),
            decreases w - r,
        {
            let g = layers[l][r];
            let exits = if l + 1 < n_layers {
                layer_exits(layers[l + 1].len(), next_start)
            } else {
                Vec::new()
            };
            let ghost before = rooms@;
            let room = make_room(RoomId(next_id + r as u32), g.room_type, g.mystery, exits);
            rooms.push(room);
            proof {
                let ghost bound: int = exit_bound(lv, l + 1, next_start as int);
                assert(rooms@ == before.push(room));
                assert(rooms@[0] == before[0]);
                if before.len() > 1 {
                    assert(rooms@[1] == before[1]);
                }
                assert(g == lv[l as int]@[r as int]);
                assert(g.room_type == RoomType::Boss <==> l == layer_count - 1);
                if l + 1 < n_layers {
                    assert(1 <= lv[l + 1]@.len() <= 3);
                    assert(room.connections.exits@.len() >= 1);
                }
                assert forall|k: int| 0 <= k < rooms@.len() implies ((#[trigger] rooms@[k]).room_type == RoomType::Boss
                    <==> rooms@[k].connections.exits@.len() == 0) by {
                    if k < before.len() {
                        assert(rooms@[k] == before[k]);
                    }
                }
                assert forall|k: int| 0 <= k < next_id implies #[trigger] exits_lead_forward(rooms@, k, next_start as int) by {
                    assert(rooms@[k] == before[k]);
                    assert(exits_lead_forward(before, k, next_start as int));
                }
                assert forall|k: int| next_id <= k < rooms@.len() implies #[trigger] exits_lead_forward(rooms@, k, bound) by {
                    if k < before.len() {
                        assert(rooms@[k] == before[k]);
                        assert(exits_lead_forward(before, k, bound));
                    } else {
                        assert(rooms@[k] == room);
                        assert forall|e: int| 0 <= e < rooms@[k].connections.exits@.len() implies
                            k < (#[trigger] rooms@[k].connections.exits@[e]).1.0 < bound by {
                            assert(k < next_start);
                        }
                    }
                }
                assert forall|k: int| 0 <= k < rooms@.len() implies (#[trigger] rooms@[k]).id == RoomId(k as u32) by {
                    if k < before.len() {
                        assert(rooms@[k] == before[k]);
                    }
                }
                assert forall|k: int| 1 <= k < rooms@.len() implies (#[trigger] rooms@[k]).room_type != RoomType::Start by {
                    if k < before.len() {
                        assert(rooms@[k] == before[k]);
                    }
                }
                assert forall|k: int| 0 <= k < next_id implies (#[trigger] rooms@[k]).room_type != RoomType::Boss by {
                    assert(rooms@[k] == before[k]);
                }
                if floor < 2 {
                    assert forall|k: int| 0 <= k < rooms@.len() implies (#[trigger] rooms@[k]).room_type != RoomType::Elite by {
                        if k < before.len() {
                            assert(rooms@[k] == before[k]);
                        }
                    }
                }
                assert forall|k: int| next_id <= k < rooms@.len() implies ((#[trigger] rooms@[k]).room_type == RoomType::Boss
                    <==> l == n_layers - 1) by {
                    if k < before.len() {
                        assert(rooms@[k] == before[k]);
                    }
                }
                if l == 0 {
                    assert(lv[0]@[0].room_type == RoomType::Normal);
                    assert(w == 1);
                    assert(r == 0);
                    assert(next_id == 1);
                    assert(rooms@[1] == room);
                }
            }
            r = r + 1;
        }
        proof {
            let ghost bound: int = exit_bound(lv, l + 1, next_start as int);
            assert forall|k: int| 0 <= k < rooms@.len() implies #[trigger] exits_lead_forward(rooms@, k, bound) by {
                if k < next_id {
                    assert(exits_lead_forward(rooms@, k, next_start as int));
                }
            }
            if l + 1 == n_layers {
                assert(lv[l as int]@[w - 1].room_type == RoomType::Boss);
            }
            assert forall|i: int, j: int| 0 <= i < j < rooms@.len() && (#[trigger] rooms@[i]).room_type == RoomType::Boss
                implies (#[trigger] rooms@[j]).room_type == RoomType::Boss by {
                assert(i >= next_id);
            }
        }
        next_id = next_start;
        l = l + 1;
    }
    proof {
        assert(exit_bound(lv, l as int, next_id as int) == rooms@.len());
    }
    rooms
}

/// The parts of the game data that shape a floor.
#[derive(Debug, Clone)]
pub struct FloorGenConfig {
    /// A fixed corridor of rooms; when empty, the floor branches.
    pub room_sequence: Vec<RoomType>,
    /// How many rooms a branching floor aims for.
    pub floor_rooms: u32,
}

/// Every exit of every room leads to a room of the floor, and room `k` has id `k`.
pub open spec fn floor_well_formed(rooms: Seq<RoomData>) -> bool {
    &&& forall|k: int| 0 <= k < rooms.len() ==> (#[trigger] rooms[k]).id == RoomId(k as u32)
    &&& forall|k: int, e: int| 0 <= k < rooms.len() && 0 <= e < rooms[k].connections.exits@.len() ==>
        (#[trigger] rooms[k].connections.exits@[e]).1.0 < rooms.len()
}

/// The corridor built from a fixed sequence of room types.
pub open spec fn corridor_of(types: Seq<RoomType>, lin: Seq<RoomData>) -> bool {
    &&& lin.len() == types.len()
    &&& forall|i: int| 0 <= i < lin.len() ==> linear_room_ok(#[trigger] lin[i], i,
        types.map_values(|t: RoomType| GeneratedRoom { room_type: t, mystery: false }))
}

/// A generated branching floor after the room rules: the entrance first, a normal room,
/// a boss room, boss rooms only at the end, exits only forward, and at least `min_len`
/// rooms.
pub open spec fn branching_floor(out: Seq<RoomData>, min_len: int) -> bool {
    &&& out.len() >= min_len
    &&& bosses_last(out)
    &&& out.len() >= 2
    &&& out[0].room_type == RoomType::Start
    &&& has_room_type(out, RoomType::Boss)
    &&& has_room_type(out, RoomType::Normal)
    &&& forall|k: int| 0 <= k < out.len() ==> #[trigger] exits_lead_forward(out, k, out.len() as int)
}

/// The room rules only turn rooms into normal rooms, so they add no elite room.
proof fn lemma_rules_add_no_elite(input: Seq<RoomData>, out: Seq<RoomData>)
    requires
        room_rules_applied(input, out),
        !has_room_type(input, RoomType::Elite),
    ensures
        !has_room_type(out, RoomType::Elite),
{
    assert(same_rooms_except_types(input, out));
    assert forall|i: int| 0 <= i < out.len() implies #[trigger] out[i].room_type != RoomType::Elite by {
        assert(out[i].room_type == input[i].room_type
            || (out[i].room_type == RoomType::Normal && input[i].room_type != RoomType::Normal
                && input[i].room_type != RoomType::Start && input[i].room_type != RoomType::Boss));
    }
}

/// The rules applied to a branching floor keep its shape.
proof fn lemma_rules_keep_branching(b: Seq<RoomData>, out: Seq<RoomData>, min_len: int)
    requires
        branching_shape(b),
        b.len() >= min_len,
        room_rules_applied(b, out),
    ensures
        branching_floor(out, min_len),
        floor_well_formed(out),
{
    assert(out[0].room_type == b[0].room_type || out[0].room_type == RoomType::Normal && b[0].room_type != RoomType::Start);
    let last = b.len() - 1;
    assert(out[last].room_type == b[last].room_type || b[last].room_type != RoomType::Boss);
    assert(out[1].room_type == b[1].room_type || out[1].room_type == RoomType::Normal);
    assert forall|i: int, j: int| 0 <= i < j < out.len() && (#[trigger] out[i]).room_type == RoomType::Boss
        implies (#[trigger] out[j]).room_type == RoomType::Boss by {
        assert(out[i].room_type == b[i].room_type || out[i].room_type == RoomType::Normal);
        assert(b[i].room_type == RoomType::Boss);
        assert(b[j].room_type == RoomType::Boss);
        assert(out[j].room_type == b[j].room_type || b[j].room_type != RoomType::Boss);
    }
    assert forall|k: int| 0 <= k < out.len() implies #[trigger] exits_lead_forward(out, k, out.len() as int) by {
        assert(exits_lead_forward(b, k, b.len() as int));
        assert(out[k].id == b[k].id);
        assert(out[k].connections.exits@ == b[k].connections.exits@);
        assert(b[k].id == RoomId(k as u32));
    }
    assert forall|k: int| 0 <= k < out.len() implies (#[trigger] out[k]).id == RoomId(k as u32) by {
        assert(out[k].id == b[k].id);
        assert(b[k].id == RoomId(k as u32));
    }
    assert forall|k: int, e: int| 0 <= k < out.len() && 0 <= e < out[k].connections.exits@.len() implies
        (#[trigger] out[k].connections.exits@[e]).1.0 < out.len() by {
        assert(exits_lead_forward(out, k, out.len() as int));
    }
}

/// Build the rooms of a floor: the configured corridor when there is one, else a branching
/// floor of the configured size (ten rooms without configuration), then the room rules.
pub fn build_rooms(config: Option<&FloorGenConfig>, floor: u32, rng: &mut GameRng) -> (rooms: Vec<RoomData>)
    requires
        config matches Some(c) ==> c.room_sequence@.len() <= u32::MAX && 3 * (c.floor_rooms as int) < u32::MAX,
    ensures
        at_most_one_reward(rooms@),
        no_consecutive_specials(rooms@),
        floor_well_formed(rooms@),
        match config {
            Some(c) => if c.room_sequence@.len() > 0 {
                exists|lin: Seq<RoomData>| #[trigger] corridor_of(c.room_sequence@, lin) && room_rules_applied(lin, rooms@)
            } else {
                branching_floor(rooms@, 2 * ((if c.floor_rooms >= 7 { c.floor_rooms as int } else { 7 }) - 1))
            },
            None => branching_floor(rooms@, 18),
        },
        match config {
            Some(c) => c.room_sequence@.len() == 0,
            None => true,
        } ==> specials_apart(rooms@),
        match config {
            Some(c) => c.room_sequence@.len() == 0,
            None => true,
        } && floor < 2 ==> !has_room_type(rooms@, RoomType::Elite),
{
    match config {
        Some(c) => {
            if c.room_sequence.len() > 0 {
                let ghost gen_seq = c.room_sequence@.map_values(|t: RoomType| GeneratedRoom { room_type: t, mystery: false });
                let mut sequence: Vec<GeneratedRoom> = Vec::new();
                let mut i: usize = 0;
                while i < c.room_sequence.len()
                    invariant
                        i <= c.room_sequence@.len(),
                        sequence@ == gen_seq.take(i as int),
                        gen_seq.len() == c.room_sequence@.len(),
                        gen_seq == c.room_sequence@.map_values(|t: RoomType| GeneratedRoom { room_type: t, mystery: false }),
                    decreases c.room_sequence@.len() - i,
                {
                    sequence.push(GeneratedRoom { room_type: c.room_sequence[i], mystery: false });
                    i = i + 1;
                    proof {
                        assert(sequence@ =~= gen_seq.take(i as int));
                    }
                }
                proof {
                    assert(sequence@ =~= gen_seq);
                }
                let lin = linear_rooms(sequence);
                let ghost linv = lin@;
                let out = enforce_room_rules(lin);
                proof {
                    assert(corridor_of(c.room_sequence@, linv));
                    assert forall|k: int, e: int| 0 <= k < out@.len() && 0 <= e < out@[k].connections.exits@.len() implies
                        (#[trigger] out@[k].connections.exits@[e]).1.0 < out@.len() by {
                        assert(linear_room_ok(linv[k], k, gen_seq));
                        assert(out@[k].id == linv[k].id);
                        assert(out@[k].connections.exits@ == linv[k].connections.exits@);
                        assert(linv[k].connections.exits@ == linear_exits(k, gen_seq.len() as int));
                    }
                    assert forall|k: int| 0 <= k < out@.len() implies (#[trigger] out@[k]).id == RoomId(k as u32) by {
                        assert(linear_room_ok(linv[k], k, gen_seq));
                        assert(out@[k].id == linv[k].id);
                    }
                }
                out
            } else {
                let total = if c.floor_rooms >= 4 { c.floor_rooms } else { 4 };
                let b = branching_rooms(total, floor, rng);
                let ghost bv = b@;
                let out = enforce_room_rules(b);
                proof {
                    lemma_rules_keep_branching(bv, out@, 2 * ((if c.floor_rooms >= 7 { c.floor_rooms as int } else { 7 }) - 1));
                    lemma_specials_apart(out@);
                    if floor < 2 {
                        lemma_rules_add_no_elite(bv, out@);
                    }
                }
                out
            }
        },
        None => {
            let b = branching_rooms(10, floor, rng);
            let ghost bv = b@;
            let out = enforce_room_rules(b);
            proof {
                lemma_rules_keep_branching(bv, out@, 18);
                lemma_specials_apart(out@);
                if floor < 2 {
                    lemma_rules_add_no_elite(bv, out@);
                }
            }
            out
        },
    }
}

} // verus!
