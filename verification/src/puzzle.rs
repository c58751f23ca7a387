use vstd::prelude::*;

use crate::map::RoomId;
use crate::states::RoomState;

verus! {

/// The puzzles an event room can hold.
#[derive(Debug, Clone, Copy, PartialEq, Eq, Structural)]
pub enum PuzzleKind {
    BulletMaze,
    MemoryBlocks,
    TimedCollect,
}

/// Which augments a solved puzzle may grant.
#[derive(Debug, Clone, Copy, PartialEq, Eq, Structural)]
pub enum PuzzleRewardPool {
    Nothing,
    Any,
    Elite,
    Legendary,
}

/// What a solved puzzle grants.
#[derive(Debug, Clone, Copy, PartialEq, Eq, Structural)]
pub struct PuzzleReward {
    pub gold: u32,
    pub xp: u32,
    pub augment_pool: PuzzleRewardPool,
}

impl Default for PuzzleReward {
    /// No gold, no experience, no augment.
    fn default() -> (r: Self)
        ensures
            r == (PuzzleReward { gold: 0, xp: 0, augment_pool: PuzzleRewardPool::Nothing }),
    {
        PuzzleReward { gold: 0, xp: 0, augment_pool: PuzzleRewardPool::Nothing }
    }
}

/// The game data of a puzzle event.
#[derive(Debug, Clone, Copy, PartialEq, Eq, Structural)]
pub struct PuzzleEventConfig {
    /// Whether the puzzle runs against a time limit.
    pub timed: bool,
    pub target_count: u32,
    pub lives: u32,
    pub gold_reward: u32,
    pub xp_reward: u32,
    pub augment_pool: PuzzleRewardPool,
}

/// The puzzle of the current event room and its progress. A time limit, when the puzzle
/// has one, is kept by the caller, which reports its end with `timer_finished`.
#[derive(Debug, Clone)]
pub struct ActivePuzzle {
    pub room: Option<RoomId>,
    pub kind: Option<PuzzleKind>,
    pub completed: bool,
    pub reward_earned: bool,
    pub reward: PuzzleReward,
    pub target_count: u32,
    pub progress_count: u32,
    pub lives_remaining: u32,
    pub timed: bool,
    pub memory_sequence: Vec<u8>,
    pub memory_index: usize,
    pub memory_round: u32,
}

/// The state of a puzzle that is not running.
pub open spec fn is_idle_puzzle(p: ActivePuzzle) -> bool {
    &&& p.room.is_none()
    &&& p.kind.is_none()
    &&& !p.completed
    &&& !p.reward_earned
    &&& p.reward == (PuzzleReward { gold: 0, xp: 0, augment_pool: PuzzleRewardPool::Nothing })
    &&& p.target_count == 0
    &&& p.progress_count == 0
    &&& p.lives_remaining == 0
    &&& !p.timed
    &&& p.memory_sequence@.len() == 0
    &&& p.memory_index == 0
    &&& p.memory_round == 1
}

impl Default for ActivePuzzle {
    fn default() -> (p: Self)
        ensures
            is_idle_puzzle(p),
    {
        ActivePuzzle {
            room: None,
            kind: None,
            completed: false,
            reward_earned: false,
            reward: PuzzleReward::default(),
            target_count: 0,
            progress_count: 0,
            lives_remaining: 0,
            timed: false,
            memory_sequence: Vec::new(),
            memory_index: 0,
            memory_round: 1,
        }
    }
}

/// `amount * collected / target`, rounded half away from zero, and at least 1 unless
/// `amount` is 0.
pub open spec fn scaled_amount_spec(amount: u32, collected: u32, target: u32) -> int {
    if amount == 0 {
        0
    } else {
        let r = (2 * amount * collected + target) / (2 * target);
        if r >= 1 { r } else { 1 }
    }
}

/// Scale a reward to the share of the target that was collected.
pub fn scale_reward_amount(amount: u32, collected: u32, target: u32) -> (r: u32)
    requires
        target >= 1,
        collected <= target,
    ensures
        r == scaled_amount_spec(amount, collected, target),
        r <= amount,
{
    if amount == 0 {
        return 0;
    }
    let a = amount as u128;
    let c = collected as u128;
    proof {
        assert(a * c <= 0xffff_ffffu128 * 0xffff_ffffu128) by (nonlinear_arith)
            requires a <= 0xffff_ffffu128, c <= 0xffff_ffffu128;
    }
    let ac: u128 = a * c;
    let num: u128 = 2 * ac + (target as u128);
    let den: u128 = 2 * (target as u128);
    let q = num / den;
    proof {
        assert(num == 2 * amount * collected + target) by (nonlinear_arith)
            requires num == 2 * ac + target, ac == a * c, a == amount, c == collected;
        assert(q <= amount) by (nonlinear_arith)
            requires q == num / den, num == 2 * amount * collected + target, den == 2 * target,
                collected <= target, target >= 1, amount >= 1;
    }
    if q >= 1 {
        q as u32
    } else {
        1
    }
}

/// The reward a puzzle pays out: nothing unless it was earned; a timed collection pays
/// the share of its target that was collected, and its augment only when all was.
/// A collection reward scaled by the share collected: all of it for everything collected,
/// never more than all of it, and at least one of a non-zero amount for any part.
pub proof fn lemma_scaled_amount(amount: u32, collected: u32, target: u32)
    requires
        1 <= target,
        collected <= target,
    ensures
        collected == target ==> scaled_amount_spec(amount, collected, target) == amount,
        scaled_amount_spec(amount, collected, target) <= amount,
        amount > 0 ==> scaled_amount_spec(amount, collected, target) >= 1,
        amount == 0 ==> scaled_amount_spec(amount, collected, target) == 0,
{
    if amount > 0 {
        let a = amount as int;
        let c = collected as int;
        let t = target as int;
        assert((2 * a * t + t) / (2 * t) == a) by (nonlinear_arith)
            requires t >= 1, a >= 1;
        assert((2 * a * c + t) / (2 * t) <= (2 * a * t + t) / (2 * t)) by (nonlinear_arith)
            requires t >= 1, a >= 1, 0 <= c <= t;
    }
}

/// What a puzzle pays: nothing unless its reward was earned; an earned puzzle other than the
/// collection pays its configured reward; an earned collection pays its gold and experience
/// in proportion to what was collected (all of it for everything, nothing for nothing) and
/// its augment only when everything was collected.
pub proof fn lemma_puzzle_rewards(p: ActivePuzzle)
    ensures
        !p.reward_earned ==> reward_to_apply_spec(p) == (PuzzleReward { gold: 0, xp: 0, augment_pool: PuzzleRewardPool::Nothing }),
        p.reward_earned && p.kind != Some(PuzzleKind::TimedCollect) ==> reward_to_apply_spec(p) == p.reward,
        p.reward_earned && p.kind == Some(PuzzleKind::TimedCollect) && p.target_count >= 1 && p.progress_count >= p.target_count
            ==> reward_to_apply_spec(p) == p.reward,
        p.reward_earned && p.kind == Some(PuzzleKind::TimedCollect) && 0 < p.progress_count < p.target_count ==> {
            &&& reward_to_apply_spec(p).augment_pool == PuzzleRewardPool::Nothing
            &&& reward_to_apply_spec(p).gold <= p.reward.gold
            &&& reward_to_apply_spec(p).xp <= p.reward.xp
        },
        p.reward_earned && p.kind == Some(PuzzleKind::TimedCollect) && p.progress_count == 0
            ==> reward_to_apply_spec(p) == (PuzzleReward { gold: 0, xp: 0, augment_pool: PuzzleRewardPool::Nothing }),
{
    if p.reward_earned && p.kind == Some(PuzzleKind::TimedCollect) {
        let target: u32 = if p.target_count >= 1 { p.target_count } else { 1 };
        let collected: u32 = if p.progress_count <= target { p.progress_count } else { target };
        lemma_scaled_amount(p.reward.gold, collected, target);
        lemma_scaled_amount(p.reward.xp, collected, target);
    }
}

pub open spec fn reward_to_apply_spec(p: ActivePuzzle) -> PuzzleReward {
    if !p.reward_earned {
        PuzzleReward { gold: 0, xp: 0, augment_pool: PuzzleRewardPool::Nothing }
    } else if p.kind != Some(PuzzleKind::TimedCollect) {
        p.reward
    } else {
        let target = if p.target_count >= 1 { p.target_count } else { 1 };
        let collected = if p.progress_count <= target { p.progress_count } else { target };
        if collected == 0 {
            PuzzleReward { gold: 0, xp: 0, augment_pool: PuzzleRewardPool::Nothing }
        } else {
            PuzzleReward {
                gold: scaled_amount_spec(p.reward.gold, collected, target) as u32,
                xp: scaled_amount_spec(p.reward.xp, collected, target) as u32,
                augment_pool: if collected >= target { p.reward.augment_pool } else { PuzzleRewardPool::Nothing },
            }
        }
    }
}

/// The length of the current round of a memory puzzle: two less than the sequence at
/// first (at least one), one more each round, at most the whole sequence.
pub open spec fn memory_round_len_spec(target: u32, seq_len: int, round: u32) -> int {
    let m = if target < seq_len { target as int } else { seq_len };
    let max_len = if m >= 1 { m } else { 1 };
    let start_len = if max_len - 2 >= 1 { max_len - 2 } else { 1 };
    let l = start_len + (if round >= 1 { round - 1 } else { 0 });
    if l <= max_len { l } else { max_len }
}

/// What touching a memory block did.
#[derive(Debug, Clone, Copy, PartialEq, Eq, Structural)]
pub enum MemoryTouch {
    /// The right block; the round goes on.
    Correct,
    /// The right block, ending a round; a new, longer round starts.
    RoundComplete,
    /// The right block, ending the last round; the puzzle is solved.
    Solved,
    /// The wrong block: back to the first round, one life less.
    Wrong,
}

/// The puzzle is running for `kind` in the current room and the room is locked.
pub open spec fn puzzle_active_spec(room_state: RoomState, current_room: Option<RoomId>, p: ActivePuzzle, kind: PuzzleKind) -> bool {
    &&& room_state == RoomState::Locked
    &&& current_room.is_some()
    &&& p.room == current_room
    &&& p.kind == Some(kind)
}

impl ActivePuzzle {
    /// The puzzle's progress toward its target.
    pub fn progress_count(&self) -> (n: u32)
        ensures
            n == self.progress_count,
    {
        self.progress_count
    }

    /// The puzzle's target.
    pub fn target_count(&self) -> (n: u32)
        ensures
            n == self.target_count,
    {
        self.target_count
    }

    /// Forget the puzzle.
    pub fn reset(&mut self)
        ensures
            is_idle_puzzle(*final(self)),
    {
        *self = ActivePuzzle::default();
    }

    /// Set up a puzzle of `kind` in `room` from its game data: target and lives are at
    /// least one, and a memory puzzle shows blocks 1 to its target (at most 7).
    pub fn start(&mut self, room: RoomId, kind: PuzzleKind, config: &PuzzleEventConfig)
        ensures
            final(self).room == Some(room),
            final(self).kind == Some(kind),
            !final(self).completed,
            !final(self).reward_earned,
            final(self).target_count == (if config.target_count >= 1 { config.target_count } else { 1 }),
            final(self).lives_remaining == (if config.lives >= 1 { config.lives } else { 1 }),
            final(self).reward == (PuzzleReward { gold: config.gold_reward, xp: config.xp_reward, augment_pool: config.augment_pool }),
            final(self).timed == config.timed,
            final(self).progress_count == 0,
            final(self).memory_index == 0,
            final(self).memory_round == 1,
            final(self).memory_sequence@.len() == (if kind == PuzzleKind::MemoryBlocks {
                if final(self).target_count <= 7 { final(self).target_count as int } else { 7 }
            } else { 0 }),
            forall|i: int| 0 <= i < final(self).memory_sequence@.len() ==> #[trigger] final(self).memory_sequence@[i] == i + 1,
    {
        self.reset();
        self.room = Some(room);
        self.kind = Some(kind);
        self.target_count = if config.target_count >= 1 { config.target_count } else { 1 };
        self.lives_remaining = if config.lives >= 1 { config.lives } else { 1 };
        self.reward = PuzzleReward { gold: config.gold_reward, xp: config.xp_reward, augment_pool: config.augment_pool };
        self.timed = config.timed;
        if kind == PuzzleKind::MemoryBlocks {
            let n: u32 = if self.target_count <= 7 { self.target_count } else { 7 };
            let mut seq: Vec<u8> = Vec::new();
            let mut i: u32 = 1;
            while i <= n
                invariant
                    n <= 7,
                    1 <= i <= n + 1,
                    seq@.len() == i - 1,
                    forall|k: int| 0 <= k < seq@.len() ==> #[trigger] seq@[k] == k + 1,
                decreases n + 1 - i,
            {
                seq.push(i as u8);
                i = i + 1;
            }
            self.memory_sequence = seq;
            self.memory_round = 1;
        }
    }

    /// The reward the puzzle pays out now.
    pub fn reward_to_apply(&self) -> (r: PuzzleReward)
        ensures
            r == reward_to_apply_spec(*self),
    {
        if !self.reward_earned {
            return PuzzleReward::default();
        }
        match self.kind {
            Some(PuzzleKind::TimedCollect) => {},
            _ => {
                return self.reward;
            },
        }
        let target = if self.target_count >= 1 { self.target_count } else { 1 };
        let collected = if self.progress_count <= target { self.progress_count } else { target };
        if collected == 0 {
            return PuzzleReward::default();
        }
        PuzzleReward {
            gold: scale_reward_amount(self.reward.gold, collected, target),
            xp: scale_reward_amount(self.reward.xp, collected, target),
            augment_pool: if collected >= target { self.reward.augment_pool } else { PuzzleRewardPool::Nothing },
        }
    }

    /// Whether the puzzle of `kind` runs in the current, locked room.
    pub fn is_active(&self, room_state: RoomState, current_room: Option<RoomId>, kind: PuzzleKind) -> (b: bool)
        ensures
            b == puzzle_active_spec(room_state, current_room, *self, kind),
    {
        let locked = match room_state {
            RoomState::Locked => true,
            _ => false,
        };
        let same_room = match (current_room, self.room) {
            (Some(c), Some(r)) => c.0 == r.0,
            _ => false,
        };
        let same_kind = match (self.kind, kind) {
            (Some(PuzzleKind::BulletMaze), PuzzleKind::BulletMaze) => true,
            (Some(PuzzleKind::MemoryBlocks), PuzzleKind::MemoryBlocks) => true,
            (Some(PuzzleKind::TimedCollect), PuzzleKind::TimedCollect) => true,
            _ => false,
        };
        locked && same_room && same_kind
    }

    /// The time limit ran out: the puzzle ends, and only a timed collection that
    /// collected something earns (part of) its reward.
    pub fn timer_finished(&mut self)
        ensures
            final(self).completed,
            final(self).reward_earned == (old(self).kind == Some(PuzzleKind::TimedCollect) && old(self).progress_count > 0),
            final(self).progress_count == old(self).progress_count,
            final(self).lives_remaining == old(self).lives_remaining,
            final(self).kind == old(self).kind,
            final(self).room == old(self).room,
            final(self).reward == old(self).reward,
            final(self).target_count == old(self).target_count,
    {
        self.completed = true;
        self.reward_earned = match self.kind {
            Some(PuzzleKind::TimedCollect) => self.progress_count > 0,
            _ => false,
        };
    }

    /// The player reached the goal of the bullet maze: solved.
    pub fn maze_goal_reached(&mut self)
        ensures
            final(self).completed,
            final(self).reward_earned,
            final(self).lives_remaining == old(self).lives_remaining,
            final(self).kind == old(self).kind,
            final(self).room == old(self).room,
            final(self).reward == old(self).reward,
    {
        self.completed = true;
        self.reward_earned = true;
    }

    /// A hazard of the bullet maze hit the player: one life less; with no life left the
    /// puzzle ends unsolved.
    pub fn maze_hazard_hit(&mut self)
        ensures
            final(self).lives_remaining == (if old(self).lives_remaining >= 1 { old(self).lives_remaining - 1 } else { 0 }),
            final(self).lives_remaining == 0 ==> final(self).completed && !final(self).reward_earned,
            final(self).lives_remaining > 0 ==> final(self).completed == old(self).completed
                && final(self).reward_earned == old(self).reward_earned,
            final(self).kind == old(self).kind,
            final(self).room == old(self).room,
            final(self).reward == old(self).reward,
    {
        self.lives_remaining = self.lives_remaining.saturating_sub(1);
        if self.lives_remaining == 0 {
            self.completed = true;
            self.reward_earned = false;
        }
    }

    /// The player picked up a collectible: one more collected; reaching the target solves
    /// the puzzle.
    pub fn collectible_collected(&mut self)
        requires
            old(self).progress_count < u32::MAX,
        ensures
            final(self).progress_count == old(self).progress_count + 1,
            final(self).progress_count >= final(self).target_count ==> final(self).completed && final(self).reward_earned,
            final(self).progress_count < final(self).target_count ==> final(self).completed == old(self).completed
                && final(self).reward_earned == old(self).reward_earned,
            final(self).target_count == old(self).target_count,
            final(self).lives_remaining == old(self).lives_remaining,
            final(self).kind == old(self).kind,
            final(self).room == old(self).room,
            final(self).reward == old(self).reward,
    {
        self.progress_count = self.progress_count + 1;
        if self.progress_count >= self.target_count {
            self.completed = true;
            self.reward_earned = true;
        }
    }

    /// The length of the current round of a memory puzzle.
    pub fn memory_round_len(&self) -> (n: usize)
        ensures
            n == memory_round_len_spec(self.target_count, self.memory_sequence@.len() as int, self.memory_round),
    {
        let seq_len = self.memory_sequence.len() as u64;
        let m: u64 = if (self.target_count as u64) < seq_len { self.target_count as u64 } else { seq_len };
        let max_len: u64 = if m >= 1 { m } else { 1 };
        let start_len: u64 = if max_len >= 3 { max_len - 2 } else { 1 };
        let extra: u64 = if self.memory_round >= 1 { (self.memory_round - 1) as u64 } else { 0 };
        let l: u64 = start_len + extra;
        let r = if l <= max_len { l } else { max_len };
        proof {
            assert(r <= seq_len || r == 1);
        }
        r as usize
    }

    /// The player touched memory block `index`. The right block advances the round; the
    /// last block of a round starts the next, longer round, and ending the third round
    /// solves the puzzle. A wrong block restarts from the first round and costs a life;
    /// with no life left the puzzle ends unsolved.
    pub fn memory_block_touched(&mut self, index: u8) -> (t: MemoryTouch)
        requires
            old(self).memory_index < usize::MAX,
        ensures
            ({
                let o = *old(self);
                let f = *final(self);
                let expected_ok = o.memory_index < o.memory_sequence@.len() && o.memory_sequence@[o.memory_index as int] == index;
                let round_len = memory_round_len_spec(o.target_count, o.memory_sequence@.len() as int, o.memory_round);
                &&& f.memory_sequence@ == o.memory_sequence@
                &&& f.kind == o.kind
                &&& f.room == o.room
                &&& f.reward == o.reward
                &&& f.target_count == o.target_count
                &&& if expected_ok {
                    &&& f.lives_remaining == o.lives_remaining
                    &&& if o.memory_index + 1 < round_len {
                        t == MemoryTouch::Correct && f.memory_index == o.memory_index + 1
                            && f.memory_round == o.memory_round && f.completed == o.completed
                            && f.reward_earned == o.reward_earned && f.progress_count == o.progress_count
                    } else if o.memory_round >= 3 {
                        t == MemoryTouch::Solved && f.completed && f.reward_earned
                            && f.progress_count == o.memory_round
                    } else {
                        t == MemoryTouch::RoundComplete && f.memory_round == o.memory_round + 1
                            && f.memory_index == 0 && f.progress_count == o.memory_round
                            && f.completed == o.completed && f.reward_earned == o.reward_earned
                    }
                } else {
                    &&& t == MemoryTouch::Wrong
                    &&& f.memory_index == 0
                    &&& f.progress_count == 0
                    &&& f.memory_round == 1
                    &&& f.lives_remaining == (if o.lives_remaining >= 1 { o.lives_remaining - 1 } else { 0 })
                    &&& f.lives_remaining == 0 ==> f.completed && !f.reward_earned
                    &&& f.lives_remaining > 0 ==> f.completed == o.completed && f.reward_earned == o.reward_earned
                }
            }),
    {
        let round_len = self.memory_round_len();
        let expected_ok = self.memory_index < self.memory_sequence.len() && self.memory_sequence[self.memory_index] == index;
        if expected_ok {
            self.memory_index = self.memory_index + 1;
            if self.memory_index >= round_len {
                self.progress_count = self.memory_round;
                if self.memory_round >= 3 {
                    self.completed = true;
                    self.reward_earned = true;
                    return MemoryTouch::Solved;
                } else {
                    self.memory_round = self.memory_round + 1;
                    self.memory_index = 0;
                    return MemoryTouch::RoundComplete;
                }
            }
            MemoryTouch::Correct
        } else {
            self.memory_index = 0;
            self.progress_count = 0;
            self.memory_round = 1;
            self.lives_remaining = self.lives_remaining.saturating_sub(1);
            if self.lives_remaining == 0 {
                self.completed = true;
                self.reward_earned = false;
            }
            MemoryTouch::Wrong
        }
    }

    /// When a finished puzzle's room is the current, locked room, the room is cleared:
    /// the result is `true` and the puzzle stops being reported as completed.
    pub fn take_completion(&mut self, current_room: Option<RoomId>, room_state: RoomState) -> (cleared: bool)
        ensures
            cleared == (old(self).completed && current_room.is_some() && old(self).room == current_room
                && room_state == RoomState::Locked),
            final(self).completed == (old(self).completed && !cleared),
            final(self).reward_earned == old(self).reward_earned,
            final(self).room == old(self).room,
            final(self).kind == old(self).kind,
            final(self).reward == old(self).reward,
            final(self).progress_count == old(self).progress_count,
            final(self).target_count == old(self).target_count,
    {
        let same_room = match (current_room, self.room) {
            (Some(c), Some(r)) => c.0 == r.0,
            _ => false,
        };
        let locked = match room_state {
            RoomState::Locked => true,
            _ => false,
        };
        if self.completed && same_room && locked {
            self.completed = false;
            true
        } else {
            false
        }
    }
}

/// The expected next switch of the order puzzle, from 1 to 3.
#[derive(Debug, Clone, Copy, PartialEq, Eq, Structural)]
pub struct SwitchOrderState {
    pub expected_next: u8,
}

/// What pressing a switch did.
#[derive(Debug, Clone, Copy, PartialEq, Eq, Structural)]
pub enum SwitchPress {
    Advanced,
    Reset,
    Completed,
}

impl SwitchOrderState {
    /// A fresh puzzle, expecting switch 1.
    pub fn new() -> (s: SwitchOrderState)
        ensures
            s.expected_next == 1,
    {
        SwitchOrderState { expected_next: 1 }
    }

    /// Press switch `index`: the expected one advances (the third completes the puzzle and
    /// starts over), any other one starts over.
    pub fn press(&mut self, index: u8) -> (p: SwitchPress)
        requires
            index == old(self).expected_next ==> old(self).expected_next < 255,
        ensures
            1 <= final(self).expected_next <= 3,
            (final(self).expected_next, p) == press_spec(old(self).expected_next, index),
            index == old(self).expected_next && old(self).expected_next == 3 ==> p == SwitchPress::Completed && final(self).expected_next == 1,
            index == old(self).expected_next && old(self).expected_next < 3 ==> p == SwitchPress::Advanced && final(self).expected_next == old(self).expected_next + 1,
            index != old(self).expected_next ==> p == SwitchPress::Reset && final(self).expected_next == 1,
    {
        if index == self.expected_next {
            self.expected_next = self.expected_next + 1;
        } else {
            self.expected_next = 1;
            return SwitchPress::Reset;
        }
        if self.expected_next >= 4 {
            self.expected_next = 1;
            SwitchPress::Completed
        } else {
            SwitchPress::Advanced
        }
    }

    /// Whether switch `index` is already lit.
    pub fn is_lit(&self, index: u8) -> (b: bool)
        ensures
            b == (index < self.expected_next),
    {
        index < self.expected_next
    }
}

/// The expected switch and outcome after pressing switch `index` when `expected` is due.
pub open spec fn press_spec(expected: u8, index: u8) -> (u8, SwitchPress) {
    if index != expected {
        (1, SwitchPress::Reset)
    } else if expected >= 3 {
        (1, SwitchPress::Completed)
    } else {
        ((expected + 1) as u8, SwitchPress::Advanced)
    }
}

/// Pressing switches 1, 2 and 3 in order on a fresh puzzle completes it, and the
/// puzzle then expects switch 1 again.
pub proof fn lemma_switch_order_completes()
    ensures
        press_spec(1, 1) == (2u8, SwitchPress::Advanced),
        press_spec(2, 2) == (3u8, SwitchPress::Advanced),
        press_spec(3, 3) == (1u8, SwitchPress::Completed),
{
}

/// A wrong switch always starts the sequence over.
pub proof fn lemma_wrong_switch_resets(expected: u8, index: u8)
    requires
        index != expected,
    ensures
        press_spec(expected, index) == (1u8, SwitchPress::Reset),
{
}

} // verus!
