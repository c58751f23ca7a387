use vstd::prelude::*;
use vstd::multiset::Multiset;

verus! {

/// The xorshift step that advances the generator.
pub open spec fn xorshift_step(x: u64) -> u64 {
    let a = x ^ (x << 13u64);
    let b = a ^ (a >> 7u64);
    b ^ (b << 17u64)
}

/// The seed every generator starts from, and the one used in place of zero.
pub open spec fn default_seed() -> u64 {
    0x9E37_79B9_7F4A_7C15u64
}

/// Shuffling `s` from generator state `state`: each step draws the next state and takes the
/// element at that draw modulo the remaining length as the next element of the result. Gives
/// the result and the generator's state afterwards.
pub open spec fn shuffle_spec<T>(state: u64, s: Seq<T>) -> (Seq<T>, u64)
    decreases s.len(),
{
    if s.len() == 0 {
        (Seq::empty(), state)
    } else {
        let next = xorshift_step(state);
        let k = (next as int) % (s.len() as int);
        let rest = shuffle_spec(next, s.remove(k));
        (seq![s[k]] + rest.0, rest.1)
    }
}

/// A small deterministic random number generator for floor layouts, offers
/// and affixes. Reseeding with the same value replays the same draws.
#[derive(Debug)]
pub struct GameRng {
    state: u64,
}

impl Default for GameRng {
    /// A generator that starts from the default seed.
    fn default() -> (r: Self)
        ensures
            r.state() == default_seed(),
    {
        GameRng::new()
    }
}

impl GameRng {
    /// The generator's internal state.
    pub closed spec fn state(&self) -> u64 {
        self.state
    }

    /// A generator that starts from the default seed.
    pub fn new() -> (r: GameRng)
        ensures
            r.state() == default_seed(),
    {
        GameRng { state: 0x9E37_79B9_7F4A_7C15u64 }
    }

    /// Restart the generator from `seed` (zero is replaced by the default seed,
    /// since xorshift never leaves the zero state).
    pub fn reseed(&mut self, seed: u64)
        ensures
            final(self).state() == (if seed == 0 { default_seed() } else { seed }),
    {
        if seed == 0 {
            self.state = 0x9E37_79B9_7F4A_7C15u64;
        } else {
            self.state = seed;
        }
    }

    /// The next raw 64-bit draw.
    pub fn next_u64(&mut self) -> (r: u64)
        ensures
            r == xorshift_step(old(self).state()),
            final(self).state() == r,
    {
        let x = self.state;
        let a = x ^ (x << 13u64);
        let b = a ^ (a >> 7u64);
        let c = b ^ (b << 17u64);
        self.state = c;
        c
    }

    /// A draw in `0..bound`.
    pub fn gen_below(&mut self, bound: u64) -> (r: u64)
        requires
            bound > 0,
        ensures
            r < bound,
            r == xorshift_step(old(self).state()) % bound,
            final(self).state() == xorshift_step(old(self).state()),
    {
        let x = self.next_u64();
        x % bound
    }

    /// A draw in `0..bound` as an index.
    pub fn gen_index(&mut self, bound: usize) -> (r: usize)
        requires
            bound > 0,
        ensures
            r < bound,
            r == xorshift_step(old(self).state()) % (bound as u64),
            final(self).state() == xorshift_step(old(self).state()),
    {
        let x = self.gen_below(bound as u64);
        x as usize
    }

    /// The elements of `v` in a random order: the result holds exactly the
    /// same elements, each as often as before, in the order the draws from the
    /// generator's state pick them.
    pub fn shuffled<T>(&mut self, v: Vec<T>) -> (r: Vec<T>)
        ensures
            r@.len() == v@.len(),
            r@.to_multiset() == v@.to_multiset(),
            r@ == shuffle_spec(old(self).state(), v@).0,
            final(self).state() == shuffle_spec(old(self).state(), v@).1,
    {
        broadcast use vstd::seq_lib::group_to_multiset_ensures;
        let mut rest = v;
        let mut out: Vec<T> = Vec::new();
        let ghost orig = rest@;
        let ghost start = self.state;
        proof {
            assert(out@.to_multiset() =~= Multiset::empty());
            assert(out@.to_multiset().add(rest@.to_multiset()) =~= orig.to_multiset());
        }
        while rest.len() > 0
            invariant
                out@.len() + rest@.len() == orig.len(),
                out@.to_multiset().add(rest@.to_multiset()) == orig.to_multiset(),
                out@ + shuffle_spec(self.state, rest@).0 == shuffle_spec(start, orig).0,
                shuffle_spec(self.state, rest@).1 == shuffle_spec(start, orig).1,
            decreases rest@.len(),
        {
            let ghost before_state = self.state;
            let k = self.gen_index(rest.len());
            let ghost before_rest = rest@;
            let ghost before_out = out@;
            let item = rest.remove(k);
            proof {
                vstd::seq_lib::to_multiset_remove(before_rest, k as int);
                vstd::seq_lib::to_multiset_build(before_out, item);
                assert(before_rest[k as int] == item);
            }
            out.push(item);
            proof {
                broadcast use vstd::multiset::group_multiset_axioms;
                assert(out@ =~= before_out.push(item));
                assert(before_rest.contains(item));
                vstd::seq_lib::to_multiset_contains(before_rest, item);
                assert(before_rest.to_multiset().count(item) > 0);
                assert(out@.to_multiset().add(rest@.to_multiset()) =~= orig.to_multiset());
                let tail = shuffle_spec(self.state, rest@);
                assert(k as int == (self.state as int) % (before_rest.len() as int));
                assert(shuffle_spec(before_state, before_rest) == (seq![item] + tail.0, tail.1));
                assert(out@ + tail.0 =~= before_out + (seq![item] + tail.0));
            }
        }
        proof {
            assert(rest@ =~= Seq::<T>::empty());
            assert(out@ + Seq::<T>::empty() =~= out@);
            assert(rest@.to_multiset() =~= Multiset::empty());
            assert(out@.to_multiset() =~= orig.to_multiset());
        }
        out
    }
}

} // verus!
