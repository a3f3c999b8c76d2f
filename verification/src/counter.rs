use vstd::prelude::*;

verus! {

/// The value a counter holds after emitting `value`: one more, wrapping to
/// zero past the largest `usize`.
pub open spec fn successor(value: usize) -> usize {
    if value == usize::MAX {
        0
    } else {
        (value + 1) as usize
    }
}

/// The value a counter holds after emitting `k` values from `start`.
pub open spec fn counter_after(start: usize, k: nat) -> usize
    decreases k,
{
    if k == 0 {
        start
    } else {
        successor(counter_after(start, (k - 1) as nat))
    }
}

/// The shared state of the counting source: the next value it emits.
#[derive(Clone, Copy, Debug)]
pub struct CounterState {
    pub next: usize,
}

impl CounterState {
    /// A counter that has not been configured starts at zero.
    pub fn new() -> (s: CounterState)
        ensures
            s.next == 0,
    {
        CounterState { next: 0 }
    }

    /// Applies a node configuration: a configured initial value replaces the
    /// next value (cut to the width of `usize`); without one the counter is
    /// left as it is.
    pub fn configure(&mut self, initial: Option<u64>)
        ensures
            match initial {
                Some(v) => final(self).next == v as usize,
                None => final(self).next == old(self).next,
            },
    {
        if let Some(v) = initial {
            self.next = v as usize;
        }
    }

    /// Emits the next value and advances the counter by one, wrapping
    /// around on overflow.
    pub fn tick(&mut self) -> (emitted: usize)
        ensures
            emitted == old(self).next,
            final(self).next == successor(old(self).next),
    {
        let v = self.next;
        self.next = v.wrapping_add(1);
        v
    }
}

/// The values a counter emits are consecutive modulo the word size: after
/// `k` emissions from `start`, the counter holds `(start + k) mod 2^BITS`.
pub proof fn lemma_counter_after(start: usize, k: nat)
    ensures
        counter_after(start, k) as int == (start + k) % (usize::MAX as int + 1),
    decreases k,
{
    let m = usize::MAX as int + 1;
    if k == 0 {
        vstd::arithmetic::div_mod::lemma_small_mod(start as nat, m as nat);
    } else {
        lemma_counter_after(start, (k - 1) as nat);
        let prev = counter_after(start, (k - 1) as nat) as int;
        vstd::arithmetic::div_mod::lemma_add_mod_noop(start + (k - 1), 1, m);
        vstd::arithmetic::div_mod::lemma_small_mod(1, m as nat);
        assert((start + k) % m == (prev + 1) % m);
        if prev == usize::MAX {
            vstd::arithmetic::div_mod::lemma_mod_self_0(m);
        } else {
            vstd::arithmetic::div_mod::lemma_small_mod((prev + 1) as nat, m as nat);
        }
    }
}

} // verus!
