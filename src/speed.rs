//! The three blink speeds and the cyclic transition between their delays.
use vstd::prelude::*;

verus! {

/// Busy-wait cycle count of the slow blink.
pub const SLOW: u32 = 2000000;

/// Busy-wait cycle count of the medium blink.
pub const MEDIUM: u32 = 1000000;

/// Busy-wait cycle count of the fast blink.
pub const FAST: u32 = 500000;

/// A delay is valid when it is one of the three speed magnitudes.
pub open spec fn is_valid_delay(d: u32) -> bool {
    d == SLOW || d == MEDIUM || d == FAST
}

/// The transition table: SLOW to MEDIUM to FAST to SLOW; any other value stays.
pub open spec fn next_delay_spec(d: u32) -> u32 {
    if d == SLOW {
        MEDIUM
    } else if d == MEDIUM {
        FAST
    } else if d == FAST {
        SLOW
    } else {
        d
    }
}

/// The delay reached from `d` after `n` button edges.
pub open spec fn delay_after_edges(d: u32, n: nat) -> u32
    decreases n,
{
    if n == 0 {
        d
    } else {
        next_delay_spec(delay_after_edges(d, (n - 1) as nat))
    }
}

/// The three blink speeds; a slower speed waits more cycles.
#[derive(Clone, Copy, Debug, PartialEq, Eq, Structural)]
pub enum LedSpeed {
    Slow,
    Medium,
    Fast,
}

impl LedSpeed {
    pub open spec fn cycles_spec(self) -> u32 {
        match self {
            LedSpeed::Slow => SLOW,
            LedSpeed::Medium => MEDIUM,
            LedSpeed::Fast => FAST,
        }
    }

    pub open spec fn next_spec(self) -> LedSpeed {
        match self {
            LedSpeed::Slow => LedSpeed::Medium,
            LedSpeed::Medium => LedSpeed::Fast,
            LedSpeed::Fast => LedSpeed::Slow,
        }
    }

    /// Busy-wait cycle count of this speed.
    pub fn cycles(self) -> (r: u32)
        ensures
            r == self.cycles_spec(),
            is_valid_delay(r),
    {
        match self {
            LedSpeed::Slow => SLOW,
            LedSpeed::Medium => MEDIUM,
            LedSpeed::Fast => FAST,
        }
    }

    /// The speed that follows this one in the cycle.
    pub fn next(self) -> (r: LedSpeed)
        ensures
            r == self.next_spec(),
    {
        match self {
            LedSpeed::Slow => LedSpeed::Medium,
            LedSpeed::Medium => LedSpeed::Fast,
            LedSpeed::Fast => LedSpeed::Slow,
        }
    }

    /// The speed whose cycle count is `d`, if there is one.
    pub fn from_delay(d: u32) -> (r: Option<LedSpeed>)
        ensures
            r is Some <==> is_valid_delay(d),
            r matches Some(s) ==> s.cycles_spec() == d,
    {
        if d == SLOW {
            Some(LedSpeed::Slow)
        } else if d == MEDIUM {
            Some(LedSpeed::Medium)
        } else if d == FAST {
            Some(LedSpeed::Fast)
        } else {
            None
        }
    }
}

/// Successor of a delay value under one button edge: the cycle count of the
/// next speed, or the value itself when it names no speed.
pub fn next_delay(current: u32) -> (r: u32)
    ensures
        r == next_delay_spec(current),
        is_valid_delay(current) ==> is_valid_delay(r),
        !is_valid_delay(current) ==> r == current,
{
    match LedSpeed::from_delay(current) {
        Some(s) => s.next().cycles(),
        None => current,
    }
}

/// Applying the transition three times to any speed gives it back, and one
/// application moves SLOW to MEDIUM, MEDIUM to FAST and FAST to SLOW.
pub proof fn lemma_cyclic_closure(d: u32)
    requires
        is_valid_delay(d),
    ensures
        next_delay_spec(next_delay_spec(next_delay_spec(d))) == d,
        delay_after_edges(d, 3) == d,
        next_delay_spec(SLOW) == MEDIUM,
        next_delay_spec(MEDIUM) == FAST,
        next_delay_spec(FAST) == SLOW,
{
    reveal_with_fuel(delay_after_edges, 4);
}

/// Starting from SLOW, or from any speed, the delay stays a speed after any
/// number of edges; a value that names no speed is left as it is.
pub proof fn lemma_closed_set(d: u32, n: nat)
    ensures
        is_valid_delay(d) ==> is_valid_delay(delay_after_edges(d, n)),
        is_valid_delay(delay_after_edges(SLOW, n)),
        !is_valid_delay(d) ==> next_delay_spec(d) == d,
        !is_valid_delay(d) ==> delay_after_edges(d, n) == d,
    decreases n,
{
    if n > 0 {
        lemma_closed_set(d, (n - 1) as nat);
        lemma_closed_set(SLOW, (n - 1) as nat);
    }
}

/// For any speed, the delays after zero, one and two edges are pairwise
/// distinct, so two edges in a row are seen as exactly two transitions: none
/// is lost and none is doubled.
pub proof fn lemma_two_edges_two_transitions(d: u32)
    requires
        is_valid_delay(d),
    ensures
        delay_after_edges(d, 2) == next_delay_spec(next_delay_spec(d)),
        delay_after_edges(d, 2) != d,
        delay_after_edges(d, 2) != delay_after_edges(d, 1),
        delay_after_edges(d, 1) != d,
{
    reveal_with_fuel(delay_after_edges, 3);
}

} // verus!
