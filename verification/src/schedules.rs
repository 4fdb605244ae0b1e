//! Tick-based low-frequency schedules.
//!
//! The fixed update runs at 60 Hz and increments a tick counter first; the slow update
//! (vision, target switching) runs on every 20th tick (3 Hz) and the combat update
//! (windup detection) on every 6th tick (10 Hz).

use vstd::prelude::*;
use vstd::arithmetic::div_mod::{lemma_mod_add_multiples_vanish, lemma_small_mod};

verus! {

/// Ticks between two runs of the slow update.
pub const SLOW_UPDATE_PERIOD: u64 = 20;

/// Ticks between two runs of the combat update.
pub const COMBAT_UPDATE_PERIOD: u64 = 6;

/// Global tick counter of the fixed update.
#[derive(Clone, Copy, Debug, PartialEq, Eq, Structural, Default)]
pub struct FixedTickCounter {
    pub tick: u64,
}

/// Label of the slow update schedule (3 Hz).
#[derive(Clone, Copy, Debug, PartialEq, Eq, Hash, Structural)]
pub struct SlowUpdate;

/// Label of the combat update schedule (10 Hz).
#[derive(Clone, Copy, Debug, PartialEq, Eq, Hash, Structural)]
pub struct CombatUpdate;

/// Advances the tick counter by one, wrapping around after `u64::MAX`.
pub fn increment_tick_counter(counter: &mut FixedTickCounter)
    ensures
        final(counter).tick == (if old(counter).tick == u64::MAX {
            0
        } else {
            old(counter).tick + 1
        }),
{
    counter.tick = counter.tick.wrapping_add(1);
}

/// Whether the slow update runs at this tick (every 20th tick).
pub fn run_slow_update_timer(counter: &FixedTickCounter) -> (run: bool)
    ensures
        run == (counter.tick % SLOW_UPDATE_PERIOD == 0),
{
    counter.tick % SLOW_UPDATE_PERIOD == 0
}

/// Whether the combat update runs at this tick (every 6th tick).
pub fn run_combat_update_timer(counter: &FixedTickCounter) -> (run: bool)
    ensures
        run == (counter.tick % COMBAT_UPDATE_PERIOD == 0),
{
    counter.tick % COMBAT_UPDATE_PERIOD == 0
}

/// Number of ticks among `start, start + 1, ..., start + n - 1` that are multiples of `period`.
pub open spec fn runs_in_window(start: int, n: nat, period: int) -> nat
    decreases n,
{
    if n == 0 {
        0
    } else {
        runs_in_window(start, (n - 1) as nat, period) + if (start + n - 1) % period == 0 {
            1nat
        } else {
            0nat
        }
    }
}

proof fn lemma_window_split(start: int, a: nat, b: nat, period: int)
    ensures
        runs_in_window(start, a + b, period) == runs_in_window(start, a, period) + runs_in_window(
            start + a,
            b,
            period,
        ),
    decreases b,
{
    if b > 0 {
        lemma_window_split(start, a, (b - 1) as nat, period);
        assert((a + b - 1) as nat == a + (b - 1) as nat);
    }
}

proof fn lemma_window_from_zero(n: nat, period: int)
    requires
        0 < period,
        1 <= n <= period,
    ensures
        runs_in_window(0, n, period) == 1,
    decreases n,
{
    if n == 1 {
        assert(runs_in_window(0, 0, period) == 0);
        assert(0int % period == 0);
    } else {
        lemma_window_from_zero((n - 1) as nat, period);
        lemma_small_mod((n - 1) as nat, period as nat);
    }
}

proof fn lemma_window_shift(start: int, n: nat, period: int)
    requires
        0 < period,
    ensures
        runs_in_window(start + 1, n, period) + (if start % period == 0 {
            1nat
        } else {
            0nat
        }) == runs_in_window(start, n, period) + (if (start + n) % period == 0 {
            1nat
        } else {
            0nat
        }),
    decreases n,
{
    if n > 0 {
        lemma_window_shift(start, (n - 1) as nat, period);
    }
}

proof fn lemma_one_run_per_period(start: nat, period: int)
    requires
        0 < period,
    ensures
        runs_in_window(start as int, period as nat, period) == 1,
    decreases start,
{
    if start == 0 {
        lemma_window_from_zero(period as nat, period);
    } else {
        let prev = (start - 1) as nat;
        lemma_one_run_per_period(prev, period);
        lemma_window_shift(prev as int, period as nat, period);
        lemma_mod_add_multiples_vanish(prev as int, period);
        assert(prev as int + period == period + prev as int);
    }
}

proof fn lemma_runs_per_periods(start: nat, m: nat, period: int)
    requires
        0 < period,
    ensures
        runs_in_window(start as int, (m * period) as nat, period) == m,
    decreases m,
{
    if m == 0 {
        assert(m * period == 0);
    } else {
        lemma_runs_per_periods(start, (m - 1) as nat, period);
        let first: nat = ((m - 1) as nat * period) as nat;
        assert(first + period == m * period) by (nonlinear_arith)
            requires
                m > 0,
                first == (m - 1) as nat * period,
        ;
        assert((m - 1) as nat * period >= 0) by (nonlinear_arith)
            requires
                m > 0,
                period > 0,
        ;
        assert(runs_in_window(start as int, first, period) == m - 1);
        lemma_window_split(start as int, first, period as nat, period);
        lemma_one_run_per_period((start + first) as nat, period);
        assert(runs_in_window(start as int + first, period as nat, period) == 1);
        assert((first + period as nat) as nat == (m * period) as nat);
    }
}

/// Over any 60 consecutive ticks (one second of the 60 Hz fixed update) the slow update
/// runs exactly 3 times and the combat update exactly 10 times.
pub proof fn lemma_schedule_rates(start: nat)
    ensures
        runs_in_window(start as int, 60, SLOW_UPDATE_PERIOD as int) == 3,
        runs_in_window(start as int, 60, COMBAT_UPDATE_PERIOD as int) == 10,
{
    lemma_runs_per_periods(start, 3, 20);
    lemma_runs_per_periods(start, 10, 6);
}

} // verus!
