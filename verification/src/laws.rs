//! Proved laws of the pet's behaviour: closed forms for the mood metrics
//! and the marker after any number of ticks, preservation of the state
//! invariant, and idempotence of moves at the playground's edges.

use crate::state::{
    cycle_at, fresh_model, key_spec, run_ticks, tick_spec, wf_model, Key, Model,
};
use vstd::arithmetic::div_mod::{
    lemma_fundamental_div_mod, lemma_fundamental_div_mod_converse_div,
    lemma_fundamental_div_mod_converse_mod, lemma_mod_division_less_than_divisor,
};
use vstd::math::{max, min};
use vstd::prelude::*;

verus! {

/// How quotient and remainder by `d` change when the dividend grows by one.
proof fn lemma_div_mod_step(n: int, d: int)
    requires
        n >= 0,
        d > 0,
    ensures
        n % d == d - 1 ==> ((n + 1) % d == 0 && (n + 1) / d == n / d + 1),
        n % d < d - 1 ==> ((n + 1) % d == n % d + 1 && (n + 1) / d == n / d),
{
    let q = n / d;
    let r = n % d;
    lemma_fundamental_div_mod(n, d);
    lemma_mod_division_less_than_divisor(n, d);
    if r == d - 1 {
        assert(n + 1 == (q + 1) * d + 0) by (nonlinear_arith)
            requires
                n == d * q + r,
                r == d - 1,
        ;
        lemma_fundamental_div_mod_converse_mod(n + 1, d, q + 1, 0);
        lemma_fundamental_div_mod_converse_div(n + 1, d, q + 1, 0);
    } else {
        assert(n + 1 == q * d + (r + 1)) by (nonlinear_arith)
            requires
                n == d * q + r,
        ;
        lemma_fundamental_div_mod_converse_mod(n + 1, d, q, r + 1);
        lemma_fundamental_div_mod_converse_div(n + 1, d, q, r + 1);
    }
}

/// Ticks never move the playground, and the tick counter counts them.
pub proof fn lemma_run_ticks_frame(m: Model, n: nat)
    ensures
        run_ticks(m, n).ticks == m.ticks + n,
        run_ticks(m, n).left == m.left,
        run_ticks(m, n).right == m.right,
        run_ticks(m, n).top == m.top,
        run_ticks(m, n).bottom == m.bottom,
    decreases n,
{
    if n > 0 {
        lemma_run_ticks_frame(m, (n - 1) as nat);
    }
}

/// One tick keeps the state invariant: the pet stays inside the
/// playground minus its margin and both mood metrics stay in 0..=100.
pub proof fn lemma_tick_preserves_wf(m: Model)
    requires
        wf_model(m),
    ensures
        wf_model(tick_spec(m)),
{
}

/// One key press keeps the state invariant, whatever the key.
pub proof fn lemma_key_preserves_wf(m: Model, k: Key)
    requires
        wf_model(m),
    ensures
        wf_model(key_spec(m, k)),
{
}

/// Any number of ticks keeps the state invariant.
pub proof fn lemma_run_ticks_preserves_wf(m: Model, n: nat)
    requires
        wf_model(m),
    ensures
        wf_model(run_ticks(m, n)),
    decreases n,
{
    if n > 0 {
        lemma_run_ticks_preserves_wf(m, (n - 1) as nat);
        lemma_tick_preserves_wf(run_ticks(m, (n - 1) as nat));
    }
}

/// After `n` ticks from a fresh state, hunger is exactly
/// `min(n / 60, 100)`: it rises by one on every 60th tick and saturates
/// at 100.
pub proof fn lemma_hunger_after_ticks(n: nat)
    ensures
        run_ticks(fresh_model(), n).hunger == min(n as int / 60, 100),
    decreases n,
{
    if n > 0 {
        let p = (n - 1) as nat;
        lemma_hunger_after_ticks(p);
        lemma_run_ticks_frame(fresh_model(), p);
        lemma_mod_division_less_than_divisor(p as int, 60);
        lemma_div_mod_step(p as int, 60);
    }
}

/// After `n` ticks from a fresh state, happiness is exactly
/// `max(100 - n / 120, 0)`: it falls by one on every 120th tick and
/// bottoms out at 0.
pub proof fn lemma_happiness_after_ticks(n: nat)
    ensures
        run_ticks(fresh_model(), n).happiness == max(100 - n as int / 120, 0),
    decreases n,
{
    if n > 0 {
        let p = (n - 1) as nat;
        lemma_happiness_after_ticks(p);
        lemma_run_ticks_frame(fresh_model(), p);
        lemma_mod_division_less_than_divisor(p as int, 120);
        lemma_div_mod_step(p as int, 120);
    }
}

/// Advancing once in the fixed cycle matches stepping the index modulo 5.
proof fn lemma_next_cycle(j: int)
    requires
        j >= 0,
    ensures
        cycle_at((j + 1) % 5) == cycle_at(j % 5).next_spec(),
{
    lemma_mod_division_less_than_divisor(j, 5);
    lemma_div_mod_step(j, 5);
}

/// After `n` ticks from a fresh state, the marker is the
/// `(n / 180 mod 5)`-th element of the fixed cycle
/// Dot, Braille, Block, HalfBlock, Bar.
pub proof fn lemma_marker_after_ticks(n: nat)
    ensures
        run_ticks(fresh_model(), n).marker == cycle_at((n as int / 180) % 5),
    decreases n,
{
    if n > 0 {
        let p = (n - 1) as nat;
        lemma_marker_after_ticks(p);
        lemma_run_ticks_frame(fresh_model(), p);
        lemma_mod_division_less_than_divisor(p as int, 180);
        lemma_div_mod_step(p as int, 180);
        if (p as int + 1) % 180 == 0 {
            lemma_next_cycle(p as int / 180);
        }
    }
}

/// At an edge of the playground, the move towards that edge changes
/// nothing at all: pressing it again and again leaves the state as it is.
/// This holds for each of the four directions at its own edge.
pub proof fn lemma_boundary_moves_idempotent(m: Model)
    requires
        wf_model(m),
    ensures
        m.x == 2 * m.right - 10 ==> key_spec(m, Key::Right) == m,
        m.x == 2 * m.left ==> key_spec(m, Key::Left) == m,
        m.y == 2 * m.bottom - 10 ==> key_spec(m, Key::Down) == m,
        m.y == 2 * m.top ==> key_spec(m, Key::Up) == m,
{
    if m.x == 2 * m.right - 10 {
        assert(key_spec(m, Key::Right) =~= m);
    }
    if m.x == 2 * m.left {
        assert(key_spec(m, Key::Left) =~= m);
    }
    if m.y == 2 * m.bottom - 10 {
        assert(key_spec(m, Key::Down) =~= m);
    }
    if m.y == 2 * m.top {
        assert(key_spec(m, Key::Up) =~= m);
    }
}

} // verus!
