//! The laws of the render loop.
//!
//! A redraw cycle touches only a small part of the runtime: the frame
//! counter, the save counter, and the loop policy that decides whether
//! another redraw is scheduled.  [`CycleModel`] captures exactly that
//! part; `App::on_redraw` guarantees that every completed cycle advances
//! the runtime's model by [`cycle`].  The proofs here state what iterated
//! cycles do: how the frame counter grows, how many cycles a driven run
//! performs under each loop policy, and how many save requests a run
//! emits.

use vstd::prelude::*;
use crate::input::{HandlerId, KeyId};

verus! {

/// The part of the runtime state a redraw cycle acts on.
pub struct CycleModel {
    /// Whether the run is single-frame.
    pub no_loop: bool,
    /// The optional frame ceiling.
    pub limit: Option<u32>,
    /// The save quota.
    pub quota: u32,
    /// Completed redraw cycles.
    pub frame_count: nat,
    /// Save requests emitted.
    pub saves_emitted: nat,
}

/// How many save requests a model should have emitted: one per completed
/// frame index within the quota.
pub open spec fn saves_expected(quota: u32, frame_count: nat) -> nat {
    if frame_count < quota {
        frame_count
    } else {
        quota as nat
    }
}

/// One completed redraw cycle: the frame counter advances by exactly one,
/// and a save request is emitted exactly when the frame's index lies
/// within the save quota.
pub open spec fn cycle(m: CycleModel) -> CycleModel {
    CycleModel {
        frame_count: m.frame_count + 1,
        saves_emitted: m.saves_emitted + (if m.frame_count < m.quota {
            1nat
        } else {
            0nat
        }),
        ..m
    }
}

/// Whether the cycle that just ran schedules another redraw: never in a
/// single-frame run, and under a frame ceiling only while the count after
/// the cycle is below it.
pub open spec fn cycle_reschedules(m: CycleModel) -> bool {
    !m.no_loop && (match m.limit {
        Some(k) => m.frame_count + 1 < k,
        None => true,
    })
}

/// `n` completed redraw cycles in a row.
pub open spec fn cycles_n(m: CycleModel, n: nat) -> CycleModel
    decreases n,
{
    if n == 0 {
        m
    } else {
        cycle(cycles_n(m, (n - 1) as nat))
    }
}

/// The number of cycles a driven run performs, counting from a first
/// scheduled redraw: each cycle runs, and the next runs only if the one
/// before scheduled it.  `fuel` bounds the recursion; a free-running loop
/// consumes all of it.
pub open spec fn total_cycles(m: CycleModel, fuel: nat) -> nat
    decreases fuel,
{
    if fuel == 0 {
        0
    } else if cycle_reschedules(m) {
        1 + total_cycles(cycle(m), (fuel - 1) as nat)
    } else {
        1
    }
}

/// After `n` completed redraw cycles the frame counter has grown by
/// exactly `n` — no gaps, no duplicate increments — and the loop policy
/// is unchanged.
pub proof fn lemma_frame_count_after_cycles(m: CycleModel, n: nat)
    ensures
        cycles_n(m, n).frame_count == m.frame_count + n,
        cycles_n(m, n).no_loop == m.no_loop,
        cycles_n(m, n).limit == m.limit,
        cycles_n(m, n).quota == m.quota,
    decreases n,
{
    if n > 0 {
        lemma_frame_count_after_cycles(m, (n - 1) as nat);
    }
}

/// A run that starts with the expected save count keeps it: after `n`
/// further cycles, exactly one save request has been emitted per frame
/// index within the quota.
pub proof fn lemma_saves_invariant(m: CycleModel, n: nat)
    requires
        m.saves_emitted == saves_expected(m.quota, m.frame_count),
    ensures
        cycles_n(m, n).saves_emitted == saves_expected(m.quota, m.frame_count + n),
    decreases n,
{
    if n > 0 {
        lemma_saves_invariant(m, (n - 1) as nat);
        lemma_frame_count_after_cycles(m, (n - 1) as nat);
    }
}

/// From a fresh runtime, a run of `n` cycles emits exactly
/// `min(quota, n)` save requests, one per frame index within the quota.
pub proof fn lemma_save_quota(m: CycleModel, n: nat)
    requires
        m.frame_count == 0,
        m.saves_emitted == 0,
    ensures
        cycles_n(m, n).saves_emitted == (if n < m.quota {
            n
        } else {
            m.quota as nat
        }),
{
    lemma_saves_invariant(m, n);
}

/// In a single-frame run, a driven run performs exactly one redraw cycle,
/// whatever the frame ceiling says.
pub proof fn lemma_loop_once_single_cycle(m: CycleModel, fuel: nat)
    requires
        m.no_loop,
        fuel >= 1,
    ensures
        total_cycles(m, fuel) == 1,
{
}

/// Under a frame ceiling `k`, a driven run performs exactly the cycles
/// that remain below the ceiling, and the last one schedules no further
/// redraw.
pub proof fn lemma_frame_limit_remaining_cycles(m: CycleModel, k: u32, fuel: nat)
    requires
        !m.no_loop,
        m.limit == Some(k),
        m.frame_count < k,
        fuel + m.frame_count >= k,
    ensures
        total_cycles(m, fuel) == k - m.frame_count,
        !cycle_reschedules(cycles_n(m, (k - m.frame_count - 1) as nat)),
    decreases fuel,
{
    let remaining = (k - m.frame_count - 1) as nat;
    if m.frame_count + 1 < k {
        lemma_frame_limit_remaining_cycles(cycle(m), k, (fuel - 1) as nat);
        assert(cycles_n(m, remaining) == cycles_n(cycle(m), (remaining - 1) as nat)) by {
            lemma_cycles_n_unfold_front(m, remaining);
        }
    } else {
        assert(cycles_n(m, 0) == m);
    }
}

/// From a fresh runtime under a positive frame ceiling `k` in a looping
/// run, exactly `k` redraw cycles occur, and the last schedules no
/// further redraw.
pub proof fn lemma_frame_limit_exact_cycles(m: CycleModel, k: u32, fuel: nat)
    requires
        !m.no_loop,
        m.limit == Some(k),
        m.frame_count == 0,
        k >= 1,
        fuel >= k,
    ensures
        total_cycles(m, fuel) == k,
        !cycle_reschedules(cycles_n(m, (k - 1) as nat)),
{
    lemma_frame_limit_remaining_cycles(m, k, fuel);
}

/// A fresh driven run under a positive frame ceiling `k` performs `k`
/// cycles and emits exactly `min(quota, k)` save requests over them.
pub proof fn lemma_run_save_total(m: CycleModel, k: u32, fuel: nat)
    requires
        !m.no_loop,
        m.limit == Some(k),
        m.frame_count == 0,
        m.saves_emitted == 0,
        k >= 1,
        fuel >= k,
    ensures
        cycles_n(m, total_cycles(m, fuel)).saves_emitted == (if (k as nat) < m.quota as nat {
            k as nat
        } else {
            m.quota as nat
        }),
{
    lemma_frame_limit_exact_cycles(m, k, fuel);
    lemma_save_quota(m, k as nat);
}

/// Iterating `n > 0` cycles is one cycle followed by `n - 1` more.
pub proof fn lemma_cycles_n_unfold_front(m: CycleModel, n: nat)
    requires
        n > 0,
    ensures
        cycles_n(m, n) == cycles_n(cycle(m), (n - 1) as nat),
    decreases n,
{
    if n == 1 {
        assert(cycles_n(m, 1) == cycle(cycles_n(m, 0)));
        assert(cycles_n(m, 0) == m);
        assert(cycles_n(cycle(m), 0) == cycle(m));
    } else {
        lemma_cycles_n_unfold_front(m, (n - 1) as nat);
        assert(cycles_n(m, n) == cycle(cycles_n(m, (n - 1) as nat)));
        assert(cycles_n(cycle(m), (n - 1) as nat) == cycle(cycles_n(cycle(m), (n - 2) as nat)));
    }
}

/// Registering a handler for a key twice retains only the second
/// handler: later registrations win.
pub proof fn lemma_register_last_wins(
    handlers: Map<KeyId, HandlerId>,
    key: KeyId,
    first: HandlerId,
    second: HandlerId,
)
    ensures
        handlers.insert(key, first).insert(key, second) == handlers.insert(key, second),
{
    assert(handlers.insert(key, first).insert(key, second) =~= handlers.insert(key, second));
}

} // verus!
