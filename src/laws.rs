use vstd::prelude::*;
use crate::engine::{EngineView, Input, RunState, SessionPhase, next_phase, sat_sub};

verus! {

/// The state after `n` ticks of `elapsed` each.
pub open spec fn advance_n(v: EngineView, elapsed: nat, n: nat) -> EngineView
    decreases n,
{
    if n == 0 {
        v
    } else {
        advance_n(v.after_advance(elapsed), elapsed, (n - 1) as nat)
    }
}

/// How many ticks of `elapsed` take a countdown from `r` to zero.
pub open spec fn ticks_to_zero(r: nat, elapsed: nat) -> nat
    decreases r,
{
    if r == 0 || elapsed == 0 {
        0
    } else {
        1 + ticks_to_zero(sat_sub(r, elapsed), elapsed)
    }
}

/// How many ticks of `elapsed` a confirmed session takes, from a work length
/// and a break length: the work countdown, the tick that starts the break and
/// already counts, the rest of the break, and the tick that ends the session.
pub open spec fn session_ticks(work: nat, brk: nat, elapsed: nat) -> nat {
    ticks_to_zero(work, elapsed) + 1 + ticks_to_zero(sat_sub(brk, elapsed), elapsed) + 1
}

/// Ticking `a` times and then `b` times is ticking `a + b` times.
pub proof fn lemma_advance_n_split(v: EngineView, elapsed: nat, a: nat, b: nat)
    ensures
        advance_n(v, elapsed, a + b) == advance_n(advance_n(v, elapsed, a), elapsed, b),
    decreases a,
{
    if a > 0 {
        lemma_advance_n_split(v.after_advance(elapsed), elapsed, (a - 1) as nat, b);
        assert((a + b - 1) as nat == (a - 1) as nat + b);
    }
}

/// While a work or break countdown runs, ticks change nothing but the time
/// left, and after `ticks_to_zero` of them the time left is zero.
proof fn lemma_countdown(v: EngineView, elapsed: nat, k: nat)
    requires
        v.run_state == RunState::Running,
        v.phase == SessionPhase::Work || v.phase == SessionPhase::Break,
        elapsed > 0,
        k <= ticks_to_zero(v.remaining, elapsed),
    ensures
        advance_n(v, elapsed, k) == (EngineView {
            remaining: advance_n(v, elapsed, k).remaining,
            ..v
        }),
        k == ticks_to_zero(v.remaining, elapsed) ==> advance_n(v, elapsed, k).remaining == 0,
    decreases k,
{
    if k > 0 {
        let w = v.after_advance(elapsed);
        assert(w == EngineView { remaining: sat_sub(v.remaining, elapsed), ..v });
        lemma_countdown(w, elapsed, (k - 1) as nat);
    }
}

/// Each tick lowers the time left by at most the time it advances, and the
/// time left is never below zero.
pub proof fn lemma_tick_lowers_by_at_most_elapsed(v: EngineView, elapsed: nat)
    ensures
        v.after_advance(elapsed).remaining + elapsed >= v.remaining,
        v.after_advance(elapsed).remaining >= 0,
{
}

/// From the selection screen, confirming and then ticking (by any positive
/// period) ends the session after exactly `session_ticks` ticks, and not
/// before: the selection screen is back and one more session is counted,
/// while every earlier tick leaves a phase running and the count as it was.
pub proof fn lemma_confirmed_session_completes(v: EngineView, elapsed: nat)
    requires
        v.wf(),
        v.run_state == RunState::Selecting,
        elapsed > 0,
        v.completed_sessions < u32::MAX,
    ensures
        ({
            let w = v.after_event(Input::Confirm);
            let n = session_ticks(v.remaining, v.break_cache, elapsed);
            &&& advance_n(w, elapsed, n).phase == SessionPhase::Idle
            &&& advance_n(w, elapsed, n).run_state == RunState::Selecting
            &&& advance_n(w, elapsed, n).completed_sessions == v.completed_sessions + 1
            &&& forall|k: nat|
                k < n ==> advance_n(w, elapsed, k).phase != SessionPhase::Idle && advance_n(
                    w,
                    elapsed,
                    k,
                ).completed_sessions == v.completed_sessions
        }),
{
    let w = v.after_event(Input::Confirm);
    let n1 = ticks_to_zero(v.remaining, elapsed);
    let x1 = advance_n(w, elapsed, n1);
    lemma_countdown(w, elapsed, n1);
    let x2 = x1.after_advance(elapsed);
    assert(advance_n(x2, elapsed, 0) == x2);
    assert(x2 == advance_n(x1, elapsed, 1));
    assert(x2.phase == SessionPhase::Break && x2.remaining == sat_sub(v.break_cache, elapsed));
    let n2 = ticks_to_zero(x2.remaining, elapsed);
    let x3 = advance_n(x2, elapsed, n2);
    lemma_countdown(x2, elapsed, n2);
    let x4 = x3.after_advance(elapsed);
    assert(advance_n(x4, elapsed, 0) == x4);
    assert(x4 == advance_n(x3, elapsed, 1));
    let n = session_ticks(v.remaining, v.break_cache, elapsed);
    lemma_advance_n_split(w, elapsed, n1, 1);
    lemma_advance_n_split(w, elapsed, n1 + 1, n2);
    lemma_advance_n_split(w, elapsed, n1 + 1 + n2, 1);
    assert(advance_n(w, elapsed, n) == x4);
    assert forall|k: nat| k < n implies advance_n(w, elapsed, k).phase != SessionPhase::Idle
        && advance_n(w, elapsed, k).completed_sessions == v.completed_sessions by {
        if k <= n1 {
            lemma_countdown(w, elapsed, k);
        } else {
            let j = (k - n1 - 1) as nat;
            lemma_countdown(x2, elapsed, j);
            lemma_advance_n_split(w, elapsed, n1 + 1, j);
            assert(k == n1 + 1 + j);
        }
    }
}

/// On the selection screen, moving down from the last preset wraps to the
/// first, and moving up from the first wraps to the last.
pub proof fn lemma_selection_wraps(v: EngineView)
    requires
        v.wf(),
        v.run_state == RunState::Selecting,
    ensures
        v.selected_index == v.presets.len() - 1 ==> v.after_event(Input::MoveDown).selected_index
            == 0,
        v.selected_index == 0 ==> v.after_event(Input::MoveUp).selected_index == v.presets.len()
            - 1,
{
    let l = v.presets.len() as int;
    vstd::arithmetic::div_mod::lemma_mod_self_0(l);
    vstd::arithmetic::div_mod::lemma_small_mod((l - 1) as nat, l as nat);
}

/// Reset while a timer runs or is paused goes back to the selection screen,
/// with no phase, and reloads the selected preset's durations; the selection
/// and the session count stay.
pub proof fn lemma_reset_restores_preset(v: EngineView)
    requires
        v.wf(),
        v.run_state == RunState::Running || v.run_state == RunState::Paused,
    ensures
        ({
            let w = v.after_event(Input::Reset);
            &&& w.run_state == RunState::Selecting
            &&& w.phase == SessionPhase::Idle
            &&& w.remaining == v.selected().work_ms
            &&& w.break_cache == v.selected().break_ms
            &&& w.selected_index == v.selected_index
            &&& w.completed_sessions == v.completed_sessions
            &&& w.wf()
        }),
{
}

/// Toggling pause twice, while a timer runs or is paused, gives back the
/// state it started from.
pub proof fn lemma_toggle_pause_twice(v: EngineView)
    requires
        v.run_state != RunState::Selecting,
    ensures
        v.after_event(Input::TogglePause).after_event(Input::TogglePause) == v,
{
}

/// A tick longer than the time left changes the phase at most once, along
/// work, break, idle: where time was left, the countdown stops at zero in the
/// same phase; where none was, the next phase starts and is not itself ended.
pub proof fn lemma_overshoot_single_transition(v: EngineView, elapsed: nat)
    requires
        v.wf(),
        elapsed > v.remaining,
    ensures
        ({
            let w = v.after_advance(elapsed);
            &&& w.phase == v.phase || w.phase == next_phase(v.phase)
            &&& v.remaining > 0 ==> w.phase == v.phase && (v.run_state == RunState::Running
                ==> w.remaining == 0)
            &&& v.run_state == RunState::Running && v.remaining == 0 && v.phase
                == SessionPhase::Work ==> w.phase == SessionPhase::Break && w.remaining == sat_sub(
                v.break_cache,
                elapsed,
            )
        }),
{
}

} // verus!
