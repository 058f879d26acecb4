use vstd::prelude::*;
use crate::clock::{DurationPreset, TICK_MS};

verus! {

/// Which countdown is active.
#[derive(Clone, Copy, Debug, PartialEq, Eq, Structural)]
pub enum SessionPhase {
    Idle,
    Work,
    Break,
}

/// Whether the engine takes selection input, ticks, or has its ticking suspended.
#[derive(Clone, Copy, Debug, PartialEq, Eq, Structural)]
pub enum RunState {
    Selecting,
    Running,
    Paused,
}

/// A decoded input event.
#[derive(Clone, Copy, Debug, PartialEq, Eq, Structural)]
pub enum Input {
    Quit,
    Confirm,
    MoveUp,
    MoveDown,
    TogglePause,
    Reset,
}

/// A key as the terminal reports it, reduced to what the bindings look at.
#[derive(Clone, Copy, Debug, PartialEq, Eq, Structural)]
pub enum Key {
    Char(char),
    Enter,
    Up,
    Down,
    Esc,
    Other,
}

/// The input a key is bound to, if any.
pub open spec fn key_binding(k: Key) -> Option<Input> {
    match k {
        Key::Char('q') => Some(Input::Quit),
        Key::Enter => Some(Input::Confirm),
        Key::Up | Key::Char('k') => Some(Input::MoveUp),
        Key::Down | Key::Char('j') => Some(Input::MoveDown),
        Key::Char('p') => Some(Input::TogglePause),
        Key::Esc => Some(Input::Reset),
        _ => None,
    }
}

/// Decodes a key by the bindings; unbound keys give `None`.
pub fn decode_key(k: Key) -> (r: Option<Input>)
    ensures
        r == key_binding(k),
{
    match k {
        Key::Char('q') => Some(Input::Quit),
        Key::Enter => Some(Input::Confirm),
        Key::Up | Key::Char('k') => Some(Input::MoveUp),
        Key::Down | Key::Char('j') => Some(Input::MoveDown),
        Key::Char('p') => Some(Input::TogglePause),
        Key::Esc => Some(Input::Reset),
        _ => None,
    }
}

/// `a - b`, or 0 where `b` exceeds `a`.
pub open spec fn sat_sub(a: nat, b: nat) -> nat {
    if a >= b {
        (a - b) as nat
    } else {
        0
    }
}

/// One more finished session; the counter stops at `u32::MAX`.
pub open spec fn bump(c: nat) -> nat {
    if c < u32::MAX {
        c + 1
    } else {
        c
    }
}

/// The phase that follows when a countdown ends.
pub open spec fn next_phase(p: SessionPhase) -> SessionPhase {
    match p {
        SessionPhase::Work => SessionPhase::Break,
        _ => SessionPhase::Idle,
    }
}

/// The engine's state as mathematical values.
pub struct EngineView {
    pub presets: Seq<DurationPreset>,
    pub run_state: RunState,
    pub phase: SessionPhase,
    pub selected_index: nat,
    pub remaining: nat,
    pub break_cache: nat,
    pub completed_sessions: nat,
    pub exit: bool,
}

impl EngineView {
    /// The preset at the selection.
    pub open spec fn selected(self) -> DurationPreset {
        self.presets[self.selected_index as int]
    }

    /// The state's invariant: a valid selection, the break length of the
    /// selected preset held ready, and on the selection screen no countdown,
    /// only the selected preset's work length pending.
    pub open spec fn wf(self) -> bool {
        &&& 0 < self.presets.len() <= usize::MAX
        &&& self.selected_index < self.presets.len()
        &&& self.break_cache == self.selected().break_ms
        &&& self.run_state == RunState::Selecting ==> {
            &&& self.phase == SessionPhase::Idle
            &&& self.remaining == self.selected().work_ms
        }
    }

    /// Selects preset `i` and loads its durations as the pending values.
    pub open spec fn with_selection(self, i: nat) -> EngineView {
        EngineView {
            selected_index: i,
            remaining: self.presets[i as int].work_ms as nat,
            break_cache: self.presets[i as int].break_ms as nat,
            ..self
        }
    }

    /// The index after the selection, wrapping to the first.
    pub open spec fn next_index(self) -> nat {
        ((self.selected_index + 1) as int % (self.presets.len() as int)) as nat
    }

    /// The index before the selection, wrapping to the last.
    pub open spec fn prev_index(self) -> nat {
        ((self.selected_index + self.presets.len() - 1) as int % (self.presets.len() as int)) as nat
    }

    /// Back to the selection screen with the selected preset's durations
    /// reloaded, whatever countdown was in progress.
    pub open spec fn back_to_selection(self) -> EngineView {
        EngineView {
            run_state: RunState::Selecting,
            phase: SessionPhase::Idle,
            ..self.with_selection(self.selected_index)
        }
    }

    /// What an input does on the selection screen; elsewhere nothing.
    pub open spec fn after_local(self, input: Input) -> EngineView {
        if self.run_state == RunState::Selecting {
            match input {
                Input::Quit => EngineView { exit: true, ..self },
                Input::Confirm => EngineView {
                    run_state: RunState::Running,
                    phase: SessionPhase::Work,
                    ..self
                },
                Input::MoveUp => self.with_selection(self.prev_index()),
                Input::MoveDown => self.with_selection(self.next_index()),
                _ => self,
            }
        } else {
            self
        }
    }

    /// What an input does in every run state.
    pub open spec fn after_global(self, input: Input) -> EngineView {
        match input {
            Input::Quit => EngineView { exit: true, ..self },
            Input::TogglePause => EngineView {
                run_state: if self.run_state == RunState::Paused {
                    RunState::Running
                } else {
                    RunState::Paused
                },
                ..self
            },
            Input::Reset => self.back_to_selection(),
            _ => self,
        }
    }

    /// An input's effect: the run state's own binding first, then the global one.
    pub open spec fn after_event(self, input: Input) -> EngineView {
        self.after_local(input).after_global(input)
    }

    /// One tick of `elapsed` milliseconds. Only a running engine changes: a
    /// finished work phase gives way to the break, a finished break ends the
    /// session and goes back to the selection screen, and a running countdown
    /// loses `elapsed`, stopping at zero.
    pub open spec fn after_advance(self, elapsed: nat) -> EngineView {
        if self.run_state != RunState::Running {
            self
        } else if self.remaining == 0 && self.phase == SessionPhase::Work {
            EngineView {
                phase: SessionPhase::Break,
                remaining: sat_sub(self.break_cache, elapsed),
                ..self
            }
        } else if self.remaining == 0 && self.phase == SessionPhase::Break {
            EngineView {
                run_state: RunState::Selecting,
                phase: SessionPhase::Idle,
                completed_sessions: bump(self.completed_sessions),
                ..self.with_selection(self.selected_index)
            }
        } else {
            EngineView { remaining: sat_sub(self.remaining, elapsed), ..self }
        }
    }

    /// One cycle of the driving loop: the input, if one came, then a tick
    /// unless paused.
    pub open spec fn after_cycle(self, input: Option<Input>) -> EngineView {
        let s = match input {
            Some(i) => self.after_event(i),
            None => self,
        };
        if s.run_state == RunState::Paused {
            s
        } else {
            s.after_advance(TICK_MS as nat)
        }
    }
}

/// The session engine: the preset list and the timer state over it.
pub struct Engine {
    presets: Vec<DurationPreset>,
    run_state: RunState,
    phase: SessionPhase,
    selected_index: usize,
    remaining_ms: u64,
    break_ms: u64,
    completed_sessions: u32,
    exit: bool,
}

impl View for Engine {
    type V = EngineView;

    closed spec fn view(&self) -> EngineView {
        EngineView {
            presets: self.presets@,
            run_state: self.run_state,
            phase: self.phase,
            selected_index: self.selected_index as nat,
            remaining: self.remaining_ms as nat,
            break_cache: self.break_ms as nat,
            completed_sessions: self.completed_sessions as nat,
            exit: self.exit,
        }
    }
}

/// The presets offered at start: 25 minutes of work with 5 of break, and a
/// short one of 5 seconds with 3.
pub open spec fn default_presets() -> Seq<DurationPreset> {
    seq![
        DurationPreset { work_ms: 1500000, break_ms: 300000 },
        DurationPreset { work_ms: 5000, break_ms: 3000 },
    ]
}

/// The state at start over `presets`: selecting the first, its durations pending.
pub open spec fn initial_view(presets: Seq<DurationPreset>) -> EngineView {
    EngineView {
        presets,
        run_state: RunState::Selecting,
        phase: SessionPhase::Idle,
        selected_index: 0,
        remaining: presets[0].work_ms as nat,
        break_cache: presets[0].break_ms as nat,
        completed_sessions: 0,
        exit: false,
    }
}

impl Engine {
    /// An engine over the default presets.
    pub fn new() -> (r: Engine)
        ensures
            r@ == initial_view(default_presets()),
            r@.wf(),
    {
        let presets = vec![
            DurationPreset::default(),
            DurationPreset { work_ms: 5000, break_ms: 3000 },
        ];
        proof {
            assert(presets@ =~= default_presets());
        }
        Engine::with_presets(presets)
    }

    /// An engine over a non-empty preset list.
    pub fn with_presets(presets: Vec<DurationPreset>) -> (r: Engine)
        requires
            presets.len() > 0,
        ensures
            r@ == initial_view(presets@),
            r@.wf(),
    {
        let work = presets[0].work_ms;
        let brk = presets[0].break_ms;
        Engine {
            presets,
            run_state: RunState::Selecting,
            phase: SessionPhase::Idle,
            selected_index: 0,
            remaining_ms: work,
            break_ms: brk,
            completed_sessions: 0,
            exit: false,
        }
    }

    /// Selects preset `i` and loads its durations as the pending values.
    fn load_selection(&mut self, i: usize)
        requires
            i < old(self)@.presets.len(),
        ensures
            final(self)@ == old(self)@.with_selection(i as nat),
    {
        self.selected_index = i;
        self.remaining_ms = self.presets[i].work_ms;
        self.break_ms = self.presets[i].break_ms;
    }

    /// Moves the selection one down, from the last back to the first.
    pub fn select_next(&mut self)
        requires
            old(self)@.wf(),
        ensures
            final(self)@ == old(self)@.with_selection(old(self)@.next_index()),
            final(self)@.selected_index == (old(self)@.selected_index + 1) as int % (old(
                self,
            )@.presets.len() as int),
    {
        let len = self.presets.len();
        let next: usize = if self.selected_index >= len - 1 {
            0
        } else {
            self.selected_index + 1
        };
        proof {
            let l = len as int;
            let i = self.selected_index as int;
            if i + 1 == l {
                vstd::arithmetic::div_mod::lemma_mod_self_0(l);
            } else {
                vstd::arithmetic::div_mod::lemma_small_mod((i + 1) as nat, l as nat);
            }
        }
        self.load_selection(next);
    }

    /// Moves the selection one up, from the first back to the last.
    pub fn select_prev(&mut self)
        requires
            old(self)@.wf(),
        ensures
            final(self)@ == old(self)@.with_selection(old(self)@.prev_index()),
            final(self)@.selected_index == (old(self)@.selected_index + old(self)@.presets.len()
                - 1) as int % (old(self)@.presets.len() as int),
    {
        let len = self.presets.len();
        let prev: usize = if self.selected_index == 0 {
            len - 1
        } else {
            self.selected_index - 1
        };
        proof {
            let l = len as int;
            let i = self.selected_index as int;
            if i == 0 {
                vstd::arithmetic::div_mod::lemma_small_mod((l - 1) as nat, l as nat);
            } else {
                vstd::arithmetic::div_mod::lemma_mod_add_multiples_vanish(i - 1, l);
                vstd::arithmetic::div_mod::lemma_small_mod((i - 1) as nat, l as nat);
            }
        }
        self.load_selection(prev);
    }

    /// Reloads the selected preset's work and break lengths as the time left
    /// and the break held ready; the run state, the phase and the rest stay.
    pub fn reset(&mut self)
        requires
            old(self)@.wf(),
        ensures
            final(self)@ == old(self)@.with_selection(old(self)@.selected_index),
            final(self)@.wf(),
    {
        let i = self.selected_index;
        self.load_selection(i);
    }

    /// Applies one input: the binding of the current run state first (on the
    /// selection screen: quit, confirm, move up, move down), then the global
    /// one (quit, toggle pause, reset).
    pub fn handle_event(&mut self, input: Input)
        requires
            old(self)@.wf(),
        ensures
            final(self)@ == old(self)@.after_event(input),
            final(self)@.wf(),
    {
        if self.run_state == RunState::Selecting {
            match input {
                Input::Quit => self.exit = true,
                Input::Confirm => {
                    self.run_state = RunState::Running;
                    self.phase = SessionPhase::Work;
                },
                Input::MoveUp => self.select_prev(),
                Input::MoveDown => self.select_next(),
                _ => {},
            }
        }
        assert(self@ == old(self)@.after_local(input));
        match input {
            Input::Quit => self.exit = true,
            Input::TogglePause => {
                if self.run_state == RunState::Paused {
                    self.run_state = RunState::Running;
                } else {
                    self.run_state = RunState::Paused;
                }
            },
            Input::Reset => {
                self.reset();
                self.run_state = RunState::Selecting;
                self.phase = SessionPhase::Idle;
            },
            _ => {},
        }
    }

    /// Advances the timer by `elapsed_ms`. Only a running engine changes: a
    /// finished work phase switches to the break and a finished break ends the
    /// session (before the decrement), then the countdown of a still running
    /// engine loses `elapsed_ms`, stopping at zero. At most one phase change
    /// happens per call, however large `elapsed_ms` is.
    pub fn advance(&mut self, elapsed_ms: u64)
        requires
            old(self)@.wf(),
        ensures
            final(self)@ == old(self)@.after_advance(elapsed_ms as nat),
            final(self)@.wf(),
            final(self)@.remaining + elapsed_ms >= old(self)@.remaining,
            final(self)@.completed_sessions >= old(self)@.completed_sessions,
            final(self)@.phase == old(self)@.phase || final(self)@.phase == next_phase(
                old(self)@.phase,
            ),
            old(self)@.completed_sessions < u32::MAX ==> (final(self)@.completed_sessions
                == old(self)@.completed_sessions + 1 <==> (old(self)@.phase == SessionPhase::Break
                && final(self)@.phase == SessionPhase::Idle)),
            final(self)@.completed_sessions <= old(self)@.completed_sessions + 1,
            final(self)@.presets == old(self)@.presets,
            final(self)@.selected_index == old(self)@.selected_index,
            final(self)@.exit == old(self)@.exit,
    {
        if self.run_state == RunState::Running {
            if self.remaining_ms == 0 && self.phase == SessionPhase::Work {
                self.phase = SessionPhase::Break;
                self.remaining_ms = self.break_ms;
            } else if self.remaining_ms == 0 && self.phase == SessionPhase::Break {
                self.phase = SessionPhase::Idle;
                self.completed_sessions = self.completed_sessions.saturating_add(1);
                self.run_state = RunState::Selecting;
                let i = self.selected_index;
                self.load_selection(i);
            }
            if self.run_state == RunState::Running {
                self.remaining_ms = self.remaining_ms.saturating_sub(elapsed_ms);
            }
        }
    }

    /// Advances the timer by one tick period.
    pub fn tick(&mut self)
        requires
            old(self)@.wf(),
        ensures
            final(self)@ == old(self)@.after_advance(TICK_MS as nat),
            final(self)@.wf(),
    {
        self.advance(TICK_MS);
    }

    /// One cycle of the driving loop, after the view was drawn and the input
    /// polled for a tick period: applies the input if one came, then ticks
    /// unless paused. Returns whether the loop goes on.
    pub fn cycle(&mut self, input: Option<Input>) -> (go_on: bool)
        requires
            old(self)@.wf(),
        ensures
            final(self)@ == old(self)@.after_cycle(input),
            final(self)@.wf(),
            go_on == !final(self)@.exit,
    {
        if let Some(i) = input {
            self.handle_event(i);
        }
        if self.run_state != RunState::Paused {
            self.tick();
        }
        !self.exit
    }

    /// The preset list.
    pub fn presets(&self) -> (r: &[DurationPreset])
        ensures
            r@ == self@.presets,
    {
        self.presets.as_slice()
    }

    pub fn run_state(&self) -> (r: RunState)
        ensures
            r == self@.run_state,
    {
        self.run_state
    }

    pub fn phase(&self) -> (r: SessionPhase)
        ensures
            r == self@.phase,
    {
        self.phase
    }

    pub fn selected_index(&self) -> (r: usize)
        ensures
            r == self@.selected_index,
    {
        self.selected_index
    }

    /// Time left in the current phase, or pending on the selection screen.
    pub fn remaining_ms(&self) -> (r: u64)
        ensures
            r == self@.remaining,
    {
        self.remaining_ms
    }

    /// The break length held ready for when the work phase ends.
    pub fn break_ms(&self) -> (r: u64)
        ensures
            r == self@.break_cache,
    {
        self.break_ms
    }

    pub fn completed_sessions(&self) -> (r: u32)
        ensures
            r == self@.completed_sessions,
    {
        self.completed_sessions
    }

    /// Whether quit was asked for.
    pub fn should_exit(&self) -> (r: bool)
        ensures
            r == self@.exit,
    {
        self.exit
    }
}

} // verus!
