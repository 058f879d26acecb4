use pomodoro::clock::{split_clock, DurationPreset, TICK_MS};
use pomodoro::engine::{decode_key, Engine, Input, Key, RunState, SessionPhase};

fn short_first() -> Engine {
    let mut e = Engine::new();
    e.handle_event(Input::MoveDown);
    e
}

#[test]
fn starts_selecting_first_preset() {
    let e = Engine::new();
    assert_eq!(e.run_state(), RunState::Selecting);
    assert_eq!(e.phase(), SessionPhase::Idle);
    assert_eq!(e.selected_index(), 0);
    assert_eq!(e.remaining_ms(), 25 * 60 * 1000);
    assert_eq!(e.break_ms(), 5 * 60 * 1000);
    assert_eq!(e.completed_sessions(), 0);
    assert!(!e.should_exit());
    assert_eq!(e.presets().len(), 2);
    assert_eq!(e.presets()[1], DurationPreset { work_ms: 5000, break_ms: 3000 });
}

#[test]
fn default_preset_is_classic() {
    let p = DurationPreset::default();
    assert_eq!(p.work_ms, 1_500_000);
    assert_eq!(p.break_ms, 300_000);
    assert_eq!(p.minutes(), (25, 5));
    assert_eq!(DurationPreset { work_ms: 5000, break_ms: 3000 }.minutes(), (0, 0));
}

#[test]
fn short_preset_scenario_with_large_steps() {
    let mut e = short_first();
    assert_eq!(e.selected_index(), 1);
    assert_eq!(e.remaining_ms(), 5000);
    assert_eq!(e.break_ms(), 3000);
    e.handle_event(Input::Confirm);
    assert_eq!(e.run_state(), RunState::Running);
    assert_eq!(e.phase(), SessionPhase::Work);
    assert_eq!(e.remaining_ms(), 5000);

    // the work countdown reaches zero; the switch comes with the next call
    e.advance(5000);
    assert_eq!(e.phase(), SessionPhase::Work);
    assert_eq!(e.remaining_ms(), 0);

    e.advance(0);
    assert_eq!(e.phase(), SessionPhase::Break);
    assert_eq!(e.remaining_ms(), 3000);

    e.advance(3000);
    assert_eq!(e.phase(), SessionPhase::Break);
    assert_eq!(e.remaining_ms(), 0);

    e.advance(3000);
    assert_eq!(e.phase(), SessionPhase::Idle);
    assert_eq!(e.completed_sessions(), 1);
    assert_eq!(e.run_state(), RunState::Selecting);
    assert_eq!(e.selected_index(), 1);
    assert_eq!(e.remaining_ms(), 5000);
    assert_eq!(e.break_ms(), 3000);
}

#[test]
fn short_preset_scenario_by_ticks() {
    let mut e = short_first();
    e.handle_event(Input::Confirm);
    for _ in 0..250 {
        e.tick();
    }
    assert_eq!(e.phase(), SessionPhase::Work);
    assert_eq!(e.remaining_ms(), 0);
    e.tick();
    assert_eq!(e.phase(), SessionPhase::Break);
    assert_eq!(e.remaining_ms(), 3000 - TICK_MS);
    for _ in 0..149 {
        e.tick();
    }
    assert_eq!(e.phase(), SessionPhase::Break);
    assert_eq!(e.remaining_ms(), 0);
    e.tick();
    assert_eq!(e.phase(), SessionPhase::Idle);
    assert_eq!(e.run_state(), RunState::Selecting);
    assert_eq!(e.completed_sessions(), 1);
}

#[test]
fn session_completes_once_and_returns_to_selecting() {
    let mut e = Engine::with_presets(vec![DurationPreset { work_ms: 70, break_ms: 50 }]);
    e.handle_event(Input::Confirm);
    let mut ticks: u32 = 0;
    while e.phase() != SessionPhase::Idle {
        e.tick();
        ticks += 1;
        assert!(ticks < 100);
    }
    // 4 ticks of work, 1 into the break, 2 more of it, 1 to end
    assert_eq!(ticks, 8);
    assert_eq!(e.completed_sessions(), 1);
    assert_eq!(e.run_state(), RunState::Selecting);
    // a second session counts once more
    e.handle_event(Input::Confirm);
    while e.phase() != SessionPhase::Idle {
        e.tick();
    }
    assert_eq!(e.completed_sessions(), 2);
}

#[test]
fn remaining_drops_at_most_elapsed_per_tick() {
    let mut e = short_first();
    e.handle_event(Input::Confirm);
    for _ in 0..500 {
        let before = e.remaining_ms();
        e.tick();
        assert!(e.remaining_ms() + TICK_MS >= before);
    }
}

#[test]
fn move_down_from_last_wraps_to_first() {
    let mut e = short_first();
    e.handle_event(Input::MoveDown);
    assert_eq!(e.selected_index(), 0);
    assert_eq!(e.remaining_ms(), 1_500_000);
    assert_eq!(e.break_ms(), 300_000);
}

#[test]
fn move_up_from_first_wraps_to_last() {
    let mut e = Engine::new();
    e.handle_event(Input::MoveUp);
    assert_eq!(e.selected_index(), 1);
    assert_eq!(e.remaining_ms(), 5000);
    assert_eq!(e.break_ms(), 3000);
    e.handle_event(Input::MoveUp);
    assert_eq!(e.selected_index(), 0);
}

#[test]
fn moves_ignored_while_running() {
    let mut e = Engine::new();
    e.handle_event(Input::Confirm);
    e.handle_event(Input::MoveDown);
    assert_eq!(e.selected_index(), 0);
    e.handle_event(Input::Confirm);
    assert_eq!(e.run_state(), RunState::Running);
}

#[test]
fn reset_while_running_restores_selected_preset() {
    let mut e = short_first();
    e.handle_event(Input::Confirm);
    e.advance(5000);
    e.advance(1000);
    assert_eq!(e.phase(), SessionPhase::Break);
    e.handle_event(Input::Reset);
    assert_eq!(e.run_state(), RunState::Selecting);
    assert_eq!(e.phase(), SessionPhase::Idle);
    assert_eq!(e.selected_index(), 1);
    assert_eq!(e.remaining_ms(), 5000);
    assert_eq!(e.break_ms(), 3000);
    assert_eq!(e.completed_sessions(), 0);
}

#[test]
fn reset_while_paused_restores_selected_preset() {
    let mut e = Engine::new();
    e.handle_event(Input::Confirm);
    e.advance(60_000);
    e.handle_event(Input::TogglePause);
    assert_eq!(e.run_state(), RunState::Paused);
    e.handle_event(Input::Reset);
    assert_eq!(e.run_state(), RunState::Selecting);
    assert_eq!(e.phase(), SessionPhase::Idle);
    assert_eq!(e.remaining_ms(), 1_500_000);
}

#[test]
fn toggle_pause_twice_restores_run_state() {
    let mut e = Engine::new();
    e.handle_event(Input::Confirm);
    e.handle_event(Input::TogglePause);
    assert_eq!(e.run_state(), RunState::Paused);
    e.handle_event(Input::TogglePause);
    assert_eq!(e.run_state(), RunState::Running);
    e.handle_event(Input::TogglePause);
    assert_eq!(e.run_state(), RunState::Paused);
    e.handle_event(Input::TogglePause);
    e.handle_event(Input::TogglePause);
    assert_eq!(e.run_state(), RunState::Paused);
}

#[test]
fn toggle_pause_from_selecting_pauses() {
    let mut e = Engine::new();
    e.handle_event(Input::TogglePause);
    assert_eq!(e.run_state(), RunState::Paused);
    assert_eq!(e.phase(), SessionPhase::Idle);
    e.handle_event(Input::TogglePause);
    assert_eq!(e.run_state(), RunState::Running);
}

#[test]
fn paused_engine_does_not_count_down() {
    let mut e = Engine::new();
    e.handle_event(Input::Confirm);
    e.handle_event(Input::TogglePause);
    e.advance(1000);
    assert_eq!(e.remaining_ms(), 1_500_000);
    assert!(e.cycle(None));
    assert_eq!(e.remaining_ms(), 1_500_000);
}

#[test]
fn selecting_engine_does_not_count_down() {
    let mut e = Engine::new();
    e.advance(1000);
    e.tick();
    assert_eq!(e.remaining_ms(), 1_500_000);
}

#[test]
fn overshoot_saturates_without_transition() {
    let mut e = short_first();
    e.handle_event(Input::Confirm);
    e.advance(1_000_000);
    assert_eq!(e.remaining_ms(), 0);
    assert_eq!(e.phase(), SessionPhase::Work);
}

#[test]
fn overshoot_makes_one_transition_per_call() {
    let mut e = short_first();
    e.handle_event(Input::Confirm);
    e.advance(1_000_000);
    e.advance(1_000_000);
    assert_eq!(e.phase(), SessionPhase::Break);
    assert_eq!(e.remaining_ms(), 0);
    assert_eq!(e.run_state(), RunState::Running);
    e.advance(1_000_000);
    assert_eq!(e.phase(), SessionPhase::Idle);
    assert_eq!(e.completed_sessions(), 1);
}

#[test]
fn quit_sets_exit_in_every_state() {
    let mut e = Engine::new();
    assert!(!e.cycle(Some(Input::Quit)));
    assert!(e.should_exit());
    let mut r = Engine::new();
    r.handle_event(Input::Confirm);
    r.handle_event(Input::Quit);
    assert!(r.should_exit());
}

#[test]
fn cycle_applies_input_then_ticks() {
    let mut e = Engine::new();
    assert!(e.cycle(Some(Input::Confirm)));
    assert_eq!(e.run_state(), RunState::Running);
    assert_eq!(e.remaining_ms(), 1_500_000 - TICK_MS);
    assert!(e.cycle(Some(Input::TogglePause)));
    assert_eq!(e.remaining_ms(), 1_500_000 - TICK_MS);
    assert!(e.cycle(None));
    assert_eq!(e.remaining_ms(), 1_500_000 - TICK_MS);
    assert!(e.cycle(Some(Input::TogglePause)));
    assert_eq!(e.remaining_ms(), 1_500_000 - 2 * TICK_MS);
}

#[test]
fn key_bindings() {
    assert_eq!(decode_key(Key::Char('q')), Some(Input::Quit));
    assert_eq!(decode_key(Key::Enter), Some(Input::Confirm));
    assert_eq!(decode_key(Key::Up), Some(Input::MoveUp));
    assert_eq!(decode_key(Key::Char('k')), Some(Input::MoveUp));
    assert_eq!(decode_key(Key::Down), Some(Input::MoveDown));
    assert_eq!(decode_key(Key::Char('j')), Some(Input::MoveDown));
    assert_eq!(decode_key(Key::Char('p')), Some(Input::TogglePause));
    assert_eq!(decode_key(Key::Esc), Some(Input::Reset));
    assert_eq!(decode_key(Key::Char('x')), None);
    assert_eq!(decode_key(Key::Other), None);
}

#[test]
fn clock_split() {
    let p = split_clock(3_723_045);
    assert_eq!((p.hours, p.minutes, p.seconds, p.millis), (1, 2, 3, 45));
    let q = split_clock(4_980);
    assert_eq!((q.hours, q.minutes, q.seconds, q.millis), (0, 0, 4, 980));
    let z = split_clock(0);
    assert_eq!((z.hours, z.minutes, z.seconds, z.millis), (0, 0, 0, 0));
}

#[test]
fn reset_reloads_durations_and_keeps_run_state() {
    let mut e = short_first();
    e.handle_event(Input::Confirm);
    e.advance(1200);
    assert_eq!(e.remaining_ms(), 3800);
    e.reset();
    assert_eq!(e.run_state(), RunState::Running);
    assert_eq!(e.phase(), SessionPhase::Work);
    assert_eq!(e.selected_index(), 1);
    assert_eq!(e.remaining_ms(), 5000);
    assert_eq!(e.break_ms(), 3000);
    assert_eq!(e.completed_sessions(), 0);
    assert!(!e.should_exit());
}
