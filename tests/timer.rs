use cosmic_pomodoro::countdown::CountdownClock;
use cosmic_pomodoro::pomodoro_timer::{
    PomodoroLength, PomodoroPhase, PomodoroState, PomodoroTimer, TimerEvent,
};
use cosmic_pomodoro::settings::Settings;

fn sound_names() -> Vec<String> {
    vec!["MessageNewInstant".to_string(), "AlarmClockElapsed".to_string()]
}

fn two_rounds() -> PomodoroTimer {
    let lengths = vec![PomodoroLength::new(10, 5), PomodoroLength::new(7, 4)];
    PomodoroTimer::with_lengths(lengths, Settings::new(sound_names()))
}

fn ticks(timer: &mut PomodoroTimer, n: u32) {
    for _ in 0..n {
        timer.tick();
    }
}

#[test]
fn first_focus_period_ends_in_before_relax() {
    let mut timer = two_rounds();
    assert_eq!(timer.position(), 0);
    assert_eq!(timer.pomodoro_phase(), PomodoroPhase::BeforeFocus);
    timer.on_user_toggle();
    assert_eq!(timer.pomodoro_phase(), PomodoroPhase::Focus);
    assert_eq!(timer.remaining_sec(), 10);
    assert_eq!(timer.pomodoro_state(), PomodoroState::Run);
    ticks(&mut timer, 10);
    let event = timer.on_tick_check(false);
    assert_eq!(event, Some(TimerEvent::BeforeRelax));
    assert_eq!(timer.pomodoro_phase(), PomodoroPhase::BeforeRelax);
    assert_eq!(timer.remaining_sec(), 5);
    assert_eq!(timer.pomodoro_state(), PomodoroState::Stop);
}

#[test]
fn first_relax_period_moves_to_next_round() {
    let mut timer = two_rounds();
    timer.on_user_toggle();
    ticks(&mut timer, 10);
    timer.on_tick_check(false);
    timer.on_user_toggle();
    assert_eq!(timer.pomodoro_phase(), PomodoroPhase::Relax);
    assert_eq!(timer.remaining_sec(), 5);
    assert_eq!(timer.pomodoro_state(), PomodoroState::Run);
    ticks(&mut timer, 5);
    let event = timer.on_tick_check(false);
    assert_eq!(event, Some(TimerEvent::AfterRelax));
    assert_eq!(timer.position(), 1);
    assert_eq!(timer.pomodoro_phase(), PomodoroPhase::BeforeFocus);
    assert_eq!(timer.remaining_sec(), 7);
    assert_eq!(timer.pomodoro_state(), PomodoroState::Stop);
}

#[test]
fn position_wraps_after_last_round() {
    let mut timer = two_rounds();
    for round in 0..2usize {
        assert_eq!(timer.position(), round);
        timer.on_user_toggle();
        let focus = timer.remaining_sec();
        ticks(&mut timer, focus);
        timer.on_tick_check(false);
        timer.on_user_toggle();
        let relax = timer.remaining_sec();
        ticks(&mut timer, relax);
        assert_eq!(timer.on_tick_check(false), Some(TimerEvent::AfterRelax));
    }
    assert_eq!(timer.position(), 0);
    assert_eq!(timer.remaining_sec(), 10);
    assert_eq!(timer.pomodoro_phase(), PomodoroPhase::BeforeFocus);
}

#[test]
fn running_timer_counts_down_by_one_per_tick() {
    let mut timer = two_rounds();
    timer.on_user_toggle();
    for expected in (0..10u32).rev() {
        timer.tick();
        assert_eq!(timer.remaining_sec(), expected);
    }
    timer.tick();
    assert_eq!(timer.remaining_sec(), 0);
    assert_eq!(timer.pomodoro_state(), PomodoroState::Run);
}

#[test]
fn pause_keeps_remaining_time() {
    let mut timer = two_rounds();
    timer.on_user_toggle();
    ticks(&mut timer, 3);
    timer.on_user_toggle();
    assert_eq!(timer.pomodoro_state(), PomodoroState::Pause);
    ticks(&mut timer, 100);
    assert_eq!(timer.remaining_sec(), 7);
    timer.on_user_toggle();
    assert_eq!(timer.pomodoro_state(), PomodoroState::Run);
    assert_eq!(timer.remaining_sec(), 7);
    assert_eq!(timer.pomodoro_phase(), PomodoroPhase::Focus);
}

#[test]
fn focused_window_continues_into_relax() {
    let mut timer = two_rounds();
    timer.on_user_toggle();
    ticks(&mut timer, 10);
    let event = timer.on_tick_check(true);
    assert_eq!(event, Some(TimerEvent::BeforeRelax));
    assert_eq!(timer.pomodoro_phase(), PomodoroPhase::Relax);
    assert_eq!(timer.pomodoro_state(), PomodoroState::Run);
    assert_eq!(timer.remaining_sec(), 5);
}

#[test]
fn unfocused_window_waits_in_before_relax() {
    let mut timer = two_rounds();
    timer.on_user_toggle();
    ticks(&mut timer, 10);
    timer.on_tick_check(false);
    ticks(&mut timer, 20);
    assert_eq!(timer.on_tick_check(true), None);
    assert_eq!(timer.pomodoro_phase(), PomodoroPhase::BeforeRelax);
    assert_eq!(timer.pomodoro_state(), PomodoroState::Stop);
    assert_eq!(timer.remaining_sec(), 5);
}

#[test]
fn poll_with_time_left_changes_nothing() {
    let mut timer = two_rounds();
    timer.on_user_toggle();
    ticks(&mut timer, 4);
    assert_eq!(timer.on_tick_check(true), None);
    assert_eq!(timer.on_tick_check(false), None);
    assert_eq!(timer.pomodoro_phase(), PomodoroPhase::Focus);
    assert_eq!(timer.pomodoro_state(), PomodoroState::Run);
    assert_eq!(timer.position(), 0);
    assert_eq!(timer.remaining_sec(), 6);
}

#[test]
fn poll_in_before_focus_at_zero_is_a_no_op() {
    let mut timer = two_rounds();
    timer.reset();
    assert_eq!(timer.remaining_sec(), 0);
    assert_eq!(timer.on_tick_check(true), None);
    assert_eq!(timer.pomodoro_phase(), PomodoroPhase::BeforeFocus);
    assert_eq!(timer.pomodoro_state(), PomodoroState::Stop);
}

#[test]
fn reset_stops_and_returns_to_first_round() {
    let mut timer = two_rounds();
    timer.on_user_toggle();
    ticks(&mut timer, 10);
    timer.on_tick_check(false);
    timer.on_user_toggle();
    ticks(&mut timer, 5);
    timer.on_tick_check(false);
    assert_eq!(timer.position(), 1);
    timer.on_user_toggle();
    timer.reset();
    assert_eq!(timer.position(), 0);
    assert_eq!(timer.remaining_sec(), 0);
    assert_eq!(timer.pomodoro_state(), PomodoroState::Stop);
    assert_eq!(timer.pomodoro_phase(), PomodoroPhase::Focus);
    assert!(!timer.needs_refresh());
    timer.tick();
    assert_eq!(timer.remaining_sec(), 0);
}

#[test]
fn stop_keeps_counter_and_phase() {
    let mut timer = two_rounds();
    timer.on_user_toggle();
    ticks(&mut timer, 2);
    timer.stop();
    assert_eq!(timer.pomodoro_state(), PomodoroState::Stop);
    assert_eq!(timer.remaining_sec(), 8);
    assert_eq!(timer.pomodoro_phase(), PomodoroPhase::Focus);
    ticks(&mut timer, 3);
    assert_eq!(timer.remaining_sec(), 8);
}

#[test]
fn start_loads_the_phase_duration() {
    let mut timer = two_rounds();
    timer.on_user_toggle();
    ticks(&mut timer, 4);
    timer.stop();
    timer.start();
    assert_eq!(timer.remaining_sec(), 10);
    assert_eq!(timer.pomodoro_state(), PomodoroState::Run);
    timer.pause();
    assert_eq!(timer.pomodoro_state(), PomodoroState::Pause);
    timer.resume();
    assert_eq!(timer.remaining_sec(), 10);
    assert_eq!(timer.pomodoro_state(), PomodoroState::Run);
}

#[test]
fn toggle_walks_the_phase_cycle() {
    let mut timer = two_rounds();
    let expected = [
        PomodoroPhase::Focus,
        PomodoroPhase::BeforeRelax,
        PomodoroPhase::Relax,
        PomodoroPhase::BeforeFocus,
        PomodoroPhase::Focus,
    ];
    for phase in expected {
        timer.on_user_toggle();
        assert_eq!(timer.pomodoro_phase(), phase);
        timer.stop();
    }
}

#[test]
fn default_rounds() {
    let timer = PomodoroTimer::new(Settings::new(sound_names()));
    let lengths = timer.pomodoro_lengths();
    assert_eq!(lengths.len(), 5);
    for round in &lengths[..4] {
        assert_eq!(*round, PomodoroLength::new(1500, 300));
    }
    assert_eq!(lengths[4], PomodoroLength::new(1500, 900));
    assert_eq!(timer.remaining_sec(), 1500);
    assert_eq!(timer.pomodoro_state(), PomodoroState::Stop);
    assert_eq!(timer.pomodoro_phase(), PomodoroPhase::BeforeFocus);
}

#[test]
fn single_round_wraps_to_itself() {
    let lengths = vec![PomodoroLength::new(2, 1)];
    let mut timer = PomodoroTimer::with_lengths(lengths, Settings::new(sound_names()));
    timer.on_user_toggle();
    ticks(&mut timer, 2);
    timer.on_tick_check(true);
    ticks(&mut timer, 1);
    assert_eq!(timer.on_tick_check(true), Some(TimerEvent::AfterRelax));
    assert_eq!(timer.position(), 0);
    assert_eq!(timer.remaining_sec(), 2);
}

#[test]
fn zero_length_focus_ends_at_first_poll() {
    let lengths = vec![PomodoroLength::new(0, 3)];
    let mut timer = PomodoroTimer::with_lengths(lengths, Settings::new(sound_names()));
    timer.on_user_toggle();
    assert_eq!(timer.remaining_sec(), 0);
    assert_eq!(timer.on_tick_check(false), Some(TimerEvent::BeforeRelax));
    assert_eq!(timer.remaining_sec(), 3);
}

#[test]
fn largest_lengths() {
    let lengths = vec![PomodoroLength::new(u32::MAX, u32::MAX)];
    let mut timer = PomodoroTimer::with_lengths(lengths, Settings::new(sound_names()));
    timer.on_user_toggle();
    assert_eq!(timer.remaining_sec(), u32::MAX);
    timer.tick();
    assert_eq!(timer.remaining_sec(), u32::MAX - 1);
}

#[test]
fn view_helpers_follow_phase_and_state() {
    let mut timer = two_rounds();
    assert_eq!(timer.initial_secs(), 0);
    assert_eq!(timer.play_pause_icon(), "play");
    assert_eq!(timer.pomodoro_phase().heading_key(), "before-focus");
    timer.on_user_toggle();
    assert_eq!(timer.initial_secs(), 10);
    assert_eq!(timer.progress(), (0, 10));
    ticks(&mut timer, 4);
    assert_eq!(timer.progress(), (4, 10));
    ticks(&mut timer, 6);
    assert_eq!(timer.progress(), (10, 10));
    timer.on_user_toggle();
    timer.on_user_toggle();
    assert_eq!(timer.play_pause_icon(), "pause");
    assert!(timer.needs_refresh());
    assert_eq!(timer.pomodoro_phase().heading_key(), "focus-running");
    assert_eq!(timer.current_length(), PomodoroLength::new(10, 5));
    timer.on_tick_check(false);
    assert_eq!(timer.initial_secs(), 0);
    assert_eq!(timer.progress(), (0, 0));
    assert_eq!(timer.pomodoro_phase().heading_key(), "before-relax");
    timer.on_user_toggle();
    assert_eq!(timer.initial_secs(), 5);
    assert_eq!(timer.pomodoro_phase().heading_key(), "relax-running");
}

#[test]
fn notification_keys() {
    assert_eq!(TimerEvent::BeforeRelax.title_key(), "before-relax");
    assert_eq!(TimerEvent::BeforeRelax.body_key(), None);
    assert_eq!(TimerEvent::BeforeRelax.sound_id(), "window-attention-inactive");
    assert_eq!(TimerEvent::AfterRelax.title_key(), "after-relax");
    assert_eq!(TimerEvent::AfterRelax.body_key(), Some("before-focus"));
    assert_eq!(TimerEvent::AfterRelax.sound_id(), "alarm-clock-elapsed");
}

#[test]
fn clock_counts_only_while_active() {
    let mut clock = CountdownClock::new();
    assert_eq!(clock.remaining(), 0);
    assert!(!clock.is_active());
    clock.set_remaining(2);
    clock.tick();
    assert_eq!(clock.remaining(), 2);
    clock.activate();
    clock.tick();
    assert_eq!(clock.remaining(), 1);
    clock.tick();
    clock.tick();
    assert_eq!(clock.remaining(), 0);
    clock.deactivate();
    clock.set_remaining(5);
    clock.tick();
    assert_eq!(clock.remaining(), 5);
}
