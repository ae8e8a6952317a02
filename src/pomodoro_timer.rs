use vstd::prelude::*;

use crate::countdown::CountdownClock;
use crate::settings::{SettingMessage, Settings, SettingsModel};

verus! {

/// The lengths, in seconds, of one round: a focus period and the relax
/// period after it.
#[derive(Clone, Copy, Debug, PartialEq, Eq, Structural)]
pub struct PomodoroLength {
    pub focus: u32,
    pub relax: u32,
}

impl PomodoroLength {
    pub fn new(focus: u32, relax: u32) -> (r: PomodoroLength)
        ensures
            r.focus == focus,
            r.relax == relax,
    {
        PomodoroLength { focus, relax }
    }
}

/// Whether the countdown is decrementing, paused mid-count, or idle.
#[derive(Clone, Copy, Debug, PartialEq, Eq, Structural)]
pub enum PomodoroState {
    Stop,
    Run,
    Pause,
}

/// Which period governs the timer. `Focus` and `Relax` count down; the two
/// `Before` phases announce the next period and wait for the user.
#[derive(Clone, Copy, Debug, PartialEq, Eq, Structural)]
pub enum PomodoroPhase {
    BeforeFocus,
    Focus,
    BeforeRelax,
    Relax,
}

/// The notification due when a counting period reaches zero.
#[derive(Clone, Copy, Debug, PartialEq, Eq, Structural)]
pub enum TimerEvent {
    /// A focus period ended: time to relax.
    BeforeRelax,
    /// A relax period ended: the next focus period is announced.
    AfterRelax,
}

/// The phase that follows `p` in the cycle
/// `BeforeFocus -> Focus -> BeforeRelax -> Relax -> BeforeFocus`.
pub open spec fn next_phase(p: PomodoroPhase) -> PomodoroPhase {
    match p {
        PomodoroPhase::BeforeFocus => PomodoroPhase::Focus,
        PomodoroPhase::Focus => PomodoroPhase::BeforeRelax,
        PomodoroPhase::BeforeRelax => PomodoroPhase::Relax,
        PomodoroPhase::Relax => PomodoroPhase::BeforeFocus,
    }
}

/// The localisation key of the heading shown in phase `p`.
pub open spec fn heading_key_of(p: PomodoroPhase) -> Seq<char> {
    match p {
        PomodoroPhase::BeforeFocus => "before-focus"@,
        PomodoroPhase::Focus => "focus-running"@,
        PomodoroPhase::BeforeRelax => "before-relax"@,
        PomodoroPhase::Relax => "relax-running"@,
    }
}

impl PomodoroPhase {
    /// The localisation key of the heading shown in this phase.
    pub fn heading_key(&self) -> (r: &'static str)
        ensures
            r@ == heading_key_of(*self),
    {
        match self {
            PomodoroPhase::BeforeFocus => "before-focus",
            PomodoroPhase::Focus => "focus-running",
            PomodoroPhase::BeforeRelax => "before-relax",
            PomodoroPhase::Relax => "relax-running",
        }
    }
}

impl TimerEvent {
    /// The localisation key of the notification's summary.
    pub fn title_key(&self) -> (r: &'static str)
        ensures
            r@ == (match self {
                TimerEvent::BeforeRelax => "before-relax"@,
                TimerEvent::AfterRelax => "after-relax"@,
            }),
    {
        match self {
            TimerEvent::BeforeRelax => "before-relax",
            TimerEvent::AfterRelax => "after-relax",
        }
    }

    /// The localisation key of the notification's body, if it has one.
    pub fn body_key(&self) -> (r: Option<&'static str>)
        ensures
            match self {
                TimerEvent::BeforeRelax => r is None,
                TimerEvent::AfterRelax => r is Some && r->0@ == "before-focus"@,
            },
    {
        match self {
            TimerEvent::BeforeRelax => None,
            TimerEvent::AfterRelax => Some("before-focus"),
        }
    }

    /// The name of the system sound played with the notification.
    pub fn sound_id(&self) -> (r: &'static str)
        ensures
            r@ == (match self {
                TimerEvent::BeforeRelax => "window-attention-inactive"@,
                TimerEvent::AfterRelax => "alarm-clock-elapsed"@,
            }),
    {
        match self {
            TimerEvent::BeforeRelax => "window-attention-inactive",
            TimerEvent::AfterRelax => "alarm-clock-elapsed",
        }
    }
}

/// Length in seconds of a focus period in the default rounds.
pub const DEFAULT_FOCUS_SECS: u32 = 25 * 60;

/// Length in seconds of a short relax period in the default rounds.
pub const DEFAULT_RELAX_SECS: u32 = 5 * 60;

/// Length in seconds of the relax period that closes the default rounds.
pub const DEFAULT_LONG_RELAX_SECS: u32 = 15 * 60;

/// Number of rounds in the default sequence.
pub const DEFAULT_ROUNDS: usize = 5;

/// The default rounds: five focus periods of 25 minutes, each followed by a
/// 5-minute relax period except the last, which is followed by 15 minutes.
pub open spec fn default_lengths() -> Seq<PomodoroLength> {
    Seq::new(
        DEFAULT_ROUNDS as nat,
        |i: int|
            PomodoroLength {
                focus: DEFAULT_FOCUS_SECS,
                relax: if i + 1 == DEFAULT_ROUNDS {
                    DEFAULT_LONG_RELAX_SECS
                } else {
                    DEFAULT_RELAX_SECS
                },
            },
    )
}

/// Abstract state of the timer.
pub struct TimerModel {
    pub lengths: Seq<PomodoroLength>,
    pub position: nat,
    pub state: PomodoroState,
    pub phase: PomodoroPhase,
    pub remaining: nat,
}

impl TimerModel {
    /// There is at least one round and the position names one of them.
    pub open spec fn wf(self) -> bool {
        &&& self.lengths.len() > 0
        &&& self.position < self.lengths.len()
    }

    pub open spec fn focus_len(self) -> nat {
        self.lengths[self.position as int].focus as nat
    }

    pub open spec fn relax_len(self) -> nat {
        self.lengths[self.position as int].relax as nat
    }

    /// The duration that a start counts down from: the focus length for the
    /// focus phases, the relax length for the relax phases.
    pub open spec fn phase_len(self) -> nat {
        match self.phase {
            PomodoroPhase::BeforeFocus | PomodoroPhase::Focus => self.focus_len(),
            PomodoroPhase::BeforeRelax | PomodoroPhase::Relax => self.relax_len(),
        }
    }

    /// The position after `position`, back to the first round past the last.
    pub open spec fn next_position(self) -> nat {
        if self.position + 1 >= self.lengths.len() {
            0
        } else {
            self.position + 1
        }
    }

    pub open spec fn start(self) -> TimerModel {
        TimerModel { remaining: self.phase_len(), state: PomodoroState::Run, ..self }
    }

    pub open spec fn pause(self) -> TimerModel {
        TimerModel { state: PomodoroState::Pause, ..self }
    }

    pub open spec fn resume(self) -> TimerModel {
        TimerModel { state: PomodoroState::Run, ..self }
    }

    pub open spec fn stop(self) -> TimerModel {
        TimerModel { state: PomodoroState::Stop, ..self }
    }

    pub open spec fn reset(self) -> TimerModel {
        TimerModel { state: PomodoroState::Stop, remaining: 0, position: 0, ..self }
    }

    /// One elapsed second: only a running timer with time left counts down.
    pub open spec fn tick(self) -> TimerModel {
        if self.state == PomodoroState::Run && self.remaining > 0 {
            TimerModel { remaining: (self.remaining - 1) as nat, ..self }
        } else {
            self
        }
    }

    /// `n` elapsed seconds.
    pub open spec fn ticks(self, n: nat) -> TimerModel
        decreases n,
    {
        if n == 0 {
            self
        } else {
            self.tick().ticks((n - 1) as nat)
        }
    }

    /// The play/pause control: a stopped timer advances its phase and starts,
    /// a running one pauses, a paused one resumes.
    pub open spec fn toggle(self) -> TimerModel {
        match self.state {
            PomodoroState::Stop => TimerModel { phase: next_phase(self.phase), ..self }.start(),
            PomodoroState::Run => self.pause(),
            PomodoroState::Pause => self.resume(),
        }
    }

    /// The state after a poll, and the notification it raises. Nothing happens
    /// while time is left or in a `Before` phase. A focus period that reached
    /// zero stops in `BeforeRelax` with the relax length loaded, and goes on
    /// into `Relax` at once when the window has the focus. A relax period that
    /// reached zero moves to the next round and stops in `BeforeFocus` with
    /// that round's focus length loaded.
    pub open spec fn tick_check(self, is_focused: bool) -> (TimerModel, Option<TimerEvent>) {
        if self.remaining != 0 {
            (self, None)
        } else {
            match self.phase {
                PomodoroPhase::Focus => {
                    let announced = TimerModel {
                        phase: PomodoroPhase::BeforeRelax,
                        state: PomodoroState::Stop,
                        remaining: self.relax_len(),
                        ..self
                    };
                    if is_focused {
                        (
                            TimerModel { phase: PomodoroPhase::Relax, ..announced }.start(),
                            Some(TimerEvent::BeforeRelax),
                        )
                    } else {
                        (announced, Some(TimerEvent::BeforeRelax))
                    }
                },
                PomodoroPhase::Relax => {
                    let next = TimerModel { position: self.next_position(), ..self };
                    (
                        TimerModel {
                            phase: PomodoroPhase::BeforeFocus,
                            state: PomodoroState::Stop,
                            remaining: next.focus_len(),
                            ..next
                        },
                        Some(TimerEvent::AfterRelax),
                    )
                },
                _ => (self, None),
            }
        }
    }

    /// One period driven by hand: the play/pause control, then waiting until
    /// the counter reaches zero, then a poll while the window lacks the focus.
    pub open spec fn run_period(self) -> (TimerModel, Option<TimerEvent>) {
        let started = self.toggle();
        started.ticks(started.remaining).tick_check(false)
    }
}

/// The phase controller: the ordered rounds, the position among them, the
/// phase and run state, the countdown clock, and the settings.
pub struct PomodoroTimer {
    settings: Settings,
    pomodoro_lengths: Vec<PomodoroLength>,
    position: usize,
    pomodoro_state: PomodoroState,
    pomodoro_phase: PomodoroPhase,
    clock: CountdownClock,
}

impl View for PomodoroTimer {
    type V = TimerModel;

    closed spec fn view(&self) -> TimerModel {
        TimerModel {
            lengths: self.pomodoro_lengths@,
            position: self.position as nat,
            state: self.pomodoro_state,
            phase: self.pomodoro_phase,
            remaining: self.clock@.remaining,
        }
    }
}

impl PomodoroTimer {
    /// The rounds are well formed, the selected sounds exist, and the clock
    /// counts exactly while the timer runs.
    pub closed spec fn wf(&self) -> bool {
        &&& self@.wf()
        &&& self.settings@.wf()
        &&& self.clock@.active == (self.pomodoro_state == PomodoroState::Run)
    }

    pub closed spec fn settings_view(&self) -> SettingsModel {
        self.settings@
    }

    /// A stopped timer before the first focus period of the given rounds, with
    /// the first focus length loaded.
    pub fn with_lengths(pomodoro_lengths: Vec<PomodoroLength>, settings: Settings) -> (r:
        PomodoroTimer)
        requires
            pomodoro_lengths@.len() > 0,
            settings@.wf(),
        ensures
            r.wf(),
            r@ == (TimerModel {
                lengths: pomodoro_lengths@,
                position: 0,
                state: PomodoroState::Stop,
                phase: PomodoroPhase::BeforeFocus,
                remaining: pomodoro_lengths@[0].focus as nat,
            }),
            r.settings_view() == settings@,
    {
        let mut clock = CountdownClock::new();
        clock.set_remaining(pomodoro_lengths[0].focus);
        PomodoroTimer {
            settings,
            pomodoro_lengths,
            position: 0,
            pomodoro_state: PomodoroState::Stop,
            pomodoro_phase: PomodoroPhase::BeforeFocus,
            clock,
        }
    }

    /// A stopped timer before the first of the default rounds.
    pub fn new(settings: Settings) -> (r: PomodoroTimer)
        requires
            settings@.wf(),
        ensures
            r.wf(),
            r@ == (TimerModel {
                lengths: default_lengths(),
                position: 0,
                state: PomodoroState::Stop,
                phase: PomodoroPhase::BeforeFocus,
                remaining: DEFAULT_FOCUS_SECS as nat,
            }),
            r.settings_view() == settings@,
    {
        let mut lengths: Vec<PomodoroLength> = Vec::new();
        let mut i: usize = 0;
        while i < DEFAULT_ROUNDS
            invariant
                i <= DEFAULT_ROUNDS,
                lengths@ == default_lengths().subrange(0, i as int),
            decreases DEFAULT_ROUNDS - i,
        {
            let relax = if i + 1 == DEFAULT_ROUNDS {
                DEFAULT_LONG_RELAX_SECS
            } else {
                DEFAULT_RELAX_SECS
            };
            lengths.push(PomodoroLength::new(DEFAULT_FOCUS_SECS, relax));
            i = i + 1;
            proof {
                assert(lengths@ =~= default_lengths().subrange(0, i as int));
            }
        }
        proof {
            assert(lengths@ =~= default_lengths());
        }
        PomodoroTimer::with_lengths(lengths, settings)
    }

    /// Index of the current round.
    pub fn position(&self) -> (r: usize)
        ensures
            r as nat == self@.position,
    {
        self.position
    }

    pub fn pomodoro_state(&self) -> (r: PomodoroState)
        ensures
            r == self@.state,
    {
        self.pomodoro_state
    }

    pub fn pomodoro_phase(&self) -> (r: PomodoroPhase)
        ensures
            r == self@.phase,
    {
        self.pomodoro_phase
    }

    /// Seconds left on the counter.
    pub fn remaining_sec(&self) -> (r: u32)
        ensures
            r as nat == self@.remaining,
    {
        self.clock.remaining()
    }

    /// The rounds, in order.
    pub fn pomodoro_lengths(&self) -> (r: &Vec<PomodoroLength>)
        ensures
            r@ == self@.lengths,
    {
        &self.pomodoro_lengths
    }

    /// The lengths of the current round.
    pub fn current_length(&self) -> (r: PomodoroLength)
        requires
            self.wf(),
        ensures
            r == self@.lengths[self@.position as int],
    {
        self.pomodoro_lengths[self.position]
    }

    pub fn settings(&self) -> (r: &Settings)
        ensures
            r@ == self.settings_view(),
    {
        &self.settings
    }

    /// Applies a change of the settings; the timer itself is left as it is.
    pub fn update_settings(&mut self, message: SettingMessage)
        requires
            old(self).wf(),
        ensures
            final(self).wf(),
            final(self)@ == old(self)@,
            final(self).settings_view() == old(self).settings_view().update(message),
    {
        self.settings.update(message);
    }

    /// The duration that the current counting period started from, against
    /// which progress is measured; zero in the `Before` phases, which show no
    /// progress.
    pub fn initial_secs(&self) -> (r: u32)
        requires
            self.wf(),
        ensures
            r as nat == match self@.phase {
                PomodoroPhase::Focus => self@.focus_len(),
                PomodoroPhase::Relax => self@.relax_len(),
                _ => 0,
            },
    {
        match self.pomodoro_phase {
            PomodoroPhase::Focus => self.pomodoro_lengths[self.position].focus,
            PomodoroPhase::Relax => self.pomodoro_lengths[self.position].relax,
            _ => 0,
        }
    }

    /// Progress of the current counting period as `(elapsed, total)` seconds,
    /// for the fraction `elapsed / total` that the progress indicator shows.
    /// `total` is zero in the `Before` phases, where no progress is shown.
    pub fn progress(&self) -> (r: (u32, u32))
        requires
            self.wf(),
        ensures
            r.1 as nat == match self@.phase {
                PomodoroPhase::Focus => self@.focus_len(),
                PomodoroPhase::Relax => self@.relax_len(),
                _ => 0,
            },
            r.0 as nat == if self@.remaining >= r.1 {
                0
            } else {
                (r.1 - self@.remaining) as nat
            },
    {
        let total = self.initial_secs();
        let remaining = self.clock.remaining();
        let elapsed = if remaining >= total {
            0
        } else {
            total - remaining
        };
        (elapsed, total)
    }

    /// Whether the counter must be polled: only while the timer runs.
    pub fn needs_refresh(&self) -> (r: bool)
        ensures
            r == (self@.state == PomodoroState::Run),
    {
        self.pomodoro_state == PomodoroState::Run
    }

    /// The icon of the play/pause control: `pause` while the timer runs,
    /// `play` otherwise.
    pub fn play_pause_icon(&self) -> (r: &'static str)
        ensures
            r@ == (if self@.state == PomodoroState::Run {
                "pause"@
            } else {
                "play"@
            }),
    {
        match self.pomodoro_state {
            PomodoroState::Run => "pause",
            _ => "play",
        }
    }

    /// Loads the duration of the current phase and starts counting.
    pub fn start(&mut self)
        requires
            old(self).wf(),
        ensures
            final(self).wf(),
            final(self)@ == old(self)@.start(),
            final(self).settings_view() == old(self).settings_view(),
    {
        let round = self.pomodoro_lengths[self.position];
        let secs = match self.pomodoro_phase {
            PomodoroPhase::BeforeFocus | PomodoroPhase::Focus => round.focus,
            PomodoroPhase::BeforeRelax | PomodoroPhase::Relax => round.relax,
        };
        self.clock.set_remaining(secs);
        self.clock.activate();
        self.pomodoro_state = PomodoroState::Run;
    }

    /// Stops counting and keeps the time left.
    pub fn pause(&mut self)
        requires
            old(self).wf(),
        ensures
            final(self).wf(),
            final(self)@ == old(self)@.pause(),
            final(self).settings_view() == old(self).settings_view(),
    {
        self.clock.deactivate();
        self.pomodoro_state = PomodoroState::Pause;
    }

    /// Counts on from the time left.
    pub fn resume(&mut self)
        requires
            old(self).wf(),
        ensures
            final(self).wf(),
            final(self)@ == old(self)@.resume(),
            final(self).settings_view() == old(self).settings_view(),
    {
        self.clock.activate();
        self.pomodoro_state = PomodoroState::Run;
    }

    /// Stops counting; time left, position and phase are kept.
    pub fn stop(&mut self)
        requires
            old(self).wf(),
        ensures
            final(self).wf(),
            final(self)@ == old(self)@.stop(),
            final(self).settings_view() == old(self).settings_view(),
    {
        self.clock.deactivate();
        self.pomodoro_state = PomodoroState::Stop;
    }

    /// Stops counting, clears the time left and goes back to the first round.
    pub fn reset(&mut self)
        requires
            old(self).wf(),
        ensures
            final(self).wf(),
            final(self)@ == old(self)@.reset(),
            final(self).settings_view() == old(self).settings_view(),
    {
        self.stop();
        self.clock.set_remaining(0);
        self.position = 0;
    }

    /// One elapsed second of wall-clock time.
    pub fn tick(&mut self)
        requires
            old(self).wf(),
        ensures
            final(self).wf(),
            final(self)@ == old(self)@.tick(),
            final(self).settings_view() == old(self).settings_view(),
    {
        self.clock.tick();
    }

    /// The play/pause control.
    pub fn on_user_toggle(&mut self)
        requires
            old(self).wf(),
        ensures
            final(self).wf(),
            final(self)@ == old(self)@.toggle(),
            final(self).settings_view() == old(self).settings_view(),
    {
        match self.pomodoro_state {
            PomodoroState::Stop => {
                self.pomodoro_phase = match self.pomodoro_phase {
                    PomodoroPhase::BeforeFocus => PomodoroPhase::Focus,
                    PomodoroPhase::Focus => PomodoroPhase::BeforeRelax,
                    PomodoroPhase::BeforeRelax => PomodoroPhase::Relax,
                    PomodoroPhase::Relax => PomodoroPhase::BeforeFocus,
                };
                self.start();
            },
            PomodoroState::Run => self.pause(),
            PomodoroState::Pause => self.resume(),
        }
    }

    /// The periodic poll: acts when the counter has reached zero, and returns
    /// the notification that is then due.
    pub fn on_tick_check(&mut self, is_focused: bool) -> (r: Option<TimerEvent>)
        requires
            old(self).wf(),
        ensures
            final(self).wf(),
            (final(self)@, r) == old(self)@.tick_check(is_focused),
            final(self).settings_view() == old(self).settings_view(),
    {
        if self.clock.remaining() != 0 {
            return None;
        }
        match self.pomodoro_phase {
            PomodoroPhase::Focus => {
                self.pomodoro_phase = PomodoroPhase::BeforeRelax;
                self.stop();
                self.clock.set_remaining(self.pomodoro_lengths[self.position].relax);
                if is_focused {
                    self.pomodoro_phase = PomodoroPhase::Relax;
                    self.start();
                }
                Some(TimerEvent::BeforeRelax)
            },
            PomodoroPhase::Relax => {
                let rounds = self.pomodoro_lengths.len();
                self.position = if self.position + 1 >= rounds {
                    0
                } else {
                    self.position + 1
                };
                self.pomodoro_phase = PomodoroPhase::BeforeFocus;
                self.stop();
                self.clock.set_remaining(self.pomodoro_lengths[self.position].focus);
                Some(TimerEvent::AfterRelax)
            },
            _ => None,
        }
    }
}

/// While the timer runs, every elapsed second takes exactly one second off the
/// time left, down to zero and never below; nothing else changes.
pub proof fn lemma_running_counts_down(m: TimerModel, n: nat)
    requires
        m.state == PomodoroState::Run,
    ensures
        m.ticks(n) == (TimerModel {
            remaining: if n <= m.remaining {
                (m.remaining - n) as nat
            } else {
                0
            },
            ..m
        }),
    decreases n,
{
    if n > 0 {
        lemma_running_counts_down(m.tick(), (n - 1) as nat);
    }
}

/// A timer that is not running is left as it is by any number of elapsed
/// seconds.
pub proof fn lemma_idle_ticks(m: TimerModel, n: nat)
    requires
        m.state != PomodoroState::Run,
    ensures
        m.ticks(n) == m,
    decreases n,
{
    if n > 0 {
        lemma_idle_ticks(m.tick(), (n - 1) as nat);
    }
}

/// Pausing a running timer, letting any time pass, and resuming it gives back
/// the timer as it was: no second is lost while paused.
pub proof fn lemma_pause_keeps_remaining(m: TimerModel, n: nat)
    requires
        m.state == PomodoroState::Run,
    ensures
        m.pause().ticks(n).remaining == m.remaining,
        m.pause().ticks(n).resume() == m,
{
    lemma_idle_ticks(m.pause(), n);
}

/// From `BeforeFocus`, periods driven by hand visit `Focus`, `BeforeRelax`,
/// `Relax` and `BeforeFocus` in that order; the position moves on by exactly
/// one round, modulo the number of rounds, and only when a relax period ends.
pub proof fn lemma_phase_cycle(m: TimerModel)
    requires
        m.wf(),
        m.phase == PomodoroPhase::BeforeFocus,
        m.state == PomodoroState::Stop,
    ensures
        m.toggle().phase == PomodoroPhase::Focus,
        m.toggle().state == PomodoroState::Run,
        m.toggle().remaining == m.focus_len(),
        m.run_period() == (
            TimerModel {
                phase: PomodoroPhase::BeforeRelax,
                state: PomodoroState::Stop,
                remaining: m.relax_len(),
                ..m
            },
            Some(TimerEvent::BeforeRelax),
        ),
        m.run_period().0.toggle().phase == PomodoroPhase::Relax,
        m.run_period().0.toggle().state == PomodoroState::Run,
        m.run_period().0.toggle().remaining == m.relax_len(),
        m.run_period().0.run_period() == (
            TimerModel {
                position: (m.position + 1) % m.lengths.len(),
                phase: PomodoroPhase::BeforeFocus,
                state: PomodoroState::Stop,
                remaining: m.lengths[((m.position + 1) % m.lengths.len()) as int].focus as nat,
                ..m
            },
            Some(TimerEvent::AfterRelax),
        ),
        m.run_period().0.run_period().0.wf(),
{
    let focus = m.toggle();
    lemma_running_counts_down(focus, focus.remaining);
    let announced = m.run_period().0;
    let relax = announced.toggle();
    lemma_running_counts_down(relax, relax.remaining);
    let len = m.lengths.len();
    if m.position + 1 >= len {
        assert(m.position + 1 == len);
        vstd::arithmetic::div_mod::lemma_mod_self_0(len as int);
    } else {
        vstd::arithmetic::div_mod::lemma_small_mod((m.position + 1) as nat, len);
    }
}

/// A focus period that ends while the window has the focus goes straight on
/// into a running relax period. Without the focus the timer stops in
/// `BeforeRelax` and stays there, whatever time passes and however often it is
/// polled, until the play/pause control starts the relax period.
pub proof fn lemma_focus_auto_continue(m: TimerModel, n: nat, is_focused: bool)
    requires
        m.wf(),
        m.phase == PomodoroPhase::Focus,
        m.remaining == 0,
    ensures
        m.tick_check(true).0.phase == PomodoroPhase::Relax,
        m.tick_check(true).0.state == PomodoroState::Run,
        m.tick_check(true).0.remaining == m.relax_len(),
        m.tick_check(false).0.phase == PomodoroPhase::BeforeRelax,
        m.tick_check(false).0.state == PomodoroState::Stop,
        m.tick_check(false).0.ticks(n).tick_check(is_focused) == (m.tick_check(false).0, None::<TimerEvent>),
        m.tick_check(false).0.toggle().phase == PomodoroPhase::Relax,
        m.tick_check(false).0.toggle().state == PomodoroState::Run,
{
    lemma_idle_ticks(m.tick_check(false).0, n);
}

/// A poll while time is left changes nothing and raises no notification.
pub proof fn lemma_poll_with_time_left(m: TimerModel, is_focused: bool)
    requires
        m.remaining != 0,
    ensures
        m.tick_check(is_focused) == (m, None::<TimerEvent>),
{
}

} // verus!
