use crate::tempo::{effective_interval, scaled_interval_ms};
use vstd::prelude::*;

verus! {

/// Where the pulse scheduler stands.
#[derive(Clone, Copy, Debug, PartialEq, Eq, Structural)]
pub enum Phase {
    /// Not running: waiting for the running flag, counters at their reset values.
    Idle,
    /// Running: the last pulse was played, the next one waits for its time.
    Playing,
    /// A pulse was handed out and its outcome is not reported yet.
    Sounding,
    /// A sound could not be played; the scheduler does nothing more.
    Halted,
}

/// The settings that the scheduler reads on each polling quantum.
#[derive(Clone, Copy, Debug, PartialEq, Eq)]
pub struct Controls {
    /// Whether the user has the metronome playing.
    pub is_running: bool,
    /// Quarter-note beat interval in milliseconds, derived from the tempo.
    pub ms_delay: u64,
    /// Beats in a bar (numerator of the time signature).
    pub ts_note: u64,
    /// Note value of one beat (denominator of the time signature).
    pub ts_value: u64,
    /// Triplet mode: three pulses in the time of one beat.
    pub ts_triplets: bool,
    /// Index of the selected sound in the catalog.
    pub selected_sound: usize,
    /// Whether to count polling quanta for diagnostics.
    pub debug: bool,
}

/// What the scheduler asks of its driver after a poll, in the abstract.
pub enum Signal {
    Wait,
    Pulse(Seq<char>),
    Stop,
}

/// What the scheduler asks of its driver after a poll.
#[derive(Debug, PartialEq, Eq)]
pub enum Action {
    /// Nothing to do in this quantum.
    Wait,
    /// Play the named sound now, then report the outcome.
    Pulse(String),
    /// The scheduler has halted on a failure: leave the loop.
    Stop,
}

impl View for Action {
    type V = Signal;

    open spec fn view(&self) -> Signal {
        match self {
            Action::Wait => Signal::Wait,
            Action::Pulse(name) => Signal::Pulse(name@),
            Action::Stop => Signal::Stop,
        }
    }
}

/// Beat and bar after one more played pulse: past the last beat of the bar
/// the beat rolls over to 1 and the bar advances.
pub open spec fn next_beat(beat: int, bar: int, beats_per_bar: int) -> (int, int) {
    if beat >= beats_per_bar {
        (1, bar + 1)
    } else {
        (beat + 1, bar)
    }
}

/// The diagnostic tick counter after one more quantum: it wraps to zero.
pub open spec fn next_tick(ticks: int) -> int {
    if ticks < u64::MAX {
        ticks + 1
    } else {
        0
    }
}

/// Milliseconds from `last` to `now`; a clock reading before `last` counts as none.
pub open spec fn elapsed_ms(last: int, now: int) -> int {
    if now >= last {
        now - last
    } else {
        0
    }
}

/// The abstract state of a scheduler.
pub struct EngineView {
    pub phase: Phase,
    pub beat_count: int,
    pub bar_count: int,
    pub error: bool,
    pub last_pulse_ms: int,
    pub tick_count: int,
    pub sounds: Seq<Seq<char>>,
}

impl EngineView {
    /// The state a scheduler starts in over the catalog `sounds`.
    pub open spec fn initial(sounds: Seq<Seq<char>>) -> EngineView {
        EngineView {
            phase: Phase::Idle,
            beat_count: 0,
            bar_count: 1,
            error: false,
            last_pulse_ms: 0,
            tick_count: 0,
            sounds,
        }
    }

    /// The error flag is set exactly when the scheduler has halted, an idle
    /// scheduler has its counters at beat 0 of bar 1, and the counters are
    /// in range.
    pub open spec fn wf(self) -> bool {
        &&& (self.error <==> self.phase == Phase::Halted)
        &&& self.phase == Phase::Idle ==> self.beat_count == 0 && self.bar_count == 1
        &&& 0 <= self.beat_count <= u64::MAX
        &&& 1 <= self.bar_count <= u64::MAX
        &&& 0 <= self.last_pulse_ms <= u64::MAX
        &&& 0 <= self.tick_count <= u64::MAX
    }

    /// Whether the effective interval has passed since the last pulse.
    pub open spec fn pulse_due(self, c: Controls, now: int) -> bool {
        elapsed_ms(self.last_pulse_ms, now) >= effective_interval(
            c.ms_delay as int,
            c.ts_value as int,
            c.ts_triplets,
        )
    }

    /// The state after counting a polling quantum, when diagnostics are on.
    pub open spec fn counted(self, c: Controls) -> EngineView {
        if c.debug {
            EngineView { tick_count: next_tick(self.tick_count), ..self }
        } else {
            self
        }
    }

    /// Back to idle, with the counters at their reset values.
    pub open spec fn reset(self) -> EngineView {
        EngineView { phase: Phase::Idle, beat_count: 0, bar_count: 1, ..self }
    }

    /// Hand out a pulse of the selected sound at `now`; a selection outside
    /// the catalog is a failure to load the sound.
    pub open spec fn fire(self, c: Controls, now: int) -> (EngineView, Signal) {
        if (c.selected_sound as int) < self.sounds.len() {
            (
                EngineView { phase: Phase::Sounding, last_pulse_ms: now, ..self },
                Signal::Pulse(self.sounds[c.selected_sound as int]),
            )
        } else {
            (EngineView { phase: Phase::Halted, error: true, ..self }, Signal::Stop)
        }
    }

    /// One polling quantum at clock reading `now` with the settings `c`.
    pub open spec fn poll(self, c: Controls, now: int) -> (EngineView, Signal) {
        if self.phase == Phase::Halted {
            (self, Signal::Stop)
        } else {
            let s = self.counted(c);
            if !c.is_running {
                (s.reset(), Signal::Wait)
            } else if s.phase == Phase::Idle || s.pulse_due(c, now) {
                s.fire(c, now)
            } else {
                (s, Signal::Wait)
            }
        }
    }

    /// The outcome of the pulse in flight: played, it advances the counters;
    /// failed, it halts the scheduler with the error flag set.
    pub open spec fn finish(self, played: bool, beats_per_bar: int) -> EngineView {
        if played {
            let (beat, bar) = next_beat(self.beat_count, self.bar_count, beats_per_bar);
            EngineView { phase: Phase::Playing, beat_count: beat, bar_count: bar, ..self }
        } else {
            EngineView { phase: Phase::Halted, error: true, ..self }
        }
    }
}

/// The pulse scheduler: decides on each polling quantum whether a click is
/// due, and keeps the beat and bar position and the error flag.
pub struct TimingEngine {
    phase: Phase,
    beat_count: u64,
    bar_count: u64,
    error: bool,
    last_pulse_ms: u64,
    tick_count: u64,
    sound_list: Vec<String>,
}

impl View for TimingEngine {
    type V = EngineView;

    closed spec fn view(&self) -> EngineView {
        EngineView {
            phase: self.phase,
            beat_count: self.beat_count as int,
            bar_count: self.bar_count as int,
            error: self.error,
            last_pulse_ms: self.last_pulse_ms as int,
            tick_count: self.tick_count as int,
            sounds: self.sound_list@.map_values(|s: String| s@),
        }
    }
}

impl TimingEngine {
    /// A scheduler over the sound catalog `sound_list`, idle, at beat 0 of bar 1.
    pub fn new(sound_list: Vec<String>) -> (e: TimingEngine)
        ensures
            e@ == EngineView::initial(sound_list@.map_values(|s: String| s@)),
            e@.wf(),
    {
        TimingEngine {
            phase: Phase::Idle,
            beat_count: 0,
            bar_count: 1,
            error: false,
            last_pulse_ms: 0,
            tick_count: 0,
            sound_list,
        }
    }

    fn fire(&mut self, controls: Controls, now_ms: u64) -> (action: Action)
        requires
            old(self)@.wf(),
            old(self)@.phase != Phase::Halted,
        ensures
            (final(self)@, action@) == old(self)@.fire(controls, now_ms as int),
            final(self)@.wf(),
    {
        let sel = controls.selected_sound;
        if sel < self.sound_list.len() {
            let name = self.sound_list[sel].clone();
            self.phase = Phase::Sounding;
            self.last_pulse_ms = now_ms;
            proof {
                assert(self.sound_list@.map_values(|s: String| s@)[sel as int] == name@);
            }
            Action::Pulse(name)
        } else {
            self.phase = Phase::Halted;
            self.error = true;
            Action::Stop
        }
    }

    /// One polling quantum at clock reading `now_ms` (milliseconds) with the
    /// settings `controls`: counts the quantum when diagnostics are on; when
    /// not running, returns to idle with beat 0 of bar 1; when running, hands
    /// out a pulse at once after idle and otherwise once the effective
    /// interval has passed since the last one. A halted scheduler only says
    /// `Stop`.
    pub fn poll(&mut self, controls: Controls, now_ms: u64) -> (action: Action)
        requires
            old(self)@.wf(),
            old(self)@.phase != Phase::Sounding,
            controls.ms_delay <= u64::MAX / 4,
        ensures
            (final(self)@, action@) == old(self)@.poll(controls, now_ms as int),
            final(self)@.wf(),
    {
        if self.phase == Phase::Halted {
            return Action::Stop;
        }
        if controls.debug {
            self.tick_count = if self.tick_count < u64::MAX {
                self.tick_count + 1
            } else {
                0
            };
        }
        if !controls.is_running {
            self.phase = Phase::Idle;
            self.beat_count = 0;
            self.bar_count = 1;
            return Action::Wait;
        }
        if self.phase == Phase::Idle {
            return self.fire(controls, now_ms);
        }
        let elapsed: u64 = if now_ms >= self.last_pulse_ms {
            now_ms - self.last_pulse_ms
        } else {
            0
        };
        let delay = scaled_interval_ms(controls.ms_delay, controls.ts_value, controls.ts_triplets);
        if elapsed >= delay {
            self.fire(controls, now_ms)
        } else {
            Action::Wait
        }
    }

    /// Reports the outcome of the pulse handed out by the last poll: a played
    /// pulse advances the beat, rolling over to beat 1 of the next bar past
    /// `beats_per_bar`; a sound that could not be loaded or played halts the
    /// scheduler for good with the error flag set.
    pub fn complete_pulse(&mut self, played: bool, beats_per_bar: u64)
        requires
            old(self)@.wf(),
            old(self)@.phase == Phase::Sounding,
            old(self)@.bar_count < u64::MAX,
        ensures
            final(self)@ == old(self)@.finish(played, beats_per_bar as int),
            final(self)@.wf(),
    {
        if played {
            if self.beat_count >= beats_per_bar {
                self.beat_count = 1;
                self.bar_count = self.bar_count + 1;
            } else {
                self.beat_count = self.beat_count + 1;
            }
            self.phase = Phase::Playing;
        } else {
            self.phase = Phase::Halted;
            self.error = true;
        }
    }

    /// Where the scheduler stands.
    pub fn phase(&self) -> (p: Phase)
        ensures
            p == self@.phase,
    {
        self.phase
    }

    /// The beat within the current bar; 0 before the first pulse.
    pub fn beat_count(&self) -> (n: u64)
        ensures
            n == self@.beat_count,
    {
        self.beat_count
    }

    /// The current bar, counted from 1.
    pub fn bar_count(&self) -> (n: u64)
        ensures
            n == self@.bar_count,
    {
        self.bar_count
    }

    /// Whether a sound failed to load; once set it stays set.
    pub fn error(&self) -> (e: bool)
        ensures
            e == self@.error,
    {
        self.error
    }

    /// Polling quanta counted while diagnostics were on.
    pub fn tick_count(&self) -> (n: u64)
        ensures
            n == self@.tick_count,
    {
        self.tick_count
    }
}

/// Beat and bar after `k` more played pulses from `beat` of `bar`.
pub open spec fn beats_after(beat: int, bar: int, beats_per_bar: int, k: nat) -> (int, int)
    decreases k,
{
    if k == 0 {
        (beat, bar)
    } else {
        let (b, r) = beats_after(beat, bar, beats_per_bar, (k - 1) as nat);
        next_beat(b, r, beats_per_bar)
    }
}

/// The state after the polls `polls` (settings and clock reading), in order.
pub open spec fn run_polls(e: EngineView, polls: Seq<(Controls, int)>) -> EngineView
    decreases polls.len(),
{
    if polls.len() == 0 {
        e
    } else {
        run_polls(e.poll(polls[0].0, polls[0].1).0, polls.drop_first())
    }
}

proof fn lemma_first_bar(bar: int, beats_per_bar: int, k: nat)
    requires
        k <= beats_per_bar,
    ensures
        beats_after(0, bar, beats_per_bar, k) == (k as int, bar),
    decreases k,
{
    if k > 0 {
        lemma_first_bar(bar, beats_per_bar, (k - 1) as nat);
    }
}

/// Bar rollover. With `beats_per_bar` beats in a bar, a played pulse on the
/// last beat rolls the beat over to 1 and advances the bar by one; a beat
/// within `[0, beats_per_bar]` stays there; and from the reset position
/// (beat 0 of bar 1) the first `beats_per_bar` pulses count the beats of
/// bar 1, and the next one opens bar 2 on beat 1.
pub proof fn lemma_bar_rollover(e: EngineView, beats_per_bar: int)
    requires
        e.wf(),
        e.phase == Phase::Sounding,
        beats_per_bar >= 1,
    ensures
        e.beat_count == beats_per_bar ==> e.finish(true, beats_per_bar).beat_count == 1
            && e.finish(true, beats_per_bar).bar_count == e.bar_count + 1,
        e.beat_count <= beats_per_bar ==> 1 <= e.finish(true, beats_per_bar).beat_count
            <= beats_per_bar,
        beats_after(0, 1, beats_per_bar, beats_per_bar as nat) == (beats_per_bar, 1int),
        beats_after(0, 1, beats_per_bar, (beats_per_bar + 1) as nat) == (1int, 2int),
{
    lemma_first_bar(1, beats_per_bar, beats_per_bar as nat);
}

/// Stopping and starting again. A poll that finds the metronome stopped
/// puts the counters back at beat 0 of bar 1, and the poll that next finds
/// it running hands out the first pulse at once from that position (or
/// halts, when the selected sound is not in the catalog); once played, that
/// pulse is beat 1 of bar 1.
pub proof fn lemma_restart_from_bar_start(
    e: EngineView,
    off: Controls,
    on: Controls,
    t1: int,
    t2: int,
    beats_per_bar: int,
)
    requires
        e.wf(),
        e.phase != Phase::Sounding,
        e.phase != Phase::Halted,
        !off.is_running,
        on.is_running,
        beats_per_bar >= 1,
    ensures
        ({
            let (stopped, s1) = e.poll(off, t1);
            let (started, s2) = stopped.poll(on, t2);
            &&& stopped.phase == Phase::Idle
            &&& stopped.beat_count == 0
            &&& stopped.bar_count == 1
            &&& s1 is Wait
            &&& started.beat_count == 0
            &&& started.bar_count == 1
            &&& (s2 is Pulse && started.phase == Phase::Sounding) || (s2 is Stop && started.error)
            &&& started.phase == Phase::Sounding ==> started.finish(true, beats_per_bar).beat_count
                == 1 && started.finish(true, beats_per_bar).bar_count == 1
        }),
{
}

/// A halted scheduler stays halted. Once the error flag is set, every poll,
/// whatever the settings and the clock, answers `Stop` and changes nothing,
/// so over any run of polls no pulse fires, the beat and bar never move and
/// the flag never clears.
pub proof fn lemma_halted_polls(e: EngineView, polls: Seq<(Controls, int)>)
    requires
        e.wf(),
        e.error,
    ensures
        run_polls(e, polls) == e,
        forall|i: int| 0 <= i < polls.len() ==> #[trigger] e.poll(polls[i].0, polls[i].1) == (e, Signal::Stop),
    decreases polls.len(),
{
    if polls.len() > 0 {
        lemma_halted_polls(e, polls.drop_first());
    }
}

/// One beat from a running scheduler. From a scheduler that is idle or
/// playing, a poll that finds the metronome running with a sound of the
/// catalog selected hands out that sound at once when idle, and otherwise
/// exactly when the effective interval has passed since the last pulse
/// (the clock reading becomes the time of the last pulse). When the pulse
/// plays, the beat advances by one within the bar, or rolls over from the
/// last beat to beat 1 of the next bar; when its sound fails to load, the
/// error flag is set and the beat and bar stay where they were.
pub proof fn lemma_pulse_cycle(e: EngineView, c: Controls, now: int, beats_per_bar: int)
    requires
        e.wf(),
        e.phase == Phase::Idle || e.phase == Phase::Playing,
        c.is_running,
        (c.selected_sound as int) < e.sounds.len(),
        beats_per_bar >= 1,
    ensures
        ({
            let (s, sig) = e.poll(c, now);
            let fires = e.phase == Phase::Idle || e.pulse_due(c, now);
            &&& (sig is Pulse) == fires
            &&& !fires ==> sig is Wait && s.phase == e.phase && s.last_pulse_ms
                == e.last_pulse_ms
            &&& fires ==> sig == Signal::Pulse(e.sounds[c.selected_sound as int])
                && s.phase == Phase::Sounding && s.last_pulse_ms == now
            &&& s.beat_count == e.beat_count && s.bar_count == e.bar_count
            &&& fires ==> {
                let played = s.finish(true, beats_per_bar);
                let failed = s.finish(false, beats_per_bar);
                &&& e.phase == Phase::Idle ==> played.beat_count == 1 && played.bar_count == 1
                &&& 0 <= e.beat_count < beats_per_bar ==> played.beat_count == e.beat_count + 1
                    && played.bar_count == e.bar_count
                &&& e.beat_count == beats_per_bar ==> played.beat_count == 1
                    && played.bar_count == e.bar_count + 1
                &&& !played.error
                &&& failed.error && failed.phase == Phase::Halted
                &&& failed.beat_count == e.beat_count && failed.bar_count == e.bar_count
            }
        }),
{
}

/// A failure is final. A pulse whose sound fails to load sets the error
/// flag and leaves the counters where they were; from then on every poll,
/// whatever the settings and the clock, answers `Stop` and changes nothing,
/// so the flag stays set and the beat and bar never advance again.
pub proof fn lemma_error_is_terminal(
    e: EngineView,
    beats_per_bar: int,
    polls: Seq<(Controls, int)>,
    c: Controls,
    now: int,
)
    requires
        e.wf(),
        e.phase == Phase::Sounding,
    ensures
        ({
            let failed = e.finish(false, beats_per_bar);
            &&& failed.wf()
            &&& failed.error
            &&& failed.beat_count == e.beat_count
            &&& failed.bar_count == e.bar_count
            &&& failed.poll(c, now) == (failed, Signal::Stop)
            &&& run_polls(failed, polls) == failed
        }),
{
    lemma_halted_polls(e.finish(false, beats_per_bar), polls);
}

} // verus!
