//! The scheduler's decisions: what an override signal does, what a cycle
//! publishes, and when the loop sleeps. The loop itself, with its clock, its
//! queue and its transport, is the caller's.

use vstd::prelude::*;
use crate::phase::{SolarPhase, ThemeType, ThemeView};
use crate::schedule::{active_phase, resolve_phase, ScheduleEntry};

verus! {

/// A command from an operator.
#[derive(Debug, PartialEq, Eq)]
pub enum OverrideSignal {
    /// Show this theme until the sun's phase changes.
    SetTheme(String),
    /// Go back to the theme of the sun's phase.
    Revert,
}

/// What an `OverrideSignal` holds, with the theme as a sequence.
pub enum SignalView {
    SetTheme(Seq<char>),
    Revert,
}

impl View for OverrideSignal {
    type V = SignalView;

    open spec fn view(&self) -> SignalView {
        match self {
            OverrideSignal::SetTheme(theme) => SignalView::SetTheme(theme@),
            OverrideSignal::Revert => SignalView::Revert,
        }
    }
}

impl Clone for OverrideSignal {
    fn clone(&self) -> (r: OverrideSignal)
        ensures
            r@ == self@,
    {
        match self {
            OverrideSignal::SetTheme(theme) => OverrideSignal::SetTheme(theme.clone()),
            OverrideSignal::Revert => OverrideSignal::Revert,
        }
    }
}

/// What the scheduler remembers from one cycle to the next.
#[derive(Debug, PartialEq, Eq)]
pub struct SchedulerState {
    /// The theme that was published last.
    pub last_published: Option<ThemeType>,
    /// The theme that an operator set, while it is in force.
    pub override_state: Option<String>,
    /// The phase that the last cycle resolved.
    pub last_solar_phase: Option<SolarPhase>,
}

/// What a `SchedulerState` holds, with texts as sequences.
pub struct SchedulerView {
    pub last_published: Option<ThemeView>,
    pub override_state: Option<Seq<char>>,
    pub last_solar_phase: Option<SolarPhase>,
}

/// The view of a theme that may be absent.
pub open spec fn theme_view(theme: Option<ThemeType>) -> Option<ThemeView> {
    match theme {
        Some(t) => Some(t@),
        None => None,
    }
}

/// The view of a text that may be absent.
pub open spec fn text_view(text: Option<String>) -> Option<Seq<char>> {
    match text {
        Some(t) => Some(t@),
        None => None,
    }
}

impl View for SchedulerState {
    type V = SchedulerView;

    open spec fn view(&self) -> SchedulerView {
        SchedulerView {
            last_published: theme_view(self.last_published),
            override_state: text_view(self.override_state),
            last_solar_phase: self.last_solar_phase,
        }
    }
}

/// What the end of a cycle asks of the loop.
#[derive(Debug, PartialEq, Eq)]
pub struct CycleDecision {
    /// The theme to publish now, if any.
    pub publish: Option<ThemeType>,
    /// Whether to sleep for the interval before the next cycle.
    pub sleep: bool,
}

/// What a whole cycle asks of the loop.
#[derive(Debug, PartialEq, Eq)]
pub struct CycleOutcome {
    /// The themes that the signals of this cycle had published at once, in
    /// the order of the signals.
    pub immediate: Vec<ThemeType>,
    /// The theme to publish at the end of the cycle, if any.
    pub publish: Option<ThemeType>,
    /// Whether to sleep for the interval before the next cycle.
    pub sleep: bool,
}

/// The views of the signals, in their order.
pub open spec fn signal_views(signals: Seq<OverrideSignal>) -> Seq<SignalView> {
    signals.map_values(|signal: OverrideSignal| signal@)
}

/// The views of the themes, in their order.
pub open spec fn theme_views(themes: Seq<ThemeType>) -> Seq<ThemeView> {
    themes.map_values(|theme: ThemeType| theme@)
}

impl SchedulerView {
    /// The state at startup: nothing published, no override, no phase seen.
    pub open spec fn initial() -> SchedulerView {
        SchedulerView { last_published: None, override_state: None, last_solar_phase: None }
    }

    /// While an override is in force, it is what was published last.
    pub open spec fn consistent(self) -> bool {
        self.override_state matches Some(text) ==> self.last_published == Some(
            ThemeView::Custom(text),
        )
    }

    /// What a signal makes the scheduler publish at once while the sun is in
    /// `solar`: a new custom theme, or on a revert of an override the solar
    /// theme. A repeated theme and a revert without an override publish
    /// nothing.
    pub open spec fn signal_publish(self, signal: SignalView, solar: SolarPhase) -> Option<
        ThemeView,
    > {
        match signal {
            SignalView::SetTheme(text) => if self.override_state == Some(text) {
                None
            } else {
                Some(ThemeView::Custom(text))
            },
            SignalView::Revert => if self.override_state is Some {
                Some(ThemeView::Solar(solar))
            } else {
                None
            },
        }
    }

    /// The state after a signal.
    pub open spec fn after_signal(self, signal: SignalView, solar: SolarPhase) -> SchedulerView {
        match self.signal_publish(signal, solar) {
            None => self,
            Some(theme) => SchedulerView {
                last_published: Some(theme),
                override_state: match signal {
                    SignalView::SetTheme(text) => Some(text),
                    SignalView::Revert => None,
                },
                last_solar_phase: self.last_solar_phase,
            },
        }
    }

    /// The state after the signals of one cycle, taken in their order.
    pub open spec fn after_signals(self, signals: Seq<SignalView>, solar: SolarPhase) -> SchedulerView
        decreases signals.len(),
    {
        if signals.len() == 0 {
            self
        } else {
            self.after_signal(signals[0], solar).after_signals(signals.drop_first(), solar)
        }
    }

    /// What the signals of one cycle make the scheduler publish, in their
    /// order.
    pub open spec fn signal_publishes(self, signals: Seq<SignalView>, solar: SolarPhase) -> Seq<
        ThemeView,
    >
        decreases signals.len(),
    {
        if signals.len() == 0 {
            Seq::empty()
        } else {
            let rest = self.after_signal(signals[0], solar).signal_publishes(
                signals.drop_first(),
                solar,
            );
            match self.signal_publish(signals[0], solar) {
                Some(theme) => seq![theme] + rest,
                None => rest,
            }
        }
    }

    /// Whether a cycle that resolves `solar` ends the override: the phase
    /// differs from the one that the cycle before resolved.
    pub open spec fn auto_clears(self, solar: SolarPhase) -> bool {
        &&& self.override_state is Some
        &&& self.last_solar_phase is Some
        &&& self.last_solar_phase != Some(solar)
    }

    /// The theme in force in a cycle that resolves `solar`.
    pub open spec fn cycle_theme(self, solar: SolarPhase) -> ThemeView {
        match self.override_state {
            Some(text) if !self.auto_clears(solar) => ThemeView::Custom(text),
            _ => ThemeView::Solar(solar),
        }
    }

    /// Whether the cycle publishes: always where the theme differs from the
    /// one published last, and as a refresh in every cycle that no signal
    /// changed.
    pub open spec fn cycle_publishes(self, solar: SolarPhase, changed_by_signal: bool) -> bool {
        self.last_published != Some(self.cycle_theme(solar)) || !changed_by_signal
    }

    /// The state after a cycle that resolves `solar`.
    pub open spec fn after_cycle(self, solar: SolarPhase) -> SchedulerView {
        SchedulerView {
            last_published: Some(self.cycle_theme(solar)),
            override_state: if self.auto_clears(solar) {
                None
            } else {
                self.override_state
            },
            last_solar_phase: Some(solar),
        }
    }
}

impl SchedulerState {
    /// The state at startup.
    pub fn new() -> (state: SchedulerState)
        ensures
            state@ == SchedulerView::initial(),
    {
        SchedulerState { last_published: None, override_state: None, last_solar_phase: None }
    }

    /// The publish at startup: the theme of the phase that is active at
    /// `now`, whatever was published before.
    pub fn startup_publish(&mut self, now: i64, schedule: &Vec<ScheduleEntry>) -> (theme: ThemeType)
        ensures
            theme@ == ThemeView::Solar(active_phase(schedule@, now as int)),
            final(self)@ == (SchedulerView { last_published: Some(theme@), ..old(self)@ }),
    {
        let solar = resolve_phase(now, schedule);
        self.last_published = Some(ThemeType::Solar(solar));
        ThemeType::Solar(solar)
    }

    /// Takes one signal from the queue and returns the theme to publish at
    /// once, if the signal changed anything.
    pub fn apply_signal(
        &mut self,
        signal: OverrideSignal,
        now: i64,
        schedule: &Vec<ScheduleEntry>,
    ) -> (publish: Option<ThemeType>)
        ensures
            theme_view(publish) == old(self)@.signal_publish(
                signal@,
                active_phase(schedule@, now as int),
            ),
            final(self)@ == old(self)@.after_signal(signal@, active_phase(schedule@, now as int)),
    {
        match signal {
            OverrideSignal::SetTheme(theme) => {
                let repeated = match &self.override_state {
                    Some(current) => *current == theme,
                    None => false,
                };
                if repeated {
                    None
                } else {
                    self.override_state = Some(theme.clone());
                    self.last_published = Some(ThemeType::Custom(theme.clone()));
                    Some(ThemeType::Custom(theme))
                }
            },
            OverrideSignal::Revert => {
                if self.override_state.is_some() {
                    let solar = resolve_phase(now, schedule);
                    self.override_state = None;
                    self.last_published = Some(ThemeType::Solar(solar));
                    Some(ThemeType::Solar(solar))
                } else {
                    None
                }
            },
        }
    }

    /// Takes all the signals that were queued, first in first out, and
    /// returns the themes to publish at once, in that order.
    pub fn drain_signals(
        &mut self,
        signals: &Vec<OverrideSignal>,
        now: i64,
        schedule: &Vec<ScheduleEntry>,
    ) -> (published: Vec<ThemeType>)
        ensures
            final(self)@ == old(self)@.after_signals(
                signal_views(signals@),
                active_phase(schedule@, now as int),
            ),
            theme_views(published@) == old(self)@.signal_publishes(
                signal_views(signals@),
                active_phase(schedule@, now as int),
            ),
    {
        let ghost start = self@;
        let ghost all = signal_views(signals@);
        let ghost solar = active_phase(schedule@, now as int);
        let mut published: Vec<ThemeType> = Vec::new();
        let mut i: usize = 0;
        assert(all.skip(0) =~= all);
        assert(theme_views(published@) =~= Seq::empty());
        while i < signals.len()
            invariant
                i <= signals.len(),
                all == signal_views(signals@),
                solar == active_phase(schedule@, now as int),
                start.after_signals(all, solar) == self@.after_signals(all.skip(i as int), solar),
                start.signal_publishes(all, solar) == theme_views(published@)
                    + self@.signal_publishes(all.skip(i as int), solar),
            decreases signals.len() - i,
        {
            let ghost before = self@;
            let ghost sent = theme_views(published@);
            let ghost rest = all.skip(i as int);
            assert(rest[0] == signals@[i as int]@);
            assert(rest.drop_first() =~= all.skip(i + 1));
            let publish = self.apply_signal(signals[i].clone(), now, schedule);
            match publish {
                Some(theme) => {
                    published.push(theme);
                    assert(theme_views(published@) =~= sent + seq![theme@]);
                    assert((sent + seq![theme@]) + self@.signal_publishes(all.skip(i + 1), solar)
                        =~= sent + (seq![theme@] + self@.signal_publishes(
                        all.skip(i + 1),
                        solar,
                    )));
                },
                None => {},
            }
            i += 1;
        }
        published
    }

    /// Runs the decisions of one cycle: drains the queued signals, then
    /// resolves the phase and decides what to publish at the end and whether
    /// to sleep. The loop sleeps only where no signal led to a publish.
    pub fn run_cycle(
        &mut self,
        signals: &Vec<OverrideSignal>,
        now: i64,
        schedule: &Vec<ScheduleEntry>,
    ) -> (outcome: CycleOutcome)
        ensures
            ({
                let solar = active_phase(schedule@, now as int);
                let drained = old(self)@.after_signals(signal_views(signals@), solar);
                let immediate = old(self)@.signal_publishes(signal_views(signals@), solar);
                &&& final(self)@ == drained.after_cycle(solar)
                &&& theme_views(outcome.immediate@) == immediate
                &&& theme_view(outcome.publish) == (if drained.cycle_publishes(
                    solar,
                    immediate.len() > 0,
                ) {
                    Some(drained.cycle_theme(solar))
                } else {
                    None
                })
                &&& outcome.sleep == (immediate.len() == 0)
            }),
    {
        let immediate = self.drain_signals(signals, now, schedule);
        assert(theme_views(immediate@).len() == immediate@.len());
        let decision = self.finish_cycle(now, schedule, immediate.len() > 0);
        CycleOutcome { immediate, publish: decision.publish, sleep: decision.sleep }
    }

    /// Ends a cycle once the queue is drained: resolves the phase, ends an
    /// override that the phase has outlived, and decides what to publish and
    /// whether to sleep. `changed_by_signal` tells whether a signal of this
    /// cycle led to a publish.
    pub fn finish_cycle(
        &mut self,
        now: i64,
        schedule: &Vec<ScheduleEntry>,
        changed_by_signal: bool,
    ) -> (decision: CycleDecision)
        ensures
            final(self)@ == old(self)@.after_cycle(active_phase(schedule@, now as int)),
            theme_view(decision.publish) == (if old(self)@.cycle_publishes(
                active_phase(schedule@, now as int),
                changed_by_signal,
            ) {
                Some(old(self)@.cycle_theme(active_phase(schedule@, now as int)))
            } else {
                None
            }),
            decision.sleep == !changed_by_signal,
    {
        let solar = resolve_phase(now, schedule);
        let phase_changed = match self.last_solar_phase {
            Some(last) => last != solar,
            None => false,
        };
        if self.override_state.is_some() && phase_changed {
            self.override_state = None;
        }
        self.last_solar_phase = Some(solar);
        let current = match &self.override_state {
            Some(text) => ThemeType::Custom(text.clone()),
            None => ThemeType::Solar(solar),
        };
        let differs = match &self.last_published {
            Some(published) => !published.same_as(&current),
            None => true,
        };
        let publish = if differs || !changed_by_signal {
            Some(current.clone())
        } else {
            None
        };
        if differs {
            self.last_published = Some(current);
        }
        CycleDecision { publish, sleep: !changed_by_signal }
    }
}

/// Of two successive signals that set the same theme, only the first is
/// published: the second publishes nothing and leaves the state as it is,
/// whatever the sun does in between.
pub proof fn repeated_set_theme_is_silent(
    state: SchedulerView,
    text: Seq<char>,
    solar_first: SolarPhase,
    solar_second: SolarPhase,
)
    ensures
        state.override_state is None ==> state.signal_publish(
            SignalView::SetTheme(text),
            solar_first,
        ) == Some(ThemeView::Custom(text)),
        state.after_signal(SignalView::SetTheme(text), solar_first).signal_publish(
            SignalView::SetTheme(text),
            solar_second,
        ) is None,
        state.after_signal(SignalView::SetTheme(text), solar_first).after_signal(
            SignalView::SetTheme(text),
            solar_second,
        ) == state.after_signal(SignalView::SetTheme(text), solar_first),
{
}

/// An override outlasts every cycle in which the phase is the one of the
/// cycle before, so that the same theme set again after such cycles is not
/// published again.
pub proof fn override_outlasts_quiet_cycle(state: SchedulerView, text: Seq<char>, solar: SolarPhase)
    requires
        state.override_state == Some(text),
        state.last_solar_phase is None || state.last_solar_phase == Some(solar),
    ensures
        state.after_cycle(solar).override_state == Some(text),
        state.after_cycle(solar).signal_publish(SignalView::SetTheme(text), solar) is None,
{
}

/// A change of phase between two cycles ends an override without a revert:
/// the cycle that sees the new phase publishes its theme and leaves the
/// scheduler automatic.
pub proof fn phase_change_ends_override(
    state: SchedulerView,
    previous: SolarPhase,
    solar: SolarPhase,
    changed_by_signal: bool,
)
    requires
        state.consistent(),
        state.override_state is Some,
        state.last_solar_phase == Some(previous),
        previous != solar,
    ensures
        state.after_cycle(solar).override_state is None,
        state.cycle_publishes(solar, changed_by_signal),
        state.cycle_theme(solar) == ThemeView::Solar(solar),
        state.after_cycle(solar).last_published == Some(ThemeView::Solar(solar)),
{
}

/// A revert of an override publishes the solar theme at once, and the cycles
/// after it go by the sun.
pub proof fn revert_restores_solar_theme(
    state: SchedulerView,
    solar: SolarPhase,
    solar_next: SolarPhase,
)
    requires
        state.override_state is Some,
    ensures
        state.signal_publish(SignalView::Revert, solar) == Some(ThemeView::Solar(solar)),
        state.after_signal(SignalView::Revert, solar).override_state is None,
        state.after_signal(SignalView::Revert, solar).cycle_theme(solar_next) == ThemeView::Solar(
            solar_next,
        ),
{
}

/// Every step keeps the state consistent, and only a command changes the
/// override: a cycle never sets one, and ends one only on a change of phase.
pub proof fn steps_keep_consistency(
    state: SchedulerView,
    signal: SignalView,
    solar: SolarPhase,
)
    requires
        state.consistent(),
    ensures
        SchedulerView::initial().consistent(),
        state.after_signal(signal, solar).consistent(),
        state.after_cycle(solar).consistent(),
        state.after_cycle(solar).override_state is Some ==> state.after_cycle(solar).override_state
            == state.override_state,
        state.override_state is Some && !state.auto_clears(solar) ==> state.after_cycle(
            solar,
        ).override_state == state.override_state,
        state.override_state is None && signal == SignalView::Revert ==> state.after_signal(
            signal,
            solar,
        ) == state,
{
}

} // verus!
