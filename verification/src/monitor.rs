//! The polling loop that follows the input focus, as a state machine.
//!
//! A [`Monitor`] decides what the loop does next: sleep, ask the operating
//! system which process has the focus and on which display, or write a level
//! to the hardware. The loop carries out each [`Action`] and reports what it
//! found as an [`Observation`]. The settings and the last level written live
//! in a [`VibranceState`] that the loop shares with whoever changes the
//! settings.

use crate::error::VibranceError;
use crate::vibrance::NvidiaController;
use vstd::prelude::*;

verus! {

/// Seconds that the loop sleeps between two passes.
pub const POLL_INTERVAL_SECS: u64 = 1;

/// The lowercase form of a string, as `str::to_lowercase` gives it.
pub uninterp spec fn lowercase(s: Seq<char>) -> Seq<char>;

/// Calls `str::to_lowercase`, which maps each character to its lowercase
/// equivalent by the Unicode tables. The result is a function of the
/// argument alone and is given the name `lowercase`.
#[verifier::external_body]
fn to_lowercase(s: &str) -> (lowered: String)
    ensures
        lowered@ == lowercase(s@),
{
    s.to_lowercase()
}

/// The name of the target process, in lowercase.
pub open spec fn target_process() -> Seq<char> {
    "cs2.exe"@
}

/// Whether `name`, whatever its case, is the name of the target process.
pub open spec fn is_target(name: Seq<char>) -> bool {
    lowercase(name) == target_process()
}

/// Tests whether a name that is already in lowercase is that of the target
/// process.
pub fn matches_target(lowered: &str) -> (matched: bool)
    ensures
        matched == (lowered@ == target_process()),
{
    let lowered = lowered.to_owned();
    let target = "cs2.exe".to_owned();
    lowered == target
}

/// Tests whether the process named `name` is the target process, comparing
/// without regard to case.
pub fn is_target_process(name: &str) -> (target: bool)
    ensures
        target == is_target(name@),
{
    let lowered = to_lowercase(name);
    matches_target(lowered.as_str())
}

/// What the user has asked of the monitor.
#[derive(Clone, Copy, Debug, PartialEq, Eq, Structural)]
pub struct VibranceSettings {
    /// Whether the monitor touches the hardware at all.
    pub enabled: bool,
    /// Percent level while any other process has the focus.
    pub default_vibrance: u32,
    /// Percent level while the target process has the focus.
    pub cs2_vibrance: u32,
}

impl VibranceSettings {
    /// The settings before the user has chosen any.
    pub open spec fn initial() -> Self {
        VibranceSettings { enabled: false, default_vibrance: 50, cs2_vibrance: 100 }
    }

    /// The level that the settings ask for, by whether the target process
    /// has the focus.
    pub open spec fn spec_intended_level(self, target_focused: bool) -> u32 {
        if target_focused {
            self.cs2_vibrance
        } else {
            self.default_vibrance
        }
    }

    /// The level that the settings ask for, by whether the target process
    /// has the focus.
    pub fn intended_level(&self, target_focused: bool) -> (level: u32)
        ensures
            level == self.spec_intended_level(target_focused),
    {
        if target_focused {
            self.cs2_vibrance
        } else {
            self.default_vibrance
        }
    }
}

impl Default for VibranceSettings {
    fn default() -> (settings: Self)
        ensures
            settings == Self::initial(),
    {
        VibranceSettings { enabled: false, default_vibrance: 50, cs2_vibrance: 100 }
    }
}

/// The state that the monitor shares with whoever changes the settings.
#[derive(Clone, Copy, Debug, PartialEq, Eq, Structural)]
pub struct VibranceState {
    pub settings: VibranceSettings,
    /// The level last written with success; `None` while that is unknown
    /// and the next pass has to write.
    pub current_vibrance: Option<u32>,
}

impl VibranceState {
    /// The state after the settings were replaced: the new settings, and
    /// no level known to be written.
    pub open spec fn spec_updated(
        self,
        enabled: bool,
        default_vibrance: u32,
        cs2_vibrance: u32,
    ) -> Self {
        VibranceState {
            settings: VibranceSettings { enabled, default_vibrance, cs2_vibrance },
            current_vibrance: None,
        }
    }

    /// The state at startup: the initial settings, nothing written yet.
    pub fn new() -> (state: Self)
        ensures
            state.settings == VibranceSettings::initial(),
            state.current_vibrance is None,
    {
        VibranceState { settings: VibranceSettings::default(), current_vibrance: None }
    }
}

/// Replaces the settings and forgets the level last written, so that the
/// next pass of the monitor writes again. No value is refused here: a level
/// above 100 is caught when it is about to be written.
pub fn set_vibrance_settings(
    state: &mut VibranceState,
    enabled: bool,
    default_vibrance: u32,
    cs2_vibrance: u32,
)
    ensures
        *final(state) == old(state).spec_updated(enabled, default_vibrance, cs2_vibrance),
{
    state.settings = VibranceSettings { enabled, default_vibrance, cs2_vibrance };
    state.current_vibrance = None;
}

/// Whether the machine has a GPU that the vendor runtime can drive. It
/// never fails, and leaves the shared state alone.
pub fn check_nvidia_gpu() -> bool {
    NvidiaController::has_nvidia_gpu()
}

/// Which displays take the target level while the target process has the
/// focus.
#[derive(Clone, Copy, Debug, PartialEq, Eq, Structural)]
pub enum TargetScope {
    /// Only the display that the focused window is on. The others keep what
    /// they have until the target process loses the focus.
    FocusedDisplay,
    /// Every connected display.
    AllDisplays,
}

/// What has the input focus.
#[derive(Debug, PartialEq, Eq)]
pub enum Focus {
    /// No window has the focus.
    Nothing,
    /// A window whose process has no name that can be read.
    Unnamed,
    /// A window of the process `name`.
    Process { name: String },
}

impl Focus {
    /// Whether the target process has the focus. A process without a name
    /// is not the target.
    pub open spec fn on_target(self) -> bool {
        match self {
            Focus::Process { name } => is_target(name@),
            _ => false,
        }
    }

    /// Tests whether the target process has the focus.
    pub fn is_on_target(&self) -> (target: bool)
        ensures
            target == self.on_target(),
    {
        match self {
            Focus::Process { name } => is_target_process(name.as_str()),
            _ => false,
        }
    }
}

/// What the loop does next.
#[derive(Debug, PartialEq, Eq)]
pub enum Action {
    /// Wait for `secs` seconds, then report `Tick`.
    Sleep { secs: u64 },
    /// Ask what has the focus, then report `Focus`.
    QueryFocus,
    /// Ask which display the focused window is on, then report `Display`.
    QueryDisplay,
    /// Set `level` on every display, then report `Applied`.
    SetAll { level: u32 },
    /// Set `level` on the display `name`, then report `Applied`.
    SetDisplay { name: String, level: u32 },
    /// Leave the loop for good: the monitor could not start, for `reason`.
    Stop { reason: VibranceError },
}

/// What the loop found when it carried out an action.
#[derive(Debug, PartialEq, Eq)]
pub enum Observation {
    /// The sleep is over.
    Tick,
    /// What has the focus.
    Focus { focus: Focus },
    /// The name of the display that the focused window is on; `None` where
    /// the operating system does not tell.
    Display { name: Option<String> },
    /// How the write to the hardware ended: on success the number of
    /// displays that took the level.
    Applied { result: Result<u32, VibranceError> },
}

/// Where in a pass the monitor is.
#[derive(Clone, Copy, Debug, PartialEq, Eq, Structural)]
pub enum Phase {
    /// The monitor could not start, for `reason`, and does nothing.
    Stopped { reason: VibranceError },
    /// Between two passes.
    Sleeping,
    /// Waits to learn what has the focus; `settings` is the snapshot that
    /// this pass works with.
    AwaitFocus { settings: VibranceSettings },
    /// Waits to learn which display gets `level`.
    AwaitDisplay { level: u32 },
    /// Waits for the write of `level` to end.
    Applying { level: u32 },
}

/// The state of the polling loop.
#[derive(Clone, Copy, Debug, PartialEq, Eq, Structural)]
pub struct Monitor {
    pub scope: TargetScope,
    pub phase: Phase,
}

/// The action that ends a pass.
pub open spec fn spec_sleep() -> Action {
    Action::Sleep { secs: POLL_INTERVAL_SECS }
}

impl Monitor {
    /// The monitor at startup: ready for its first pass if a GPU is present
    /// and the session with the vendor runtime is open. Without a GPU it is
    /// stopped with `NoGpuFound`, without a session with
    /// `DriverUnavailable`.
    pub open spec fn spec_start(scope: TargetScope, gpu_present: bool, session_open: bool) -> (
        Monitor,
        Action,
    ) {
        if !gpu_present {
            Self::stopped(scope, VibranceError::NoGpuFound)
        } else if !session_open {
            Self::stopped(scope, VibranceError::DriverUnavailable)
        } else {
            (Monitor { scope, phase: Phase::Sleeping }, spec_sleep())
        }
    }

    /// A monitor that could not start, with the one action it ever gives.
    pub open spec fn stopped(scope: TargetScope, reason: VibranceError) -> (Monitor, Action) {
        (Monitor { scope, phase: Phase::Stopped { reason } }, Action::Stop { reason })
    }

    /// The monitor in another phase.
    pub open spec fn in_phase(self, phase: Phase) -> Monitor {
        Monitor { scope: self.scope, phase }
    }

    /// What the monitor decides once it knows what has the focus. Without
    /// a focused window it does nothing, nor if the level that `settings`
    /// ask for is the one last written. Else it writes that level: to all
    /// displays, or, if the target process has the focus and only its
    /// display is to change, to that display, whose name it first has to
    /// ask for.
    pub open spec fn on_focus(
        self,
        settings: VibranceSettings,
        shared: VibranceState,
        focus: Focus,
    ) -> (Monitor, Action) {
        let level = settings.spec_intended_level(focus.on_target());
        if focus is Nothing || shared.current_vibrance == Some(level) {
            (self.in_phase(Phase::Sleeping), spec_sleep())
        } else if focus.on_target() && self.scope == TargetScope::FocusedDisplay {
            (self.in_phase(Phase::AwaitDisplay { level }), Action::QueryDisplay)
        } else {
            (self.in_phase(Phase::Applying { level }), Action::SetAll { level })
        }
    }

    /// The monitor, the shared state and the action after `observation`.
    ///
    /// A pass begins with the end of a sleep, when the monitor takes its
    /// snapshot of the settings, and does nothing more while they are
    /// disabled. A write that succeeded is recorded in the shared state, one
    /// that failed is not. An observation that the monitor did not ask for
    /// ends the pass; a stopped monitor stays stopped.
    pub open spec fn spec_step(self, shared: VibranceState, observation: Observation) -> (
        Monitor,
        VibranceState,
        Action,
    ) {
        match (self.phase, observation) {
            (Phase::Stopped { reason }, _) => (self, shared, Action::Stop { reason }),
            (Phase::Sleeping, Observation::Tick) => {
                if shared.settings.enabled {
                    (
                        self.in_phase(Phase::AwaitFocus { settings: shared.settings }),
                        shared,
                        Action::QueryFocus,
                    )
                } else {
                    (self.in_phase(Phase::Sleeping), shared, spec_sleep())
                }
            },
            (Phase::AwaitFocus { settings }, Observation::Focus { focus }) => {
                let (next, action) = self.on_focus(settings, shared, focus);
                (next, shared, action)
            },
            (Phase::AwaitDisplay { level }, Observation::Display { name: Some(name) }) => (
                self.in_phase(Phase::Applying { level }),
                shared,
                Action::SetDisplay { name, level },
            ),
            (Phase::Applying { level }, Observation::Applied { result: Ok(_) }) => (
                self.in_phase(Phase::Sleeping),
                VibranceState { settings: shared.settings, current_vibrance: Some(level) },
                spec_sleep(),
            ),
            _ => (self.in_phase(Phase::Sleeping), shared, spec_sleep()),
        }
    }

    /// Decides from the outcome of the two startup checks whether the loop
    /// runs at all.
    pub fn start(scope: TargetScope, gpu_present: bool, session_open: bool) -> (started: (
        Monitor,
        Action,
    ))
        ensures
            started == Self::spec_start(scope, gpu_present, session_open),
    {
        if !gpu_present {
            let reason = VibranceError::NoGpuFound;
            (Monitor { scope, phase: Phase::Stopped { reason } }, Action::Stop { reason })
        } else if !session_open {
            let reason = VibranceError::DriverUnavailable;
            (Monitor { scope, phase: Phase::Stopped { reason } }, Action::Stop { reason })
        } else {
            (Monitor { scope, phase: Phase::Sleeping }, Action::Sleep { secs: POLL_INTERVAL_SECS })
        }
    }

    /// Makes the two startup checks and starts the monitor on their
    /// outcome: it looks for a GPU and, only if there is one, opens the
    /// session with the vendor runtime. With a session the monitor is ready
    /// for its first pass; without one it is stopped, for want of a GPU or
    /// of the driver.
    pub fn launch(scope: TargetScope) -> (launched: (Monitor, Action, Option<NvidiaController>))
        ensures
            launched.2 is Some ==> (launched.0, launched.1) == Self::spec_start(scope, true, true),
            launched.2 is None ==> (launched.0, launched.1) == Self::stopped(
                scope,
                VibranceError::NoGpuFound,
            ) || (launched.0, launched.1) == Self::stopped(scope, VibranceError::DriverUnavailable),
    {
        let gpu_present = NvidiaController::has_nvidia_gpu();
        let controller = if gpu_present {
            match NvidiaController::new() {
                Ok(controller) => Some(controller),
                Err(_) => None,
            }
        } else {
            None
        };
        let (monitor, action) = Self::start(scope, gpu_present, controller.is_some());
        (monitor, action, controller)
    }

    /// Takes what the loop found and decides what it does next. A write
    /// that succeeded is recorded in `shared`.
    pub fn step(&mut self, shared: &mut VibranceState, observation: Observation) -> (action: Action)
        ensures
            (*final(self), *final(shared), action) == old(self).spec_step(*old(shared), observation),
    {
        let sleep = Action::Sleep { secs: POLL_INTERVAL_SECS };
        match (self.phase, observation) {
            (Phase::Stopped { reason }, _) => Action::Stop { reason },
            (Phase::Sleeping, Observation::Tick) => {
                if shared.settings.enabled {
                    self.phase = Phase::AwaitFocus { settings: shared.settings };
                    Action::QueryFocus
                } else {
                    sleep
                }
            },
            (Phase::AwaitFocus { settings }, Observation::Focus { focus }) => {
                let target_focused = focus.is_on_target();
                let level = settings.intended_level(target_focused);
                let written = match shared.current_vibrance {
                    Some(current) => current == level,
                    None => false,
                };
                let unfocused = match focus {
                    Focus::Nothing => true,
                    _ => false,
                };
                if unfocused || written {
                    self.phase = Phase::Sleeping;
                    sleep
                } else if target_focused && self.scope == TargetScope::FocusedDisplay {
                    self.phase = Phase::AwaitDisplay { level };
                    Action::QueryDisplay
                } else {
                    self.phase = Phase::Applying { level };
                    Action::SetAll { level }
                }
            },
            (Phase::AwaitDisplay { level }, Observation::Display { name: Some(name) }) => {
                self.phase = Phase::Applying { level };
                Action::SetDisplay { name, level }
            },
            (Phase::Applying { level }, Observation::Applied { result: Ok(_) }) => {
                self.phase = Phase::Sleeping;
                shared.current_vibrance = Some(level);
                sleep
            },
            _ => {
                self.phase = Phase::Sleeping;
                sleep
            },
        }
    }
}

/// What the loop would find during one pass: what has the focus, the
/// display that the focused window is on, and how a write would end.
pub struct Surroundings {
    pub focus: Focus,
    pub display: Option<String>,
    pub outcome: Result<u32, VibranceError>,
}

impl Monitor {
    /// One pass of a sleeping monitor through `around`, from the end of the
    /// sleep to the next one: the monitor and the shared state after the
    /// pass, and the write that the pass made, if it made one.
    pub open spec fn spec_pass(self, shared: VibranceState, around: Surroundings) -> (
        Monitor,
        VibranceState,
        Option<Action>,
    ) {
        let woken = self.spec_step(shared, Observation::Tick);
        if woken.2 != Action::QueryFocus {
            (woken.0, woken.1, None)
        } else {
            let focused = woken.0.spec_step(woken.1, Observation::Focus { focus: around.focus });
            let placed = if focused.2 == Action::QueryDisplay {
                focused.0.spec_step(focused.1, Observation::Display { name: around.display })
            } else {
                focused
            };
            if placed.2 is SetAll || placed.2 is SetDisplay {
                let applied = placed.0.spec_step(
                    placed.1,
                    Observation::Applied { result: around.outcome },
                );
                (applied.0, applied.1, Some(placed.2))
            } else {
                (placed.0, placed.1, None)
            }
        }
    }

    /// The write that a pass owes when `focus` has the focus on the display
    /// `display`: none without a focused window; else the level that the
    /// settings ask for, on all displays, or, if the target process has
    /// the focus and only its display is to change, on that display. Where
    /// that display is not known, nothing can be written.
    pub open spec fn owed_write(
        self,
        settings: VibranceSettings,
        focus: Focus,
        display: Option<String>,
    ) -> Option<Action> {
        let level = settings.spec_intended_level(focus.on_target());
        if focus is Nothing {
            None
        } else if focus.on_target() && self.scope == TargetScope::FocusedDisplay {
            match display {
                Some(name) => Some(Action::SetDisplay { name, level }),
                None => None,
            }
        } else {
            Some(Action::SetAll { level })
        }
    }
}

/// While the settings are disabled a pass does nothing: it makes no write
/// and leaves the shared state as it is.
pub proof fn law_disabled_monitor_is_idle(
    monitor: Monitor,
    shared: VibranceState,
    around: Surroundings,
)
    requires
        monitor.phase is Sleeping,
        !shared.settings.enabled,
    ensures
        monitor.spec_pass(shared, around) == (monitor, shared, None::<Action>),
{
}

/// A pass ends where it began, asleep, and never changes the settings. The
/// level last written changes only by a write that succeeded, and then to
/// the level of that write.
pub proof fn law_pass_records_only_success(
    monitor: Monitor,
    shared: VibranceState,
    around: Surroundings,
)
    requires
        monitor.phase is Sleeping,
    ensures
        ({
            let (after, state, write) = monitor.spec_pass(shared, around);
            &&& after == monitor
            &&& state.settings == shared.settings
            &&& write is None ==> state == shared
            &&& around.outcome is Err ==> state == shared
            &&& write matches Some(Action::SetAll { level }) ==> (around.outcome is Ok
                ==> state.current_vibrance == Some(level))
            &&& write matches Some(Action::SetDisplay { level, .. }) ==> (around.outcome is Ok
                ==> state.current_vibrance == Some(level))
        }),
{
}

/// A pass writes exactly when it has to: the settings are enabled and the
/// level that they ask for is not the one last written. The write is then
/// the owed one.
pub proof fn law_pass_writes_owed_level(
    monitor: Monitor,
    shared: VibranceState,
    around: Surroundings,
)
    requires
        monitor.phase is Sleeping,
    ensures
        monitor.spec_pass(shared, around).2 == ({
            let level = shared.settings.spec_intended_level(around.focus.on_target());
            if shared.settings.enabled && shared.current_vibrance != Some(level) {
                monitor.owed_write(shared.settings, around.focus, around.display)
            } else {
                None
            }
        }),
{
}

/// Idempotence. After a pass whose write succeeded, a second pass that
/// finds the same settings and a focus that asks for the same level makes
/// no write at all, and leaves the shared state as it is.
pub proof fn law_written_level_is_not_rewritten(
    monitor: Monitor,
    shared: VibranceState,
    around: Surroundings,
    again: Surroundings,
)
    requires
        monitor.phase is Sleeping,
        monitor.spec_pass(shared, around).2 is Some,
        around.outcome is Ok,
        shared.settings.spec_intended_level(again.focus.on_target())
            == shared.settings.spec_intended_level(around.focus.on_target()),
    ensures
        ({
            let first = monitor.spec_pass(shared, around);
            let second = first.0.spec_pass(first.1, again);
            &&& second.2 is None
            &&& second.1 == first.1
        }),
{
}

/// Cache invalidation. After the settings were replaced, the next pass
/// that finds a focused window writes the level that the new settings ask
/// for, even where it is the level that was last written before.
pub proof fn law_new_settings_force_write(
    monitor: Monitor,
    shared: VibranceState,
    default_vibrance: u32,
    cs2_vibrance: u32,
    around: Surroundings,
)
    requires
        monitor.phase is Sleeping,
        !(around.focus is Nothing),
        around.focus.on_target() && monitor.scope == TargetScope::FocusedDisplay
            ==> around.display is Some,
    ensures
        ({
            let updated = shared.spec_updated(true, default_vibrance, cs2_vibrance);
            let write = monitor.spec_pass(updated, around).2;
            let level = updated.settings.spec_intended_level(around.focus.on_target());
            &&& write == monitor.owed_write(updated.settings, around.focus, around.display)
            &&& write matches Some(Action::SetAll { level: l }) ==> l == level
            &&& write matches Some(Action::SetDisplay { level: l, .. }) ==> l == level
            &&& write is Some
        }),
{
}

/// A write that failed is forgotten: the shared state is as before the
/// pass, so the next pass that finds the same focus makes the same write.
pub proof fn law_failed_write_is_retried(
    monitor: Monitor,
    shared: VibranceState,
    around: Surroundings,
    again: Surroundings,
)
    requires
        monitor.phase is Sleeping,
        around.outcome is Err,
        again.focus == around.focus,
        again.display == around.display,
    ensures
        ({
            let first = monitor.spec_pass(shared, around);
            let second = first.0.spec_pass(first.1, again);
            second.2 == first.2
        }),
{
}

} // verus!
