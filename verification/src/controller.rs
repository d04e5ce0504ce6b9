//! The panel's controller: it turns commands into capture states, times the
//! recording, and keeps the last failure until the user has seen it.
//!
//! Time comes in from the caller as milliseconds on a monotonic clock, and
//! what the controller has to announce comes back as a return value; the
//! caller owns the clock and the event bus.

use vstd::prelude::*;

use crate::recording::RecordingError;
use crate::screenshot::{SavedCapture, ScreenshotError};
use crate::settings::{AppPaths, Settings};
use crate::state::{
    cancel_result, failure_summary, pause_result, resume_result, start_result, stop_result,
    CaptureCommand, CaptureEvent, CaptureFailure, CaptureKind, CaptureState, SavedOutput,
    StateError,
};
use crate::geometry::CaptureTarget;

verus! {

/// Why a command was not carried out.
#[derive(Clone, Copy, Debug, PartialEq, Eq, Structural)]
pub enum CommandError {
    /// Another capture holds the app.
    Busy,
    /// The command does not apply to the current state.
    InvalidState,
}

pub open spec fn command_error(error: StateError) -> CommandError {
    match error {
        StateError::Busy(_) => CommandError::Busy,
        StateError::InvalidTransition(_) => CommandError::InvalidState,
    }
}

impl From<StateError> for CommandError {
    fn from(error: StateError) -> (res: Self) {
        match error {
            StateError::Busy(_) => CommandError::Busy,
            StateError::InvalidTransition(_) => CommandError::InvalidState,
        }
    }
}

impl vstd::std_specs::convert::FromSpecImpl<StateError> for CommandError {
    open spec fn obeys_from_spec() -> bool {
        true
    }

    open spec fn from_spec(error: StateError) -> Self {
        command_error(error)
    }
}

/// A transition's outcome in the controller's terms.
pub open spec fn as_command(result: Result<CaptureState, StateError>) -> Result<
    CaptureState,
    CommandError,
> {
    match result {
        Ok(state) => Ok(state),
        Err(error) => Err(command_error(error)),
    }
}

fn lift(result: Result<CaptureState, StateError>) -> (res: Result<CaptureState, CommandError>)
    ensures
        res == as_command(result),
{
    match result {
        Ok(state) => Ok(state),
        Err(StateError::Busy(_)) => Err(CommandError::Busy),
        Err(StateError::InvalidTransition(_)) => Err(CommandError::InvalidState),
    }
}

/// The four commands that start a capture: the only ones Retry may run
/// again.
pub open spec fn starts_capture(command: CaptureCommand) -> bool {
    ||| command == CaptureCommand::CaptureRegion
    ||| command == CaptureCommand::CaptureActiveWindow
    ||| command == CaptureCommand::ToggleVideo
    ||| command == CaptureCommand::ToggleGif
}

/// A recording button: starts its recording from idle, backs out of its own
/// selection or countdown, stops its own recording, and is busy otherwise.
pub open spec fn toggle_recording_result(state: CaptureState, kind: CaptureKind) -> Result<
    CaptureState,
    CommandError,
> {
    match state {
        CaptureState::Idle => as_command(start_result(state, kind)),
        CaptureState::Selecting(active) => if active == kind {
            as_command(cancel_result(state))
        } else {
            Err(CommandError::Busy)
        },
        CaptureState::Countdown(active, _) => if active == kind {
            as_command(cancel_result(state))
        } else {
            Err(CommandError::Busy)
        },
        CaptureState::Recording(active) => if active == kind {
            as_command(stop_result(state, kind))
        } else {
            Err(CommandError::Busy)
        },
        CaptureState::Paused(active) => if active == kind {
            as_command(stop_result(state, kind))
        } else {
            Err(CommandError::Busy)
        },
        _ => Err(CommandError::Busy),
    }
}

/// The pause button: pauses a running recording, resumes a paused one.
pub open spec fn toggle_pause_result(state: CaptureState) -> Result<CaptureState, CommandError> {
    match state {
        CaptureState::Recording(kind) => as_command(pause_result(state, kind)),
        CaptureState::Paused(kind) => as_command(resume_result(state, kind)),
        _ => Err(CommandError::Busy),
    }
}

/// The state a command leads to from `state`, which has already left
/// `Error` for `Idle`.
pub open spec fn command_result(state: CaptureState, command: CaptureCommand) -> Result<
    CaptureState,
    CommandError,
> {
    match command {
        CaptureCommand::CaptureRegion => as_command(
            start_result(state, CaptureKind::RegionScreenshot),
        ),
        CaptureCommand::CaptureActiveWindow => as_command(
            start_result(state, CaptureKind::ActiveWindowScreenshot),
        ),
        CaptureCommand::ToggleVideo => toggle_recording_result(state, CaptureKind::Video),
        CaptureCommand::ToggleGif => toggle_recording_result(state, CaptureKind::Gif),
        CaptureCommand::TogglePause => toggle_pause_result(state),
        CaptureCommand::Cancel => as_command(cancel_result(state)),
    }
}

/// Leaving `Error` is how the next capture becomes possible.
pub open spec fn recovered(state: CaptureState) -> CaptureState {
    if state is Error {
        CaptureState::Idle
    } else {
        state
    }
}

/// `a + b`, or the largest `u64` when that overflows.
pub open spec fn sat_add(a: u64, b: int) -> u64 {
    if a + b > u64::MAX {
        u64::MAX
    } else {
        (a + b) as u64
    }
}

/// Milliseconds from `since` to `now`, zero when the clock reads earlier.
pub open spec fn since_ms(since: u64, now: u64) -> int {
    if now >= since {
        now - since
    } else {
        0
    }
}

/// The last command dispatched that starts a capture, with the whole
/// sequence of dispatched commands it was read from.
struct RetryMemory {
    last: Option<CaptureCommand>,
    dispatched: Ghost<Seq<CaptureCommand>>,
}

/// The last command in `history` that starts a capture, if any.
pub open spec fn last_capture(history: Seq<CaptureCommand>) -> Option<CaptureCommand>
    decreases history.len(),
{
    if history.len() == 0 {
        None
    } else if starts_capture(history.last()) {
        Some(history.last())
    } else {
        last_capture(history.drop_last())
    }
}

/// Retry only ever offers a command that starts a capture: never Cancel,
/// never Pause, whatever was dispatched.
pub proof fn lemma_last_capture_starts_one(history: Seq<CaptureCommand>)
    ensures
        last_capture(history) matches Some(command) ==> starts_capture(command) && command
            != CaptureCommand::Cancel && command != CaptureCommand::TogglePause,
    decreases history.len(),
{
    if history.len() > 0 && !starts_capture(history.last()) {
        lemma_last_capture_starts_one(history.drop_last());
    }
}

/// What Retry offers after one more dispatch: the dispatched command when it
/// starts a capture, and otherwise what it offered before - Cancel and
/// Pause never displace the capture that failed.
pub proof fn lemma_last_capture_push(history: Seq<CaptureCommand>, command: CaptureCommand)
    ensures
        last_capture(history.push(command)) == (if starts_capture(command) {
            Some(command)
        } else {
            last_capture(history)
        }),
{
    assert(history.push(command).drop_last() =~= history);
}

/// The app's capture flow: the state machine, the settings in force, the
/// chosen target, the recording clock and the failure on display.
pub struct AppController {
    state: CaptureState,
    settings: Settings,
    paths: AppPaths,
    target: Option<CaptureTarget>,
    /// Milliseconds recorded before the current unpaused stretch.
    recorded: u64,
    /// When the current unpaused stretch began, on the caller's clock.
    recording_since: Option<u64>,
    /// The last failure, kept apart from `state`: the state has to return to
    /// `Idle` so the next capture can start, but the message has to outlive
    /// that until the user has read it.
    error: Option<CaptureFailure>,
    /// The command Retry re-runs: the last dispatched one that starts a
    /// capture.
    retry: RetryMemory,
}

impl AppController {
    #[verifier::type_invariant]
    spec fn retry_is_a_capture(&self) -> bool {
        &&& self.retry.last == last_capture(self.retry.dispatched@)
        &&& self.retry.last matches Some(command) ==> starts_capture(command)
    }

    pub closed spec fn state_of(&self) -> CaptureState {
        self.state
    }

    pub closed spec fn settings_of(&self) -> Settings {
        self.settings
    }

    pub closed spec fn paths_of(&self) -> AppPaths {
        self.paths
    }

    pub closed spec fn target_of(&self) -> Option<CaptureTarget> {
        self.target
    }

    pub closed spec fn recorded_of(&self) -> u64 {
        self.recorded
    }

    pub closed spec fn since_of(&self) -> Option<u64> {
        self.recording_since
    }

    pub closed spec fn error_of(&self) -> Option<CaptureFailure> {
        self.error
    }

    pub closed spec fn last_command_of(&self) -> Option<CaptureCommand> {
        self.retry.last
    }

    /// Every command dispatched so far, in order, Retry's included.
    pub closed spec fn dispatched_of(&self) -> Seq<CaptureCommand> {
        self.retry.dispatched@
    }

    /// The recording's length at `now`: what was recorded before, plus the
    /// running stretch.
    pub open spec fn elapsed_at(&self, now: u64) -> u64 {
        match self.since_of() {
            Some(since) => sat_add(self.recorded_of(), since_ms(since, now)),
            None => self.recorded_of(),
        }
    }

    /// The command Retry offers: the last capture command, while there is a
    /// failure on display.
    pub open spec fn retry_of(&self) -> Option<CaptureCommand> {
        if self.error_of() is Some {
            self.last_command_of()
        } else {
            None
        }
    }

    /// A controller at rest, with nothing chosen, timed or failed.
    pub fn new(settings: Settings, paths: AppPaths) -> (res: Self)
        ensures
            res.state_of() == CaptureState::Idle,
            res.settings_of() == settings,
            res.paths_of() == paths,
            res.target_of() is None,
            res.recorded_of() == 0,
            res.since_of() is None,
            res.error_of() is None,
            res.last_command_of() is None,
            res.dispatched_of() == Seq::<CaptureCommand>::empty(),
    {
        AppController {
            state: CaptureState::Idle,
            settings,
            paths,
            target: None,
            recorded: 0,
            recording_since: None,
            error: None,
            retry: RetryMemory { last: None, dispatched: Ghost(Seq::empty()) },
        }
    }

    pub fn state(&self) -> (res: &CaptureState)
        ensures
            *res == self.state_of(),
    {
        &self.state
    }

    pub fn settings(&self) -> (res: &Settings)
        ensures
            *res == self.settings_of(),
    {
        &self.settings
    }

    pub fn paths(&self) -> (res: &AppPaths)
        ensures
            *res == self.paths_of(),
    {
        &self.paths
    }

    pub fn target(&self) -> (res: Option<&CaptureTarget>)
        ensures
            match self.target_of() {
                None => res is None,
                Some(t) => res matches Some(r) && *r == t,
            },
    {
        match &self.target {
            None => None,
            Some(t) => Some(t),
        }
    }

    /// How long the recording has run at `now`, pauses excluded.
    pub fn recording_elapsed(&self, now: u64) -> (res: u64)
        ensures
            res == self.elapsed_at(now),
    {
        match self.recording_since {
            Some(since) => {
                let running: u64 = if now >= since {
                    now - since
                } else {
                    0
                };
                self.recorded.saturating_add(running)
            },
            None => self.recorded,
        }
    }

    /// A target was picked. A video or GIF selection moves on to its
    /// countdown of the configured length.
    pub fn set_target(&mut self, target: CaptureTarget)
        ensures
            final(self).target_of() == Some(target),
            final(self).state_of() == (match old(self).state_of() {
                CaptureState::Selecting(kind) => if kind == CaptureKind::Video || kind
                    == CaptureKind::Gif {
                    CaptureState::Countdown(kind, old(self).settings_of().countdown_seconds)
                } else {
                    old(self).state_of()
                },
                _ => old(self).state_of(),
            }),
            final(self).settings_of() == old(self).settings_of(),
            final(self).paths_of() == old(self).paths_of(),
            final(self).recorded_of() == old(self).recorded_of(),
            final(self).since_of() == old(self).since_of(),
            final(self).error_of() == old(self).error_of(),
            final(self).last_command_of() == old(self).last_command_of(),
            final(self).dispatched_of() == old(self).dispatched_of(),
    {
        proof {
            use_type_invariant(&*self);
        }
        match self.state {
            CaptureState::Selecting(kind) => {
                if kind == CaptureKind::Video || kind == CaptureKind::Gif {
                    self.state = CaptureState::Countdown(kind, self.settings.countdown_seconds);
                }
            },
            _ => {},
        }
        self.target = Some(target);
    }

    /// The countdown for `kind` ran out: the recorder is running from `now`.
    /// Returns the state change to announce, or `None` when there was no
    /// such countdown.
    pub fn begin_recording(&mut self, kind: CaptureKind, now: u64) -> (res: Option<CaptureEvent>)
        ensures
            (old(self).state_of() matches CaptureState::Countdown(active, _) && active == kind)
                ==> {
                &&& final(self).state_of() == CaptureState::Recording(kind)
                &&& final(self).recorded_of() == 0
                &&& final(self).since_of() == Some(now)
                &&& res == Some(CaptureEvent::StateChanged(CaptureState::Recording(kind)))
            },
            !(old(self).state_of() matches CaptureState::Countdown(active, _) && active == kind)
                ==> {
                &&& final(self).state_of() == old(self).state_of()
                &&& final(self).recorded_of() == old(self).recorded_of()
                &&& final(self).since_of() == old(self).since_of()
                &&& res is None
            },
            final(self).settings_of() == old(self).settings_of(),
            final(self).paths_of() == old(self).paths_of(),
            final(self).target_of() == old(self).target_of(),
            final(self).error_of() == old(self).error_of(),
            final(self).last_command_of() == old(self).last_command_of(),
            final(self).dispatched_of() == old(self).dispatched_of(),
    {
        proof {
            use_type_invariant(&*self);
        }
        let counting = match self.state {
            CaptureState::Countdown(active, _) => active == kind,
            _ => false,
        };
        if counting {
            self.state = CaptureState::Recording(kind);
            self.recorded = 0;
            self.recording_since = Some(now);
            Some(CaptureEvent::StateChanged(CaptureState::Recording(kind)))
        } else {
            None
        }
    }

    /// Puts a failure on display; the state records it too until the next
    /// command.
    fn fail(&mut self, operation: &str, message: &str)
        ensures
            final(self).state_of() matches CaptureState::Error(f) && f.summary@ == failure_summary(
                operation@,
                message@,
            ) && f.detail@ == message@,
            final(self).error_of() matches Some(f) && f.summary@ == failure_summary(
                operation@,
                message@,
            ) && f.detail@ == message@,
            final(self).state_of() == CaptureState::Error(final(self).error_of().unwrap()),
            final(self).settings_of() == old(self).settings_of(),
            final(self).paths_of() == old(self).paths_of(),
            final(self).target_of() == old(self).target_of(),
            final(self).recorded_of() == old(self).recorded_of(),
            final(self).since_of() == old(self).since_of(),
            final(self).last_command_of() == old(self).last_command_of(),
            final(self).dispatched_of() == old(self).dispatched_of(),
    {
        proof {
            use_type_invariant(&*self);
        }
        let failure = CaptureFailure::new(operation, message);
        self.state = CaptureState::Error(failure.clone());
        self.error = Some(failure);
    }

    /// A recording finished at `now`, into `result`; `copied` says whether
    /// the file also reached the clipboard. The target and the clock are
    /// reset either way. A saved file clears any failure on display and is
    /// announced with the recording's length; a failure goes on display as
    /// `Recording failed — <error>`.
    pub fn finish_recording(
        &mut self,
        result: Result<String, RecordingError>,
        copied: bool,
        now: u64,
    ) -> (res: Option<CaptureEvent>)
        ensures
            final(self).target_of() is None,
            final(self).recorded_of() == 0,
            final(self).since_of() is None,
            final(self).settings_of() == old(self).settings_of(),
            final(self).paths_of() == old(self).paths_of(),
            final(self).last_command_of() == old(self).last_command_of(),
            final(self).dispatched_of() == old(self).dispatched_of(),
            match result {
                Ok(path) => {
                    &&& final(self).state_of() == CaptureState::Idle
                    &&& final(self).error_of() is None
                    &&& res == Some(
                        CaptureEvent::OutputSaved(
                            SavedOutput { path, recorded: Some(old(self).elapsed_at(now)), copied },
                        ),
                    )
                },
                Err(error) => {
                    &&& final(self).error_of() matches Some(f) && f.summary@ == failure_summary(
                        "Recording"@,
                        error.0@,
                    ) && f.detail@ == error.0@
                    &&& final(self).state_of() == CaptureState::Error(
                        final(self).error_of().unwrap(),
                    )
                    &&& res is None
                },
            },
    {
        proof {
            use_type_invariant(&*self);
        }
        self.target = None;
        let recorded = self.recording_elapsed(now);
        self.recorded = 0;
        self.recording_since = None;
        match result {
            Ok(path) => {
                self.state = CaptureState::Idle;
                self.error = None;
                Some(CaptureEvent::OutputSaved(SavedOutput { path, recorded: Some(recorded), copied }))
            },
            Err(error) => {
                self.fail("Recording", error.message());
                None
            },
        }
    }

    /// A screenshot finished into `result`; `copied` says whether it also
    /// reached the clipboard. A saved file clears any failure on display and
    /// is announced without a length; a failure goes on display as
    /// `Screenshot failed — <error>`.
    pub fn finish_screenshot(
        &mut self,
        result: Result<SavedCapture, ScreenshotError>,
        copied: bool,
    ) -> (res: Option<CaptureEvent>)
        ensures
            final(self).target_of() is None,
            final(self).recorded_of() == old(self).recorded_of(),
            final(self).since_of() == old(self).since_of(),
            final(self).settings_of() == old(self).settings_of(),
            final(self).paths_of() == old(self).paths_of(),
            final(self).last_command_of() == old(self).last_command_of(),
            final(self).dispatched_of() == old(self).dispatched_of(),
            match result {
                Ok(saved) => {
                    &&& final(self).state_of() == CaptureState::Idle
                    &&& final(self).error_of() is None
                    &&& res == Some(
                        CaptureEvent::OutputSaved(
                            SavedOutput { path: saved.path, recorded: None, copied },
                        ),
                    )
                },
                Err(error) => {
                    &&& final(self).error_of() matches Some(f) && f.summary@ == failure_summary(
                        "Screenshot"@,
                        error.0@,
                    ) && f.detail@ == error.0@
                    &&& final(self).state_of() == CaptureState::Error(
                        final(self).error_of().unwrap(),
                    )
                    &&& res is None
                },
            },
    {
        proof {
            use_type_invariant(&*self);
        }
        self.target = None;
        match result {
            Ok(saved) => {
                self.state = CaptureState::Idle;
                self.error = None;
                Some(CaptureEvent::OutputSaved(SavedOutput { path: saved.path, recorded: None, copied }))
            },
            Err(error) => {
                self.fail("Screenshot", error.message());
                None
            },
        }
    }

    /// Countdown lengths offered by the segmented control, in order.
    pub fn countdown_choices() -> (res: [u8; 3])
        ensures
            res@ == seq![0u8, 3u8, 5u8],
    {
        [0, 3, 5]
    }

    /// Sets the countdown length. Returns whether it changed, in which case
    /// the settings are to be saved.
    pub fn set_countdown(&mut self, seconds: u8) -> (changed: bool)
        ensures
            changed == (old(self).settings_of().countdown_seconds != seconds),
            final(self).settings_of().countdown_seconds == seconds,
            final(self).settings_of().audio == old(self).settings_of().audio,
            final(self).settings_of().video == old(self).settings_of().video,
            final(self).settings_of().gif == old(self).settings_of().gif,
            final(self).settings_of().screenshot == old(self).settings_of().screenshot,
            final(self).settings_of().hotkeys == old(self).settings_of().hotkeys,
            final(self).settings_of().schema_version == old(self).settings_of().schema_version,
            final(self).state_of() == old(self).state_of(),
            final(self).paths_of() == old(self).paths_of(),
            final(self).target_of() == old(self).target_of(),
            final(self).recorded_of() == old(self).recorded_of(),
            final(self).since_of() == old(self).since_of(),
            final(self).error_of() == old(self).error_of(),
            final(self).last_command_of() == old(self).last_command_of(),
            final(self).dispatched_of() == old(self).dispatched_of(),
    {
        proof {
            use_type_invariant(&*self);
        }
        if self.settings.countdown_seconds != seconds {
            self.settings.countdown_seconds = seconds;
            true
        } else {
            false
        }
    }

    /// Mutes or unmutes the soundtrack of the next video recording; the
    /// settings are to be saved afterwards.
    pub fn toggle_audio(&mut self)
        ensures
            final(self).settings_of().audio.enabled == !old(self).settings_of().audio.enabled,
            final(self).settings_of().audio.bitrate == old(self).settings_of().audio.bitrate,
            final(self).settings_of().audio.channels == old(self).settings_of().audio.channels,
            final(self).settings_of().countdown_seconds == old(
                self,
            ).settings_of().countdown_seconds,
            final(self).settings_of().video == old(self).settings_of().video,
            final(self).settings_of().gif == old(self).settings_of().gif,
            final(self).settings_of().screenshot == old(self).settings_of().screenshot,
            final(self).settings_of().hotkeys == old(self).settings_of().hotkeys,
            final(self).settings_of().schema_version == old(self).settings_of().schema_version,
            final(self).state_of() == old(self).state_of(),
            final(self).paths_of() == old(self).paths_of(),
            final(self).target_of() == old(self).target_of(),
            final(self).recorded_of() == old(self).recorded_of(),
            final(self).since_of() == old(self).since_of(),
            final(self).error_of() == old(self).error_of(),
            final(self).last_command_of() == old(self).last_command_of(),
            final(self).dispatched_of() == old(self).dispatched_of(),
    {
        proof {
            use_type_invariant(&*self);
        }
        self.settings.audio.enabled = !self.settings.audio.enabled;
    }

    /// The last failure, until it is dismissed or a capture succeeds.
    pub fn error(&self) -> (res: Option<&CaptureFailure>)
        ensures
            match self.error_of() {
                None => res is None,
                Some(f) => res matches Some(r) && *r == f,
            },
    {
        match &self.error {
            None => None,
            Some(f) => Some(f),
        }
    }

    /// The command the error bar offers as Retry: the last command that
    /// started a capture, while a failure is on display. Never pause or
    /// cancel.
    pub fn retry_command(&self) -> (res: Option<CaptureCommand>)
        ensures
            res == self.retry_of(),
            res == (if self.error_of() is Some {
                last_capture(self.dispatched_of())
            } else {
                None
            }),
            res matches Some(command) ==> starts_capture(command),
    {
        proof {
            use_type_invariant(self);
        }
        if self.error.is_some() {
            self.retry.last
        } else {
            None
        }
    }

    /// Clears the failure on display. Returns whether there was one.
    pub fn dismiss_error(&mut self) -> (was: bool)
        ensures
            was == old(self).error_of() is Some,
            final(self).error_of() is None,
            final(self).state_of() == old(self).state_of(),
            final(self).settings_of() == old(self).settings_of(),
            final(self).paths_of() == old(self).paths_of(),
            final(self).target_of() == old(self).target_of(),
            final(self).recorded_of() == old(self).recorded_of(),
            final(self).since_of() == old(self).since_of(),
            final(self).last_command_of() == old(self).last_command_of(),
            final(self).dispatched_of() == old(self).dispatched_of(),
    {
        proof {
            use_type_invariant(&*self);
        }
        let was = self.error.is_some();
        self.error = None;
        was
    }

    fn toggle_recording(&self, kind: CaptureKind) -> (res: Result<CaptureState, CommandError>)
        ensures
            res == toggle_recording_result(self.state_of(), kind),
    {
        match self.state {
            CaptureState::Idle => lift(self.state.clone().start(kind)),
            CaptureState::Selecting(active) => {
                if active == kind {
                    lift(self.state.clone().cancel())
                } else {
                    Err(CommandError::Busy)
                }
            },
            CaptureState::Countdown(active, _) => {
                if active == kind {
                    lift(self.state.clone().cancel())
                } else {
                    Err(CommandError::Busy)
                }
            },
            CaptureState::Recording(active) => {
                if active == kind {
                    lift(self.state.clone().stop(kind))
                } else {
                    Err(CommandError::Busy)
                }
            },
            CaptureState::Paused(active) => {
                if active == kind {
                    lift(self.state.clone().stop(kind))
                } else {
                    Err(CommandError::Busy)
                }
            },
            _ => Err(CommandError::Busy),
        }
    }

    fn toggle_pause(&self) -> (res: Result<CaptureState, CommandError>)
        ensures
            res == toggle_pause_result(self.state_of()),
    {
        match self.state {
            CaptureState::Recording(kind) => lift(self.state.clone().pause(kind)),
            CaptureState::Paused(kind) => lift(self.state.clone().resume(kind)),
            _ => Err(CommandError::Busy),
        }
    }

    /// Carries out `command` at `now`.
    ///
    /// A state left in `Error` returns to `Idle` first, but the failure on
    /// display stays: the click that reads it must not also dismiss it. A
    /// command that starts a capture is remembered for Retry, even when it
    /// is refused. Pausing banks the running stretch into the recorded
    /// length; resuming starts a new stretch at `now`. Whenever the state
    /// ends at `Idle` the target is dropped, so a region left from an
    /// abandoned capture is not inherited by the next one.
    pub fn dispatch(&mut self, command: CaptureCommand, now: u64) -> (res: Result<
        (),
        CommandError,
    >)
        ensures
            ({
                let start = recovered(old(self).state_of());
                let outcome = command_result(start, command);
                &&& final(self).error_of() == old(self).error_of()
                &&& final(self).settings_of() == old(self).settings_of()
                &&& final(self).paths_of() == old(self).paths_of()
                &&& final(self).dispatched_of() == old(self).dispatched_of().push(command)
                &&& final(self).last_command_of() == (if starts_capture(command) {
                    Some(command)
                } else {
                    old(self).last_command_of()
                })
                &&& match outcome {
                    Err(e) => {
                        &&& res == Err::<(), CommandError>(e)
                        &&& final(self).state_of() == start
                        &&& final(self).target_of() == old(self).target_of()
                        &&& final(self).recorded_of() == old(self).recorded_of()
                        &&& final(self).since_of() == old(self).since_of()
                    },
                    Ok(next) => {
                        &&& res == Ok::<(), CommandError>(())
                        &&& final(self).state_of() == next
                        &&& final(self).target_of() == (if next is Idle {
                            None
                        } else {
                            old(self).target_of()
                        })
                        &&& if start is Recording && next is Paused {
                            &&& final(self).since_of() is None
                            &&& final(self).recorded_of() == old(self).elapsed_at(now)
                        } else if start is Paused && next is Recording {
                            &&& final(self).since_of() == Some(now)
                            &&& final(self).recorded_of() == old(self).recorded_of()
                        } else {
                            &&& final(self).since_of() == old(self).since_of()
                            &&& final(self).recorded_of() == old(self).recorded_of()
                        }
                    },
                }
            }),
    {
        proof {
            use_type_invariant(&*self);
        }
        let is_error = match self.state {
            CaptureState::Error(_) => true,
            _ => false,
        };
        if is_error {
            self.state = CaptureState::Idle;
        }
        let starting = match command {
            CaptureCommand::CaptureRegion | CaptureCommand::CaptureActiveWindow
            | CaptureCommand::ToggleVideo | CaptureCommand::ToggleGif => true,
            _ => false,
        };
        let last = if starting {
            Some(command)
        } else {
            self.retry.last
        };
        proof {
            let pushed = self.retry.dispatched@.push(command);
            assert(pushed.drop_last() =~= self.retry.dispatched@);
            assert(pushed.last() == command);
        }
        self.retry = RetryMemory { last, dispatched: Ghost(self.retry.dispatched@.push(command)) };
        let previous_recording = match self.state {
            CaptureState::Recording(_) => true,
            _ => false,
        };
        let previous_paused = match self.state {
            CaptureState::Paused(_) => true,
            _ => false,
        };
        let next = match command {
            CaptureCommand::CaptureRegion => lift(
                self.state.clone().start(CaptureKind::RegionScreenshot),
            ),
            CaptureCommand::CaptureActiveWindow => lift(
                self.state.clone().start(CaptureKind::ActiveWindowScreenshot),
            ),
            CaptureCommand::ToggleVideo => self.toggle_recording(CaptureKind::Video),
            CaptureCommand::ToggleGif => self.toggle_recording(CaptureKind::Gif),
            CaptureCommand::TogglePause => self.toggle_pause(),
            CaptureCommand::Cancel => lift(self.state.clone().cancel()),
        };
        let next = match next {
            Err(e) => {
                return Err(e);
            },
            Ok(next) => next,
        };
        let now_paused = match next {
            CaptureState::Paused(_) => true,
            _ => false,
        };
        let now_recording = match next {
            CaptureState::Recording(_) => true,
            _ => false,
        };
        let now_idle = match next {
            CaptureState::Idle => true,
            _ => false,
        };
        self.state = next;
        if previous_recording && now_paused {
            let banked = self.recording_elapsed(now);
            self.recorded = banked;
            self.recording_since = None;
        } else if previous_paused && now_recording {
            self.recording_since = Some(now);
        }
        if now_idle {
            self.target = None;
        }
        Ok(())
    }

    /// Runs Retry at `now`: dismisses the failure and dispatches the command
    /// it offered. Returns that command and how the dispatch went, or `None`
    /// when there was nothing to retry.
    pub fn retry(&mut self, now: u64) -> (res: Option<(CaptureCommand, Result<(), CommandError>)>)
        ensures
            old(self).retry_of() is None ==> res is None && final(self).error_of()
                == old(self).error_of() && final(self).state_of() == old(self).state_of()
                && final(self).dispatched_of() == old(self).dispatched_of(),
            old(self).retry_of() matches Some(command) ==> final(self).dispatched_of() == old(
                self,
            ).dispatched_of().push(command),
            old(self).retry_of() matches Some(command) ==> res matches Some((c, outcome)) && c
                == command && starts_capture(c) && final(self).error_of() is None && outcome == (
            match command_result(recovered(old(self).state_of()), command) {
                Ok(_) => Ok::<(), CommandError>(()),
                Err(e) => Err(e),
            }) && final(self).state_of() == (match command_result(
                recovered(old(self).state_of()),
                command,
            ) {
                Ok(next) => next,
                Err(_) => recovered(old(self).state_of()),
            }),
    {
        proof {
            use_type_invariant(&*self);
        }
        match self.retry_command() {
            None => None,
            Some(command) => {
                self.dismiss_error();
                let outcome = self.dispatch(command, now);
                Some((command, outcome))
            },
        }
    }
}

/// The button that records `kind`.
pub open spec fn record_button(kind: CaptureKind) -> CaptureCommand {
    if kind == CaptureKind::Video {
        CaptureCommand::ToggleVideo
    } else {
        CaptureCommand::ToggleGif
    }
}

pub open spec fn is_recording_kind(kind: CaptureKind) -> bool {
    kind == CaptureKind::Video || kind == CaptureKind::Gif
}

/// A recording button backs out of its own selection and countdown, and
/// stops its own recording, running or paused.
pub proof fn lemma_same_button_backs_out(kind: CaptureKind, seconds: u8)
    requires
        is_recording_kind(kind),
    ensures
        command_result(CaptureState::Selecting(kind), record_button(kind)) == Ok::<
            CaptureState,
            CommandError,
        >(CaptureState::Idle),
        command_result(CaptureState::Countdown(kind, seconds), record_button(kind)) == Ok::<
            CaptureState,
            CommandError,
        >(CaptureState::Idle),
        command_result(CaptureState::Recording(kind), record_button(kind)) == Ok::<
            CaptureState,
            CommandError,
        >(CaptureState::Finalizing(kind)),
        command_result(CaptureState::Paused(kind), record_button(kind)) == Ok::<
            CaptureState,
            CommandError,
        >(CaptureState::Finalizing(kind)),
{
}

/// The other recording button never takes over a capture in flight: it is
/// refused as busy from the selection, the countdown and the recording.
pub proof fn lemma_other_button_is_busy(kind: CaptureKind, other: CaptureKind, seconds: u8)
    requires
        is_recording_kind(kind),
        is_recording_kind(other),
        kind != other,
    ensures
        command_result(CaptureState::Selecting(kind), record_button(other)) == Err::<
            CaptureState,
            CommandError,
        >(CommandError::Busy),
        command_result(CaptureState::Countdown(kind, seconds), record_button(other)) == Err::<
            CaptureState,
            CommandError,
        >(CommandError::Busy),
        command_result(CaptureState::Recording(kind), record_button(other)) == Err::<
            CaptureState,
            CommandError,
        >(CommandError::Busy),
        command_result(CaptureState::Paused(kind), record_button(other)) == Err::<
            CaptureState,
            CommandError,
        >(CommandError::Busy),
{
}

/// While a recording is being finalised, every command that starts a
/// capture is refused as busy.
pub proof fn lemma_finalizing_refuses_captures(kind: CaptureKind, command: CaptureCommand)
    requires
        starts_capture(command),
    ensures
        command_result(CaptureState::Finalizing(kind), command) == Err::<
            CaptureState,
            CommandError,
        >(CommandError::Busy),
{
}

/// A failure does not block the next capture: from `Error` the next
/// command starts exactly as it would from `Idle`.
pub proof fn lemma_error_recovers_for_the_next_command(
    failure: CaptureFailure,
    command: CaptureCommand,
)
    ensures
        command_result(recovered(CaptureState::Error(failure)), command) == command_result(
            CaptureState::Idle,
            command,
        ),
        command_result(recovered(CaptureState::Error(failure)), CaptureCommand::CaptureRegion)
            == Ok::<CaptureState, CommandError>(
            CaptureState::Selecting(CaptureKind::RegionScreenshot),
        ),
{
}

/// A paused recording's clock stands still: with no stretch running, its
/// length reads the same at any two moments.
pub proof fn lemma_paused_clock_stands_still(controller: AppController, earlier: u64, later: u64)
    requires
        controller.since_of() is None,
    ensures
        controller.elapsed_at(earlier) == controller.elapsed_at(later),
{
}

/// Pausing and resuming are the pause button's two sides: from a running
/// recording it pauses, and from that pause it resumes the same recording.
pub proof fn lemma_pause_button_round_trip(kind: CaptureKind)
    ensures
        command_result(CaptureState::Recording(kind), CaptureCommand::TogglePause) == Ok::<
            CaptureState,
            CommandError,
        >(CaptureState::Paused(kind)),
        command_result(CaptureState::Paused(kind), CaptureCommand::TogglePause) == Ok::<
            CaptureState,
            CommandError,
        >(CaptureState::Recording(kind)),
{
}

/// The capture command for each kind of capture.
pub open spec fn capture_command(kind: CaptureKind) -> CaptureCommand {
    match kind {
        CaptureKind::RegionScreenshot => CaptureCommand::CaptureRegion,
        CaptureKind::ActiveWindowScreenshot => CaptureCommand::CaptureActiveWindow,
        CaptureKind::Video => CaptureCommand::ToggleVideo,
        CaptureKind::Gif => CaptureCommand::ToggleGif,
    }
}

/// From rest, each capture button starts picking a target for its own kind
/// of capture and no other: the region button a region screenshot, the
/// window button a window screenshot, the recording buttons their own
/// recordings. Two different buttons never start the same capture, and a
/// failure on display does not change where a button leads.
pub proof fn lemma_each_button_selects_its_own_kind(kind: CaptureKind, other: CaptureKind)
    ensures
        command_result(CaptureState::Idle, capture_command(kind)) == Ok::<
            CaptureState,
            CommandError,
        >(CaptureState::Selecting(kind)),
        kind != other ==> command_result(CaptureState::Idle, capture_command(kind))
            != command_result(CaptureState::Idle, capture_command(other)),
        forall|f: CaptureFailure|
            #![trigger recovered(CaptureState::Error(f))]
            command_result(recovered(CaptureState::Error(f)), capture_command(kind)) == Ok::<
                CaptureState,
                CommandError,
            >(CaptureState::Selecting(kind)),
{
}

} // verus!
