//! The capture state machine: what the app is doing, and which transitions
//! each state allows.

use vstd::prelude::*;

use crate::text::{dec, push_dec};

verus! {

/// What a shortcut, a button or the tray asks for.
#[derive(Clone, Copy, Debug, PartialEq, Eq, Structural)]
pub enum CaptureCommand {
    CaptureRegion,
    CaptureActiveWindow,
    ToggleVideo,
    ToggleGif,
    TogglePause,
    Cancel,
}

/// The four things RapidCap can capture.
#[derive(Clone, Copy, Debug, PartialEq, Eq, Structural)]
pub enum CaptureKind {
    RegionScreenshot,
    ActiveWindowScreenshot,
    Video,
    Gif,
}

/// A failed capture: a one-line summary for the error bar and the raw detail
/// for its tooltip.
#[derive(Debug, PartialEq, Eq)]
pub struct CaptureFailure {
    pub summary: String,
    pub detail: String,
}

impl Clone for CaptureFailure {
    fn clone(&self) -> (res: Self)
        ensures
            res == *self,
    {
        CaptureFailure { summary: self.summary.clone(), detail: self.detail.clone() }
    }
}

/// The summary the error bar shows for `error` coming out of `operation`.
pub open spec fn failure_summary(operation: Seq<char>, error: Seq<char>) -> Seq<char> {
    operation + " failed — "@ + error
}

impl CaptureFailure {
    /// Names the operation that failed, so the summary says what broke; the
    /// detail keeps the error text as it came.
    pub fn new(operation: &str, error: &str) -> (res: Self)
        ensures
            res.summary@ == failure_summary(operation@, error@),
            res.detail@ == error@,
    {
        let mut summary = String::from_str(operation);
        summary.append(" failed — ");
        summary.append(error);
        CaptureFailure { summary, detail: String::from_str(error) }
    }
}

impl From<&str> for CaptureFailure {
    /// A failure that has nothing to add to its message: the message is both
    /// the summary and the detail.
    fn from(message: &str) -> (res: Self)
        ensures
            res.summary@ == message@,
            res.detail@ == message@,
    {
        CaptureFailure { summary: String::from_str(message), detail: String::from_str(message) }
    }
}

impl vstd::std_specs::convert::FromSpecImpl<&str> for CaptureFailure {
    open spec fn obeys_from_spec() -> bool {
        false
    }

    open spec fn from_spec(message: &str) -> Self {
        arbitrary()
    }
}

/// Where the capture flow stands.
#[derive(Debug, PartialEq, Eq)]
pub enum CaptureState {
    Idle,
    Selecting(CaptureKind),
    Countdown(CaptureKind, u8),
    Recording(CaptureKind),
    Paused(CaptureKind),
    Finalizing(CaptureKind),
    Error(CaptureFailure),
}

impl Clone for CaptureState {
    fn clone(&self) -> (res: Self)
        ensures
            res == *self,
    {
        match self {
            CaptureState::Idle => CaptureState::Idle,
            CaptureState::Selecting(kind) => CaptureState::Selecting(*kind),
            CaptureState::Countdown(kind, seconds) => CaptureState::Countdown(*kind, *seconds),
            CaptureState::Recording(kind) => CaptureState::Recording(*kind),
            CaptureState::Paused(kind) => CaptureState::Paused(*kind),
            CaptureState::Finalizing(kind) => CaptureState::Finalizing(*kind),
            CaptureState::Error(failure) => CaptureState::Error(failure.clone()),
        }
    }
}

/// A transition the state machine refused, carrying the state it refused from.
#[derive(Debug, PartialEq, Eq)]
pub enum StateError {
    Busy(CaptureState),
    InvalidTransition(CaptureState),
}

impl Clone for StateError {
    fn clone(&self) -> (res: Self)
        ensures
            res == *self,
    {
        match self {
            StateError::Busy(state) => StateError::Busy(state.clone()),
            StateError::InvalidTransition(state) => StateError::InvalidTransition(state.clone()),
        }
    }
}

/// The states that hold a capture in flight: an encoder with an open part
/// file, a file being finalised, or a countdown the user has committed to.
pub open spec fn holds_capture(state: CaptureState) -> bool {
    ||| state is Countdown
    ||| state is Recording
    ||| state is Paused
    ||| state is Finalizing
}

/// `start`: only an idle app begins a capture; every other state is busy.
pub open spec fn start_result(state: CaptureState, kind: CaptureKind) -> Result<
    CaptureState,
    StateError,
> {
    if state is Idle {
        Ok(CaptureState::Selecting(kind))
    } else {
        Err(StateError::Busy(state))
    }
}

/// `cancel`: a selection or a countdown backs out to idle; nothing else has a
/// cancel.
pub open spec fn cancel_result(state: CaptureState) -> Result<CaptureState, StateError> {
    if state is Selecting || state is Countdown {
        Ok(CaptureState::Idle)
    } else {
        Err(StateError::InvalidTransition(state))
    }
}

/// `stop`: a running or paused recording of the same kind moves to finalising.
pub open spec fn stop_result(state: CaptureState, kind: CaptureKind) -> Result<
    CaptureState,
    StateError,
> {
    if state == CaptureState::Recording(kind) || state == CaptureState::Paused(kind) {
        Ok(CaptureState::Finalizing(kind))
    } else {
        Err(StateError::InvalidTransition(state))
    }
}

/// `pause`: only a running recording of the same kind pauses.
pub open spec fn pause_result(state: CaptureState, kind: CaptureKind) -> Result<
    CaptureState,
    StateError,
> {
    if state == CaptureState::Recording(kind) {
        Ok(CaptureState::Paused(kind))
    } else {
        Err(StateError::InvalidTransition(state))
    }
}

/// `resume`: only a paused recording of the same kind resumes.
pub open spec fn resume_result(state: CaptureState, kind: CaptureKind) -> Result<
    CaptureState,
    StateError,
> {
    if state == CaptureState::Paused(kind) {
        Ok(CaptureState::Recording(kind))
    } else {
        Err(StateError::InvalidTransition(state))
    }
}

impl CaptureState {
    /// Begin a capture. Only an idle app can; anything else is busy.
    pub fn start(self, kind: CaptureKind) -> (res: Result<Self, StateError>)
        ensures
            res == start_result(self, kind),
    {
        match self {
            CaptureState::Idle => Ok(CaptureState::Selecting(kind)),
            state => Err(StateError::Busy(state)),
        }
    }

    /// Back out of a selection or a countdown, before any recorder runs.
    pub fn cancel(self) -> (res: Result<Self, StateError>)
        ensures
            res == cancel_result(self),
    {
        match self {
            CaptureState::Selecting(_) | CaptureState::Countdown(_, _) => Ok(CaptureState::Idle),
            state => Err(StateError::InvalidTransition(state)),
        }
    }

    /// Finish a recording of `kind`, running or paused.
    pub fn stop(self, kind: CaptureKind) -> (res: Result<Self, StateError>)
        ensures
            res == stop_result(self, kind),
    {
        match self {
            CaptureState::Recording(active) if active == kind => Ok(CaptureState::Finalizing(kind)),
            CaptureState::Paused(active) if active == kind => Ok(CaptureState::Finalizing(kind)),
            state => Err(StateError::InvalidTransition(state)),
        }
    }

    /// Pause a running recording of `kind`.
    pub fn pause(self, kind: CaptureKind) -> (res: Result<Self, StateError>)
        ensures
            res == pause_result(self, kind),
    {
        match self {
            CaptureState::Recording(active) if active == kind => Ok(CaptureState::Paused(kind)),
            state => Err(StateError::InvalidTransition(state)),
        }
    }

    /// Resume a paused recording of `kind`.
    pub fn resume(self, kind: CaptureKind) -> (res: Result<Self, StateError>)
        ensures
            res == resume_result(self, kind),
    {
        match self {
            CaptureState::Paused(active) if active == kind => Ok(CaptureState::Recording(kind)),
            state => Err(StateError::InvalidTransition(state)),
        }
    }

    /// Whether quitting right now would destroy a capture.
    ///
    /// `Selecting` only has an overlay on screen and `Error` has nothing at
    /// all, so both are safe to quit from.
    pub fn blocks_exit(&self) -> (res: bool)
        ensures
            res == holds_capture(*self),
    {
        match self {
            CaptureState::Countdown(_, _) | CaptureState::Recording(_) | CaptureState::Paused(_)
            | CaptureState::Finalizing(_) => true,
            _ => false,
        }
    }
}

/// How a kind reads in a diagnostic message.
pub open spec fn kind_debug(kind: CaptureKind) -> Seq<char> {
    match kind {
        CaptureKind::RegionScreenshot => "RegionScreenshot"@,
        CaptureKind::ActiveWindowScreenshot => "ActiveWindowScreenshot"@,
        CaptureKind::Video => "Video"@,
        CaptureKind::Gif => "Gif"@,
    }
}

/// How a state reads in a diagnostic message: the variant, then its fields.
pub open spec fn state_debug(state: CaptureState) -> Seq<char> {
    match state {
        CaptureState::Idle => "Idle"@,
        CaptureState::Selecting(kind) => "Selecting("@ + kind_debug(kind) + ")"@,
        CaptureState::Countdown(kind, seconds) => "Countdown("@ + kind_debug(kind) + ", "@ + dec(
            seconds as nat,
        ) + ")"@,
        CaptureState::Recording(kind) => "Recording("@ + kind_debug(kind) + ")"@,
        CaptureState::Paused(kind) => "Paused("@ + kind_debug(kind) + ")"@,
        CaptureState::Finalizing(kind) => "Finalizing("@ + kind_debug(kind) + ")"@,
        CaptureState::Error(failure) => "Error("@ + failure.summary@ + ")"@,
    }
}

/// The message for a refused transition.
pub open spec fn state_error_message(error: StateError) -> Seq<char> {
    match error {
        StateError::Busy(state) => "capture already active: "@ + state_debug(state),
        StateError::InvalidTransition(state) => "invalid capture transition from "@
            + state_debug(state),
    }
}

impl CaptureKind {
    /// The kind's name, as diagnostics print it.
    pub fn debug_name(self) -> (res: &'static str)
        ensures
            res@ == kind_debug(self),
    {
        match self {
            CaptureKind::RegionScreenshot => "RegionScreenshot",
            CaptureKind::ActiveWindowScreenshot => "ActiveWindowScreenshot",
            CaptureKind::Video => "Video",
            CaptureKind::Gif => "Gif",
        }
    }
}

impl CaptureState {
    /// The state as diagnostics print it, such as `Recording(Gif)`.
    pub fn debug_text(&self) -> (res: String)
        ensures
            res@ == state_debug(*self),
    {
        let mut out = String::new();
        match self {
            CaptureState::Idle => out.append("Idle"),
            CaptureState::Selecting(kind) => {
                out.append("Selecting(");
                out.append(kind.debug_name());
                out.append(")");
            },
            CaptureState::Countdown(kind, seconds) => {
                out.append("Countdown(");
                out.append(kind.debug_name());
                out.append(", ");
                push_dec(&mut out, *seconds as u64);
                out.append(")");
            },
            CaptureState::Recording(kind) => {
                out.append("Recording(");
                out.append(kind.debug_name());
                out.append(")");
            },
            CaptureState::Paused(kind) => {
                out.append("Paused(");
                out.append(kind.debug_name());
                out.append(")");
            },
            CaptureState::Finalizing(kind) => {
                out.append("Finalizing(");
                out.append(kind.debug_name());
                out.append(")");
            },
            CaptureState::Error(failure) => {
                out.append("Error(");
                out.append(failure.summary.as_str());
                out.append(")");
            },
        }
        out
    }
}

impl StateError {
    /// What went wrong, naming the state that refused.
    pub fn message(&self) -> (res: String)
        ensures
            res@ == state_error_message(*self),
    {
        match self {
            StateError::Busy(state) => {
                let mut out = String::from_str("capture already active: ");
                out.append(state.debug_text().as_str());
                out
            },
            StateError::InvalidTransition(state) => {
                let mut out = String::from_str("invalid capture transition from ");
                out.append(state.debug_text().as_str());
                out
            },
        }
    }
}

/// Pause and resume are mirror images: pausing a running recording and
/// resuming it gives back the running recording, and the other way round.
pub proof fn lemma_pause_resume_mirror(kind: CaptureKind)
    ensures
        pause_result(CaptureState::Recording(kind), kind) matches Ok(paused) && resume_result(
            paused,
            kind,
        ) == Ok::<CaptureState, StateError>(CaptureState::Recording(kind)),
        resume_result(CaptureState::Paused(kind), kind) matches Ok(running) && pause_result(
            running,
            kind,
        ) == Ok::<CaptureState, StateError>(CaptureState::Paused(kind)),
{
}

/// Only an idle app starts a capture: a second capture is refused as busy
/// from every other state.
pub proof fn lemma_only_idle_starts(state: CaptureState, kind: CaptureKind)
    ensures
        start_result(state, kind) is Ok <==> state is Idle,
        !(state is Idle) ==> start_result(state, kind) == Err::<CaptureState, StateError>(
            StateError::Busy(state),
        ),
{
}

/// A refused transition hands back the very state it refused from, and a
/// successful one never lands in `Error`: failures are recorded by the
/// controller, not by a transition.
pub proof fn lemma_transitions_report_and_never_fail_into_error(
    state: CaptureState,
    kind: CaptureKind,
)
    ensures
        start_result(state, kind) matches Err(e) ==> e == StateError::Busy(state),
        cancel_result(state) matches Err(e) ==> e == StateError::InvalidTransition(state),
        stop_result(state, kind) matches Err(e) ==> e == StateError::InvalidTransition(state),
        pause_result(state, kind) matches Err(e) ==> e == StateError::InvalidTransition(state),
        resume_result(state, kind) matches Err(e) ==> e == StateError::InvalidTransition(state),
        start_result(state, kind) matches Ok(next) ==> !(next is Error),
        cancel_result(state) matches Ok(next) ==> !(next is Error),
        stop_result(state, kind) matches Ok(next) ==> !(next is Error),
        pause_result(state, kind) matches Ok(next) ==> !(next is Error),
        resume_result(state, kind) matches Ok(next) ==> !(next is Error),
{
}

/// `Finalizing` and `Error` have no transition out: the controller resets
/// them when the capture task reports in or the next command arrives.
pub proof fn lemma_finalizing_and_error_have_no_transition(
    state: CaptureState,
    kind: CaptureKind,
    other: CaptureKind,
)
    requires
        state is Finalizing || state is Error,
    ensures
        start_result(state, other) is Err,
        cancel_result(state) is Err,
        stop_result(state, other) is Err,
        pause_result(state, other) is Err,
        resume_result(state, other) is Err,
{
}

/// Cancel never throws away a file an encoder is writing: once a recording
/// runs, the only way out is `stop`, which finalises it.
pub proof fn lemma_cancel_never_abandons_a_recording(state: CaptureState)
    requires
        state is Recording || state is Paused || state is Finalizing,
    ensures
        cancel_result(state) is Err,
{
}

/// A recording is stopped only by the button of its own kind.
pub proof fn lemma_stop_only_by_same_kind(kind: CaptureKind, other: CaptureKind)
    requires
        kind != other,
    ensures
        stop_result(CaptureState::Recording(kind), other) is Err,
        stop_result(CaptureState::Paused(kind), other) is Err,
        pause_result(CaptureState::Recording(kind), other) is Err,
        resume_result(CaptureState::Paused(kind), other) is Err,
{
}

/// Pause and resume are not idempotent: pausing a paused recording, or
/// resuming a running one, is refused.
pub proof fn lemma_pause_resume_not_idempotent(kind: CaptureKind)
    ensures
        pause_result(CaptureState::Paused(kind), kind) is Err,
        resume_result(CaptureState::Recording(kind), kind) is Err,
{
}

/// A capture that reached disk.
///
/// `recorded` is the elapsed time of a video or GIF in milliseconds and `None`
/// for a screenshot, which has no duration to report.
#[derive(Debug, PartialEq, Eq)]
pub struct SavedOutput {
    pub path: String,
    pub recorded: Option<u64>,
    /// Whether the capture also reached the clipboard. A failed clipboard
    /// write does not fail the capture, so it travels as a flag.
    pub copied: bool,
}

impl Clone for SavedOutput {
    fn clone(&self) -> (res: Self)
        ensures
            res == *self,
    {
        SavedOutput { path: self.path.clone(), recorded: self.recorded, copied: self.copied }
    }
}

/// What the controller tells the rest of the app.
#[derive(Debug, PartialEq, Eq)]
pub enum CaptureEvent {
    StateChanged(CaptureState),
    OutputSaved(SavedOutput),
    Failed(String),
}

} // verus!
