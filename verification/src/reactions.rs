//! What the app does around the controller: after a command has been
//! carried out, and once a target has been picked. The controller decides
//! the state; these decide which windows and workers follow it.

use vstd::prelude::*;

use crate::state::{CaptureCommand, CaptureKind, CaptureState};

verus! {

/// The app's response to a command the controller accepted.
#[derive(Clone, Copy, Debug, PartialEq, Eq, Structural)]
pub enum CommandReaction {
    /// A selection began: minimise the panel and open the region overlay.
    OpenRegionOverlay,
    /// The recording button stopped a recording: tell the recorder to stop.
    StopRecorder,
    /// The recording was paused: end the running segment.
    PauseRecorder,
    /// The recording was resumed: start the next segment.
    ResumeRecorder,
    /// The capture is over or was backed out of: stop any recorder, take
    /// down the recording frame and bar, and bring the panel back.
    EndCapture,
    /// Nothing beyond the state change.
    Nothing,
}

pub open spec fn is_capture_command(command: CaptureCommand) -> bool {
    ||| command == CaptureCommand::CaptureRegion
    ||| command == CaptureCommand::CaptureActiveWindow
    ||| command == CaptureCommand::ToggleVideo
    ||| command == CaptureCommand::ToggleGif
}

pub open spec fn is_record_command(command: CaptureCommand) -> bool {
    command == CaptureCommand::ToggleVideo || command == CaptureCommand::ToggleGif
}

/// The response to `command`, given the state it left the controller in.
pub open spec fn command_reaction_of(command: CaptureCommand, state: CaptureState) -> CommandReaction {
    if is_capture_command(command) && state is Selecting {
        CommandReaction::OpenRegionOverlay
    } else if is_record_command(command) && state is Finalizing {
        CommandReaction::StopRecorder
    } else if command == CaptureCommand::TogglePause {
        if state is Paused {
            CommandReaction::PauseRecorder
        } else {
            CommandReaction::ResumeRecorder
        }
    } else if is_record_command(command) && state is Idle {
        CommandReaction::EndCapture
    } else if command == CaptureCommand::Cancel {
        CommandReaction::EndCapture
    } else {
        CommandReaction::Nothing
    }
}

/// The response to a command the controller just carried out.
pub fn command_reaction(command: CaptureCommand, state: &CaptureState) -> (res: CommandReaction)
    ensures
        res == command_reaction_of(command, *state),
{
    let capture = match command {
        CaptureCommand::CaptureRegion | CaptureCommand::CaptureActiveWindow
        | CaptureCommand::ToggleVideo | CaptureCommand::ToggleGif => true,
        _ => false,
    };
    let record = match command {
        CaptureCommand::ToggleVideo | CaptureCommand::ToggleGif => true,
        _ => false,
    };
    let (selecting, finalizing, paused, idle) = match state {
        CaptureState::Selecting(_) => (true, false, false, false),
        CaptureState::Finalizing(_) => (false, true, false, false),
        CaptureState::Paused(_) => (false, false, true, false),
        CaptureState::Idle => (false, false, false, true),
        _ => (false, false, false, false),
    };
    if capture && selecting {
        CommandReaction::OpenRegionOverlay
    } else if record && finalizing {
        CommandReaction::StopRecorder
    } else if command == CaptureCommand::TogglePause {
        if paused {
            CommandReaction::PauseRecorder
        } else {
            CommandReaction::ResumeRecorder
        }
    } else if record && idle {
        CommandReaction::EndCapture
    } else if command == CaptureCommand::Cancel {
        CommandReaction::EndCapture
    } else {
        CommandReaction::Nothing
    }
}

/// The app's response to a picked target.
#[derive(Clone, Copy, Debug, PartialEq, Eq, Structural)]
pub enum TargetReaction {
    /// Take the screenshot now.
    TakeScreenshot,
    /// Show the frame and the bar, wait out `seconds`, then record `kind`.
    RecordAfterCountdown(CaptureKind, u8),
    /// The pick does not start anything.
    Nothing,
}

pub open spec fn target_reaction_of(state: CaptureState) -> TargetReaction {
    match state {
        CaptureState::Selecting(kind) => if kind == CaptureKind::RegionScreenshot || kind
            == CaptureKind::ActiveWindowScreenshot {
            TargetReaction::TakeScreenshot
        } else {
            TargetReaction::Nothing
        },
        CaptureState::Countdown(kind, seconds) => if kind == CaptureKind::Video || kind
            == CaptureKind::Gif {
            TargetReaction::RecordAfterCountdown(kind, seconds)
        } else {
            TargetReaction::Nothing
        },
        _ => TargetReaction::Nothing,
    }
}

/// The response to a target picked while the controller is in `state`.
pub fn target_reaction(state: &CaptureState) -> (res: TargetReaction)
    ensures
        res == target_reaction_of(*state),
{
    match state {
        CaptureState::Selecting(kind) => {
            if *kind == CaptureKind::RegionScreenshot || *kind == CaptureKind::ActiveWindowScreenshot {
                TargetReaction::TakeScreenshot
            } else {
                TargetReaction::Nothing
            }
        },
        CaptureState::Countdown(kind, seconds) => {
            if *kind == CaptureKind::Video || *kind == CaptureKind::Gif {
                TargetReaction::RecordAfterCountdown(*kind, *seconds)
            } else {
                TargetReaction::Nothing
            }
        },
        _ => TargetReaction::Nothing,
    }
}

/// Whether the tray's Exit may quit now: not while a capture is in flight,
/// but from an error it may.
pub fn exit_allowed(state: &CaptureState) -> (res: bool)
    ensures
        res == !crate::state::holds_capture(*state),
{
    !state.blocks_exit()
}

/// Cancel always ends the capture's windows, whatever state it left.
pub proof fn lemma_cancel_always_ends_the_capture(state: CaptureState)
    ensures
        command_reaction_of(CaptureCommand::Cancel, state) == CommandReaction::EndCapture,
{
}

/// A screenshot never waits for a countdown and a recording never skips
/// one: the picked target's reaction follows the kind.
pub proof fn lemma_screenshots_are_immediate(kind: CaptureKind, seconds: u8)
    ensures
        (kind == CaptureKind::RegionScreenshot || kind == CaptureKind::ActiveWindowScreenshot)
            ==> target_reaction_of(CaptureState::Selecting(kind)) == TargetReaction::TakeScreenshot,
        (kind == CaptureKind::Video || kind == CaptureKind::Gif) ==> target_reaction_of(
            CaptureState::Countdown(kind, seconds),
        ) == TargetReaction::RecordAfterCountdown(kind, seconds),
{
}

} // verus!
