//! What follows a command and a picked target.

use rapidcap::reactions::{command_reaction, exit_allowed, target_reaction, CommandReaction, TargetReaction};
use rapidcap::state::{CaptureCommand, CaptureFailure, CaptureKind, CaptureState};

#[test]
fn a_selection_opens_the_region_overlay() {
    assert_eq!(
        command_reaction(
            CaptureCommand::CaptureRegion,
            &CaptureState::Selecting(CaptureKind::RegionScreenshot)
        ),
        CommandReaction::OpenRegionOverlay
    );
    assert_eq!(
        command_reaction(CaptureCommand::ToggleGif, &CaptureState::Selecting(CaptureKind::Gif)),
        CommandReaction::OpenRegionOverlay
    );
}

#[test]
fn the_recording_button_stops_the_recorder_and_backing_out_ends_the_capture() {
    assert_eq!(
        command_reaction(CaptureCommand::ToggleVideo, &CaptureState::Finalizing(CaptureKind::Video)),
        CommandReaction::StopRecorder
    );
    assert_eq!(
        command_reaction(CaptureCommand::ToggleVideo, &CaptureState::Idle),
        CommandReaction::EndCapture
    );
    assert_eq!(
        command_reaction(CaptureCommand::Cancel, &CaptureState::Idle),
        CommandReaction::EndCapture
    );
    assert_eq!(
        command_reaction(CaptureCommand::CaptureRegion, &CaptureState::Idle),
        CommandReaction::Nothing
    );
}

#[test]
fn the_pause_button_follows_the_state_it_left() {
    assert_eq!(
        command_reaction(CaptureCommand::TogglePause, &CaptureState::Paused(CaptureKind::Video)),
        CommandReaction::PauseRecorder
    );
    assert_eq!(
        command_reaction(CaptureCommand::TogglePause, &CaptureState::Recording(CaptureKind::Video)),
        CommandReaction::ResumeRecorder
    );
}

#[test]
fn a_picked_target_starts_the_capture_it_was_picked_for() {
    assert_eq!(
        target_reaction(&CaptureState::Selecting(CaptureKind::ActiveWindowScreenshot)),
        TargetReaction::TakeScreenshot
    );
    assert_eq!(
        target_reaction(&CaptureState::Countdown(CaptureKind::Gif, 3)),
        TargetReaction::RecordAfterCountdown(CaptureKind::Gif, 3)
    );
    assert_eq!(target_reaction(&CaptureState::Idle), TargetReaction::Nothing);
}

#[test]
fn exit_waits_for_a_live_capture_but_not_for_an_error() {
    assert!(!exit_allowed(&CaptureState::Recording(CaptureKind::Video)));
    assert!(!exit_allowed(&CaptureState::Countdown(CaptureKind::Video, 3)));
    assert!(exit_allowed(&CaptureState::Error(CaptureFailure::new("Recording", "boom"))));
    assert!(exit_allowed(&CaptureState::Idle));
}
