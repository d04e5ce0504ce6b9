//! The controller's flow, driven the way the panel drives it.

use rapidcap::controller::{AppController, CommandError};
use rapidcap::geometry::{CaptureTarget, PhysicalRegion};
use rapidcap::panel::{card_shortcut, SavedChip};
use rapidcap::platform::Desktop;
use rapidcap::recording::RecordingError;
use rapidcap::screenshot::{SavedCapture, ScreenshotError};
use rapidcap::settings::{AppPaths, Settings};
use rapidcap::state::{CaptureCommand, CaptureEvent, CaptureFailure, CaptureKind, CaptureState, SavedOutput};

fn controller() -> AppController {
    AppController::new(
        Settings::default(),
        AppPaths::from_roots("C:/Documents", "C:/Roaming", "C:/Local"),
    )
}

fn region() -> CaptureTarget {
    CaptureTarget::Region(PhysicalRegion { x: 0, y: 0, width: 640, height: 480 })
}

fn failed_recording(controller: &mut AppController, detail: &str) {
    controller.finish_recording(Err(RecordingError(detail.to_string())), false, 0);
}

#[test]
fn capture_region_enters_selection() {
    let mut controller = controller();
    controller.dispatch(CaptureCommand::CaptureRegion, 0).unwrap();
    assert_eq!(
        controller.state(),
        &CaptureState::Selecting(CaptureKind::RegionScreenshot)
    );
}

#[test]
fn capture_is_rejected_while_finalizing() {
    let mut controller = controller();
    controller.dispatch(CaptureCommand::ToggleGif, 0).unwrap();
    controller.set_target(region());
    controller.begin_recording(CaptureKind::Gif, 0);
    controller.dispatch(CaptureCommand::ToggleGif, 10).unwrap();
    assert_eq!(controller.state(), &CaptureState::Finalizing(CaptureKind::Gif));
    assert_eq!(
        controller.dispatch(CaptureCommand::ToggleVideo, 20),
        Err(CommandError::Busy)
    );
}

#[test]
fn selected_target_is_retained() {
    let mut controller = controller();
    let target = CaptureTarget::Region(PhysicalRegion { x: -10, y: 20, width: 300, height: 200 });
    controller.set_target(target.clone());
    assert_eq!(controller.target(), Some(&target));
}

#[test]
fn video_selection_enters_configured_countdown() {
    let mut controller = controller();
    controller.dispatch(CaptureCommand::ToggleVideo, 0).unwrap();
    controller.set_target(region());
    assert_eq!(controller.state(), &CaptureState::Countdown(CaptureKind::Video, 5));
}

#[test]
fn matching_recording_button_cancels_countdown() {
    let mut controller = controller();
    controller.dispatch(CaptureCommand::ToggleVideo, 0).unwrap();
    controller.set_target(region());
    controller.dispatch(CaptureCommand::ToggleVideo, 0).unwrap();
    assert_eq!(controller.state(), &CaptureState::Idle);
}

#[test]
fn error_message_survives_the_next_command() {
    let mut controller = controller();
    failed_recording(&mut controller, "disk full");
    assert_eq!(
        controller.error().map(|failure| failure.summary.clone()),
        Some("Recording failed — disk full".to_string())
    );
    controller.dispatch(CaptureCommand::CaptureRegion, 0).unwrap();
    assert!(controller.error().is_some(), "starting a new capture must not drop an unread failure");
    assert!(controller.dismiss_error());
    assert!(controller.error().is_none());
    assert!(!controller.dismiss_error());
}

#[test]
fn a_successful_capture_clears_the_previous_error() {
    let mut controller = controller();
    failed_recording(&mut controller, "disk full");
    let event = controller.finish_recording(Ok("C:/out.mp4".to_string()), true, 0);
    assert!(controller.error().is_none(), "a capture that worked answers the question the error asked");
    assert_eq!(
        event,
        Some(CaptureEvent::OutputSaved(SavedOutput {
            path: "C:/out.mp4".to_string(),
            recorded: Some(0),
            copied: true,
        }))
    );
}

#[test]
fn retry_offers_the_capture_that_failed_and_never_cancel() {
    let mut controller = controller();
    failed_recording(&mut controller, "disk full");
    assert_eq!(controller.retry_command(), None, "nothing has been asked for yet");

    controller.dispatch(CaptureCommand::ToggleGif, 0).unwrap();
    controller.dispatch(CaptureCommand::Cancel, 0).unwrap();
    failed_recording(&mut controller, "disk full");
    assert_eq!(controller.retry_command(), Some(CaptureCommand::ToggleGif));

    controller.dismiss_error();
    assert_eq!(controller.retry_command(), None, "the button goes with the bar it sits on");
}

#[test]
fn retry_runs_the_command_and_clears_the_bar() {
    let mut controller = controller();
    controller.dispatch(CaptureCommand::CaptureRegion, 0).unwrap();
    let outcome = controller.finish_screenshot(Err(ScreenshotError("no display".into())), false);
    assert_eq!(outcome, None);
    assert_eq!(
        controller.error().map(|f| f.summary.as_str()),
        Some("Screenshot failed — no display")
    );
    assert_eq!(
        controller.retry(5),
        Some((CaptureCommand::CaptureRegion, Ok(())))
    );
    assert!(controller.error().is_none());
    assert_eq!(controller.state(), &CaptureState::Selecting(CaptureKind::RegionScreenshot));
    assert_eq!(controller.retry(6), None);
}

#[test]
fn the_same_recording_button_backs_out_of_its_own_selection() {
    let mut controller = controller();
    controller.dispatch(CaptureCommand::ToggleVideo, 0).unwrap();
    assert_eq!(controller.state(), &CaptureState::Selecting(CaptureKind::Video));
    controller.dispatch(CaptureCommand::ToggleVideo, 0).unwrap();
    assert_eq!(controller.state(), &CaptureState::Idle);
}

#[test]
fn the_other_recording_button_still_refuses_a_live_selection() {
    let mut controller = controller();
    controller.dispatch(CaptureCommand::ToggleVideo, 0).unwrap();
    assert_eq!(controller.dispatch(CaptureCommand::ToggleGif, 0), Err(CommandError::Busy));
    assert_eq!(controller.state(), &CaptureState::Selecting(CaptureKind::Video));
}

#[test]
fn backing_out_of_a_selection_drops_the_target() {
    let mut controller = controller();
    controller.dispatch(CaptureCommand::ToggleVideo, 0).unwrap();
    controller.set_target(region());
    controller.dispatch(CaptureCommand::ToggleVideo, 0).unwrap();
    assert!(controller.target().is_none(), "a cancelled selection must not leave its region behind");
}

#[test]
fn next_command_recovers_from_previous_error() {
    let mut controller = controller();
    failed_recording(&mut controller, "previous failure");
    assert!(matches!(controller.state(), CaptureState::Error(_)));
    controller.dispatch(CaptureCommand::CaptureRegion, 0).unwrap();
    assert_eq!(
        controller.state(),
        &CaptureState::Selecting(CaptureKind::RegionScreenshot)
    );
}

#[test]
fn a_paused_stretch_is_left_out_of_the_length() {
    let mut controller = controller();
    controller.dispatch(CaptureCommand::ToggleVideo, 0).unwrap();
    controller.set_target(region());
    assert_eq!(
        controller.begin_recording(CaptureKind::Video, 1_000),
        Some(CaptureEvent::StateChanged(CaptureState::Recording(CaptureKind::Video)))
    );
    assert_eq!(controller.recording_elapsed(3_000), 2_000);
    controller.dispatch(CaptureCommand::TogglePause, 3_000).unwrap();
    assert_eq!(controller.recording_elapsed(9_000), 2_000, "the clock stands still while paused");
    controller.dispatch(CaptureCommand::TogglePause, 9_000).unwrap();
    assert_eq!(controller.recording_elapsed(10_500), 3_500);
    controller.dispatch(CaptureCommand::ToggleVideo, 10_500).unwrap();
    let event = controller.finish_recording(Ok("C:/v.mp4".into()), false, 11_000);
    assert_eq!(
        event,
        Some(CaptureEvent::OutputSaved(SavedOutput {
            path: "C:/v.mp4".into(),
            recorded: Some(4_000),
            copied: false,
        }))
    );
    assert_eq!(controller.state(), &CaptureState::Idle);
    assert!(controller.target().is_none());
    assert_eq!(controller.recording_elapsed(20_000), 0);
}

#[test]
fn a_countdown_for_the_other_kind_does_not_start_a_recording() {
    let mut controller = controller();
    controller.dispatch(CaptureCommand::ToggleGif, 0).unwrap();
    controller.set_target(region());
    assert_eq!(controller.begin_recording(CaptureKind::Video, 0), None);
    assert_eq!(controller.state(), &CaptureState::Countdown(CaptureKind::Gif, 5));
}

#[test]
fn a_screenshot_reports_no_length() {
    let mut controller = controller();
    controller.dispatch(CaptureCommand::CaptureActiveWindow, 0).unwrap();
    let saved = SavedCapture { path: "C:/s.png".into(), rgba: vec![0; 4], width: 1, height: 1 };
    assert_eq!(
        controller.finish_screenshot(Ok(saved), true),
        Some(CaptureEvent::OutputSaved(SavedOutput {
            path: "C:/s.png".into(),
            recorded: None,
            copied: true,
        }))
    );
    assert_eq!(controller.state(), &CaptureState::Idle);
}

#[test]
fn pause_with_nothing_running_is_busy_and_cancel_with_nothing_to_cancel_is_invalid() {
    let mut controller = controller();
    assert_eq!(controller.dispatch(CaptureCommand::TogglePause, 0), Err(CommandError::Busy));
    assert_eq!(controller.dispatch(CaptureCommand::Cancel, 0), Err(CommandError::InvalidState));
}

#[test]
fn settings_changes_say_whether_they_need_saving() {
    let mut controller = controller();
    assert_eq!(AppController::countdown_choices(), [0, 3, 5]);
    assert!(!controller.set_countdown(5));
    assert!(controller.set_countdown(3));
    assert_eq!(controller.settings().countdown_seconds, 3);
    controller.toggle_audio();
    assert!(!controller.settings().audio.enabled);
    assert_eq!(controller.paths().settings_file, "C:/Roaming/RapidCap/settings.json");
}

#[test]
fn a_failure_in_the_state_is_the_one_on_display() {
    let mut controller = controller();
    failed_recording(&mut controller, "disk full");
    assert_eq!(
        controller.state(),
        &CaptureState::Error(CaptureFailure::new("Recording", "disk full"))
    );
}

#[test]
fn a_clash_marks_only_the_card_that_lost_its_chord() {
    // Before the runtime reports, every chord is assumed to be ours.
    assert!(card_shortcut(Desktop::Windows, CaptureCommand::CaptureRegion, &[]).registered);

    let unavailable = [CaptureCommand::CaptureRegion];
    let lost = card_shortcut(Desktop::Windows, CaptureCommand::CaptureRegion, &unavailable);
    let kept = card_shortcut(Desktop::Windows, CaptureCommand::ToggleVideo, &unavailable);
    assert!(!lost.registered);
    assert!(kept.registered);
    // The chord still prints - the user needs to know which key it is that
    // another app took.
    assert!(lost.text().starts_with(&lost.label));
    assert_ne!(lost.text(), lost.label);
    assert_eq!(kept.text(), kept.label);
}

#[test]
fn a_saved_capture_holds_the_chip_for_six_seconds() {
    let mut controller = controller();
    let mut chip = SavedChip::new();
    assert_eq!(chip.take(), None);

    controller.dispatch(CaptureCommand::CaptureRegion, 0).unwrap();
    controller.set_target(region());
    let path = "C:/Documents/RapidCap/Screen_9EN.png";
    let event = controller.finish_screenshot(
        Ok(SavedCapture { path: path.to_string(), rgba: Vec::new(), width: 1, height: 1 }),
        true,
    );
    let Some(CaptureEvent::OutputSaved(output)) = event else {
        panic!("a save left no chip behind");
    };
    chip.show(&output, None);
    // The chip's own timer runs out.
    assert!(chip.expire(&output.path), "the chip outlived its timer");
    assert_eq!(chip.take(), None);
}

#[test]
fn region_action_updates_controller() {
    // The panel's region action dispatches the region command.
    let mut controller = controller();
    controller.dispatch(CaptureCommand::CaptureRegion, 0).unwrap();
    assert_eq!(
        controller.state(),
        &CaptureState::Selecting(CaptureKind::RegionScreenshot)
    );
}
