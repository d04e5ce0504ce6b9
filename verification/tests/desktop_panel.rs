//! The panel's words, the tray's face and the recording bar.

use rapidcap::geometry::{CaptureTarget, PhysicalRegion};
use rapidcap::hud::{
    hud_clock, hud_face, is_region_drag, overlay_hint, selected_target, HudDot, HudFade, HudFader, HUD_FADE_AFTER_MS,
};
use rapidcap::icons::Icon;
use rapidcap::panel::{
    clock, control_ids, folder_label, recording_label, region_label, saved_label, saved_summary,
    status_text, window_label, Shortcut, SAVED_LABEL_MAX,
};
use rapidcap::state::{CaptureFailure, CaptureKind, CaptureState, SavedOutput};
use rapidcap::tray::TrayState;
use rapidcap::panel::{
    countdown_slot_id, countdown_slot_label, file_size, panel_face, rate_badge, status_dot, CardFace, ChipFace,
    Footer, SavedChip, StatusTone,
};

#[test]
fn primary_controls_have_stable_ids() {
    let ids = control_ids();
    assert_eq!(
        ids,
        ["capture-region", "capture-window", "record-video", ids[3], ids[4], "toggle-audio"]
    );
}

#[test]
fn active_recording_button_becomes_stop() {
    assert_eq!(
        recording_label(&CaptureState::Recording(CaptureKind::Video), CaptureKind::Video),
        "Stop Video"
    );
    assert_eq!(recording_label(&CaptureState::Idle, CaptureKind::Gif), "GIF");
    assert_eq!(
        recording_label(&CaptureState::Countdown(CaptureKind::Gif, 3), CaptureKind::Gif),
        "Cancel GIF"
    );
    assert_eq!(
        recording_label(&CaptureState::Recording(CaptureKind::Video), CaptureKind::Gif),
        "GIF"
    );
}

#[test]
fn no_state_renders_a_rust_debug_string() {
    let region = PhysicalRegion { x: 0, y: 0, width: 1280, height: 720 };
    let states = [
        CaptureState::Idle,
        CaptureState::Selecting(CaptureKind::RegionScreenshot),
        CaptureState::Countdown(CaptureKind::Video, 3),
        CaptureState::Recording(CaptureKind::Video),
        CaptureState::Paused(CaptureKind::Gif),
        CaptureState::Finalizing(CaptureKind::Video),
        CaptureState::Error(CaptureFailure::new("Recording", "disk full")),
    ];
    for state in states {
        for target in [None, Some(CaptureTarget::Region(region))] {
            let text = status_text(&state, target.as_ref());
            assert!(!text.is_empty(), "{state:?} produced an empty status");
            for debris in ['(', ')', '{', '}', '"'] {
                assert!(!text.contains(debris), "{state:?} leaked debug syntax: {text}");
            }
        }
    }
}

#[test]
fn the_status_well_names_what_is_armed_and_running() {
    let region = CaptureTarget::Region(PhysicalRegion { x: 0, y: 0, width: 1280, height: 720 });
    assert_eq!(status_text(&CaptureState::Idle, Some(&region)), "Selected 1280 × 720");
    assert_eq!(status_text(&CaptureState::Idle, None), "Ready");
    assert_eq!(
        status_text(&CaptureState::Countdown(CaptureKind::Video, 3), None),
        "Video starts in 3"
    );
    assert_eq!(
        status_text(&CaptureState::Finalizing(CaptureKind::Gif), None),
        "Finalizing GIF…"
    );
    assert_eq!(
        status_text(&CaptureState::Error(CaptureFailure::new("Recording", "disk full")), None),
        "Recording failed — disk full"
    );
}

#[test]
fn armed_target_replaces_the_card_label() {
    let region = PhysicalRegion { x: 0, y: 0, width: 1280, height: 720 };
    assert_eq!(region_label(None), "Region");
    assert_eq!(region_label(Some(&CaptureTarget::Region(region))), "1280 × 720");
    assert_eq!(window_label(None), "Window");
    let window = CaptureTarget::Window { hwnd: 1, region, process_name: "Code".into() };
    assert_eq!(window_label(Some(&window)), "Code");
}

#[test]
fn folder_chip_shows_the_tail_of_the_path() {
    assert_eq!(folder_label("C:\\Users\\me\\Documents\\RapidCap"), "RapidCap");
    assert_eq!(folder_label("C:/Users/me/Captures/"), "Captures");
    assert_eq!(folder_label("RapidCap"), "RapidCap");
    assert_eq!(folder_label("//"), "//");
}

#[test]
fn a_chord_another_app_owns_says_so_in_words() {
    let ours = Shortcut { label: "Alt+E".to_string(), registered: true };
    let theirs = Shortcut { label: "Alt+E".to_string(), registered: false };
    assert_eq!(ours.text(), "Alt+E");
    assert_eq!(theirs.text(), "Alt+E · taken");
}

#[test]
fn saved_chip_shows_the_filename() {
    assert_eq!(saved_label("Documents/RapidCap/Screen_9EN.png"), "Screen_9EN.png");
    assert_eq!(saved_label("Screen_JI2.mp4"), "Screen_JI2.mp4");
    assert_eq!(saved_label("/"), "/");
}

#[test]
fn a_timestamped_name_is_trimmed_from_the_middle() {
    assert_eq!(saved_label("Screen_2026-08-27_14-32-05_a7Kq.png"), "Screen_…a7Kq.png");
    assert_eq!(
        saved_label("C:/Captures/2026-08/Microsoft.Photos_2026-08-27_14-32-05_a7Kq.png"),
        "Microso…a7Kq.png"
    );
    assert_eq!(
        saved_label("Screen_2026-08-27_14-32-05_a7Kq.png").chars().count(),
        SAVED_LABEL_MAX
    );
}

#[test]
fn a_recording_reports_its_length_and_size() {
    let output = SavedOutput {
        path: "C:/t/Screen_2026-08-27_14-32-05_Zq3M.mp4".into(),
        recorded: Some(42_000),
        copied: true,
    };
    assert_eq!(saved_summary(&output, Some("12.4 MB")), "00:42 · 12.4 MB");
}

#[test]
fn a_screenshot_reports_the_clipboard_instead() {
    let output = |copied| SavedOutput {
        path: "C:/nowhere/Screen_2026-08-27_14-32-05_a7Kq.png".into(),
        recorded: None,
        copied,
    };
    assert_eq!(saved_summary(&output(true), None), "Copied");
    assert_eq!(saved_summary(&output(false), None), "Saved");
    assert_eq!(saved_summary(&output(false), Some("1.00 KB")), "Saved · 1.00 KB");
}

#[test]
fn a_recording_whose_file_vanished_still_reports_its_length() {
    let output = SavedOutput {
        path: "C:/nowhere/gone.mp4".into(),
        recorded: Some(3_727_000),
        copied: false,
    };
    assert_eq!(saved_summary(&output, None), "1:02:07");
}

#[test]
fn the_clock_pads_to_a_stable_width() {
    assert_eq!(clock(0), "00:00");
    assert_eq!(clock(9_000), "00:09");
    assert_eq!(clock(9_999), "00:09");
    assert_eq!(clock(600_000), "10:00");
    assert_eq!(clock(3_599_000), "59:59");
    assert_eq!(clock(3_600_000), "1:00:00");
}

#[test]
fn tray_state_follows_capture_state() {
    assert_eq!(
        TrayState::from_capture(&CaptureState::Recording(CaptureKind::Video)),
        TrayState::Recording
    );
    assert_eq!(
        TrayState::from_capture(&CaptureState::Countdown(CaptureKind::Gif, 3)),
        TrayState::Recording,
        "a countdown is already committed — the icon should not read as idle"
    );
    assert_eq!(
        TrayState::from_capture(&CaptureState::Error(CaptureFailure::new("Screenshot", "boom"))),
        TrayState::Error
    );
    assert_eq!(TrayState::from_capture(&CaptureState::Idle), TrayState::Idle);
}

#[test]
fn tooltip_never_leaks_a_rust_type() {
    for state in [
        CaptureState::Idle,
        CaptureState::Selecting(CaptureKind::RegionScreenshot),
        CaptureState::Countdown(CaptureKind::Video, 3),
        CaptureState::Recording(CaptureKind::Gif),
        CaptureState::Paused(CaptureKind::Video),
        CaptureState::Finalizing(CaptureKind::Video),
        CaptureState::Error(CaptureFailure::new("Recording", "disk full")),
    ] {
        let text = TrayState::from_capture(&state).tooltip(&state);
        assert!(text.starts_with("RapidCap — "));
        for debris in ['(', ')', '{', '}'] {
            assert!(!text.contains(debris), "{state:?} leaked: {text}");
        }
    }
}

#[test]
fn the_tooltip_mirrors_the_status_well() {
    let state = CaptureState::Countdown(CaptureKind::Video, 3);
    assert_eq!(TrayState::from_capture(&state).tooltip(&state), "RapidCap — video starts in 3");
    let failed = CaptureState::Error(CaptureFailure::new("Recording", "disk full"));
    assert_eq!(TrayState::from_capture(&failed).tooltip(&failed), "RapidCap — Capture failed");
}

#[test]
fn click_selects_hovered_window_for_window_capture() {
    let hovered = CaptureTarget::Window {
        hwnd: 7,
        region: PhysicalRegion { x: 10, y: 20, width: 300, height: 200 },
        process_name: "Code".into(),
    };
    assert_eq!(
        selected_target(CaptureKind::ActiveWindowScreenshot, (50, 50), (50, 50), Some(&hovered)),
        Some(hovered)
    );
}

#[test]
fn recording_drag_selects_region_instead_of_hovered_window() {
    let hovered = CaptureTarget::Window {
        hwnd: 7,
        region: PhysicalRegion { x: 0, y: 0, width: 800, height: 600 },
        process_name: "Code".into(),
    };
    assert_eq!(
        selected_target(CaptureKind::Video, (20, 30), (220, 130), Some(&hovered)),
        Some(CaptureTarget::Region(PhysicalRegion { x: 20, y: 30, width: 200, height: 100 }))
    );
}

#[test]
fn a_press_with_no_travel_is_not_a_region_drag() {
    assert!(!is_region_drag(CaptureKind::Video, (400, 300), (400, 300)));
    assert!(!is_region_drag(CaptureKind::Video, (400, 300), (405, 304)));
    assert!(is_region_drag(CaptureKind::Video, (400, 300), (406, 300)));
    assert!(!is_region_drag(CaptureKind::ActiveWindowScreenshot, (400, 300), (900, 800)));
}

#[test]
fn the_dot_is_red_only_while_something_is_being_recorded() {
    let face = |state| hud_face(&state, "800 × 600", 0, 27).dot;
    assert_eq!(face(CaptureState::Recording(CaptureKind::Video)), HudDot::Recording);
    assert_ne!(face(CaptureState::Paused(CaptureKind::Video)), HudDot::Recording);
    assert_ne!(face(CaptureState::Countdown(CaptureKind::Video, 3)), HudDot::Recording);
    assert_ne!(face(CaptureState::Finalizing(CaptureKind::Video)), HudDot::Recording);
}

#[test]
fn the_countdown_names_the_target_and_the_recording_only_keeps_the_clock() {
    let counting = hud_face(&CaptureState::Countdown(CaptureKind::Video, 3), "800 × 600", 1, 0);
    assert_eq!(counting.status, "Video in 2 · 800 × 600");
    assert!(!counting.can_pause, "nothing to pause before it starts");

    let running = hud_face(&CaptureState::Recording(CaptureKind::Video), "800 × 600", 0, 87);
    assert_eq!(running.status, "01:27");
    assert!(running.can_pause);
}

#[test]
fn the_pause_button_offers_the_action_the_state_is_missing() {
    let running = hud_face(&CaptureState::Recording(CaptureKind::Gif), "app", 0, 0);
    assert_eq!(running.pause_label, "Pause");
    assert_eq!(running.pause_icon, Icon::Pause);

    let paused = hud_face(&CaptureState::Paused(CaptureKind::Gif), "app", 0, 0);
    assert_eq!(paused.pause_label, "Resume");
    assert_eq!(paused.pause_icon, Icon::Play);
    assert!(paused.can_pause, "a paused recording must be resumable");
}

#[test]
fn a_late_countdown_never_reads_negative() {
    let face = hud_face(&CaptureState::Countdown(CaptureKind::Gif, 3), "app", 9, 0);
    assert_eq!(face.status, "GIF in 0 · app");
    assert_eq!(hud_face(&CaptureState::Idle, "app", 0, 0).status, "Closing…");
    assert_eq!(hud_clock(3600), "60:00");
}

#[test]
fn the_status_dot_follows_the_state() {
    assert_eq!(status_dot(&CaptureState::Countdown(CaptureKind::Video, 3), false), StatusTone::Recording);
    assert_eq!(status_dot(&CaptureState::Paused(CaptureKind::Video), false), StatusTone::Pill);
    assert_eq!(status_dot(&CaptureState::Idle, true), StatusTone::Accent);
    assert_eq!(status_dot(&CaptureState::Idle, false), StatusTone::Muted);
    assert_eq!(
        status_dot(&CaptureState::Error(CaptureFailure::new("Screenshot", "boom")), false),
        StatusTone::Warning
    );
}

#[test]
fn the_tray_repaints_only_when_its_face_changes() {
    let mut painter = rapidcap::tray::TrayPainter::new();
    let recording = CaptureState::Recording(CaptureKind::Video);
    let first = painter.update(&recording);
    assert_eq!(first.repaint, Some(TrayState::Recording));
    assert_eq!(first.tooltip, "RapidCap — Recording video");
    painter.painted(TrayState::Recording);
    let countdown = CaptureState::Countdown(CaptureKind::Gif, 2);
    let second = painter.update(&countdown);
    assert_eq!(second.repaint, None, "a countdown wears the recording face already");
    assert_eq!(second.tooltip, "RapidCap — GIF starts in 2");
    assert_eq!(painter.update(&CaptureState::Idle).repaint, Some(TrayState::Idle));
}

#[test]
fn countdown_choices_have_ids_and_spoken_labels() {
    assert_eq!(countdown_slot_id(0), "countdown-off");
    assert_eq!(countdown_slot_id(3), "countdown-3");
    assert_eq!(countdown_slot_id(5), "countdown-5");
    assert_eq!(countdown_slot_label(0), "No countdown");
    assert_eq!(countdown_slot_label(3), "3 second countdown");
    assert_eq!(countdown_slot_label(5), "5 second countdown");
}

#[test]
fn the_rate_badge_states_both_rates_video_first() {
    assert_eq!(rate_badge(30, 15), "30 / 15 FPS");
}

fn screenshot_output(path: &str) -> SavedOutput {
    SavedOutput {
        path: path.to_string(),
        recorded: None,
        copied: true,
    }
}

#[test]
fn the_saved_chip_comes_down_only_on_its_own_timer() {
    let mut chip = SavedChip::new();
    chip.show(&screenshot_output("C:/caps/one.png"), Some("1.2 MB"));
    chip.show(&screenshot_output("C:/caps/two.png"), Some("1.3 MB"));
    // The first capture's timer runs out while the second chip is up.
    assert!(!chip.expire("C:/caps/one.png"));
    assert_eq!(chip.take(), Some("C:/caps/two.png".to_string()));
    assert_eq!(chip.take(), None);
}

#[test]
fn the_saved_chip_expires_on_its_timer() {
    let mut chip = SavedChip::new();
    chip.show(&screenshot_output("C:/caps/one.png"), None);
    assert!(chip.expire("C:/caps/one.png"));
    assert!(!chip.expire("C:/caps/one.png"));
    assert_eq!(chip.take(), None);
}

#[test]
fn an_idle_panel_reads_ready_with_the_folder_chip() {
    let chip = SavedChip::new();
    let face = panel_face(&CaptureState::Idle, None, true, "C:/Users/me/Captures", None, &chip);
    assert_eq!(face.status, status_text(&CaptureState::Idle, None));
    assert_eq!(face.dot, status_dot(&CaptureState::Idle, false));
    assert_eq!(
        face.region,
        CardFace {
            icon: Icon::Region,
            label: "Region".to_string(),
            selected: false,
            recording: false,
        }
    );
    assert_eq!(face.video.icon, Icon::Video);
    assert_eq!(face.video.label, "Video");
    assert_eq!(face.gif.icon, Icon::Gif);
    assert_eq!(
        face.footer,
        Footer::Chips {
            audio: ChipFace {
                icon: Icon::AudioOn,
                label: "System audio".to_string(),
                tooltip: "System audio is on — click to mute recordings".to_string(),
                pressed: Some(true),
            },
            output: ChipFace {
                icon: Icon::Folder,
                label: folder_label("C:/Users/me/Captures"),
                tooltip: "Open output folder C:/Users/me/Captures".to_string(),
                pressed: None,
            },
        }
    );
}

#[test]
fn a_running_recording_turns_its_card_into_a_stop_button() {
    let chip = SavedChip::new();
    let state = CaptureState::Recording(CaptureKind::Gif);
    let face = panel_face(&state, None, false, "C:/caps", None, &chip);
    assert_eq!(face.gif.icon, Icon::Stop);
    assert_eq!(face.gif.label, "Stop GIF");
    assert!(face.gif.recording);
    assert_eq!(face.video.icon, Icon::Video);
    assert!(!face.video.recording);
    match face.footer {
        Footer::Chips { audio, .. } => {
            assert_eq!(audio.icon, Icon::AudioOff);
            assert_eq!(audio.label, "No audio");
            assert_eq!(audio.pressed, Some(false));
        }
        Footer::Failure(_) => panic!("no failure was given"),
    }
}

#[test]
fn the_saved_chip_owns_the_status_well_and_the_output_chip() {
    let mut chip = SavedChip::new();
    chip.show(&screenshot_output("C:/caps/2026-08/Code_a7Kq9x2mB1.png"), Some("1.2 MB"));
    let face = panel_face(&CaptureState::Idle, None, true, "C:/caps", None, &chip);
    assert_eq!(face.status, "Copied");
    match face.footer {
        Footer::Chips { output, .. } => {
            assert_eq!(output.icon, Icon::Saved);
            assert_eq!(output.label, saved_label("C:/caps/2026-08/Code_a7Kq9x2mB1.png"));
            assert_eq!(output.tooltip, "Saved — open C:/caps/2026-08/Code_a7Kq9x2mB1.png");
        }
        Footer::Failure(_) => panic!("no failure was given"),
    }
}

#[test]
fn a_failure_takes_the_whole_footer() {
    let chip = SavedChip::new();
    let failure = CaptureFailure {
        summary: "Recording failed — ffmpeg not found".to_string(),
        detail: "ffmpeg not found".to_string(),
    };
    let target = CaptureTarget::Region(PhysicalRegion {
        x: 0,
        y: 0,
        width: 800,
        height: 600,
    });
    let face = panel_face(&CaptureState::Idle, Some(&target), true, "C:/caps", Some(&failure), &chip);
    assert_eq!(face.footer, Footer::Failure(failure));
    assert!(face.region.selected);
    assert_eq!(face.region.label, region_label(Some(&target)));
    assert!(!face.window.selected);
}

#[test]
fn the_recording_bar_dims_when_left_alone_and_comes_back() {
    let mut fader = HudFader::new();
    let recording = CaptureState::Recording(CaptureKind::Video);
    let first = fader.frame(&recording, 0);
    assert_eq!(first.fade, HudFade::Steady);
    assert!(first.pulsing);
    assert_eq!(fader.frame(&recording, HUD_FADE_AFTER_MS).fade, HudFade::Dimming);
    assert_eq!(fader.frame(&recording, 10).fade, HudFade::Returning);
    let paused = CaptureState::Paused(CaptureKind::Video);
    let still = fader.frame(&paused, HUD_FADE_AFTER_MS + 1);
    assert_eq!(still.fade, HudFade::Dimming);
    assert!(!still.pulsing);
}

#[test]
fn a_countdown_never_dims() {
    let mut fader = HudFader::new();
    let countdown = CaptureState::Countdown(CaptureKind::Gif, 5);
    let motion = fader.frame(&countdown, 60_000);
    assert_eq!(motion.fade, HudFade::Steady);
    assert!(!motion.pulsing);
}

#[test]
fn the_overlay_hint_offers_a_drag_only_where_one_is_read() {
    assert_eq!(overlay_hint(CaptureKind::ActiveWindowScreenshot), "Click window · Esc cancel");
    assert_eq!(
        overlay_hint(CaptureKind::RegionScreenshot),
        "Click window or drag region · Esc cancel"
    );
    assert_eq!(overlay_hint(CaptureKind::Video), "Click window or drag region · Esc cancel");
}

#[test]
fn file_sizes_read_the_way_explorer_writes_them() {
    assert_eq!(file_size(0), "0 B");
    assert_eq!(file_size(1023), "1023 B");
    assert_eq!(file_size(1024), "1.00 KB");
    assert_eq!(file_size(13_002_342), "12.4 MB");
    // Three digits throughout, so the decimals give way rather than the
    // number growing wider.
    assert_eq!(file_size(104_857_600), "100 MB");
    assert_eq!(file_size(3_221_225_472), "3.00 GB");
}

/// The size as a double, formatted: what the status well is meant to match.
fn size_through_a_double(bytes: u64) -> String {
    const UNITS: [&str; 4] = ["KB", "MB", "GB", "TB"];
    if bytes < 1024 {
        return format!("{bytes} B");
    }
    let mut size = bytes as f64 / 1024.0;
    let mut unit = 0;
    while size >= 1024.0 && unit + 1 < UNITS.len() {
        size /= 1024.0;
        unit += 1;
    }
    let decimals = if size < 10.0 {
        2
    } else if size < 100.0 {
        1
    } else {
        0
    };
    format!("{size:.decimals$} {}", UNITS[unit])
}

#[test]
fn file_sizes_agree_with_the_double_they_stand_for() {
    for bytes in 0..200_000u64 {
        assert_eq!(file_size(bytes), size_through_a_double(bytes), "{bytes}");
    }
    // Exact ties between two hundredths: 1.125 KB, 1.135 KB and friends.
    for bytes in [1152u64, 1162, 1546, 10_291, 1_179_648, 9_437_184] {
        assert_eq!(file_size(bytes), size_through_a_double(bytes), "{bytes}");
    }
    for shift in 0..64 {
        let base = 1u64 << shift;
        for bytes in [base - 1, base, base + 1, base.wrapping_mul(3) / 2, u64::MAX - base] {
            assert_eq!(file_size(bytes), size_through_a_double(bytes), "{bytes}");
        }
    }
    let mut seed: u64 = 0x9E37_79B9_7F4A_7C15;
    for _ in 0..200_000 {
        seed = seed.wrapping_mul(6_364_136_223_846_793_005).wrapping_add(1_442_695_040_888_963_407);
        let bytes = seed >> (seed % 64);
        assert_eq!(file_size(bytes), size_through_a_double(bytes), "{bytes}");
    }
    assert_eq!(file_size(u64::MAX), size_through_a_double(u64::MAX));
}
