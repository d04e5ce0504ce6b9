//! Shortcuts, icons, menus and the window the pointer picks.

use rapidcap::icons::{all_icons, Icon, IconAssets};
use rapidcap::menu::{selected, step, Entry, Item};
use rapidcap::platform::{
    hotkey_specs, hotkey_specs_on, shortcut_label, shortcut_label_on, window_candidate_contains,
    Desktop, KeyCode, Modifiers, WindowRect,
};
use rapidcap::state::CaptureCommand;
use rapidcap::platform::{menu_event, PlatformEvent};
use rapidcap::geometry::PhysicalRegion;
use rapidcap::platform::{
    drag_grab, dragged_top_left, process_name_from_image, recording_frame, text_scale_percent,
    topmost_window_at, RecordingFrame, WindowCandidate,
};

fn pointer_selects_only_external_window_containing_point() {
    let rect = WindowRect { left: 100, top: 200, right: 500, bottom: 600 };
    assert!(window_candidate_contains(rect, (300, 400), 42, 7));
    assert!(!window_candidate_contains(rect, (99, 400), 42, 7));
    assert!(!window_candidate_contains(rect, (300, 400), 7, 7));
}

#[test]
fn platform_pointer_selects_only_external_window_containing_point() {
    pointer_selects_only_external_window_containing_point();
}

#[test]
fn windows_pointer_selects_only_external_window_containing_point() {
    pointer_selects_only_external_window_containing_point();
}

#[test]
fn platform_every_command_except_cancel_has_exactly_one_shortcut() {
    let specs = hotkey_specs();
    let mut commands: Vec<_> = specs.iter().map(|spec| spec.command).collect();
    commands.sort_by_key(|command| format!("{command:?}"));
    commands.dedup();
    assert_eq!(commands.len(), specs.len(), "two shortcuts fire the same command");
}

#[test]
fn platform_the_two_requested_shortcuts_are_bound() {
    let specs = hotkey_specs();
    let bound = |modifiers: Modifiers, code: KeyCode| {
        specs
            .iter()
            .find(|spec| spec.modifiers == modifiers && spec.code == code)
            .map(|spec| spec.command)
    };
    assert_eq!(
        bound(Modifiers::alt(), KeyCode::KeyQ),
        Some(CaptureCommand::ToggleVideo),
        "Alt+Q must record"
    );
    assert_eq!(
        bound(Modifiers::alt(), KeyCode::KeyE),
        Some(CaptureCommand::CaptureRegion),
        "Alt+E must capture"
    );
}

#[test]
fn shortcuts_read_the_way_windows_writes_them() {
    assert_eq!(shortcut_label(CaptureCommand::CaptureRegion).as_deref(), Some("Alt+E"));
    assert_eq!(
        shortcut_label(CaptureCommand::CaptureActiveWindow).as_deref(),
        Some("Ctrl+Shift+W")
    );
    assert_eq!(shortcut_label(CaptureCommand::ToggleGif).as_deref(), Some("Ctrl+Shift+G"));
    assert_eq!(shortcut_label(CaptureCommand::Cancel), None);
    let labels: Vec<String> = hotkey_specs().iter().map(|spec| spec.label()).collect();
    assert_eq!(labels, ["Alt+E", "Ctrl+Shift+W", "Alt+Q", "Ctrl+Shift+G", "Ctrl+Shift+P"]);
}

#[test]
fn every_icon_is_a_closed_svg_on_the_same_grid() {
    for icon in all_icons() {
        let svg = icon.to_svg();
        assert!(svg.starts_with("<svg"), "{icon:?} is not an svg");
        assert!(svg.ends_with("</svg>"), "{icon:?} is not closed");
        assert!(svg.contains(r#"viewBox="0 0 24 24""#), "{icon:?} is off the 24 grid");
        assert!(!icon.body().is_empty(), "{icon:?} has no geometry");
    }
}

#[test]
fn only_the_four_filled_icons_carry_a_fill() {
    for icon in all_icons() {
        let filled = icon.body().contains("fill=\"black\"");
        let expected = matches!(
            icon,
            Icon::Pause | Icon::Play | Icon::Stop | Icon::Dot | Icon::Warning
        );
        assert_eq!(filled, expected, "{icon:?} fill does not match the icon family");
    }
}

#[test]
fn every_icon_resolves_through_the_asset_source() {
    let assets = IconAssets;
    for icon in all_icons() {
        let loaded = assets
            .load(icon.source_path())
            .unwrap_or_else(|| panic!("{icon:?} did not resolve at {}", icon.source_path()));
        assert_eq!(loaded, icon.to_svg());
    }
    assert_eq!(assets.list("icons").len(), all_icons().len());
    assert_eq!(assets.list("icons/").len(), all_icons().len());
    assert!(assets.list("fonts").is_empty());
    assert!(assets.load("icons/nope.svg").is_none());
    assert!(assets.load("fonts/thing.ttf").is_none());
}

#[test]
fn icon_names_are_unique() {
    let mut names: Vec<_> = all_icons().iter().map(|icon| icon.source_path()).collect();
    names.sort_unstable();
    let count = names.len();
    names.dedup();
    assert_eq!(names.len(), count, "two icons share an asset name");
    assert_eq!(count, 29);
}

#[test]
fn the_single_line_glyphs_are_drawn_heavier() {
    assert_eq!(Icon::Close.stroke(), "1.6");
    assert_eq!(Icon::Check.stroke(), "2");
    assert_eq!(Icon::Region.stroke(), "1.5");
    assert!(Icon::Minimize.to_svg().contains("stroke-width=\"1.6\""));
}

fn fixture() -> Vec<Entry> {
    vec![
        Entry::Header("Frame rate".into()),
        Entry::Item(Item::new("30", "30 FPS")),
        Entry::Item(Item::new("60", "60 FPS").selected(true)),
        Entry::Separator,
        Entry::Item(Item::new("loop", "Loop forever").disabled()),
        Entry::Item(Item::new("more", "More settings").icon(Icon::Settings)),
    ]
}

#[test]
fn arrows_land_only_on_rows_that_can_be_chosen() {
    let entries = fixture();
    assert_eq!(step(&entries, None, 1), Some(1));
    assert_eq!(step(&entries, Some(1), 1), Some(2));
    assert_eq!(step(&entries, Some(2), 1), Some(5));
    assert_eq!(step(&entries, Some(5), 1), Some(1), "down wraps to the top");

    assert_eq!(step(&entries, None, -1), Some(5));
    assert_eq!(step(&entries, Some(5), -1), Some(2));
    assert_eq!(step(&entries, Some(1), -1), Some(5), "up wraps to the bottom");
}

#[test]
fn a_long_jump_wraps_as_many_times_as_it_needs() {
    let entries = fixture();
    assert_eq!(step(&entries, Some(1), 7), Some(2));
    assert_eq!(step(&entries, Some(1), -7), Some(5));
    assert_eq!(step(&entries, Some(0), 1), Some(1), "a header counts as before the start");
    assert_eq!(step(&entries, Some(1), isize::MAX), Some(2));
    assert_eq!(step(&entries, Some(1), isize::MIN), Some(2));
}

#[test]
fn a_menu_with_nothing_to_choose_has_nowhere_to_go() {
    let entries = vec![
        Entry::Header("Microphone".into()),
        Entry::Empty("No capture devices found.".into()),
        Entry::Item(Item::new("off", "Off").disabled()),
    ];
    assert_eq!(step(&entries, None, 1), None);
    assert_eq!(step(&entries, None, -1), None);
    assert_eq!(selected(&entries), None);
}

#[test]
fn a_menu_opens_on_the_row_it_is_already_set_to() {
    assert_eq!(selected(&fixture()), Some(2));
}

#[test]
fn a_row_carries_what_it_was_built_with() {
    let item = Item::new("hq", "High").detail("8 Mbps").tooltip("High quality");
    assert_eq!(item.detail.as_deref(), Some("8 Mbps"));
    assert_eq!(item.tooltip.as_deref(), Some("High quality"));
    assert!(item.enabled && !item.selected && item.icon.is_none());
}

#[test]
fn log_retention_keeps_seven_newest_files() {
    let names: Vec<String> = (1..=9)
        .map(|day| format!("rapidcap.log.2026-08-{day:02}"))
        .chain(["notes.txt".to_string()])
        .collect();
    let removed = rapidcap::logs::logs_to_remove(&names, rapidcap::logs::KEEP_LOGS);
    assert_eq!(removed, ["rapidcap.log.2026-08-01", "rapidcap.log.2026-08-02"]);
}

#[test]
fn log_retention_sorts_by_name_and_ignores_other_files() {
    let names: Vec<String> = ["rapidcap.log.b", "rapidcap.log", "x.log", "rapidcap.log.a"]
        .iter()
        .map(|s| s.to_string())
        .collect();
    assert_eq!(
        rapidcap::logs::logs_to_remove(&names, 1),
        ["rapidcap.log", "rapidcap.log.a"]
    );
    assert!(rapidcap::logs::logs_to_remove(&names, 7).is_empty());
}

#[test]
fn a_process_is_named_after_its_executable() {
    assert_eq!(
        process_name_from_image("C:\\Program Files\\WindowsApps\\Microsoft.Photos.exe").as_deref(),
        Some("Microsoft.Photos")
    );
    assert_eq!(process_name_from_image("C:/Tools/python3.13.exe").as_deref(), Some("python3.13"));
    assert_eq!(process_name_from_image("C:/bin/.hidden").as_deref(), Some(".hidden"));
    assert_eq!(process_name_from_image("C:/bin/Code").as_deref(), Some("Code"));
    assert_eq!(process_name_from_image("C:/bin/"), Some("bin".to_string()));
    assert_eq!(process_name_from_image("C:/bin/.."), None);
    assert_eq!(process_name_from_image(""), None);
}

#[test]
fn a_titlebar_drag_keeps_the_panel_under_the_grab() {
    let grab = drag_grab((500, 300), (420, 280));
    assert_eq!(grab, (80, 20));
    assert_eq!(dragged_top_left((500, 300), grab), (420, 280));
    assert_eq!(dragged_top_left((-100, 50), grab), (-180, 30));
}

#[test]
fn mod_every_command_except_cancel_has_exactly_one_shortcut() {
    let specs = hotkey_specs();
    let mut commands: Vec<_> = specs.iter().map(|spec| spec.command).collect();
    commands.sort_by_key(|command| format!("{command:?}"));
    commands.dedup();
    assert_eq!(commands.len(), specs.len(), "two shortcuts fire the same command");
}

#[test]
fn mod_the_two_requested_shortcuts_are_bound() {
    let specs = hotkey_specs();
    let bound = |modifiers: Modifiers, code: KeyCode| {
        specs
            .iter()
            .find(|spec| spec.modifiers == modifiers && spec.code == code)
            .map(|spec| spec.command)
    };
    assert_eq!(
        bound(Modifiers::alt(), KeyCode::KeyQ),
        Some(CaptureCommand::ToggleVideo),
        "Alt+Q must record"
    );
    assert_eq!(
        bound(Modifiers::alt(), KeyCode::KeyE),
        Some(CaptureCommand::CaptureRegion),
        "Alt+E must capture"
    );
}

#[test]
fn macos_binds_the_same_keys_with_command_for_ctrl() {
    let mac = hotkey_specs_on(Desktop::MacOs);
    let windows = hotkey_specs_on(Desktop::Windows);
    for (m, w) in mac.iter().zip(windows.iter()) {
        assert_eq!(m.code, w.code);
        assert_eq!(m.command, w.command);
    }
    assert_eq!(mac[0].modifiers, Modifiers::alt());
    assert_eq!(
        mac[1].modifiers,
        Modifiers {
            control: false,
            shift: true,
            alt: false,
            super_key: true,
        }
    );
    let mut commands: Vec<_> = mac.iter().map(|spec| spec.command).collect();
    commands.sort_by_key(|command| format!("{command:?}"));
    commands.dedup();
    assert_eq!(commands.len(), mac.len());
}

#[test]
fn shortcuts_read_the_way_a_mac_writes_them() {
    assert_eq!(
        shortcut_label_on(Desktop::MacOs, CaptureCommand::CaptureRegion).as_deref(),
        Some("⌥E")
    );
    assert_eq!(
        shortcut_label_on(Desktop::MacOs, CaptureCommand::CaptureActiveWindow).as_deref(),
        Some("⇧⌘W")
    );
    assert_eq!(shortcut_label_on(Desktop::MacOs, CaptureCommand::Cancel), None);
    let labels: Vec<String> = hotkey_specs_on(Desktop::MacOs)
        .iter()
        .map(|spec| spec.label_on(Desktop::MacOs))
        .collect();
    assert_eq!(labels, ["⌥E", "⇧⌘W", "⌥Q", "⇧⌘G", "⇧⌘P"]);
    let ctrl = rapidcap::platform::HotkeySpec::new(
        Modifiers {
            control: true,
            shift: true,
            alt: true,
            super_key: true,
        },
        KeyCode::KeyP,
        CaptureCommand::TogglePause,
    );
    assert_eq!(ctrl.label_on(Desktop::MacOs), "⌃⌥⇧⌘P");
    assert_eq!(ctrl.label_on(Desktop::Windows), "Ctrl+Shift+Win+Alt+P");
}

fn scale_from_percent(percent: u32) -> f32 {
    text_scale_percent(percent) as f32 / 100.0
}

#[test]
fn the_sizes_settings_offers_arrive_unchanged() {
    for (percent, expected) in [(100, 1.0), (125, 1.25), (150, 1.5), (225, 2.25)] {
        assert_eq!(scale_from_percent(percent), expected);
    }
}

#[test]
fn a_value_outside_the_slider_is_clamped_rather_than_trusted() {
    assert_eq!(scale_from_percent(0), 1.0);
    assert_eq!(scale_from_percent(50), 1.0);
    assert_eq!(scale_from_percent(10_000), 2.25);
}

#[test]
fn the_recording_frame_traces_the_region_from_outside() {
    let region = PhysicalRegion {
        x: -100,
        y: 50,
        width: 800,
        height: 600,
    };
    assert_eq!(
        recording_frame(&region, 3),
        RecordingFrame {
            x: -103,
            y: 47,
            width: 806,
            height: 606,
            hole_left: 3,
            hole_top: 3,
            hole_right: 803,
            hole_bottom: 603,
        }
    );
    // A border is never thinner than a pixel.
    let thin = recording_frame(&region, 0);
    assert_eq!((thin.x, thin.width, thin.hole_left), (-101, 802, 1));
}

fn candidate(left: i32, right: i32, process_id: u32) -> WindowCandidate {
    WindowCandidate {
        rect: Some(WindowRect { left, top: 0, right, bottom: 100 }),
        process_id,
        visible: true,
        minimized: false,
        target_readable: true,
    }
}

#[test]
fn the_pointer_picks_the_frontmost_window_it_is_over() {
    let ours = candidate(0, 100, 7);
    let hidden = WindowCandidate { visible: false, ..candidate(0, 100, 3) };
    let minimized = WindowCandidate { minimized: true, ..candidate(0, 100, 3) };
    let unreadable = WindowCandidate { target_readable: false, ..candidate(0, 100, 3) };
    let elsewhere = candidate(200, 300, 3);
    let behind = candidate(0, 100, 4);
    let last = candidate(0, 100, 5);
    let windows = [ours, hidden, minimized, unreadable, elsewhere, behind, last];
    assert_eq!(topmost_window_at(&windows, (50, 50), 7), Some(5));
    assert_eq!(topmost_window_at(&windows, (150, 50), 7), None);
    assert_eq!(topmost_window_at(&[], (50, 50), 7), None);
}

#[test]
fn tray_menu_items_ask_for_their_events() {
    assert_eq!(menu_event("show"), Some(PlatformEvent::Show));
    assert_eq!(menu_event("output"), Some(PlatformEvent::OpenOutput));
    assert_eq!(menu_event("exit"), Some(PlatformEvent::Exit));
    assert_eq!(menu_event("Exit"), None);
    assert_eq!(menu_event(""), None);
}
