//! File names, the shipped settings and where the app keeps its files.

use rapidcap::naming::{OutputNamer, Timestamp};
use rapidcap::settings::{AppPaths, Settings, SettingsError, SettingsStore};

#[test]
fn sharex_defaults_are_preserved() {
    let settings = Settings::default();
    assert_eq!(settings.screenshot.png_to_jpeg_threshold_bytes, 2_097_152);
    assert_eq!(settings.screenshot.jpeg_quality, 90);
    assert_eq!(settings.video.fps, 30);
    assert_eq!(settings.video.bitrate, 3_000_000);
    assert_eq!(settings.audio.bitrate, 128_000);
    assert_eq!(settings.gif.fps, 15);
    assert_eq!(settings.countdown_seconds, 5);
}

#[test]
fn output_namer_accepts_injected_suffix() {
    assert_eq!(
        OutputNamer::for_test("0000000000").file_stem("Code"),
        "Code_0000000000"
    );
}

#[test]
fn output_namer_random_suffix_has_expected_shape() {
    let stem = OutputNamer::random().file_stem("Screen");
    let suffix = stem.strip_prefix("Screen_").unwrap();
    assert_eq!(suffix.len(), 10);
    assert!(suffix.bytes().all(|byte| byte.is_ascii_alphanumeric()));
}

#[test]
fn a_stamp_leads_with_the_capture_time() {
    let when = Timestamp { year: 2026, month: 8, day: 27, hour: 14, minute: 32, second: 5 };
    let stem = OutputNamer::at(&when).file_stem("Telegram");
    let guard = stem
        .strip_prefix("Telegram_2026-08-27_14-32-05_")
        .expect("the timestamp has to lead, and it has to be zero-padded");
    assert_eq!(guard.len(), rapidcap::naming::GUARD);
    assert!(guard.bytes().all(|byte| byte.is_ascii_alphanumeric()));
}

#[test]
fn two_captures_in_the_same_second_do_not_share_a_name() {
    let when = Timestamp { year: 2026, month: 8, day: 27, hour: 14, minute: 32, second: 5 };
    let names: std::collections::HashSet<_> = (0..64)
        .map(|_| OutputNamer::at(&when).file_stem("Screen"))
        .collect();
    assert!(names.len() > 1, "every capture in a second took one name");
}

#[test]
fn a_nameless_process_falls_back_to_screen() {
    assert_eq!(
        OutputNamer::for_test("2026-08-27_14-32-05_a7Kq").file_stem("  ."),
        "Screen_2026-08-27_14-32-05_a7Kq"
    );
}

#[test]
fn characters_windows_rejects_become_underscores() {
    assert_eq!(
        OutputNamer::for_test("0000").file_stem("a<b>c:d\"e/f\\g|h?i*j"),
        "a_b_c_d_e_f_g_h_i_j_0000"
    );
}

#[test]
fn dotted_process_name_keeps_its_random_suffix() {
    assert_eq!(
        OutputNamer::for_test("0123456789").file_stem("Microsoft.Photos"),
        "Microsoft.Photos_0123456789"
    );
}

#[test]
fn a_process_name_is_trimmed_of_spaces_and_dots_only_at_its_ends() {
    assert_eq!(
        OutputNamer::for_test("x").file_stem(" .python3.13. "),
        "python3.13_x"
    );
}

#[test]
fn the_month_folder_is_zero_padded() {
    assert_eq!(rapidcap::naming::month_folder(2026, 8), "2026-08");
    assert_eq!(rapidcap::naming::month_folder(987, 12), "0987-12");
}

#[test]
fn app_paths_keep_capture_config_log_and_temp_roots_separate() {
    let paths = AppPaths::from_roots("C:/Users/me/Documents", "C:/Roaming", "C:/Local");
    assert_eq!(paths.capture_root, "C:/Users/me/Documents/RapidCap/Screenshots");
    assert_eq!(paths.settings_file, "C:/Roaming/RapidCap/settings.json");
    assert_eq!(paths.log_dir, "C:/Local/RapidCap/Logs");
    assert_eq!(paths.temp_dir, "C:/Local/RapidCap/Temp");
}

#[test]
fn app_paths_discover_existing_windows_known_folders() {
    let paths = AppPaths::discover(Some("/Users/me")).unwrap();
    for path in [
        &paths.capture_root,
        &paths.settings_file,
        &paths.log_dir,
        &paths.temp_dir,
    ] {
        assert!(path.starts_with('/'), "{path} is not absolute");
    }
    assert_eq!(paths.capture_root, "/Users/me/Documents/RapidCap/Screenshots");
    assert_eq!(
        paths.settings_file,
        "/Users/me/Library/Application Support/RapidCap/settings.json"
    );
    assert_eq!(paths.log_dir, "/Users/me/Library/Caches/RapidCap/Logs");
}

#[test]
fn without_a_home_there_is_nowhere_to_put_anything() {
    let error = AppPaths::discover(None).unwrap_err();
    assert_eq!(error.message(), "failed to resolve a platform folder: HOME is not set");
}

#[test]
fn a_root_with_a_trailing_separator_is_not_doubled() {
    let paths = AppPaths::from_roots("C:\\Docs\\", "C:/Roaming/", "D:");
    assert_eq!(paths.capture_root, "C:\\Docs\\RapidCap/Screenshots");
    assert_eq!(paths.settings_file, "C:/Roaming/RapidCap/settings.json");
    assert_eq!(paths.temp_dir, "D:/RapidCap/Temp");
}

#[test]
fn the_shipped_defaults_pass_their_own_validation() {
    assert_eq!(Settings::default().validate(), Ok(()));
}

fn invalid(settings: &Settings) -> String {
    match settings.validate() {
        Err(SettingsError::Invalid(message)) => message,
        other => panic!("expected Invalid, got {other:?}"),
    }
}

#[test]
fn an_out_of_range_jpeg_quality_is_refused_at_both_ends() {
    for quality in [0_u8, 101, 255] {
        let mut settings = Settings::default();
        settings.screenshot.jpeg_quality = quality;
        assert_eq!(invalid(&settings), "settings contain zero or out-of-range values");
    }
}

#[test]
fn a_zero_frame_rate_is_refused_for_both_video_and_gif() {
    let mut video = Settings::default();
    video.video.fps = 0;
    assert_eq!(invalid(&video), "settings contain zero or out-of-range values");
    let mut gif = Settings::default();
    gif.gif.fps = 0;
    assert_eq!(invalid(&gif), "settings contain zero or out-of-range values");
}

#[test]
fn a_bitrate_that_would_truncate_to_zero_kilobits_is_refused() {
    for bitrate in [0_u32, 1, 500, 999] {
        let mut settings = Settings::default();
        settings.video.bitrate = bitrate;
        assert_eq!(
            invalid(&settings),
            "bitrates are given in bits per second and must be at least 1000"
        );
        let mut audio = Settings::default();
        audio.audio.bitrate = bitrate;
        assert_eq!(
            invalid(&audio),
            "bitrates are given in bits per second and must be at least 1000"
        );
    }
}

#[test]
fn a_zero_channel_count_is_refused() {
    let mut settings = Settings::default();
    settings.audio.channels = 0;
    assert_eq!(invalid(&settings), "a recording needs at least one audio channel");
}

#[test]
fn an_empty_encoder_preset_is_refused() {
    let mut preset = Settings::default();
    preset.video.preset.clear();
    assert_eq!(invalid(&preset), "encoder preset and tune must be named");
    let mut tune = Settings::default();
    tune.video.tune = "  \t".to_string();
    assert_eq!(invalid(&tune), "encoder preset and tune must be named");
}

#[test]
fn a_file_from_a_future_schema_is_refused_rather_than_guessed_at() {
    let mut settings = Settings::default();
    settings.schema_version = 2;
    assert_eq!(invalid(&settings), "unsupported settings schema 2");
    assert_eq!(
        SettingsError::Invalid("unsupported settings schema 2".to_string()).message(),
        "settings invalid: unsupported settings schema 2"
    );
    assert_eq!(
        SettingsError::io("disk full").message(),
        "settings I/O failed: disk full"
    );
}

#[test]
fn a_store_remembers_its_file() {
    let store = SettingsStore::new("C:/Roaming/RapidCap/settings.json".to_string());
    assert_eq!(store.file(), "C:/Roaming/RapidCap/settings.json");
}

#[test]
fn a_pinned_guard_follows_the_timestamp() {
    let when = Timestamp { year: 2026, month: 8, day: 27, hour: 14, minute: 32, second: 5 };
    assert_eq!(
        OutputNamer::with_guard(&when, "a7Kq").file_stem("Code"),
        "Code_2026-08-27_14-32-05_a7Kq"
    );
}
