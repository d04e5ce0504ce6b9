//! Recording on macOS: the AVFoundation device listing, the source a region
//! is recorded from, and the FFmpeg command line.

use rapidcap::avfoundation::{avfoundation_args, first_screen_device, parse_u32, AvfSource};
use rapidcap::geometry::PhysicalRegion;
use rapidcap::settings::Settings;
use rapidcap::state::CaptureKind;

fn source() -> AvfSource {
    AvfSource {
        device_index: 1,
        x: 12,
        y: 34,
        width: 800,
        height: 600,
    }
}

const LISTING: &str = "[AVFoundation indev @ 0x7f8] AVFoundation video devices:\n\
[AVFoundation indev @ 0x7f8] [0] FaceTime HD Camera\n\
[AVFoundation indev @ 0x7f8] [1] Capture screen 0\n\
[AVFoundation indev @ 0x7f8] [2] Capture screen 1\n\
[AVFoundation indev @ 0x7f8] AVFoundation audio devices:\n\
[AVFoundation indev @ 0x7f8] [0] MacBook Pro Microphone\n\
: Input/output error\n";

#[test]
fn video_encodes_on_videotoolbox_and_crops_in_the_filtergraph() {
    let args = avfoundation_args(
        CaptureKind::Video,
        &source(),
        &Settings::default(),
        "out.part.mp4",
    );
    let joined = args.join(" ");
    assert!(joined.contains("-f avfoundation"));
    // The device index is the input, and the crop is a filter, because
    // AVFoundation only ever hands over a whole display.
    assert!(joined.contains("-i 1:"));
    assert!(joined.contains("[0:v]crop=800:600:12:34[v]"));
    assert!(joined.contains("-map [v]"));
    assert!(joined.contains("-c:v h264_videotoolbox"));
}

#[test]
fn a_gif_captures_at_its_own_framerate_and_names_no_encoder() {
    let settings = Settings::default();
    let args = avfoundation_args(CaptureKind::Gif, &source(), &settings, "out.part.gif");
    let joined = args.join(" ");
    assert!(joined.contains(&format!("-framerate {}", settings.gif.fps)));
    assert!(!joined.contains("-c:v"));
}

#[test]
fn no_audio_input_is_declared_even_when_the_setting_is_on() {
    let mut settings = Settings::default();
    settings.audio.enabled = true;
    let joined = avfoundation_args(CaptureKind::Video, &source(), &settings, "out.part.mp4")
        .join(" ");
    assert!(!joined.contains("-map 0:a"));
    assert!(!joined.contains("-c:a"));
}

#[test]
fn the_whole_macos_video_command_in_order() {
    let settings = Settings::default();
    let args = avfoundation_args(
        CaptureKind::Video,
        &AvfSource {
            device_index: 3,
            x: -8,
            y: 0,
            width: 1920,
            height: 1080,
        },
        &settings,
        "out.part.mp4",
    );
    let expected: Vec<String> = vec![
        "-hide_banner".to_string(),
        "-loglevel".to_string(),
        "warning".to_string(),
        "-f".to_string(),
        "avfoundation".to_string(),
        "-capture_cursor".to_string(),
        "0".to_string(),
        "-framerate".to_string(),
        settings.video.fps.to_string(),
        "-i".to_string(),
        "3:".to_string(),
        "-filter_complex".to_string(),
        "[0:v]crop=1920:1080:-8:0[v]".to_string(),
        "-map".to_string(),
        "[v]".to_string(),
        "-c:v".to_string(),
        "h264_videotoolbox".to_string(),
        "-r".to_string(),
        settings.video.fps.to_string(),
        "-b:v".to_string(),
        format!("{}k", settings.video.bitrate / 1000),
        "-movflags".to_string(),
        "+faststart".to_string(),
        "-y".to_string(),
        "out.part.mp4".to_string(),
    ];
    assert_eq!(args, expected);
}

#[test]
fn the_audio_setting_leaves_the_macos_command_alone() {
    let quiet = Settings::default();
    let mut loud = Settings::default();
    loud.audio.enabled = !quiet.audio.enabled;
    loud.audio.channels = 6;
    assert_eq!(
        avfoundation_args(CaptureKind::Video, &source(), &quiet, "a.mp4"),
        avfoundation_args(CaptureKind::Video, &source(), &loud, "a.mp4"),
    );
}

#[test]
fn the_screen_device_is_read_from_the_listing() {
    assert_eq!(first_screen_device(LISTING), Some(1));
}

#[test]
fn cameras_before_the_screen_shift_its_device() {
    let listing = "[x] [0] FaceTime HD Camera\n[x] [1] USB Camera\n[x] [2] Capture screen 0\n";
    assert_eq!(first_screen_device(listing), Some(2));
}

#[test]
fn a_listing_without_a_screen_names_no_device() {
    let listing = "[x] [0] FaceTime HD Camera\n[x] AVFoundation audio devices:\n";
    assert_eq!(first_screen_device(listing), None);
    assert_eq!(first_screen_device(""), None);
    assert_eq!(first_screen_device("Capture screen 0 without brackets"), None);
    assert_eq!(first_screen_device("[x] [one] Capture screen 0"), None);
}

#[test]
fn decimal_numbers_are_read_as_parse_reads_them() {
    assert_eq!(parse_u32("0"), Some(0));
    assert_eq!(parse_u32("42"), Some(42));
    assert_eq!(parse_u32("+7"), Some(7));
    assert_eq!(parse_u32("4294967295"), Some(u32::MAX));
    assert_eq!(parse_u32("4294967296"), None);
    assert_eq!(parse_u32(""), None);
    assert_eq!(parse_u32("+"), None);
    assert_eq!(parse_u32("-1"), None);
    assert_eq!(parse_u32("1 "), None);
}

#[test]
fn the_region_is_cropped_from_the_display_it_covers_most() {
    let displays = [
        PhysicalRegion {
            x: 0,
            y: 0,
            width: 2880,
            height: 1800,
        },
        PhysicalRegion {
            x: 2880,
            y: 0,
            width: 3840,
            height: 2160,
        },
    ];
    let region = PhysicalRegion {
        x: 2800,
        y: 100,
        width: 1001,
        height: 501,
    };
    let source = AvfSource::resolve(&region, &displays, LISTING).unwrap();
    assert_eq!(
        source,
        AvfSource {
            device_index: 2,
            x: 0,
            y: 100,
            width: 920,
            height: 500,
        }
    );
}

#[test]
fn a_region_on_no_display_is_refused_before_the_listing_is_read() {
    let displays = [PhysicalRegion {
        x: 0,
        y: 0,
        width: 100,
        height: 100,
    }];
    let region = PhysicalRegion {
        x: 500,
        y: 500,
        width: 10,
        height: 10,
    };
    let error = AvfSource::resolve(&region, &displays, "").unwrap_err();
    assert_eq!(error.message(), "recording region does not intersect a display");
}

#[test]
fn a_listing_without_a_screen_is_a_permission_error() {
    let displays = [PhysicalRegion {
        x: 0,
        y: 0,
        width: 100,
        height: 100,
    }];
    let region = PhysicalRegion {
        x: 10,
        y: 10,
        width: 10,
        height: 10,
    };
    let error = AvfSource::resolve(&region, &displays, "[x] [0] FaceTime HD Camera\n").unwrap_err();
    assert!(error.message().starts_with("AVFoundation listed no screen device"));
    assert!(error.message().contains("Privacy & Security"));
}
