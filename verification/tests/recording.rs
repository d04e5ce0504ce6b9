//! The FFmpeg command line, the display a region is recorded from, and the
//! bookkeeping of a segmented recording.

use rapidcap::geometry::PhysicalRegion;
use rapidcap::recording::{
    concat_list, ffmpeg_args, shim_target, trim, CaptureSource, JoinPlan, RecordingPlan,
    SegmentExit,
};
use rapidcap::settings::Settings;
use rapidcap::state::CaptureKind;

fn video_command_matches_sharex_encoder_and_audio() {
    let args = ffmpeg_args(
        CaptureKind::Video,
        &CaptureSource {
            output_idx: 1,
            x: 12,
            y: 34,
            width: 800,
            height: 601,
        },
        &Settings::default(),
        "out.part.mp4",
    );
    let joined = args.join(" ");
    assert!(joined.contains("-init_hw_device d3d11va=dx"));
    assert!(joined.contains(
        "ddagrab=output_idx=1:framerate=30:video_size=800x601:offset_x=12:offset_y=34[v]"
    ));
    assert!(joined.contains("-map [v] -map 0:a"));
    assert!(joined.contains("audio=virtual-audio-capturer"));
    assert!(joined.contains("-c:v h264_nvenc -r 30 -preset p7 -tune hq -b:v 3000k"));
    assert!(joined.contains("-c:a aac -ac 2 -b:a 128k"));
}

fn muting_audio_drops_the_input_and_the_codec_together() {
    let mut settings = Settings::default();
    settings.audio.enabled = false;
    let args = ffmpeg_args(
        CaptureKind::Video,
        &CaptureSource {
            output_idx: 0,
            x: 0,
            y: 0,
            width: 800,
            height: 600,
        },
        &settings,
        "out.part.mp4",
    );
    let joined = args.join(" ");
    assert!(!joined.contains("virtual-audio-capturer"), "{joined}");
    assert!(!joined.contains("dshow"), "{joined}");
    assert!(!joined.contains("-c:a"), "{joined}");
    assert!(!joined.contains("0:a"), "nothing left to map: {joined}");
    assert!(joined.contains("-c:v h264_nvenc"), "video must survive: {joined}");
}

fn gif_command_streams_at_sharex_frame_rate() {
    let args = ffmpeg_args(
        CaptureKind::Gif,
        &CaptureSource {
            output_idx: 0,
            x: 0,
            y: 0,
            width: 320,
            height: 200,
        },
        &Settings::default(),
        "out.part.gif",
    );
    let joined = args.join(" ");
    assert!(joined.contains("framerate=15"), "{joined}");
    assert!(joined.contains(",hwdownload,format=bgra[v]"), "{joined}");
    assert!(!joined.contains("palettegen"));
}

#[test]
fn recording_video_command_matches_sharex_encoder_and_audio() {
    video_command_matches_sharex_encoder_and_audio();
}

#[test]
fn recording_muting_audio_drops_the_input_and_the_codec_together() {
    muting_audio_drops_the_input_and_the_codec_together();
}

#[test]
fn recording_gif_command_streams_at_sharex_frame_rate() {
    gif_command_streams_at_sharex_frame_rate();
}

#[test]
fn windows_video_command_matches_sharex_encoder_and_audio() {
    video_command_matches_sharex_encoder_and_audio();
}

#[test]
fn windows_muting_audio_drops_the_input_and_the_codec_together() {
    muting_audio_drops_the_input_and_the_codec_together();
}

#[test]
fn windows_gif_command_streams_at_sharex_frame_rate() {
    gif_command_streams_at_sharex_frame_rate();
}

#[test]
fn the_whole_video_command_in_order() {
    let args = ffmpeg_args(
        CaptureKind::Video,
        &CaptureSource { output_idx: 2, x: -4, y: 0, width: 640, height: 480 },
        &Settings::default(),
        "C:/t/x.0.mp4",
    );
    let expected = [
        "-hide_banner", "-loglevel", "warning", "-init_hw_device", "d3d11va=dx",
        "-f", "dshow", "-thread_queue_size", "1024", "-audio_buffer_size", "80", "-i",
        "audio=virtual-audio-capturer", "-filter_complex",
        "ddagrab=output_idx=2:framerate=30:video_size=640x480:offset_x=-4:offset_y=0[v]",
        "-map", "[v]", "-map", "0:a", "-c:v", "h264_nvenc", "-r", "30", "-preset", "p7",
        "-tune", "hq", "-b:v", "3000k", "-movflags", "+faststart", "-c:a", "aac", "-ac", "2",
        "-b:a", "128k", "-y", "C:/t/x.0.mp4",
    ];
    assert_eq!(args, expected);
}

#[test]
fn a_gif_names_no_encoder_and_no_soundtrack() {
    let args = ffmpeg_args(
        CaptureKind::Gif,
        &CaptureSource { output_idx: 0, x: 0, y: 0, width: 320, height: 200 },
        &Settings::default(),
        "g.gif",
    );
    assert_eq!(
        args,
        [
            "-hide_banner", "-loglevel", "warning", "-init_hw_device", "d3d11va=dx",
            "-filter_complex",
            "ddagrab=output_idx=0:framerate=15:video_size=320x200:offset_x=0:offset_y=0,hwdownload,format=bgra[v]",
            "-map", "[v]", "-y", "g.gif",
        ]
    );
}

fn display(x: i32, y: i32, width: u32, height: u32) -> PhysicalRegion {
    PhysicalRegion { x, y, width, height }
}

#[test]
fn a_region_is_recorded_from_the_display_it_overlaps_most() {
    let outputs = [display(0, 0, 1920, 1080), display(1920, 0, 2560, 1440)];
    let source = CaptureSource::resolve(&display(1800, 100, 400, 301), &outputs).unwrap();
    assert_eq!(
        source,
        CaptureSource { output_idx: 1, x: 0, y: 100, width: 280, height: 300 }
    );
}

#[test]
fn offsets_are_local_to_the_chosen_display() {
    let outputs = [display(-1920, -200, 1920, 1080), display(0, 0, 1920, 1080)];
    let source = CaptureSource::resolve(&display(-1000, 0, 501, 400), &outputs).unwrap();
    assert_eq!(
        source,
        CaptureSource { output_idx: 0, x: 920, y: 200, width: 500, height: 400 }
    );
}

#[test]
fn an_equal_overlap_keeps_the_first_display() {
    let outputs = [display(0, 0, 100, 100), display(100, 0, 100, 100)];
    let source = CaptureSource::resolve(&display(50, 0, 100, 10), &outputs).unwrap();
    assert_eq!(source.output_idx, 0);
}

#[test]
fn a_region_off_every_display_is_refused() {
    let outputs = [display(0, 0, 1920, 1080)];
    let error = CaptureSource::resolve(&display(5000, 5000, 10, 10), &outputs).unwrap_err();
    assert_eq!(error.message(), "recording region does not intersect a display");
    assert!(CaptureSource::resolve(&display(0, 0, 10, 10), &[]).is_err());
}

#[test]
fn the_concat_list_quotes_apostrophes_the_demuxer_way() {
    let body = concat_list(&[
        "C:/Users/O'Brien/a.0.mp4".to_string(),
        "C:/t/b.1.mp4".to_string(),
    ]);
    assert_eq!(
        body,
        "file 'C:/Users/O'\\''Brien/a.0.mp4'\nfile 'C:/t/b.1.mp4'\n"
    );
    assert_eq!(concat_list(&[]), "");
}

#[test]
fn a_scoop_shim_names_its_target() {
    assert_eq!(
        shim_target("path = \"C:\\scoop\\apps\\ffmpeg\\bin\\ffmpeg.exe\"\r\n").as_deref(),
        Some("C:\\scoop\\apps\\ffmpeg\\bin\\ffmpeg.exe")
    );
    assert_eq!(shim_target("  path = \"\"  ").as_deref(), Some(""));
    assert_eq!(shim_target("path = \"unterminated"), None);
    assert_eq!(shim_target("args = -hide_banner"), None);
    assert_eq!(shim_target("path = \""), None);
    assert_eq!(trim("  \t x y \n"), "x y");
}

#[test]
fn a_segmented_recording_is_planned_step_by_step() {
    let mut plan = RecordingPlan::new(
        CaptureKind::Video,
        "C:/Local/RapidCap/Temp",
        "C:/Docs/RapidCap/Screenshots",
        2026,
        8,
        "Screen_2026-08-27_14-32-05_a7Kq",
    )
    .unwrap();
    assert_eq!(
        plan.final_path_str(),
        "C:/Docs/RapidCap/Screenshots/2026-08/Screen_2026-08-27_14-32-05_a7Kq.mp4"
    );
    assert_eq!(
        plan.next_segment_path(),
        "C:/Local/RapidCap/Temp/Screen_2026-08-27_14-32-05_a7Kq.0.mp4"
    );
    plan.segment_started();
    assert!(!plan.resume(), "a running segment is not started twice");
    assert!(plan.pause());
    assert!(!plan.pause(), "pausing a pause closes nothing");
    assert!(plan.resume());
    plan.segment_started();
    assert_eq!(plan.segment_paths().len(), 2);
    match plan.join_plan() {
        JoinPlan::Concat { list, body, joined, args } => {
            assert_eq!(list, "C:/Local/RapidCap/Temp/Screen_2026-08-27_14-32-05_a7Kq.segments.txt");
            assert_eq!(
                args,
                [
                    "-hide_banner",
                    "-loglevel",
                    "error",
                    "-f",
                    "concat",
                    "-safe",
                    "0",
                    "-i",
                    list.as_str(),
                    "-c",
                    "copy",
                    "-y",
                    joined.as_str(),
                ]
            );
            assert_eq!(joined, "C:/Local/RapidCap/Temp/Screen_2026-08-27_14-32-05_a7Kq.joined.mp4");
            assert_eq!(
                body,
                "file 'C:/Local/RapidCap/Temp/Screen_2026-08-27_14-32-05_a7Kq.0.mp4'\nfile 'C:/Local/RapidCap/Temp/Screen_2026-08-27_14-32-05_a7Kq.1.mp4'\n"
            );
        }
        other => panic!("two segments must be joined, got {other:?}"),
    }
    assert_eq!(
        plan.join_failure("exit code: 1").message(),
        "joining 2 recording segments failed: FFmpeg exited exit code: 1"
    );
}

#[test]
fn an_unpaused_recording_is_its_only_segment() {
    let mut plan = RecordingPlan::new(CaptureKind::Gif, "T", "R", 2026, 1, "s").unwrap();
    plan.segment_started();
    assert_eq!(plan.join_plan(), JoinPlan::Single("T/s.0.gif".to_string()));
    assert_eq!(plan.final_path_str(), "R/2026-01/s.gif");
}

#[test]
fn a_screenshot_is_not_recorded() {
    let error = RecordingPlan::new(CaptureKind::RegionScreenshot, "T", "R", 2026, 1, "s").unwrap_err();
    assert_eq!(error.message(), "unsupported recording kind");
}

#[test]
fn a_segment_that_failed_keeps_its_temporary_file_named() {
    let mut plan = RecordingPlan::new(CaptureKind::Video, "T", "R", 2026, 1, "s").unwrap();
    plan.segment_started();
    assert_eq!(
        plan.close_outcome(&SegmentExit::Exited { success: true, status: "exit code: 0".into(), size: 10 }),
        Ok(())
    );
    assert_eq!(
        plan.close_outcome(&SegmentExit::Exited { success: true, status: "exit code: 0".into(), size: 0 })
            .unwrap_err()
            .message(),
        "FFmpeg exited exit code: 0; temporary output at T/s.0.mp4"
    );
    assert_eq!(
        plan.close_outcome(&SegmentExit::TimedOut).unwrap_err().message(),
        "FFmpeg stop timed out; temporary output preserved at T/s.0.mp4"
    );
    assert_eq!(
        plan.finalize_failure("T/s.0.mp4", "access denied").message(),
        "finalize T/s.0.mp4 to R/2026-01/s.mp4 failed: access denied"
    );
}
