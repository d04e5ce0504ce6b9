//! The bytes handed to the Windows clipboard.

use rapidcap::clipboard::{dibv5_bytes, hdrop_bytes, unicode_path_bytes};
use rapidcap::clipboard::{file_blocks, screenshot_blocks, ClipboardFormat};
use rapidcap::clipboard::{drop_effect_failure, ClipboardOpener, OpenStep, CLIPBOARD_RETRY_MS};
use rapidcap::screenshot::SavedCapture;

#[test]
fn dibv5_is_bottom_up_bgra() {
    let rgba = [1, 2, 3, 4, 5, 6, 7, 8];
    let bytes = dibv5_bytes(&rgba, 1, 2).unwrap();
    assert_eq!(u32::from_le_bytes(bytes[0..4].try_into().unwrap()), 124);
    assert_eq!(i32::from_le_bytes(bytes[8..12].try_into().unwrap()), 2);
    assert_eq!(&bytes[124..128], &[7, 6, 5, 8]);
}

#[test]
fn file_drop_is_wide_and_double_terminated() {
    let bytes = hdrop_bytes(r"C:\Shots\one.png");
    assert_eq!(u32::from_le_bytes(bytes[0..4].try_into().unwrap()), 20);
    assert_eq!(u32::from_le_bytes(bytes[16..20].try_into().unwrap()), 1);
    assert!(bytes.ends_with(&[0, 0, 0, 0]));
}

#[test]
fn the_dib_header_describes_the_whole_image() {
    let rgba: Vec<u8> = (0..2 * 3 * 4).map(|v| v as u8).collect();
    let bytes = dibv5_bytes(&rgba, 2, 3).unwrap();
    assert_eq!(bytes.len(), 124 + 24);
    assert_eq!(u32::from_le_bytes(bytes[4..8].try_into().unwrap()), 2);
    assert_eq!(u16::from_le_bytes(bytes[12..14].try_into().unwrap()), 1);
    assert_eq!(u16::from_le_bytes(bytes[14..16].try_into().unwrap()), 32);
    assert_eq!(u32::from_le_bytes(bytes[16..20].try_into().unwrap()), 3);
    assert_eq!(u32::from_le_bytes(bytes[20..24].try_into().unwrap()), 24);
    assert_eq!(u32::from_le_bytes(bytes[40..44].try_into().unwrap()), 0x00ff_0000);
    assert_eq!(u32::from_le_bytes(bytes[52..56].try_into().unwrap()), 0xff00_0000);
    assert_eq!(u32::from_le_bytes(bytes[56..60].try_into().unwrap()), 0x7352_4742);
    // The first stored row is the bottom row of the image, red and blue swapped.
    assert_eq!(&bytes[124..132], &[18, 17, 16, 19, 22, 21, 20, 23]);
}

#[test]
fn pixels_that_do_not_fit_the_size_are_refused() {
    for (len, width, height) in [(8, 1, 1), (0, 0, 0), (4, 0, 1), (4, 1, 0)] {
        let error = dibv5_bytes(&vec![0; len], width, height).unwrap_err();
        assert_eq!(error.message(), "pixel buffer dimensions do not match");
    }
}

#[test]
fn the_path_text_is_nul_terminated_utf16() {
    assert_eq!(unicode_path_bytes("a"), vec![0x61, 0, 0, 0]);
    // A character outside the basic plane takes a surrogate pair.
    assert_eq!(
        unicode_path_bytes("\u{1F600}"),
        vec![0x3d, 0xd8, 0x00, 0xde, 0, 0]
    );
    let wide: Vec<u8> = "C:\\é"
        .encode_utf16()
        .chain([0])
        .flat_map(u16::to_le_bytes)
        .collect();
    assert_eq!(unicode_path_bytes("C:\\é"), wide);
}

#[test]
fn a_screenshot_offers_pixels_text_files_and_a_copy() {
    let capture = SavedCapture {
        path: "C:/s.png".to_string(),
        rgba: vec![1, 2, 3, 4],
        width: 1,
        height: 1,
    };
    let blocks = screenshot_blocks(&capture).unwrap();
    let formats: Vec<_> = blocks.iter().map(|b| b.format).collect();
    assert_eq!(
        formats,
        [
            ClipboardFormat::DibV5,
            ClipboardFormat::UnicodeText,
            ClipboardFormat::HDrop,
            ClipboardFormat::PreferredDropEffect
        ]
    );
    assert_eq!(&blocks[0].bytes[124..], &[3, 2, 1, 4]);
    assert_eq!(blocks[1].bytes, unicode_path_bytes("C:/s.png"));
    assert_eq!(blocks[2].bytes, hdrop_bytes("C:/s.png"));
    assert_eq!(blocks[3].bytes, 1_u32.to_le_bytes());
    let broken = SavedCapture { rgba: vec![0; 3], ..capture };
    assert!(screenshot_blocks(&broken).is_err());
}

#[test]
fn a_recording_offers_the_file_only() {
    let blocks = file_blocks("C:/v.mp4");
    let formats: Vec<_> = blocks.iter().map(|b| b.format).collect();
    assert_eq!(
        formats,
        [ClipboardFormat::UnicodeText, ClipboardFormat::HDrop, ClipboardFormat::PreferredDropEffect]
    );
}

#[test]
fn a_dib_is_its_header_and_four_bytes_a_pixel() {
    assert_eq!(dibv5_bytes(&[1, 2, 3, 4, 5, 6, 7, 8], 1, 2).unwrap().len(), 132);
    assert_eq!(dibv5_bytes(&[0; 4 * 6], 3, 2).unwrap().len(), 124 + 24);
}

#[test]
fn a_busy_clipboard_is_asked_five_times() {
    let mut opener = ClipboardOpener::new();
    for _ in 0..4 {
        assert_eq!(opener.after_attempt(false), OpenStep::Retry(CLIPBOARD_RETRY_MS));
    }
    match opener.after_attempt(false) {
        OpenStep::GiveUp(wait, error) => {
            assert_eq!(wait, CLIPBOARD_RETRY_MS);
            assert_eq!(error.message(), "clipboard is busy");
        }
        other => panic!("the fifth refusal must give up, got {other:?}"),
    }
    let mut second = ClipboardOpener::new();
    assert_eq!(second.after_attempt(false), OpenStep::Retry(10));
    assert_eq!(second.after_attempt(true), OpenStep::Write);
    assert_eq!(drop_effect_failure().message(), "register Preferred DropEffect failed");
}
