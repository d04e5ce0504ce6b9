//! Recording on macOS: AVFoundation into VideoToolbox. The screen device is
//! found in FFmpeg's own device listing, and the crop is a filter because
//! AVFoundation only ever hands over a whole display.

use vstd::prelude::*;

use crate::geometry::PhysicalRegion;
use crate::recording::{
    arg_views, best_output, display_rect, lemma_best_output_overlaps, framerate, free_of_audio, kilobits, kilobits_string,
    lemma_dec_not_audio_arg, lemma_free_concat, lemma_free_of_each, lemma_kilobits_not_audio_arg,
    lemma_literal_not_audio_arg, lemma_not_audio_arg, push_arg, push_literal, source_in, only_when,
    CaptureSource, RecordingError,
};
use crate::settings::Settings;
use crate::state::CaptureKind;
use crate::text::{
    dec, dec_string, lemma_dec_digits, push_char, push_dec, push_signed_dec, signed_dec,
};

verus! {

/// `pattern` occurs in `s` starting at `at`.
pub open spec fn occurs_at(s: Seq<char>, pattern: Seq<char>, at: int) -> bool {
    0 <= at && at + pattern.len() <= s.len() && s.subrange(at, at + pattern.len()) == pattern
}

/// The first place at or after `from` where `pattern` occurs in `s`.
pub open spec fn first_occurrence(s: Seq<char>, pattern: Seq<char>, from: int) -> Option<int>
    decreases s.len() + 1 - from,
{
    if from < 0 || from + pattern.len() > s.len() {
        None
    } else if occurs_at(s, pattern, from) {
        Some(from)
    } else {
        first_occurrence(s, pattern, from + 1)
    }
}

proof fn lemma_first_occurrence(s: Seq<char>, pattern: Seq<char>, from: int)
    requires
        0 <= from,
    ensures
        first_occurrence(s, pattern, from) matches Some(k) ==> from <= k && occurs_at(
            s,
            pattern,
            k,
        ) && forall|j: int| from <= j < k ==> !occurs_at(s, pattern, j),
        first_occurrence(s, pattern, from) is None ==> forall|j: int|
            from <= j ==> !occurs_at(s, pattern, j),
    decreases s.len() + 1 - from,
{
    if from + pattern.len() <= s.len() && !occurs_at(s, pattern, from) {
        lemma_first_occurrence(s, pattern, from + 1);
    }
}

fn occurs_here(s: &Vec<char>, pattern: &Vec<char>, at: usize) -> (res: bool)
    requires
        at + pattern@.len() <= s@.len(),
    ensures
        res == occurs_at(s@, pattern@, at as int),
{
    let mut i: usize = 0;
    while i < pattern.len()
        invariant
            at + pattern@.len() <= s@.len(),
            i <= pattern@.len(),
            forall|j: int| 0 <= j < i ==> s@[at + j] == pattern@[j],
            s@.len() == s.len(),
        decreases pattern@.len() - i,
    {
        if s[at + i] != pattern[i] {
            assert(s@.subrange(at as int, at + pattern@.len())[i as int] != pattern@[i as int]);
            return false;
        }
        i = i + 1;
    }
    assert(s@.subrange(at as int, at + pattern@.len()) =~= pattern@);
    true
}

/// The first place at or after `from` where `pattern` occurs in `s`.
fn find_from(s: &Vec<char>, pattern: &Vec<char>, from: usize) -> (res: Option<usize>)
    ensures
        match first_occurrence(s@, pattern@, from as int) {
            None => res is None,
            Some(k) => res == Some(k as usize),
        },
{
    let mut at: usize = from;
    if s.len() < pattern.len() {
        return None;
    }
    let last = s.len() - pattern.len();
    while at <= last
        invariant
            from <= at,
            last == s@.len() - pattern@.len(),
            s@.len() == s.len(),
            first_occurrence(s@, pattern@, from as int) == first_occurrence(s@, pattern@, at as int),
        decreases last + 1 - at,
    {
        if occurs_here(s, pattern, at) {
            return Some(at);
        }
        assert(pattern@.len() > 0) by {
            if pattern@.len() == 0 {
                assert(s@.subrange(at as int, at as int) =~= pattern@);
            }
        }
        at = at + 1;
    }
    None
}

pub(crate) fn chars_of(s: &str) -> (res: Vec<char>)
    ensures
        res@ == s@,
{
    let n = s.unicode_len();
    let mut out: Vec<char> = Vec::new();
    let mut i: usize = 0;
    while i < n
        invariant
            n == s@.len(),
            i <= n,
            out@ == s@.subrange(0, i as int),
        decreases n - i,
    {
        out.push(s.get_char(i));
        i = i + 1;
        assert(out@ =~= s@.subrange(0, i as int));
    }
    assert(s@.subrange(0, n as int) =~= s@);
    out
}

/// Where the line starting at `start` ends: the next newline, or the end.
pub open spec fn line_end(s: Seq<char>, start: int) -> int
    decreases s.len() - start,
{
    if start >= s.len() || start < 0 {
        s.len() as int
    } else if s[start] == '\n' {
        start
    } else {
        line_end(s, start + 1)
    }
}

/// A line ends at the first newline at or after its start, or at the end of
/// the text.
pub proof fn lemma_line_end(s: Seq<char>, start: int)
    requires
        0 <= start <= s.len(),
    ensures
        start <= line_end(s, start) <= s.len(),
        line_end(s, start) < s.len() ==> s[line_end(s, start)] == '\n',
        forall|j: int| start <= j < line_end(s, start) ==> s[j] != '\n',
    decreases s.len() - start,
{
    if start < s.len() && s[start] != '\n' {
        lemma_line_end(s, start + 1);
    }
}

/// The first line, at or after the one starting at `start`, in which
/// `pattern` occurs.
pub open spec fn first_line_with(s: Seq<char>, pattern: Seq<char>, start: int) -> Option<Seq<char>>
    decreases s.len() - start,
{
    if start < 0 || start > s.len() {
        None
    } else {
        let end = line_end(s, start);
        let line = s.subrange(start, end);
        if first_occurrence(line, pattern, 0) is Some {
            Some(line)
        } else if end >= s.len() {
            None
        } else {
            proof {
                lemma_line_end(s, start);
            }
            first_line_with(s, pattern, end + 1)
        }
    }
}

/// The value of a string of decimal digits.
pub open spec fn digits_value(s: Seq<char>) -> nat
    decreases s.len(),
{
    if s.len() == 0 {
        0
    } else {
        digits_value(s.drop_last()) * 10 + ((s.last() as nat) - 48) as nat
    }
}

pub open spec fn all_digits(s: Seq<char>) -> bool {
    forall|i: int| 0 <= i < s.len() ==> '0' <= #[trigger] s[i] && s[i] <= '9'
}

/// `s` read as a `u32` the way `str::parse` reads one: decimal digits, an
/// optional leading `+`, nothing else, and no more than `u32::MAX`.
pub open spec fn parse_u32_text(s: Seq<char>) -> Option<u32> {
    let digits = if s.len() > 0 && s[0] == '+' {
        s.drop_first()
    } else {
        s
    };
    if digits.len() > 0 && all_digits(digits) && digits_value(digits) <= u32::MAX {
        Some(digits_value(digits) as u32)
    } else {
        None
    }
}

/// Reads a decimal `u32`.
pub fn parse_u32(s: &str) -> (res: Option<u32>)
    ensures
        res == parse_u32_text(s@),
{
    let n = s.unicode_len();
    let start: usize = if n > 0 && s.get_char(0) == '+' {
        1
    } else {
        0
    };
    let ghost digits = if s@.len() > 0 && s@[0] == '+' {
        s@.drop_first()
    } else {
        s@
    };
    assert(digits =~= s@.subrange(start as int, n as int));
    if start == n {
        return None;
    }
    let mut value: u64 = 0;
    let mut i: usize = start;
    while i < n
        invariant
            n == s@.len(),
            start <= i <= n,
            digits == s@.subrange(start as int, n as int),
            digits == (if s@.len() > 0 && s@[0] == '+' {
                s@.drop_first()
            } else {
                s@
            }),
            all_digits(s@.subrange(start as int, i as int)),
            value == digits_value(s@.subrange(start as int, i as int)),
            value <= u32::MAX,
        decreases n - i,
    {
        let c = s.get_char(i);
        if c < '0' || c > '9' {
            proof {
                assert(digits[i - start] == c);
            }
            return None;
        }
        let d: u64 = (c as u32 - 48) as u64;
        let next: u64 = value * 10 + d;
        proof {
            let prefix = s@.subrange(start as int, i as int);
            let longer = s@.subrange(start as int, i + 1);
            assert(longer.drop_last() =~= prefix);
            assert(longer.last() == c);
            assert(all_digits(longer));
        }
        if next > 0xffff_ffff {
            proof {
                if all_digits(digits) {
                    lemma_digits_value_grows(digits, (i + 1 - start) as int);
                    assert(digits.subrange(0, (i + 1 - start) as int) =~= s@.subrange(
                        start as int,
                        i + 1,
                    ));
                }
            }
            return None;
        }
        value = next;
        i = i + 1;
    }
    assert(s@.subrange(start as int, n as int) == digits);
    Some(value as u32)
}

/// A prefix's value never exceeds the whole's.
proof fn lemma_digits_value_grows(s: Seq<char>, k: int)
    requires
        0 <= k <= s.len(),
        all_digits(s),
    ensures
        digits_value(s.subrange(0, k)) <= digits_value(s),
    decreases s.len() - k,
{
    if k < s.len() {
        lemma_digits_value_grows(s, k + 1);
        let longer = s.subrange(0, k + 1);
        assert(longer.drop_last() =~= s.subrange(0, k));
        assert('0' <= longer.last());
    } else {
        assert(s.subrange(0, k) =~= s);
    }
}

/// The line naming "Capture screen 0" in FFmpeg's AVFoundation listing.
pub open spec fn screen_zero() -> Seq<char> {
    "Capture screen 0"@
}

/// AVFoundation's device index of "Capture screen 0", read from FFmpeg's
/// `-list_devices` listing: the number between the line's `] [` and the
/// next `]`.
pub open spec fn first_screen_device_of(listing: Seq<char>) -> Option<u32> {
    match first_line_with(listing, screen_zero(), 0) {
        None => None,
        Some(line) => match first_occurrence(line, "] ["@, 0) {
            None => None,
            Some(k) => {
                let rest = line.subrange(k + 3, line.len() as int);
                match first_occurrence(rest, "]"@, 0) {
                    None => None,
                    Some(j) => parse_u32_text(rest.subrange(0, j)),
                }
            },
        },
    }
}

fn first_line_containing(text: &Vec<char>, pattern: &Vec<char>) -> (res: Option<Vec<char>>)
    ensures
        match first_line_with(text@, pattern@, 0) {
            None => res is None,
            Some(l) => res matches Some(v) && v@ == l,
        },
{
    let n = text.len();
    let mut start: usize = 0;
    while start <= n
        invariant
            n == text@.len(),
            start <= n,
            first_line_with(text@, pattern@, 0) == first_line_with(text@, pattern@, start as int),
        decreases n - start,
    {
        let mut end: usize = start;
        while end < n && text[end] != '\n'
            invariant
                n == text@.len(),
                start <= end <= n,
                line_end(text@, start as int) == line_end(text@, end as int),
            decreases n - end,
        {
            end = end + 1;
        }
        let mut current: Vec<char> = Vec::new();
        let mut k: usize = start;
        while k < end
            invariant
                start <= k <= end <= n,
                n == text@.len(),
                current@ == text@.subrange(start as int, k as int),
            decreases end - k,
        {
            current.push(text[k]);
            k = k + 1;
            assert(current@ =~= text@.subrange(start as int, k as int));
        }
        if find_from(&current, pattern, 0).is_some() {
            return Some(current);
        }
        if end >= n {
            return None;
        }
        start = end + 1;
    }
    None
}

/// The device index of the first screen in FFmpeg's AVFoundation device
/// listing; cameras are numbered first, so it is rarely zero.
pub fn first_screen_device(listing: &str) -> (res: Option<u32>)
    ensures
        res == first_screen_device_of(listing@),
{
    let text = chars_of(listing);
    let pattern = chars_of("Capture screen 0");
    let line = match first_line_containing(&text, &pattern) {
        Some(l) => l,
        None => {
            return None;
        },
    };
    let separator = chars_of("] [");
    let bracket = chars_of("]");
    proof {
        reveal_strlit("] [");
        reveal_strlit("]");
        lemma_first_occurrence(line@, separator@, 0);
    }
    let k = match find_from(&line, &separator, 0) {
        Some(k) => k,
        None => {
            return None;
        },
    };
    assert(line@.len() == line.len());
    assert(occurs_at(line@, separator@, k as int));
    let mut rest: Vec<char> = Vec::new();
    let mut i: usize = k + 3;
    while i < line.len()
        invariant
            k + 3 <= i <= line@.len(),
            rest@ == line@.subrange(k + 3, i as int),
        decreases line@.len() - i,
    {
        rest.push(line[i]);
        i = i + 1;
        assert(rest@ =~= line@.subrange(k + 3, i as int));
    }
    let j = match find_from(&rest, &bracket, 0) {
        Some(j) => j,
        None => {
            return None;
        },
    };
    proof {
        lemma_first_occurrence(rest@, bracket@, 0);
    }
    let mut digits = String::new();
    let mut m: usize = 0;
    while m < j
        invariant
            j <= rest@.len(),
            m <= j,
            digits@ == rest@.subrange(0, m as int),
        decreases j - m,
    {
        push_char(&mut digits, rest[m]);
        m = m + 1;
        assert(digits@ =~= rest@.subrange(0, m as int));
    }
    parse_u32(digits.as_str())
}

/// Which AVFoundation screen device FFmpeg is pointed at, and the crop within
/// that display in its own pixels.
///
/// AVFoundation numbers cameras before screens, so the device of the n-th
/// display is the device of "Capture screen 0" plus n.
#[derive(Clone, Copy, Debug, PartialEq, Eq, Structural)]
pub struct AvfSource {
    pub device_index: u32,
    pub x: i32,
    pub y: i32,
    pub width: u32,
    pub height: u32,
}

/// The error when the listing names no screen, which is what FFmpeg prints
/// when the app lacks the Screen Recording permission.
pub open spec fn no_screen_message() -> Seq<char> {
    "AVFoundation listed no screen device - grant RapidCap Screen Recording                  permission in System Settings > Privacy & Security"@
}

/// The source recording `region` from the display at `index` with rectangle
/// `bounds`, when "Capture screen 0" is device `first_screen`.
pub open spec fn avf_source_in(
    region: PhysicalRegion,
    bounds: PhysicalRegion,
    index: int,
    first_screen: u32,
) -> AvfSource {
    let s = source_in(region, bounds, index);
    AvfSource {
        device_index: (first_screen + index) as u32,
        x: s.x,
        y: s.y,
        width: s.width,
        height: s.height,
    }
}

impl AvfSource {
    /// The display `region` overlaps most, among `displays` in the order Core
    /// Graphics lists them and in pixels, its AVFoundation device read from
    /// FFmpeg's device `listing`, and the crop within it rounded down to even
    /// dimensions. A region on no display is refused before the listing is
    /// read.
    pub fn resolve(region: &PhysicalRegion, displays: &[PhysicalRegion], listing: &str) -> (res:
        Result<Self, RecordingError>)
        requires
            displays@.len() <= u32::MAX,
            forall|i: int| 0 <= i < displays@.len() ==> display_rect(#[trigger] displays@[i]),
            first_screen_device_of(listing@) matches Some(d) ==> d + displays@.len() <= u32::MAX
                + 1,
        ensures
            match best_output(*region, displays@, displays@.len() as int) {
                None => res matches Err(e) && e.0@
                    == "recording region does not intersect a display"@,
                Some(i) => match first_screen_device_of(listing@) {
                    None => res matches Err(e) && e.0@ == no_screen_message(),
                    Some(d) => res == Ok::<Self, RecordingError>(
                        avf_source_in(*region, displays@[i], i, d),
                    ),
                },
            },
    {
        proof {
            lemma_best_output_overlaps(*region, displays@, displays@.len() as int);
        }
        let source = match CaptureSource::resolve(region, displays) {
            Ok(s) => s,
            Err(e) => {
                return Err(e);
            },
        };
        let first = match first_screen_device(listing) {
            Some(d) => d,
            None => {
                return Err(RecordingError(String::from_str("AVFoundation listed no screen device - grant RapidCap Screen Recording                  permission in System Settings > Privacy & Security")));
            },
        };
        Ok(AvfSource {
            device_index: first + source.output_idx,
            x: source.x,
            y: source.y,
            width: source.width,
            height: source.height,
        })
    }
}

/// The crop filter: AVFoundation hands over the whole display, so the
/// region is cut out of it in the filter graph, labelled `[v]`.
pub open spec fn crop_filter(source: AvfSource) -> Seq<char> {
    "[0:v]crop="@ + dec(source.width as nat) + ":"@ + dec(source.height as nat) + ":"@
        + signed_dec(source.x as int) + ":"@ + signed_dec(source.y as int) + "[v]"@
}

/// The screen device as an AVFoundation input: `<device>:`, with no audio
/// device after the colon.
pub open spec fn screen_input(source: AvfSource) -> Seq<char> {
    dec(source.device_index as nat) + ":"@
}

pub open spec fn avfoundation_input(kind: CaptureKind, source: AvfSource, settings: Settings) -> Seq<
    Seq<char>,
> {
    seq![
        "-hide_banner"@,
        "-loglevel"@,
        "warning"@,
        "-f"@,
        "avfoundation"@,
        "-capture_cursor"@,
        "0"@,
        "-framerate"@,
        dec(framerate(kind, settings) as nat),
        "-i"@,
        screen_input(source),
    ]
}

pub open spec fn crop_mapping(source: AvfSource) -> Seq<Seq<char>> {
    seq!["-filter_complex"@, crop_filter(source), "-map"@, "[v]"@]
}

/// VideoToolbox H.264 at the configured rate and bitrate.
pub open spec fn videotoolbox_codec(settings: Settings) -> Seq<Seq<char>> {
    seq![
        "-c:v"@,
        "h264_videotoolbox"@,
        "-r"@,
        dec(settings.video.fps as nat),
        "-b:v"@,
        kilobits(settings.video.bitrate),
        "-movflags"@,
        "+faststart"@,
    ]
}

/// The whole FFmpeg command line recording `source` into `output` on macOS.
/// The cursor is left out of the picture, a GIF names no encoder, and there
/// is no audio half at all.
pub open spec fn avfoundation_command(
    kind: CaptureKind,
    source: AvfSource,
    settings: Settings,
    output: Seq<char>,
) -> Seq<Seq<char>> {
    avfoundation_input(kind, source, settings) + crop_mapping(source) + only_when(
        kind == CaptureKind::Video,
        videotoolbox_codec(settings),
    ) + seq!["-y"@, output]
}

fn crop_filter_string(source: &AvfSource) -> (res: String)
    ensures
        res@ == crop_filter(*source),
{
    let mut chain = String::from_str("[0:v]crop=");
    push_dec(&mut chain, source.width as u64);
    chain.append(":");
    push_dec(&mut chain, source.height as u64);
    chain.append(":");
    push_signed_dec(&mut chain, source.x as i64);
    chain.append(":");
    push_signed_dec(&mut chain, source.y as i64);
    chain.append("[v]");
    assert(chain@ =~= crop_filter(*source));
    chain
}

/// The FFmpeg arguments that record `source` into `output` on macOS:
/// AVFoundation into VideoToolbox H.264 for a video, or raw frames at the GIF
/// rate for a GIF. The audio setting is not consulted: macOS offers no
/// system-audio device, and a microphone is not what it asks for.
pub fn avfoundation_args(kind: CaptureKind, source: &AvfSource, settings: &Settings, output: &str) -> (res:
    Vec<String>)
    ensures
        arg_views(res@) == avfoundation_command(kind, *source, *settings, output@),
{
    let rate = if kind == CaptureKind::Gif {
        settings.gif.fps
    } else {
        settings.video.fps
    };
    let mut args: Vec<String> = Vec::new();
    push_literal(&mut args, "-hide_banner");
    push_literal(&mut args, "-loglevel");
    push_literal(&mut args, "warning");
    push_literal(&mut args, "-f");
    push_literal(&mut args, "avfoundation");
    push_literal(&mut args, "-capture_cursor");
    push_literal(&mut args, "0");
    push_literal(&mut args, "-framerate");
    push_arg(&mut args, dec_string(rate as u64));
    push_literal(&mut args, "-i");
    let mut device = dec_string(source.device_index as u64);
    device.append(":");
    push_arg(&mut args, device);
    let ghost input = arg_views(args@);
    assert(input =~= avfoundation_input(kind, *source, *settings));
    push_literal(&mut args, "-filter_complex");
    push_arg(&mut args, crop_filter_string(source));
    push_literal(&mut args, "-map");
    push_literal(&mut args, "[v]");
    let ghost mapped = arg_views(args@);
    assert(mapped =~= input + crop_mapping(*source));
    if kind == CaptureKind::Video {
        push_literal(&mut args, "-c:v");
        push_literal(&mut args, "h264_videotoolbox");
        push_literal(&mut args, "-r");
        push_arg(&mut args, dec_string(settings.video.fps as u64));
        push_literal(&mut args, "-b:v");
        push_arg(&mut args, kilobits_string(settings.video.bitrate));
        push_literal(&mut args, "-movflags");
        push_literal(&mut args, "+faststart");
    }
    let ghost coded = arg_views(args@);
    assert(coded =~= mapped + only_when(kind == CaptureKind::Video, videotoolbox_codec(*settings)));
    push_literal(&mut args, "-y");
    push_arg(&mut args, String::from_str(output));
    assert(arg_views(args@) =~= avfoundation_command(kind, *source, *settings, output@));
    args
}

proof fn lemma_avfoundation_literals_free()
    ensures
        forall|l: Seq<char>|
            #![trigger free_of_audio(seq![l])]
            l == "-hide_banner"@ || l == "-loglevel"@ || l == "warning"@ || l == "-f"@ || l
                == "avfoundation"@ || l == "-capture_cursor"@ || l == "0"@ || l == "-framerate"@
                || l == "-i"@ || l == "-filter_complex"@ || l == "-map"@ || l == "[v]"@ || l
                == "-c:v"@ || l == "h264_videotoolbox"@ || l == "-r"@ || l == "-b:v"@ || l
                == "-movflags"@ || l == "+faststart"@ || l == "-y"@ ==> free_of_audio(seq![l]),
{
    reveal_strlit("-hide_banner");
    reveal_strlit("-loglevel");
    reveal_strlit("warning");
    reveal_strlit("-f");
    reveal_strlit("avfoundation");
    reveal_strlit("-capture_cursor");
    reveal_strlit("0");
    reveal_strlit("-framerate");
    reveal_strlit("-i");
    reveal_strlit("-filter_complex");
    reveal_strlit("-map");
    reveal_strlit("[v]");
    reveal_strlit("-c:v");
    reveal_strlit("h264_videotoolbox");
    reveal_strlit("-r");
    reveal_strlit("-b:v");
    reveal_strlit("-movflags");
    reveal_strlit("+faststart");
    reveal_strlit("-y");
    assert forall|l: Seq<char>|
        l == "-hide_banner"@ || l == "-loglevel"@ || l == "warning"@ || l == "-f"@ || l
            == "avfoundation"@ || l == "-capture_cursor"@ || l == "0"@ || l == "-framerate"@ || l
            == "-i"@ || l == "-filter_complex"@ || l == "-map"@ || l == "[v]"@ || l == "-c:v"@
            || l == "h264_videotoolbox"@ || l == "-r"@ || l == "-b:v"@ || l == "-movflags"@ || l
            == "+faststart"@ || l == "-y"@ implies #[trigger] free_of_audio(seq![l]) by {
        lemma_literal_not_audio_arg(l);
        lemma_free_of_each(seq![l]);
    }
}

/// Each argument of `args` is free of the audio arguments on its own.
proof fn lemma_free_by_parts(args: Seq<Seq<char>>)
    requires
        forall|i: int| 0 <= i < args.len() ==> free_of_audio(seq![#[trigger] args[i]]),
    ensures
        free_of_audio(args),
{
    assert forall|i: int| 0 <= i < args.len() implies #[trigger] args[i]
        != "audio=virtual-audio-capturer"@ && args[i] != "0:a"@ && args[i] != "-c:a"@ by {
        assert(seq![args[i]][0] == args[i]);
    }
    lemma_free_of_each(args);
}

/// macOS exposes no system-audio device, so the audio setting is inert on
/// this platform: the command line depends on the settings only through
/// their video and GIF parts, and it never names the audio capture device,
/// maps an audio stream or names an audio codec, whatever the settings say.
/// (The output path is the caller's text, so it is taken not to spell one of
/// those arguments itself.)
pub proof fn lemma_avfoundation_records_no_audio(
    kind: CaptureKind,
    source: AvfSource,
    settings: Settings,
    other: Settings,
    output: Seq<char>,
)
    requires
        other.video == settings.video,
        other.gif == settings.gif,
        free_of_audio(seq![output]),
    ensures
        avfoundation_command(kind, source, other, output) == avfoundation_command(
            kind,
            source,
            settings,
            output,
        ),
        free_of_audio(avfoundation_command(kind, source, settings, output)),
{
    let cmd = avfoundation_command(kind, source, settings, output);
    lemma_avfoundation_literals_free();
    let rate = dec(framerate(kind, settings) as nat);
    lemma_dec_not_audio_arg(framerate(kind, settings) as nat);
    lemma_free_of_each(seq![rate]);
    lemma_dec_digits(source.device_index as nat);
    reveal_strlit(":");
    let screen = screen_input(source);
    assert(screen[0] == dec(source.device_index as nat)[0]);
    assert(screen.last() == ':');
    lemma_not_audio_arg(screen);
    lemma_free_of_each(seq![screen]);
    reveal_strlit("[0:v]crop=");
    let crop = crop_filter(source);
    assert(crop[0] == '[');
    lemma_not_audio_arg(crop);
    lemma_free_of_each(seq![crop]);
    let fps = dec(settings.video.fps as nat);
    lemma_dec_not_audio_arg(settings.video.fps as nat);
    lemma_free_of_each(seq![fps]);
    let kb = kilobits(settings.video.bitrate);
    lemma_kilobits_not_audio_arg(settings.video.bitrate);
    lemma_free_of_each(seq![kb]);
    let input = avfoundation_input(kind, source, settings);
    assert(free_of_audio(input)) by {
        assert forall|i: int| 0 <= i < input.len() implies free_of_audio(
            seq![#[trigger] input[i]],
        ) by {
            assert(free_of_audio(seq![input[i]]));
        }
        lemma_free_by_parts(input);
    }
    let mapping = crop_mapping(source);
    assert(free_of_audio(mapping)) by {
        assert forall|i: int| 0 <= i < mapping.len() implies free_of_audio(
            seq![#[trigger] mapping[i]],
        ) by {}
        lemma_free_by_parts(mapping);
    }
    let codec = only_when(kind == CaptureKind::Video, videotoolbox_codec(settings));
    assert(free_of_audio(codec)) by {
        assert forall|i: int| 0 <= i < codec.len() implies free_of_audio(
            seq![#[trigger] codec[i]],
        ) by {}
        lemma_free_by_parts(codec);
    }
    let tail = seq!["-y"@, output];
    assert(free_of_audio(tail)) by {
        assert forall|i: int| 0 <= i < tail.len() implies free_of_audio(
            seq![#[trigger] tail[i]],
        ) by {}
        lemma_free_by_parts(tail);
    }
    lemma_free_concat(input, mapping);
    lemma_free_concat(input + mapping, codec);
    lemma_free_concat(input + mapping + codec, tail);
    assert(cmd =~= input + mapping + codec + tail);
    assert(avfoundation_command(kind, source, other, output) =~= cmd);
}

} // verus!
