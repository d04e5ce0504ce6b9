//! Video and GIF recording: which display a region is recorded from, the
//! FFmpeg command line, and the bookkeeping of a recording made of one
//! segment per unpaused stretch.

use vstd::prelude::*;

use crate::geometry::{overlap, PhysicalRegion};
use crate::settings::{is_whitespace, join, join_path, Settings};
use crate::state::CaptureKind;
use crate::naming::{month_folder, month_folder_text};
use crate::text::{
    dec, dec_string, is_digit, lemma_dec_digits, push_char, push_dec, push_signed_dec, signed_dec,
};

verus! {

/// A recording that could not be started, paused or finished.
#[derive(Debug, PartialEq, Eq)]
pub struct RecordingError(pub String);

impl Clone for RecordingError {
    fn clone(&self) -> (res: Self)
        ensures
            res == *self,
    {
        RecordingError(self.0.clone())
    }
}

impl RecordingError {
    /// The error as a sentence.
    pub fn message(&self) -> (res: &str)
        ensures
            res@ == self.0@,
    {
        self.0.as_str()
    }
}

/// Where Desktop Duplication is pointed: which display output, and the crop
/// within it in that output's own coordinates.
#[derive(Clone, Copy, Debug, PartialEq, Eq, Structural)]
pub struct CaptureSource {
    pub output_idx: u32,
    pub x: i32,
    pub y: i32,
    pub width: u32,
    pub height: u32,
}

/// A display's desktop rectangle as the system reports it: its edges are
/// 32-bit coordinates.
pub open spec fn display_rect(r: PhysicalRegion) -> bool {
    &&& r.width <= i32::MAX
    &&& r.height <= i32::MAX
    &&& r.x + r.width <= i32::MAX
    &&& r.y + r.height <= i32::MAX
}

pub open spec fn area(r: PhysicalRegion) -> int {
    r.width * r.height
}

/// Among the first `n` outputs, the one `region` overlaps most; on a tie the
/// earliest. `None` when it overlaps none of them.
pub open spec fn best_output(region: PhysicalRegion, outputs: Seq<PhysicalRegion>, n: int) -> Option<
    int,
>
    decreases n,
{
    if n <= 0 {
        None
    } else {
        let previous = best_output(region, outputs, n - 1);
        match overlap(region, outputs[n - 1]) {
            None => previous,
            Some(crop) => match previous {
                None => Some(n - 1),
                Some(b) => if area(overlap(region, outputs[b]).unwrap()) < area(crop) {
                    Some(n - 1)
                } else {
                    previous
                },
            },
        }
    }
}

/// `v` rounded down to an even number: H.264 has no odd dimensions.
pub open spec fn even_floor(v: u32) -> u32 {
    (v - v % 2) as u32
}

/// The source for recording `region` from the output at `index` with
/// desktop rectangle `bounds`.
pub open spec fn source_in(region: PhysicalRegion, bounds: PhysicalRegion, index: int) -> CaptureSource {
    let crop = overlap(region, bounds).unwrap();
    CaptureSource {
        output_idx: index as u32,
        x: (crop.x - bounds.x) as i32,
        y: (crop.y - bounds.y) as i32,
        width: even_floor(crop.width),
        height: even_floor(crop.height),
    }
}

pub(crate) proof fn lemma_best_output_overlaps(region: PhysicalRegion, outputs: Seq<PhysicalRegion>, n: int)
    ensures
        best_output(region, outputs, n) matches Some(b) ==> 0 <= b < n && overlap(
            region,
            outputs[b],
        ) is Some,
    decreases n,
{
    if n > 0 {
        lemma_best_output_overlaps(region, outputs, n - 1);
    }
}

/// The display a recording is taken from is the one the region covers
/// most: its overlap with the region is at least as large, in width times
/// height, as the overlap with any other display, and strictly larger than
/// that of any display listed before it. There is one exactly when the
/// region overlaps some display.
pub proof fn lemma_best_output_covers_most(
    region: PhysicalRegion,
    outputs: Seq<PhysicalRegion>,
    n: int,
)
    requires
        0 <= n <= outputs.len(),
    ensures
        best_output(region, outputs, n) is None <==> forall|j: int|
            0 <= j < n ==> overlap(region, #[trigger] outputs[j]) is None,
        best_output(region, outputs, n) matches Some(b) ==> {
            let chosen = overlap(region, outputs[b]).unwrap();
            &&& 0 <= b < n
            &&& overlap(region, outputs[b]) is Some
            &&& forall|j: int|
                0 <= j < n && overlap(region, #[trigger] outputs[j]) is Some ==> {
                    let other = overlap(region, outputs[j]).unwrap();
                    &&& chosen.width * chosen.height >= other.width * other.height
                    &&& j < b ==> chosen.width * chosen.height > other.width * other.height
                }
        },
    decreases n,
{
    if n > 0 {
        lemma_best_output_covers_most(region, outputs, n - 1);
        lemma_best_output_overlaps(region, outputs, n - 1);
    }
}

impl CaptureSource {
    /// The output `region` overlaps most, among `outputs` in the order the
    /// graphics adapter lists them, and the crop within it. The width and
    /// height are rounded down to even numbers, which never reaches past the
    /// output's edge.
    pub fn resolve(region: &PhysicalRegion, outputs: &[PhysicalRegion]) -> (res: Result<
        Self,
        RecordingError,
    >)
        requires
            outputs@.len() <= u32::MAX,
            forall|i: int| 0 <= i < outputs@.len() ==> display_rect(#[trigger] outputs@[i]),
        ensures
            match best_output(*region, outputs@, outputs@.len() as int) {
                None => res matches Err(e) && e.0@
                    == "recording region does not intersect a display"@,
                Some(i) => res == Ok::<Self, RecordingError>(source_in(*region, outputs@[i], i)),
            },
    {
        let mut best: Option<usize> = None;
        let mut best_area: u64 = 0;
        let mut index: usize = 0;
        while index < outputs.len()
            invariant
                index <= outputs@.len(),
                match best_output(*region, outputs@, index as int) {
                    None => best is None,
                    Some(b) => best == Some(b as usize),
                },
                best matches Some(b) ==> b < index && overlap(*region, outputs@[b as int]) is Some
                    && best_area == area(overlap(*region, outputs@[b as int]).unwrap()),
            decreases outputs@.len() - index,
        {
            let bounds = outputs[index];
            assert(outputs@[index as int] == bounds);
            proof {
                lemma_best_output_overlaps(*region, outputs@, index as int);
            }
            match region.intersection(bounds) {
                None => {},
                Some(crop) => {
                    proof {
                        let w = crop.width as int;
                        let h = crop.height as int;
                        assert(w * h <= 0xffff_ffff * 0xffff_ffff) by (nonlinear_arith)
                            requires
                                0 <= w <= 0xffff_ffff,
                                0 <= h <= 0xffff_ffff,
                        ;
                    }
                    let found: u64 = crop.width as u64 * crop.height as u64;
                    assert(found == area(crop));
                    let better = match best {
                        None => true,
                        Some(_) => best_area < found,
                    };
                    if better {
                        best = Some(index);
                        best_area = found;
                    }
                },
            }
            index = index + 1;
        }
        proof {
            lemma_best_output_overlaps(*region, outputs@, outputs@.len() as int);
        }
        match best {
            None => Err(RecordingError(String::from_str("recording region does not intersect a display"))),
            Some(i) => {
                let bounds = outputs[i];
                let crop = region.intersection(bounds).unwrap();
                assert(display_rect(outputs@[i as int]));
                let x: i32 = (crop.x as i64 - bounds.x as i64) as i32;
                let y: i32 = (crop.y as i64 - bounds.y as i64) as i32;
                let width: u32 = crop.width - crop.width % 2;
                let height: u32 = crop.height - crop.height % 2;
                Ok(CaptureSource { output_idx: i as u32, x, y, width, height })
            },
        }
    }
}

/// The arguments as the character strings FFmpeg receives.
pub open spec fn arg_views(args: Seq<String>) -> Seq<Seq<char>> {
    args.map_values(|a: String| a@)
}

/// A video recording carries a soundtrack when the settings ask for one; a
/// GIF never does.
pub open spec fn with_audio(kind: CaptureKind, settings: Settings) -> bool {
    kind == CaptureKind::Video && settings.audio.enabled
}

/// The frame rate the source is asked for: a GIF is decimated at the source.
pub open spec fn framerate(kind: CaptureKind, settings: Settings) -> u32 {
    if kind == CaptureKind::Gif {
        settings.gif.fps
    } else {
        settings.video.fps
    }
}

/// The filter graph: Desktop Duplication on the chosen output at the chosen
/// crop, with a readback to system memory for a GIF, labelled `[v]`.
pub open spec fn filter_chain(kind: CaptureKind, source: CaptureSource, settings: Settings) -> Seq<
    char,
> {
    "ddagrab=output_idx="@ + dec(source.output_idx as nat) + ":framerate="@ + dec(
        framerate(kind, settings) as nat,
    ) + ":video_size="@ + dec(source.width as nat) + "x"@ + dec(source.height as nat)
        + ":offset_x="@ + signed_dec(source.x as int) + ":offset_y="@ + signed_dec(
        source.y as int,
    ) + (if kind == CaptureKind::Gif {
        ",hwdownload,format=bgra"@
    } else {
        Seq::<char>::empty()
    }) + "[v]"@
}

/// `bits` per second as FFmpeg's kilobit rate, `3000k` for 3 000 000.
pub open spec fn kilobits(bits: u32) -> Seq<char> {
    dec((bits / 1000) as nat) + "k"@
}

pub open spec fn input_head() -> Seq<Seq<char>> {
    seq!["-hide_banner"@, "-loglevel"@, "warning"@, "-init_hw_device"@, "d3d11va=dx"@]
}

/// The soundtrack input: the `virtual-audio-capturer` DirectShow device.
pub open spec fn audio_input() -> Seq<Seq<char>> {
    seq![
        "-f"@,
        "dshow"@,
        "-thread_queue_size"@,
        "1024"@,
        "-audio_buffer_size"@,
        "80"@,
        "-i"@,
        "audio=virtual-audio-capturer"@,
    ]
}

pub open spec fn video_mapping(kind: CaptureKind, source: CaptureSource, settings: Settings) -> Seq<
    Seq<char>,
> {
    seq!["-filter_complex"@, filter_chain(kind, source, settings), "-map"@, "[v]"@]
}

pub open spec fn audio_mapping() -> Seq<Seq<char>> {
    seq!["-map"@, "0:a"@]
}

/// NVENC H.264 at the configured rate, preset, tune and bitrate.
pub open spec fn video_codec(settings: Settings) -> Seq<Seq<char>> {
    seq![
        "-c:v"@,
        "h264_nvenc"@,
        "-r"@,
        dec(settings.video.fps as nat),
        "-preset"@,
        settings.video.preset@,
        "-tune"@,
        settings.video.tune@,
        "-b:v"@,
        kilobits(settings.video.bitrate),
        "-movflags"@,
        "+faststart"@,
    ]
}

/// AAC with the configured channel count and bitrate.
pub open spec fn audio_codec(settings: Settings) -> Seq<Seq<char>> {
    seq![
        "-c:a"@,
        "aac"@,
        "-ac"@,
        dec(settings.audio.channels as nat),
        "-b:a"@,
        kilobits(settings.audio.bitrate),
    ]
}

pub open spec fn only_when(cond: bool, args: Seq<Seq<char>>) -> Seq<Seq<char>> {
    if cond {
        args
    } else {
        Seq::empty()
    }
}

/// The whole FFmpeg command line for one segment written to `output`. The
/// audio input and the audio codec come and go together: half an audio
/// pipeline makes FFmpeg map a stream that does not exist.
pub open spec fn ffmpeg_command(
    kind: CaptureKind,
    source: CaptureSource,
    settings: Settings,
    output: Seq<char>,
) -> Seq<Seq<char>> {
    input_head() + only_when(with_audio(kind, settings), audio_input()) + video_mapping(
        kind,
        source,
        settings,
    ) + only_when(with_audio(kind, settings), audio_mapping()) + only_when(
        kind == CaptureKind::Video,
        video_codec(settings) + only_when(with_audio(kind, settings), audio_codec(settings)),
    ) + seq!["-y"@, output]
}

/// No argument is one of the three an audio pipeline adds: the capture
/// device, the stream mapping, or the audio codec flag.
pub open spec fn free_of_audio(args: Seq<Seq<char>>) -> bool {
    forall|i: int|
        0 <= i < args.len() ==> #[trigger] args[i] != "audio=virtual-audio-capturer"@ && args[i]
            != "0:a"@ && args[i] != "-c:a"@
}

pub(crate) proof fn lemma_free_concat(a: Seq<Seq<char>>, b: Seq<Seq<char>>)
    requires
        free_of_audio(a),
        free_of_audio(b),
    ensures
        free_of_audio(a + b),
{
    assert forall|i: int| 0 <= i < (a + b).len() implies #[trigger] (a + b)[i]
        != "audio=virtual-audio-capturer"@ && (a + b)[i] != "0:a"@ && (a + b)[i] != "-c:a"@ by {
        if i < a.len() {
            assert((a + b)[i] == a[i]);
        } else {
            assert((a + b)[i] == b[i - a.len()]);
        }
    }
}

/// A string that opens with a character none of the three audio arguments
/// opens with, and does not end in `a`, is none of them.
pub(crate) proof fn lemma_not_audio_arg(s: Seq<char>)
    requires
        s.len() >= 1,
        s[0] != 'a' && s[0] != '0' && s[0] != '-' || s[0] != 'a' && s[0] != '-' && (s.len() == 1
            || is_digit(s[1]) || s.last() != 'a'),
    ensures
        s != "audio=virtual-audio-capturer"@,
        s != "0:a"@,
        s != "-c:a"@,
{
    reveal_strlit("audio=virtual-audio-capturer");
    reveal_strlit("0:a");
    reveal_strlit("-c:a");
    if s == "0:a"@ {
        assert(s[1] == ':');
        assert(s.last() == 'a');
    }
}

pub(crate) proof fn lemma_dec_not_audio_arg(n: nat)
    ensures
        dec(n) != "audio=virtual-audio-capturer"@,
        dec(n) != "0:a"@,
        dec(n) != "-c:a"@,
{
    lemma_dec_digits(n);
    let s = dec(n);
    assert(is_digit(s[0]));
    if s.len() > 1 {
        assert(is_digit(s[1]));
    }
    lemma_not_audio_arg(s);
}

pub(crate) proof fn lemma_kilobits_not_audio_arg(bits: u32)
    ensures
        kilobits(bits) != "audio=virtual-audio-capturer"@,
        kilobits(bits) != "0:a"@,
        kilobits(bits) != "-c:a"@,
{
    reveal_strlit("k");
    lemma_dec_digits((bits / 1000) as nat);
    let s = kilobits(bits);
    assert(s[0] == dec((bits / 1000) as nat)[0]);
    assert(s.last() == 'k');
    lemma_not_audio_arg(s);
}

proof fn lemma_chain_not_audio_arg(kind: CaptureKind, source: CaptureSource, settings: Settings)
    ensures
        filter_chain(kind, source, settings) != "audio=virtual-audio-capturer"@,
        filter_chain(kind, source, settings) != "0:a"@,
        filter_chain(kind, source, settings) != "-c:a"@,
{
    reveal_strlit("ddagrab=output_idx=");
    let s = filter_chain(kind, source, settings);
    assert(s[0] == 'd');
    lemma_not_audio_arg(s);
}

/// A literal that differs from each of the three audio arguments in length
/// or in a telling character.
pub(crate) proof fn lemma_literal_not_audio_arg(l: Seq<char>)
    requires
        l.len() != 28 || l[0] != 'a',
        l.len() != 3 || l[1] != ':',
        l.len() != 4 || l[1] != 'c' || l[3] != 'a',
    ensures
        l != "audio=virtual-audio-capturer"@,
        l != "0:a"@,
        l != "-c:a"@,
{
    reveal_strlit("audio=virtual-audio-capturer");
    reveal_strlit("0:a");
    reveal_strlit("-c:a");
}

pub(crate) proof fn lemma_free_of_each(args: Seq<Seq<char>>)
    requires
        forall|i: int|
            0 <= i < args.len() ==> args[i] != "audio=virtual-audio-capturer"@ && args[i]
                != "0:a"@ && args[i] != "-c:a"@,
    ensures
        free_of_audio(args),
{
}

proof fn lemma_literal_args_free()
    ensures
        free_of_audio(input_head()),
        free_of_audio(seq!["-filter_complex"@, "-map"@, "[v]"@]),
        free_of_audio(
            seq![
                "-c:v"@,
                "h264_nvenc"@,
                "-r"@,
                "-preset"@,
                "-tune"@,
                "-b:v"@,
                "-movflags"@,
                "+faststart"@,
                "-y"@,
            ],
        ),
{
    reveal_strlit("-hide_banner");
    reveal_strlit("-loglevel");
    reveal_strlit("warning");
    reveal_strlit("-init_hw_device");
    reveal_strlit("d3d11va=dx");
    reveal_strlit("-filter_complex");
    reveal_strlit("-map");
    reveal_strlit("[v]");
    reveal_strlit("-c:v");
    reveal_strlit("h264_nvenc");
    reveal_strlit("-r");
    reveal_strlit("-preset");
    reveal_strlit("-tune");
    reveal_strlit("-b:v");
    reveal_strlit("-movflags");
    reveal_strlit("+faststart");
    reveal_strlit("-y");
    lemma_literal_not_audio_arg("-hide_banner"@);
    lemma_literal_not_audio_arg("-loglevel"@);
    lemma_literal_not_audio_arg("warning"@);
    lemma_literal_not_audio_arg("-init_hw_device"@);
    lemma_literal_not_audio_arg("d3d11va=dx"@);
    lemma_literal_not_audio_arg("-filter_complex"@);
    lemma_literal_not_audio_arg("-map"@);
    lemma_literal_not_audio_arg("[v]"@);
    lemma_literal_not_audio_arg("-c:v"@);
    lemma_literal_not_audio_arg("h264_nvenc"@);
    lemma_literal_not_audio_arg("-r"@);
    lemma_literal_not_audio_arg("-preset"@);
    lemma_literal_not_audio_arg("-tune"@);
    lemma_literal_not_audio_arg("-b:v"@);
    lemma_literal_not_audio_arg("-movflags"@);
    lemma_literal_not_audio_arg("+faststart"@);
    lemma_literal_not_audio_arg("-y"@);
    lemma_free_of_each(input_head());
    lemma_free_of_each(seq!["-filter_complex"@, "-map"@, "[v]"@]);
    lemma_free_of_each(
        seq![
            "-c:v"@,
            "h264_nvenc"@,
            "-r"@,
            "-preset"@,
            "-tune"@,
            "-b:v"@,
            "-movflags"@,
            "+faststart"@,
            "-y"@,
        ],
    );
}

/// The audio input, its stream mapping and its codec come and go together:
/// a command line holds the capture device, maps `0:a` and names an audio
/// codec exactly when a video is recorded with sound on. Half an audio
/// pipeline makes FFmpeg map a stream that does not exist. (The preset, the
/// tune and the output path are the caller's text, so they are taken not to
/// spell one of those three arguments themselves.)
pub proof fn lemma_audio_pipeline_is_whole(
    kind: CaptureKind,
    source: CaptureSource,
    settings: Settings,
    output: Seq<char>,
)
    requires
        free_of_audio(seq![settings.video.preset@, settings.video.tune@, output]),
    ensures
        ffmpeg_command(kind, source, settings, output).contains("audio=virtual-audio-capturer"@)
            <==> with_audio(kind, settings),
        ffmpeg_command(kind, source, settings, output).contains("0:a"@) <==> with_audio(
            kind,
            settings,
        ),
        ffmpeg_command(kind, source, settings, output).contains("-c:a"@) <==> with_audio(
            kind,
            settings,
        ),
{
    let cmd = ffmpeg_command(kind, source, settings, output);
    let head = input_head();
    if with_audio(kind, settings) {
        let k = head.len() as int;
        assert(cmd[k + 7] == "audio=virtual-audio-capturer"@);
        let m = k + audio_input().len() + video_mapping(kind, source, settings).len();
        assert(cmd[m + 1] == "0:a"@);
        let c = m + audio_mapping().len() + video_codec(settings).len();
        assert(cmd[c] == "-c:a"@);
    } else {
        lemma_literal_args_free();
        lemma_chain_not_audio_arg(kind, source, settings);
        lemma_dec_not_audio_arg(settings.video.fps as nat);
        lemma_kilobits_not_audio_arg(settings.video.bitrate);
        let mapping = video_mapping(kind, source, settings);
        let mapping_literals = seq!["-filter_complex"@, "-map"@, "[v]"@];
        assert(free_of_audio(mapping)) by {
            assert(mapping[0] == mapping_literals[0]);
            assert(mapping[2] == mapping_literals[1]);
            assert(mapping[3] == mapping_literals[2]);
        }
        let codec = only_when(kind == CaptureKind::Video, video_codec(settings) + only_when(false, audio_codec(settings)));
        let user = seq![settings.video.preset@, settings.video.tune@, output];
        let codec_literals = seq!["-c:v"@, "h264_nvenc"@, "-r"@, "-preset"@, "-tune"@, "-b:v"@, "-movflags"@, "+faststart"@, "-y"@];
        assert(free_of_audio(codec)) by {
            if kind == CaptureKind::Video {
                let v = video_codec(settings);
                assert(codec =~= v);
                assert(v[0] == codec_literals[0]);
                assert(v[1] == codec_literals[1]);
                assert(v[2] == codec_literals[2]);
                assert(v[4] == codec_literals[3]);
                assert(v[5] == user[0]);
                assert(v[6] == codec_literals[4]);
                assert(v[7] == user[1]);
                assert(v[8] == codec_literals[5]);
                assert(v[10] == codec_literals[6]);
                assert(v[11] == codec_literals[7]);
            } else {
                assert(codec.len() == 0);
            }
        }
        let tail = seq!["-y"@, output];
        assert(free_of_audio(tail)) by {
            assert(tail[0] == codec_literals[8]);
            assert(tail[1] == user[2]);
        }
        assert(cmd =~= head + mapping + codec + tail);
        lemma_free_concat(head, mapping);
        lemma_free_concat(head + mapping, codec);
        lemma_free_concat(head + mapping + codec, tail);
    }
}

pub(crate) fn push_arg(args: &mut Vec<String>, arg: String)
    ensures
        arg_views(final(args)@) == arg_views(old(args)@).push(arg@),
{
    args.push(arg);
    assert(arg_views(final(args)@) =~= arg_views(old(args)@).push(arg@));
}

pub(crate) fn push_literal(args: &mut Vec<String>, arg: &str)
    ensures
        arg_views(final(args)@) == arg_views(old(args)@).push(arg@),
{
    push_arg(args, String::from_str(arg));
}

pub(crate) fn kilobits_string(bits: u32) -> (res: String)
    ensures
        res@ == kilobits(bits),
{
    let mut s = dec_string((bits / 1000) as u64);
    s.append("k");
    assert(s@ =~= kilobits(bits));
    s
}

fn filter_chain_string(kind: CaptureKind, source: &CaptureSource, settings: &Settings) -> (res:
    String)
    ensures
        res@ == filter_chain(kind, *source, *settings),
{
    let rate = if kind == CaptureKind::Gif {
        settings.gif.fps
    } else {
        settings.video.fps
    };
    let mut chain = String::from_str("ddagrab=output_idx=");
    push_dec(&mut chain, source.output_idx as u64);
    chain.append(":framerate=");
    push_dec(&mut chain, rate as u64);
    chain.append(":video_size=");
    push_dec(&mut chain, source.width as u64);
    chain.append("x");
    push_dec(&mut chain, source.height as u64);
    chain.append(":offset_x=");
    push_signed_dec(&mut chain, source.x as i64);
    chain.append(":offset_y=");
    push_signed_dec(&mut chain, source.y as i64);
    if kind == CaptureKind::Gif {
        chain.append(",hwdownload,format=bgra");
    }
    chain.append("[v]");
    assert(chain@ =~= filter_chain(kind, *source, *settings));
    chain
}

fn push_audio_input(args: &mut Vec<String>)
    ensures
        arg_views(final(args)@) == arg_views(old(args)@) + audio_input(),
{
    let ghost start = arg_views(args@);
    push_literal(args, "-f");
    push_literal(args, "dshow");
    push_literal(args, "-thread_queue_size");
    push_literal(args, "1024");
    push_literal(args, "-audio_buffer_size");
    push_literal(args, "80");
    push_literal(args, "-i");
    push_literal(args, "audio=virtual-audio-capturer");
    assert(arg_views(args@) =~= start + audio_input());
}

fn push_video_codec(args: &mut Vec<String>, settings: &Settings)
    ensures
        arg_views(final(args)@) == arg_views(old(args)@) + video_codec(*settings),
{
    let ghost start = arg_views(args@);
    push_literal(args, "-c:v");
    push_literal(args, "h264_nvenc");
    push_literal(args, "-r");
    push_arg(args, dec_string(settings.video.fps as u64));
    push_literal(args, "-preset");
    push_arg(args, settings.video.preset.clone());
    push_literal(args, "-tune");
    push_arg(args, settings.video.tune.clone());
    push_literal(args, "-b:v");
    push_arg(args, kilobits_string(settings.video.bitrate));
    push_literal(args, "-movflags");
    push_literal(args, "+faststart");
    assert(arg_views(args@) =~= start + video_codec(*settings));
}

fn push_audio_codec(args: &mut Vec<String>, settings: &Settings)
    ensures
        arg_views(final(args)@) == arg_views(old(args)@) + audio_codec(*settings),
{
    let ghost start = arg_views(args@);
    push_literal(args, "-c:a");
    push_literal(args, "aac");
    push_literal(args, "-ac");
    push_arg(args, dec_string(settings.audio.channels as u64));
    push_literal(args, "-b:a");
    push_arg(args, kilobits_string(settings.audio.bitrate));
    assert(arg_views(args@) =~= start + audio_codec(*settings));
}

/// The FFmpeg arguments that record `source` into `output`: Desktop
/// Duplication on the GPU into NVENC H.264 for a video, or a GIF read back
/// into system memory, with the soundtrack only on a video whose settings
/// ask for one.
pub fn ffmpeg_args(kind: CaptureKind, source: &CaptureSource, settings: &Settings, output: &str) -> (res:
    Vec<String>)
    ensures
        arg_views(res@) == ffmpeg_command(kind, *source, *settings, output@),
{
    let audio = kind == CaptureKind::Video && settings.audio.enabled;
    let mut args: Vec<String> = Vec::new();
    push_literal(&mut args, "-hide_banner");
    push_literal(&mut args, "-loglevel");
    push_literal(&mut args, "warning");
    push_literal(&mut args, "-init_hw_device");
    push_literal(&mut args, "d3d11va=dx");
    let ghost head = arg_views(args@);
    assert(head =~= input_head());
    if audio {
        push_audio_input(&mut args);
    }
    let ghost with_input = arg_views(args@);
    assert(with_input =~= head + only_when(with_audio(kind, *settings), audio_input()));
    push_literal(&mut args, "-filter_complex");
    push_arg(&mut args, filter_chain_string(kind, source, settings));
    push_literal(&mut args, "-map");
    push_literal(&mut args, "[v]");
    let ghost mapped = arg_views(args@);
    assert(mapped =~= with_input + video_mapping(kind, *source, *settings));
    if audio {
        push_literal(&mut args, "-map");
        push_literal(&mut args, "0:a");
    }
    let ghost audio_mapped = arg_views(args@);
    assert(audio_mapped =~= mapped + only_when(with_audio(kind, *settings), audio_mapping()));
    if kind == CaptureKind::Video {
        push_video_codec(&mut args, settings);
        if audio {
            push_audio_codec(&mut args, settings);
        }
    }
    let ghost coded = arg_views(args@);
    assert(coded =~= audio_mapped + only_when(
        kind == CaptureKind::Video,
        video_codec(*settings) + only_when(with_audio(kind, *settings), audio_codec(*settings)),
    ));
    push_literal(&mut args, "-y");
    push_arg(&mut args, String::from_str(output));
    assert(arg_views(args@) =~= ffmpeg_command(kind, *source, *settings, output@));
    args
}

/// One character of a path inside a single-quoted concat entry: `'` is
/// written `'\''`, the concat demuxer's own quoting.
pub open spec fn quote_char(c: char) -> Seq<char> {
    if c == '\'' {
        seq!['\'', '\\', '\'', '\'']
    } else {
        seq![c]
    }
}

pub open spec fn quoted(path: Seq<char>) -> Seq<char>
    decreases path.len(),
{
    if path.len() == 0 {
        Seq::empty()
    } else {
        quoted(path.drop_last()) + quote_char(path.last())
    }
}

/// `file '<path>'` and a newline.
pub open spec fn concat_entry(path: Seq<char>) -> Seq<char> {
    seq!['f', 'i', 'l', 'e', ' ', '\''] + quoted(path) + seq!['\'', '\n']
}

/// The concat demuxer's list naming `paths` in order.
pub open spec fn concat_body(paths: Seq<Seq<char>>) -> Seq<char>
    decreases paths.len(),
{
    if paths.len() == 0 {
        Seq::empty()
    } else {
        concat_body(paths.drop_last()) + concat_entry(paths.last())
    }
}

fn push_quoted(out: &mut String, path: &str)
    ensures
        final(out)@ == old(out)@ + quoted(path@),
{
    let ghost start = out@;
    let n = path.unicode_len();
    let mut i: usize = 0;
    while i < n
        invariant
            n == path@.len(),
            i <= n,
            out@ == start + quoted(path@.subrange(0, i as int)),
        decreases n - i,
    {
        let c = path.get_char(i);
        if c == '\'' {
            push_char(out, '\'');
            push_char(out, '\\');
            push_char(out, '\'');
            push_char(out, '\'');
        } else {
            push_char(out, c);
        }
        proof {
            let next = path@.subrange(0, i + 1);
            assert(next.drop_last() =~= path@.subrange(0, i as int));
            assert(out@ =~= start + quoted(next));
        }
        i = i + 1;
    }
    assert(path@.subrange(0, n as int) =~= path@);
}

/// The list file the concat demuxer reads to join `segments` in order.
pub fn concat_list(segments: &[String]) -> (res: String)
    ensures
        res@ == concat_body(arg_views(segments@)),
{
    let mut body = String::new();
    let mut i: usize = 0;
    while i < segments.len()
        invariant
            i <= segments@.len(),
            body@ == concat_body(arg_views(segments@.subrange(0, i as int))),
        decreases segments@.len() - i,
    {
        let ghost before = body@;
        push_char(&mut body, 'f');
        push_char(&mut body, 'i');
        push_char(&mut body, 'l');
        push_char(&mut body, 'e');
        push_char(&mut body, ' ');
        push_char(&mut body, '\'');
        push_quoted(&mut body, segments[i].as_str());
        push_char(&mut body, '\'');
        push_char(&mut body, '\n');
        proof {
            let prefix = arg_views(segments@.subrange(0, i as int));
            let next = arg_views(segments@.subrange(0, i + 1));
            assert(next.drop_last() =~= prefix);
            assert(next.last() == segments@[i as int]@);
            assert(body@ =~= before + concat_entry(segments@[i as int]@));
        }
        i = i + 1;
    }
    assert(segments@.subrange(0, segments@.len() as int) =~= segments@);
    body
}

/// `s` without its leading whitespace.
pub open spec fn trim_start_ws(s: Seq<char>) -> Seq<char>
    decreases s.len(),
{
    if s.len() > 0 && is_whitespace(s[0]) {
        trim_start_ws(s.drop_first())
    } else {
        s
    }
}

/// `s` without its trailing whitespace.
pub open spec fn trim_end_ws(s: Seq<char>) -> Seq<char>
    decreases s.len(),
{
    if s.len() > 0 && is_whitespace(s.last()) {
        trim_end_ws(s.drop_last())
    } else {
        s
    }
}

/// `s` without whitespace at either end, as `str::trim` gives it.
pub open spec fn trim_ws(s: Seq<char>) -> Seq<char> {
    trim_end_ws(trim_start_ws(s))
}

proof fn lemma_trim_start_ws_skip(s: Seq<char>, i: int)
    requires
        0 <= i <= s.len(),
        forall|j: int| 0 <= j < i ==> is_whitespace(#[trigger] s[j]),
    ensures
        trim_start_ws(s) == trim_start_ws(s.subrange(i, s.len() as int)),
    decreases i,
{
    if i > 0 {
        assert(s.drop_first() =~= s.subrange(1, s.len() as int));
        lemma_trim_start_ws_skip(s.drop_first(), i - 1);
        assert(s.drop_first().subrange(i - 1, s.drop_first().len() as int) =~= s.subrange(
            i,
            s.len() as int,
        ));
    } else {
        assert(s =~= s.subrange(0, s.len() as int));
    }
}

proof fn lemma_trim_end_ws_skip(s: Seq<char>, i: int)
    requires
        0 <= i <= s.len(),
        forall|j: int| i <= j < s.len() ==> is_whitespace(#[trigger] s[j]),
    ensures
        trim_end_ws(s) == trim_end_ws(s.subrange(0, i)),
    decreases s.len() - i,
{
    if i < s.len() {
        assert(s.drop_last() =~= s.subrange(0, s.len() - 1));
        lemma_trim_end_ws_skip(s.drop_last(), i);
        assert(s.drop_last().subrange(0, i) =~= s.subrange(0, i));
    } else {
        assert(s =~= s.subrange(0, i));
    }
}

/// `s` trimmed of whitespace at both ends.
pub fn trim(s: &str) -> (res: &str)
    ensures
        res@ == trim_ws(s@),
{
    let n = s.unicode_len();
    let mut lo: usize = 0;
    while lo < n && crate::settings::char_is_whitespace(s.get_char(lo))
        invariant
            n == s@.len(),
            lo <= n,
            forall|j: int| 0 <= j < lo ==> is_whitespace(#[trigger] s@[j]),
        decreases n - lo,
    {
        lo = lo + 1;
    }
    let mut hi: usize = n;
    while hi > lo && crate::settings::char_is_whitespace(s.get_char(hi - 1))
        invariant
            n == s@.len(),
            lo <= hi <= n,
            forall|j: int| hi <= j < n ==> is_whitespace(#[trigger] s@[j]),
        decreases hi - lo,
    {
        hi = hi - 1;
    }
    proof {
        lemma_trim_start_ws_skip(s@, lo as int);
        let rest = s@.subrange(lo as int, n as int);
        if lo < n {
            assert(rest[0] == s@[lo as int]);
            assert(trim_start_ws(rest) == rest);
        } else {
            assert(rest.len() == 0);
        }
        assert forall|j: int| hi - lo <= j < rest.len() implies is_whitespace(#[trigger] rest[j]) by {
            assert(rest[j] == s@[lo + j]);
        }
        lemma_trim_end_ws_skip(rest, hi - lo);
        let kept = rest.subrange(0, hi - lo);
        if hi > lo {
            assert(kept.last() == s@[hi - 1]);
        }
        assert(trim_end_ws(kept) == kept);
        assert(kept =~= s@.subrange(lo as int, hi as int));
    }
    s.substring_char(lo, hi)
}

/// What a Scoop shim file points at: its one line, trimmed, of the form
/// `path = "<target>"`.
pub open spec fn shim_target_text(contents: Seq<char>) -> Option<Seq<char>> {
    let line = trim_ws(contents);
    let prefix = seq!['p', 'a', 't', 'h', ' ', '=', ' ', '"'];
    if line.len() >= 9 && line.subrange(0, 8) == prefix && line.last() == '"' {
        Some(line.subrange(8, line.len() - 1))
    } else {
        None
    }
}

/// The executable a Scoop shim file names, if it names one.
pub fn shim_target(contents: &str) -> (res: Option<String>)
    ensures
        match shim_target_text(contents@) {
            None => res is None,
            Some(t) => res matches Some(r) && r@ == t,
        },
{
    let line = trim(contents);
    let n = line.unicode_len();
    if n < 9 {
        return None;
    }
    let prefix_ok = line.get_char(0) == 'p' && line.get_char(1) == 'a' && line.get_char(2) == 't'
        && line.get_char(3) == 'h' && line.get_char(4) == ' ' && line.get_char(5) == '='
        && line.get_char(6) == ' ' && line.get_char(7) == '"';
    let ghost prefix = seq!['p', 'a', 't', 'h', ' ', '=', ' ', '"'];
    if !prefix_ok || line.get_char(n - 1) != '"' {
        proof {
            if line@.subrange(0, 8) == prefix {
                assert(line@[0] == line@.subrange(0, 8)[0]);
                assert(line@[1] == line@.subrange(0, 8)[1]);
                assert(line@[2] == line@.subrange(0, 8)[2]);
                assert(line@[3] == line@.subrange(0, 8)[3]);
                assert(line@[4] == line@.subrange(0, 8)[4]);
                assert(line@[5] == line@.subrange(0, 8)[5]);
                assert(line@[6] == line@.subrange(0, 8)[6]);
                assert(line@[7] == line@.subrange(0, 8)[7]);
            }
        }
        return None;
    }
    assert(line@.subrange(0, 8) =~= prefix);
    Some(String::from_str(line.substring_char(8, n - 1)))
}

/// The extension of a recording of `kind`.
pub open spec fn extension(kind: CaptureKind) -> Seq<char> {
    if kind == CaptureKind::Video {
        "mp4"@
    } else {
        "gif"@
    }
}

/// Segment `n` of a recording whose temporary files start with `temp_stem`:
/// `<temp_stem>.<n>.<extension>`.
pub open spec fn segment_path(temp_stem: Seq<char>, n: nat, ext: Seq<char>) -> Seq<char> {
    temp_stem + "."@ + dec(n) + "."@ + ext
}

/// The FFmpeg command line that joins the segments named in `list` into
/// `joined`: the concat demuxer, with paths taken as written, copying the
/// streams without re-encoding.
pub open spec fn concat_command(list: Seq<char>, joined: Seq<char>) -> Seq<Seq<char>> {
    seq![
        "-hide_banner"@,
        "-loglevel"@,
        "error"@,
        "-f"@,
        "concat"@,
        "-safe"@,
        "0"@,
        "-i"@,
        list,
        "-c"@,
        "copy"@,
        "-y"@,
        joined,
    ]
}

fn concat_args(list: &str, joined: &str) -> (res: Vec<String>)
    ensures
        arg_views(res@) == concat_command(list@, joined@),
{
    let mut args: Vec<String> = Vec::new();
    push_literal(&mut args, "-hide_banner");
    push_literal(&mut args, "-loglevel");
    push_literal(&mut args, "error");
    push_literal(&mut args, "-f");
    push_literal(&mut args, "concat");
    push_literal(&mut args, "-safe");
    push_literal(&mut args, "0");
    push_literal(&mut args, "-i");
    push_arg(&mut args, String::from_str(list));
    push_literal(&mut args, "-c");
    push_literal(&mut args, "copy");
    push_literal(&mut args, "-y");
    push_arg(&mut args, String::from_str(joined));
    assert(arg_views(args@) =~= concat_command(list@, joined@));
    args
}

/// How the segments of a recording are made into one file.
#[derive(Debug, PartialEq, Eq)]
pub enum JoinPlan {
    /// The only segment already is the recording.
    Single(String),
    /// Write `body` to `list` and run FFmpeg with `args`, which has the
    /// concat demuxer copy the streams into `joined`.
    Concat { list: String, body: String, joined: String, args: Vec<String> },
}

/// How the segment FFmpeg was asked to finish ended.
#[derive(Debug, PartialEq, Eq)]
pub enum SegmentExit {
    /// It did not finish within the stop timeout and was killed.
    TimedOut,
    /// It exited with `status`, leaving a file of `size` bytes.
    Exited { success: bool, status: String, size: u64 },
}

/// The bookkeeping of a recording made of one FFmpeg run per unpaused
/// stretch: where each segment goes, which one is being written, and how
/// they are joined at the end. The processes themselves are run by the
/// caller, which reports back what they did.
#[derive(Debug)]
pub struct RecordingPlan {
    kind: CaptureKind,
    temp_stem: String,
    final_path: String,
    segments: Vec<String>,
    running: bool,
}

impl RecordingPlan {
    pub closed spec fn kind(&self) -> CaptureKind {
        self.kind
    }

    /// `<temp>/<stem>`: every temporary file of the recording starts here.
    pub closed spec fn temp_stem(&self) -> Seq<char> {
        self.temp_stem@
    }

    pub closed spec fn final_path(&self) -> Seq<char> {
        self.final_path@
    }

    /// Every segment started so far, in the order they are joined.
    pub closed spec fn segments(&self) -> Seq<Seq<char>> {
        arg_views(self.segments@)
    }

    /// Whether a segment is being written right now.
    pub closed spec fn running(&self) -> bool {
        self.running
    }

    /// A plan records a video or a GIF, and its segments are numbered from
    /// zero in the order they were started.
    pub closed spec fn wf(&self) -> bool {
        &&& (self.kind == CaptureKind::Video || self.kind == CaptureKind::Gif)
        &&& forall|i: int|
            0 <= i < self.segments@.len() ==> #[trigger] self.segments@[i]@ == segment_path(
                self.temp_stem@,
                i as nat,
                extension(self.kind),
            )
    }

    /// A recording of `kind` named `stem`: segments under `temp_dir`, the
    /// finished file in the capture month's folder under `capture_root`.
    /// Only video and GIF are recorded.
    pub fn new(
        kind: CaptureKind,
        temp_dir: &str,
        capture_root: &str,
        year: u16,
        month: u16,
        stem: &str,
    ) -> (res: Result<Self, RecordingError>)
        ensures
            (kind == CaptureKind::Video || kind == CaptureKind::Gif) <==> res is Ok,
            res matches Err(e) ==> e.0@ == "unsupported recording kind"@,
            res matches Ok(plan) ==> {
                &&& plan.wf()
                &&& plan.kind() == kind
                &&& plan.temp_stem() == join_path(temp_dir@, stem@)
                &&& plan.final_path() == join_path(
                    join_path(capture_root@, month_folder_text(year as nat, month as nat)),
                    stem@ + "."@ + extension(kind),
                )
                &&& plan.segments().len() == 0
                &&& !plan.running()
            },
    {
        if kind != CaptureKind::Video && kind != CaptureKind::Gif {
            return Err(RecordingError(String::from_str("unsupported recording kind")));
        }
        let ext = if kind == CaptureKind::Video {
            "mp4"
        } else {
            "gif"
        };
        let directory = join(capture_root, month_folder(year, month).as_str());
        let mut name = String::from_str(stem);
        name.append(".");
        name.append(ext);
        let final_path = join(directory.as_str(), name.as_str());
        let temp_stem = join(temp_dir, stem);
        let plan = RecordingPlan {
            kind,
            temp_stem,
            final_path,
            segments: Vec::new(),
            running: false,
        };
        assert(plan.segments() =~= Seq::<Seq<char>>::empty());
        Ok(plan)
    }

    /// Where the next segment is written.
    pub fn next_segment_path(&self) -> (res: String)
        ensures
            res@ == segment_path(
                self.temp_stem(),
                self.segments().len(),
                extension(self.kind()),
            ),
    {
        let mut path = self.temp_stem.clone();
        path.append(".");
        push_dec(&mut path, self.segments.len() as u64);
        path.append(".");
        if self.kind == CaptureKind::Video {
            path.append("mp4");
        } else {
            path.append("gif");
        }
        path
    }

    /// The next segment's writer has started.
    pub fn segment_started(&mut self)
        requires
            old(self).wf(),
        ensures
            final(self).wf(),
            final(self).segments() == old(self).segments().push(
                segment_path(
                    old(self).temp_stem(),
                    old(self).segments().len(),
                    extension(old(self).kind()),
                ),
            ),
            final(self).running(),
            final(self).kind() == old(self).kind(),
            final(self).temp_stem() == old(self).temp_stem(),
            final(self).final_path() == old(self).final_path(),
    {
        let path = self.next_segment_path();
        self.segments.push(path);
        self.running = true;
        assert(self.segments() =~= old(self).segments().push(
            segment_path(
                old(self).temp_stem(),
                old(self).segments().len(),
                extension(old(self).kind()),
            ),
        ));
    }

    /// Pause: whether a running segment has to be finished now. Either way
    /// nothing is running afterwards.
    pub fn pause(&mut self) -> (close: bool)
        ensures
            old(self).wf() ==> final(self).wf(),
            close == old(self).running(),
            !final(self).running(),
            final(self).segments() == old(self).segments(),
            final(self).kind() == old(self).kind(),
            final(self).temp_stem() == old(self).temp_stem(),
            final(self).final_path() == old(self).final_path(),
    {
        let close = self.running;
        self.running = false;
        close
    }

    /// Resume: whether a new segment has to be started.
    pub fn resume(&self) -> (spawn: bool)
        ensures
            spawn == !self.running(),
    {
        !self.running
    }

    /// The segment being written or last written; empty before the first.
    pub open spec fn last_segment(&self) -> Seq<char> {
        if self.segments().len() == 0 {
            Seq::empty()
        } else {
            self.segments().last()
        }
    }

    /// What a finished segment means for the recording: a writer that had to
    /// be killed, failed, or left an empty file loses the take, and the
    /// message says where its temporary output is.
    pub fn close_outcome(&self, exit: &SegmentExit) -> (res: Result<(), RecordingError>)
        ensures
            match *exit {
                SegmentExit::TimedOut => res matches Err(e) && e.0@
                    == "FFmpeg stop timed out; temporary output preserved at "@
                    + self.last_segment(),
                SegmentExit::Exited { success, status, size } => if success && size > 0 {
                    res is Ok
                } else {
                    res matches Err(e) && e.0@ == "FFmpeg exited "@ + status@
                        + "; temporary output at "@ + self.last_segment()
                },
            },
    {
        let n = self.segments.len();
        let last: &str = if n == 0 {
            ""
        } else {
            self.segments[n - 1].as_str()
        };
        proof {
            if n == 0 {
                reveal_strlit("");
            }
        }
        match exit {
            SegmentExit::TimedOut => {
                let mut message = String::from_str(
                    "FFmpeg stop timed out; temporary output preserved at ",
                );
                message.append(last);
                Err(RecordingError(message))
            },
            SegmentExit::Exited { success, status, size } => {
                if *success && *size > 0 {
                    Ok(())
                } else {
                    let mut message = String::from_str("FFmpeg exited ");
                    message.append(status.as_str());
                    message.append("; temporary output at ");
                    message.append(last);
                    Err(RecordingError(message))
                }
            },
        }
    }

    /// How the segments become the recording: one segment already is it;
    /// more are remuxed through a list beside them into `<stem>.joined.<ext>`.
    pub fn join_plan(&self) -> (res: JoinPlan)
        ensures
            self.segments().len() == 1 ==> (res matches JoinPlan::Single(only) && only@
                == self.segments()[0]),
            self.segments().len() != 1 ==> (res matches JoinPlan::Concat { list, body, joined, args }
                && list@ == self.temp_stem() + ".segments.txt"@ && body@ == concat_body(
                self.segments(),
            ) && joined@ == self.temp_stem() + ".joined."@ + extension(self.kind()) && arg_views(
                args@,
            ) == concat_command(list@, joined@)),
    {
        if self.segments.len() == 1 {
            return JoinPlan::Single(self.segments[0].clone());
        }
        let mut list = self.temp_stem.clone();
        list.append(".segments.txt");
        let body = concat_list(self.segments.as_slice());
        let mut joined = self.temp_stem.clone();
        joined.append(".joined.");
        if self.kind == CaptureKind::Video {
            joined.append("mp4");
        } else {
            joined.append("gif");
        }
        let args = concat_args(list.as_str(), joined.as_str());
        JoinPlan::Concat { list, body, joined, args }
    }

    /// The error for a concat run that exited with `status`.
    pub fn join_failure(&self, status: &str) -> (res: RecordingError)
        ensures
            res.0@ == "joining "@ + dec(self.segments().len()) + " recording segments failed: FFmpeg exited "@
                + status@,
    {
        let mut message = String::from_str("joining ");
        push_dec(&mut message, self.segments.len() as u64);
        message.append(" recording segments failed: FFmpeg exited ");
        message.append(status);
        RecordingError(message)
    }

    /// The error for a joined file that could not be moved into place.
    pub fn finalize_failure(&self, joined: &str, error: &str) -> (res: RecordingError)
        ensures
            res.0@ == "finalize "@ + joined@ + " to "@ + self.final_path() + " failed: "@ + error@,
    {
        let mut message = String::from_str("finalize ");
        message.append(joined);
        message.append(" to ");
        message.append(self.final_path.as_str());
        message.append(" failed: ");
        message.append(error);
        RecordingError(message)
    }

    /// The segments, for the caller to delete.
    pub fn segment_paths(&self) -> (res: &[String])
        ensures
            arg_views(res@) == self.segments(),
    {
        self.segments.as_slice()
    }

    /// Where the finished recording goes.
    pub fn final_path_str(&self) -> (res: &str)
        ensures
            res@ == self.final_path(),
    {
        self.final_path.as_str()
    }

    pub fn kind_of(&self) -> (res: CaptureKind)
        ensures
            res == self.kind(),
    {
        self.kind
    }
}

/// A recording's segments are numbered from zero in the order they were
/// started, so the concat list joins them in recording order.
pub proof fn lemma_segments_in_recording_order(plan: RecordingPlan)
    requires
        plan.wf(),
    ensures
        plan.segments() == Seq::new(
            plan.segments().len(),
            |i: int| segment_path(plan.temp_stem(), i as nat, extension(plan.kind())),
        ),
        plan.kind() == CaptureKind::Video || plan.kind() == CaptureKind::Gif,
{
    assert(plan.segments() =~= Seq::new(
        plan.segments().len(),
        |i: int| segment_path(plan.temp_stem(), i as nat, extension(plan.kind())),
    ));
}

} // verus!
