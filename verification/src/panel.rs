//! The words on the main panel: the status well, the card labels, the
//! footer chips and the recording buttons. Every state has written text; a
//! user never reads a Rust type off the panel.

use vstd::prelude::*;

use crate::geometry::CaptureTarget;
use crate::icons::Icon;
use crate::platform::{chord_label_on, first_binding, hotkey_table_on, shortcut_label_on, Desktop};
use crate::state::{CaptureCommand, CaptureFailure, CaptureKind, CaptureState, SavedOutput};
use crate::text::{dec, dec_padded, dec_string, push_char, push_dec, push_dec_padded, same_text};

verus! {

/// The primary controls' element ids, which the interaction suite finds
/// them by.
pub fn control_ids() -> (res: [&'static str; 6])
    ensures
        res[0]@ == "capture-region"@,
        res[1]@ == "capture-window"@,
        res[2]@ == "record-video"@,
        res[3]@ == "record-gif"@,
        res[4]@ == "open-output"@,
        res[5]@ == "toggle-audio"@,
{
    ["capture-region", "capture-window", "record-video", "record-gif", "open-output", "toggle-audio"]
}

/// The countdown choice's element id: off, three seconds, or five.
pub fn countdown_slot_id(seconds: u8) -> (res: &'static str)
    ensures
        res@ == (if seconds == 0 {
            "countdown-off"@
        } else if seconds == 3 {
            "countdown-3"@
        } else {
            "countdown-5"@
        }),
{
    match seconds {
        0 => "countdown-off",
        3 => "countdown-3",
        _ => "countdown-5",
    }
}

/// What a screen reader says of a countdown choice.
pub fn countdown_slot_label(seconds: u8) -> (res: String)
    ensures
        res@ == (if seconds == 0 {
            "No countdown"@
        } else {
            dec(seconds as nat) + " second countdown"@
        }),
{
    if seconds == 0 {
        String::from_str("No countdown")
    } else {
        let mut out = String::new();
        push_dec(&mut out, seconds as u64);
        out.append(" second countdown");
        out
    }
}

/// The frame-rate badge beside the wordmark: both rates, video first, the
/// order the cards sit in below it.
pub fn rate_badge(video_fps: u32, gif_fps: u32) -> (res: String)
    ensures
        res@ == dec(video_fps as nat) + " / "@ + dec(gif_fps as nat) + " FPS"@,
{
    let mut out = String::new();
    push_dec(&mut out, video_fps as u64);
    out.append(" / ");
    push_dec(&mut out, gif_fps as u64);
    out.append(" FPS");
    out
}

/// Characters the saved chip can show.
pub const SAVED_LABEL_MAX: usize = 16;

/// How much of a name's tail a trim keeps: the extension and the guard that
/// separates two captures of the same second.
pub const SAVED_LABEL_TAIL: usize = 8;

/// How long the saved chip stays up, in milliseconds.
pub const SAVED_CHIP_MS: u64 = 6000;

/// How the panel names a kind.
pub open spec fn panel_noun(kind: CaptureKind) -> Seq<char> {
    match kind {
        CaptureKind::Video => "Video"@,
        CaptureKind::Gif => "GIF"@,
        CaptureKind::RegionScreenshot => "Region"@,
        CaptureKind::ActiveWindowScreenshot => "Window"@,
    }
}

pub fn kind_noun(kind: CaptureKind) -> (res: &'static str)
    ensures
        res@ == panel_noun(kind),
{
    match kind {
        CaptureKind::Video => "Video",
        CaptureKind::Gif => "GIF",
        CaptureKind::RegionScreenshot => "Region",
        CaptureKind::ActiveWindowScreenshot => "Window",
    }
}

/// `800 × 600`.
pub open spec fn size_text(width: u32, height: u32) -> Seq<char> {
    dec(width as nat) + " × "@ + dec(height as nat)
}

/// The status well's text for each state: what is armed when idle, and
/// what is running otherwise.
pub open spec fn status_text_of(state: CaptureState, target: Option<CaptureTarget>) -> Seq<char> {
    match state {
        CaptureState::Idle => match target {
            Some(CaptureTarget::Region(region)) => "Selected "@ + size_text(
                region.width,
                region.height,
            ),
            Some(CaptureTarget::Window { process_name, .. }) => "Selected "@ + process_name@,
            None => "Ready"@,
        },
        CaptureState::Selecting(_) => "Selecting · Esc to cancel"@,
        CaptureState::Countdown(kind, seconds) => panel_noun(kind) + " starts in "@ + dec(
            seconds as nat,
        ),
        CaptureState::Recording(kind) => "Recording "@ + panel_noun(kind),
        CaptureState::Paused(kind) => "Paused "@ + panel_noun(kind),
        CaptureState::Finalizing(kind) => "Finalizing "@ + panel_noun(kind) + "…"@,
        CaptureState::Error(failure) => failure.summary@,
    }
}

fn push_size(out: &mut String, width: u32, height: u32)
    ensures
        final(out)@ == old(out)@ + size_text(width, height),
{
    let ghost start = out@;
    push_dec(out, width as u64);
    out.append(" × ");
    push_dec(out, height as u64);
    assert(out@ =~= start + size_text(width, height));
}

/// The status well's text.
pub fn status_text(state: &CaptureState, target: Option<&CaptureTarget>) -> (res: String)
    ensures
        res@ == status_text_of(
            *state,
            match target {
                Some(t) => Some(*t),
                None => None,
            },
        ),
{
    let mut out = String::new();
    match state {
        CaptureState::Idle => match target {
            Some(CaptureTarget::Region(region)) => {
                out.append("Selected ");
                push_size(&mut out, region.width, region.height);
            },
            Some(CaptureTarget::Window { process_name, .. }) => {
                out.append("Selected ");
                out.append(process_name.as_str());
            },
            None => out.append("Ready"),
        },
        CaptureState::Selecting(_) => out.append("Selecting · Esc to cancel"),
        CaptureState::Countdown(kind, seconds) => {
            out.append(kind_noun(*kind));
            out.append(" starts in ");
            push_dec(&mut out, *seconds as u64);
        },
        CaptureState::Recording(kind) => {
            out.append("Recording ");
            out.append(kind_noun(*kind));
        },
        CaptureState::Paused(kind) => {
            out.append("Paused ");
            out.append(kind_noun(*kind));
        },
        CaptureState::Finalizing(kind) => {
            out.append("Finalizing ");
            out.append(kind_noun(*kind));
            out.append("…");
        },
        CaptureState::Error(failure) => out.append(failure.summary.as_str()),
    }
    out
}

/// The region card shows the armed region's size in place of its name.
pub fn region_label(target: Option<&CaptureTarget>) -> (res: String)
    ensures
        res@ == match target {
            Some(CaptureTarget::Region(region)) => size_text(region.width, region.height),
            _ => "Region"@,
        },
{
    match target {
        Some(CaptureTarget::Region(region)) => {
            let mut out = String::new();
            push_size(&mut out, region.width, region.height);
            out
        },
        _ => String::from_str("Region"),
    }
}

/// The window card shows the armed window's process in place of its name.
pub fn window_label(target: Option<&CaptureTarget>) -> (res: String)
    ensures
        res@ == match target {
            Some(CaptureTarget::Window { process_name, .. }) => process_name@,
            _ => "Window"@,
        },
{
    match target {
        Some(CaptureTarget::Window { process_name, .. }) => process_name.clone(),
        _ => String::from_str("Window"),
    }
}

pub open spec fn is_separator(c: char) -> bool {
    c == '/' || c == '\\'
}

/// `s` without the separators at its end.
pub open spec fn trim_separators(s: Seq<char>) -> Seq<char>
    decreases s.len(),
{
    if s.len() > 0 && is_separator(s.last()) {
        trim_separators(s.drop_last())
    } else {
        s
    }
}

/// What follows the last separator in `s`.
pub open spec fn after_last_separator(s: Seq<char>) -> Seq<char>
    decreases s.len(),
{
    if s.len() == 0 {
        s
    } else if is_separator(s.last()) {
        Seq::empty()
    } else {
        after_last_separator(s.drop_last()).push(s.last())
    }
}

/// The last non-empty segment of a path, split at either separator.
pub open spec fn last_segment(path: Seq<char>) -> Seq<char> {
    after_last_separator(trim_separators(path))
}

/// The folder chip: the last segment of the path, or the path itself when
/// it has no non-empty segment.
pub open spec fn folder_label_text(path: Seq<char>) -> Seq<char> {
    if last_segment(path).len() == 0 {
        path
    } else {
        last_segment(path)
    }
}

/// The index where the last non-empty segment of `path[..end]` begins, and
/// `end` shortened past trailing separators.
pub(crate) fn segment_bounds(path: &str) -> (res: (usize, usize))
    ensures
        res.0 <= res.1 <= path@.len(),
        path@.subrange(res.0 as int, res.1 as int) == last_segment(path@),
{
    let n = path.unicode_len();
    let mut end: usize = n;
    assert(path@.subrange(0, n as int) =~= path@);
    while end > 0 && (path.get_char(end - 1) == '/' || path.get_char(end - 1) == '\\')
        invariant
            end <= path@.len(),
            trim_separators(path@.subrange(0, end as int)) == trim_separators(path@),
        decreases end,
    {
        proof {
            assert(path@.subrange(0, end as int).drop_last() =~= path@.subrange(0, end - 1));
        }
        end = end - 1;
    }
    proof {
        let t = path@.subrange(0, end as int);
        if end > 0 {
            assert(t.last() == path@[end - 1]);
        }
        assert(trim_separators(t) == t);
    }
    let mut start: usize = end;
    while start > 0 && path.get_char(start - 1) != '/' && path.get_char(start - 1) != '\\'
        invariant
            start <= end <= path@.len(),
            after_last_separator(path@.subrange(0, end as int)) == after_last_separator(
                path@.subrange(0, start as int),
            ) + path@.subrange(start as int, end as int),
        decreases start,
    {
        proof {
            let t = path@.subrange(0, start as int);
            assert(t.drop_last() =~= path@.subrange(0, start - 1));
            assert(t.last() == path@[start - 1]);
            assert(after_last_separator(t) == after_last_separator(t.drop_last()).push(t.last()));
            assert(path@.subrange(start - 1, end as int) =~= seq![path@[start - 1]]
                + path@.subrange(start as int, end as int));
            assert(after_last_separator(t.drop_last()).push(t.last()) + path@.subrange(
                start as int,
                end as int,
            ) =~= after_last_separator(t.drop_last()) + path@.subrange(start - 1, end as int));
        }
        start = start - 1;
    }
    proof {
        let t = path@.subrange(0, start as int);
        if start > 0 {
            assert(t.last() == path@[start - 1]);
        }
        assert(after_last_separator(t).len() == 0);
        assert(after_last_separator(t) + path@.subrange(start as int, end as int)
            =~= path@.subrange(start as int, end as int));
    }
    (start, end)
}

/// The folder chip's text: the tail of the path is the part that
/// identifies it.
pub fn folder_label(path: &str) -> (res: String)
    ensures
        res@ == folder_label_text(path@),
{
    let (start, end) = segment_bounds(path);
    if start == end {
        String::from_str(path)
    } else {
        String::from_str(path.substring_char(start, end))
    }
}

/// The file name a path ends in: its last non-empty segment, unless that is
/// `..` or there is none.
pub open spec fn file_name_of(path: Seq<char>) -> Option<Seq<char>> {
    let segment = last_segment(path);
    if segment.len() == 0 || segment == seq!['.', '.'] {
        None
    } else {
        Some(segment)
    }
}

/// The saved chip's text: the file name, trimmed from the middle past
/// sixteen characters so the process name stays at the front and the guard
/// and extension at the back; the whole path when it names no file.
pub open spec fn saved_label_text(path: Seq<char>) -> Seq<char> {
    match file_name_of(path) {
        None => path,
        Some(name) => if name.len() <= SAVED_LABEL_MAX {
            name
        } else {
            name.subrange(0, (SAVED_LABEL_MAX - 1 - SAVED_LABEL_TAIL) as int) + "…"@
                + name.subrange(name.len() - SAVED_LABEL_TAIL, name.len() as int)
        },
    }
}

/// The saved chip's text.
pub fn saved_label(path: &str) -> (res: String)
    ensures
        res@ == saved_label_text(path@),
{
    let (start, end) = segment_bounds(path);
    let name = path.substring_char(start, end);
    let count = end - start;
    let dots = count == 2 && name.get_char(0) == '.' && name.get_char(1) == '.';
    proof {
        if name@ == seq!['.', '.'] {
            assert(name@[0] == '.' && name@[1] == '.');
        }
        if dots {
            assert(name@ =~= seq!['.', '.']);
        }
    }
    if count == 0 || dots {
        return String::from_str(path);
    }
    if count <= SAVED_LABEL_MAX {
        return String::from_str(name);
    }
    let mut out = String::from_str(name.substring_char(0, SAVED_LABEL_MAX - 1 - SAVED_LABEL_TAIL));
    out.append("…");
    out.append(name.substring_char(count - SAVED_LABEL_TAIL, count));
    out
}

/// `2` to the `n`.
pub open spec fn two_to(n: nat) -> nat
    decreases n,
{
    if n == 0 {
        1
    } else {
        2 * two_to((n - 1) as nat)
    }
}

/// How many low bits of `b` do not fit a double's 53-bit significand.
pub open spec fn excess_bits(b: nat) -> nat
    decreases b,
{
    if b < 0x20_0000_0000_0000 {
        0
    } else {
        1 + excess_bits(b / 2)
    }
}

/// `num / den` rounded to the nearest whole number, a tie to the even one.
pub open spec fn round_half_even(num: nat, den: nat) -> nat {
    let q = num / den;
    let r = num % den;
    if 2 * r > den || (2 * r == den && q % 2 == 1) {
        q + 1
    } else {
        q
    }
}

/// `b` as the nearest double holds it: rounded to 53 significant bits, a
/// tie to the even significand. Exact below 2^53.
pub open spec fn as_double(b: nat) -> nat {
    let p = two_to(excess_bits(b));
    round_half_even(b, p) * p
}

proof fn lemma_two_to_positive(n: nat)
    ensures
        two_to(n) >= 1,
    decreases n,
{
    if n > 0 {
        lemma_two_to_positive((n - 1) as nat);
    }
}

/// `b` converted to a double, as a whole number.
fn nearest_double(b: u64) -> (res: u128)
    ensures
        res == as_double(b as nat),
{
    let mut p: u128 = 1;
    let mut t: u64 = b;
    while t >= 0x20_0000_0000_0000
        invariant
            1 <= p <= 0x1_0000_0000_0000_0000,
            t > 0 ==> p <= b,
            t as nat == (b as nat) / (p as nat),
            two_to(excess_bits(b as nat)) == p * two_to(excess_bits(t as nat)),
        decreases t,
    {
        proof {
            vstd::arithmetic::div_mod::lemma_div_denominator(b as int, p as int, 2);
            assert(two_to(excess_bits(t as nat)) == 2 * two_to(excess_bits((t / 2) as nat)));
            assert(p * (2 * two_to(excess_bits((t / 2) as nat))) == (p * 2) * two_to(
                excess_bits((t / 2) as nat),
            )) by (nonlinear_arith);
            assert((b as nat) / ((p * 2) as nat) >= 1);
            assert(p * 2 <= b) by (nonlinear_arith)
                requires
                    (b as nat) / ((p * 2) as nat) >= 1,
                    p >= 1,
            ;
        }
        t = t / 2;
        p = p * 2;
    }
    assert(excess_bits(t as nat) == 0);
    assert(two_to(0) == 1);
    assert(two_to(excess_bits(t as nat)) == 1);
    assert(p * two_to(excess_bits(t as nat)) == p) by (nonlinear_arith)
        requires
            two_to(excess_bits(t as nat)) == 1,
    ;
    assert(two_to(excess_bits(b as nat)) == p);
    let r: u128 = b as u128 % p;
    let q: u128 = t as u128;
    let up = 2 * r > p || (2 * r == p && q % 2 == 1);
    let m: u128 = if up {
        q + 1
    } else {
        q
    };
    assert(m * p <= 0x20_0000_0000_0000 * 0x1_0000_0000_0000_0000) by (nonlinear_arith)
        requires
            m <= 0x20_0000_0000_0000,
            p <= 0x1_0000_0000_0000_0000,
    ;
    m * p
}

/// The binary unit a size of `g` bytes (at least a kilobyte) is written in:
/// the largest of KB, MB, GB and TB that it reaches, as an index.
pub open spec fn size_unit(g: nat) -> nat {
    if g >= 0x100_0000_0000 {
        3
    } else if g >= 0x4000_0000 {
        2
    } else if g >= 0x10_0000 {
        1
    } else {
        0
    }
}

/// The bytes in one of the unit at index `k`.
pub open spec fn unit_bytes(k: nat) -> nat {
    if k == 0 {
        0x400
    } else if k == 1 {
        0x10_0000
    } else if k == 2 {
        0x4000_0000
    } else {
        0x100_0000_0000
    }
}

pub open spec fn unit_name(k: nat) -> Seq<char> {
    if k == 0 {
        "KB"@
    } else if k == 1 {
        "MB"@
    } else if k == 2 {
        "GB"@
    } else {
        "TB"@
    }
}

/// Decimals for three significant digits: two below ten units, one below a
/// hundred, none from there.
pub open spec fn size_decimals(g: nat, unit: nat) -> nat {
    if g < 10 * unit {
        2
    } else if g < 100 * unit {
        1
    } else {
        0
    }
}

pub open spec fn ten_to(d: nat) -> nat {
    if d == 0 {
        1
    } else if d == 1 {
        10
    } else {
        100
    }
}

/// `q` hundredths, tenths or units written with `d` decimals.
pub open spec fn fixed_point(q: nat, d: nat) -> Seq<char> {
    if d == 0 {
        dec(q)
    } else {
        dec(q / ten_to(d)) + "."@ + dec_padded(q % ten_to(d), d)
    }
}

/// A file's size the way Explorer writes it, and so the way the user finds
/// it when they go looking: bytes below a kilobyte, else three significant
/// digits of the largest binary unit it reaches, up to terabytes - `1.00 KB`,
/// `12.4 MB`, `123 MB`. The size is taken as a double holds it, and rounded
/// to its decimals with a tie to the even digit.
pub open spec fn file_size_text(bytes: u64) -> Seq<char> {
    if bytes < 1024 {
        dec(bytes as nat) + " B"@
    } else {
        let g = as_double(bytes as nat);
        let k = size_unit(g);
        let d = size_decimals(g, unit_bytes(k));
        fixed_point(round_half_even(g * ten_to(d), unit_bytes(k)), d) + " "@ + unit_name(k)
    }
}

/// A file's size as the status well writes it.
pub fn file_size(bytes: u64) -> (res: String)
    ensures
        res@ == file_size_text(bytes),
{
    if bytes < 1024 {
        let mut out = dec_string(bytes);
        out.append(" B");
        return out;
    }
    let g: u128 = nearest_double(bytes);
    proof {
        lemma_as_double_bounds(bytes as nat);
    }
    let (k, unit, name): (u64, u128, &str) = if g >= 0x100_0000_0000 {
        (3, 0x100_0000_0000, "TB")
    } else if g >= 0x4000_0000 {
        (2, 0x4000_0000, "GB")
    } else if g >= 0x10_0000 {
        (1, 0x10_0000, "MB")
    } else {
        (0, 0x400, "KB")
    };
    let (d, scale): (u64, u128) = if g < 10 * unit {
        (2, 100)
    } else if g < 100 * unit {
        (1, 10)
    } else {
        (0, 1)
    };
    let num: u128 = g * scale;
    let q: u128 = num / unit;
    let r: u128 = num % unit;
    let rounded: u128 = if 2 * r > unit || (2 * r == unit && q % 2 == 1) {
        q + 1
    } else {
        q
    };
    assert(rounded == round_half_even((g as nat) * ten_to(d as nat), unit_bytes(k as nat)));
    proof {
        vstd::arithmetic::div_mod::lemma_fundamental_div_mod(num as int, unit as int);
        assert(num <= 0x2_0000_0000_0000_0000 * 100) by (nonlinear_arith)
            requires
                num == g * scale,
                scale <= 100,
                g <= 0x2_0000_0000_0000_0000,
        ;
        assert(q * 1024 <= num) by (nonlinear_arith)
            requires
                q * unit + num % unit == num,
                num % unit >= 0,
                unit >= 1024,
                q >= 0,
        ;
    }
    assert(rounded < 0x8000_0000_0000_0000);
    let value: u64 = rounded as u64;
    let mut out = String::new();
    if d == 0 {
        push_dec(&mut out, value);
    } else {
        push_dec(&mut out, value / scale as u64);
        out.append(".");
        push_dec_padded(&mut out, value % scale as u64, d as usize);
    }
    out.append(" ");
    out.append(name);
    proof {
        reveal_strlit("TB");
        reveal_strlit("GB");
        reveal_strlit("MB");
        reveal_strlit("KB");
    }
    assert(out@ =~= file_size_text(bytes));
    out
}

/// What is left of `b` after dropping its excess bits fits the significand,
/// and, when anything was dropped, still fills its top bit.
proof fn lemma_excess_bits(b: nat)
    ensures
        two_to(excess_bits(b)) >= 1,
        b / two_to(excess_bits(b)) < 0x20_0000_0000_0000,
        excess_bits(b) > 0 ==> b / two_to(excess_bits(b)) >= 0x10_0000_0000_0000,
    decreases b,
{
    if b >= 0x20_0000_0000_0000 {
        let half = b / 2;
        lemma_excess_bits(half);
        let inner = two_to(excess_bits(half));
        assert(two_to(excess_bits(b)) == 2 * inner);
        vstd::arithmetic::div_mod::lemma_div_denominator(b as int, 2, inner as int);
        assert(b / two_to(excess_bits(b)) == half / inner);
    }
}

/// Converting to a double keeps a kilobyte-or-more size at least a kilobyte,
/// and under twice what it was.
proof fn lemma_as_double_bounds(b: nat)
    requires
        1024 <= b,
    ensures
        1024 <= as_double(b) <= 2 * b,
{
    lemma_excess_bits(b);
    let p = two_to(excess_bits(b));
    let q = b / p;
    vstd::arithmetic::div_mod::lemma_fundamental_div_mod(b as int, p as int);
    assert(q * p <= b);
    let m = round_half_even(b, p);
    assert(q <= m <= q + 1);
    if excess_bits(b) == 0 {
        assert(p == 1);
        assert(q == b) by (nonlinear_arith)
            requires
                q == b / p,
                p == 1,
        ;
        assert(m == q) by {
            assert(b % p == 0);
        }
        assert(m * p == b);
    } else {
        assert(q >= 0x10_0000_0000_0000);
        assert(q * p >= 0x10_0000_0000_0000) by (nonlinear_arith)
            requires
                q >= 0x10_0000_0000_0000,
                p >= 1,
        ;
        assert(p <= q * p) by (nonlinear_arith)
            requires
                q >= 1,
                p >= 1,
        ;
        assert(m * p >= q * p) by (nonlinear_arith)
            requires
                m >= q,
                p >= 1,
        ;
        assert(m * p <= q * p + p) by (nonlinear_arith)
            requires
                m <= q + 1,
                p >= 1,
        ;
    }
}

/// `00:42`, and `1:02:07` past an hour: minutes and seconds always two
/// digits. `ms` is truncated to whole seconds.
pub open spec fn clock_text(ms: u64) -> Seq<char> {
    let seconds = ms / 1000;
    let hours = seconds / 3600;
    let minutes = (seconds % 3600) / 60;
    let secs = seconds % 60;
    if hours == 0 {
        dec_padded(minutes as nat, 2) + seq![':'] + dec_padded(secs as nat, 2)
    } else {
        dec(hours as nat) + seq![':'] + dec_padded(minutes as nat, 2) + seq![':'] + dec_padded(
            secs as nat,
            2,
        )
    }
}

/// The length of a recording as the status well shows it.
pub fn clock(ms: u64) -> (res: String)
    ensures
        res@ == clock_text(ms),
{
    let seconds = ms / 1000;
    let hours = seconds / 3600;
    let minutes = (seconds % 3600) / 60;
    let secs = seconds % 60;
    let mut out = String::new();
    if hours != 0 {
        push_dec(&mut out, hours);
        push_char(&mut out, ':');
    }
    push_dec_padded(&mut out, minutes, 2);
    push_char(&mut out, ':');
    push_dec_padded(&mut out, secs, 2);
    assert(out@ =~= clock_text(ms));
    out
}

/// What the status well reads while the saved chip is up: a recording's
/// length and size, a screenshot's clipboard result, or what is still known
/// of a file that can no longer be measured. `size` is the file's size as
/// the footer writes it, when the file could be measured.
pub open spec fn saved_summary_text(
    recorded: Option<u64>,
    copied: bool,
    size: Option<Seq<char>>,
) -> Seq<char> {
    match (recorded, size) {
        (Some(ms), Some(s)) => clock_text(ms) + " · "@ + s,
        (Some(ms), None) => clock_text(ms),
        (None, Some(s)) => if copied {
            "Copied"@
        } else {
            "Saved · "@ + s
        },
        (None, None) => if copied {
            "Copied"@
        } else {
            "Saved"@
        },
    }
}

/// The status well's text for a saved capture.
pub fn saved_summary(output: &SavedOutput, size: Option<&str>) -> (res: String)
    ensures
        res@ == saved_summary_text(
            output.recorded,
            output.copied,
            match size {
                Some(s) => Some(s@),
                None => None,
            },
        ),
{
    match (output.recorded, size) {
        (Some(ms), Some(s)) => {
            let mut out = clock(ms);
            out.append(" · ");
            out.append(s);
            out
        },
        (Some(ms), None) => clock(ms),
        (None, Some(s)) => {
            if output.copied {
                String::from_str("Copied")
            } else {
                let mut out = String::from_str("Saved · ");
                out.append(s);
                out
            }
        },
        (None, None) => {
            if output.copied {
                String::from_str("Copied")
            } else {
                String::from_str("Saved")
            }
        },
    }
}

/// A recording button's label: `Cancel` during its countdown, `Stop` while
/// its recording runs, pauses or finalises, and its name otherwise.
pub open spec fn recording_label_text(state: CaptureState, kind: CaptureKind) -> Seq<char> {
    let video = kind == CaptureKind::Video;
    match state {
        CaptureState::Countdown(active, _) if active == kind => if video {
            "Cancel Video"@
        } else {
            "Cancel GIF"@
        },
        CaptureState::Recording(active) if active == kind => if video {
            "Stop Video"@
        } else {
            "Stop GIF"@
        },
        CaptureState::Paused(active) if active == kind => if video {
            "Stop Video"@
        } else {
            "Stop GIF"@
        },
        CaptureState::Finalizing(active) if active == kind => if video {
            "Stop Video"@
        } else {
            "Stop GIF"@
        },
        _ => if video {
            "Video"@
        } else {
            "GIF"@
        },
    }
}

pub fn recording_label(state: &CaptureState, kind: CaptureKind) -> (res: &'static str)
    ensures
        res@ == recording_label_text(*state, kind),
{
    let video = kind == CaptureKind::Video;
    let (counting, running) = match state {
        CaptureState::Countdown(active, _) => (*active == kind, false),
        CaptureState::Recording(active) | CaptureState::Paused(active)
        | CaptureState::Finalizing(active) => (false, *active == kind),
        _ => (false, false),
    };
    if counting {
        if video {
            "Cancel Video"
        } else {
            "Cancel GIF"
        }
    } else if running {
        if video {
            "Stop Video"
        } else {
            "Stop GIF"
        }
    } else if video {
        "Video"
    } else {
        "GIF"
    }
}

/// A card's shortcut pill: the chord, and whether RapidCap holds it.
#[derive(Debug, PartialEq, Eq)]
pub struct Shortcut {
    pub label: String,
    pub registered: bool,
}

impl Shortcut {
    /// `Alt+E` when the chord is ours, `Alt+E · taken` when another app
    /// claimed it first.
    pub fn text(&self) -> (res: String)
        ensures
            res@ == if self.registered {
                self.label@
            } else {
                self.label@ + " · taken"@
            },
    {
        if self.registered {
            self.label.clone()
        } else {
            let mut out = self.label.clone();
            out.append(" · taken");
            out
        }
    }
}

/// The chord a card prints for `command` on `desktop`: empty for a command
/// nobody bound.
pub open spec fn card_chord(desktop: Desktop, command: CaptureCommand) -> Seq<char> {
    match first_binding(hotkey_table_on(desktop), command, 0) {
        None => Seq::empty(),
        Some(i) => chord_label_on(
            desktop,
            hotkey_table_on(desktop)[i].modifiers,
            hotkey_table_on(desktop)[i].code,
        ),
    }
}

/// What a card prints under its name for `command`: the chord, marked as
/// taken when it is among the commands whose chord another app already held
/// when RapidCap started. The chord still prints then - the user needs to
/// know which key it was that another app took.
pub fn card_shortcut(desktop: Desktop, command: CaptureCommand, unavailable: &[CaptureCommand]) -> (res:
    Shortcut)
    ensures
        res.label@ == card_chord(desktop, command),
        res.registered == !unavailable@.contains(command),
{
    let label = match shortcut_label_on(desktop, command) {
        Some(label) => label,
        None => String::new(),
    };
    let mut taken = false;
    let mut i: usize = 0;
    while i < unavailable.len()
        invariant
            i <= unavailable@.len(),
            taken == (exists|j: int| 0 <= j < i && unavailable@[j] == command),
        decreases unavailable@.len() - i,
    {
        if unavailable[i] == command {
            taken = true;
        }
        i = i + 1;
    }
    proof {
        if taken {
            let j = choose|j: int| 0 <= j < unavailable@.len() && unavailable@[j] == command;
            assert(unavailable@.contains(command));
        } else {
            assert(!unavailable@.contains(command)) by {
                if unavailable@.contains(command) {
                    let j = choose|j: int| 0 <= j < unavailable@.len() && unavailable@[j] == command;
                    assert(unavailable@[j] == command);
                }
            }
        }
    }
    Shortcut { label, registered: !taken }
}

/// The status well's dot: the recording colour while capturing, muted pill
/// grey while paused or finalising, the warning colour on a failure, and
/// the accent while a target is being picked or is armed.
#[derive(Clone, Copy, Debug, PartialEq, Eq, Structural)]
pub enum StatusTone {
    Recording,
    Pill,
    Warning,
    Accent,
    Muted,
}

pub open spec fn status_tone_of(state: CaptureState, has_target: bool) -> StatusTone {
    match state {
        CaptureState::Recording(_) | CaptureState::Countdown(_, _) => StatusTone::Recording,
        CaptureState::Paused(_) | CaptureState::Finalizing(_) => StatusTone::Pill,
        CaptureState::Error(_) => StatusTone::Warning,
        CaptureState::Selecting(_) => StatusTone::Accent,
        CaptureState::Idle => if has_target {
            StatusTone::Accent
        } else {
            StatusTone::Muted
        },
    }
}

/// The colour of the status well's dot.
pub fn status_dot(state: &CaptureState, has_target: bool) -> (res: StatusTone)
    ensures
        res == status_tone_of(*state, has_target),
{
    match state {
        CaptureState::Recording(_) | CaptureState::Countdown(_, _) => StatusTone::Recording,
        CaptureState::Paused(_) | CaptureState::Finalizing(_) => StatusTone::Pill,
        CaptureState::Error(_) => StatusTone::Warning,
        CaptureState::Selecting(_) => StatusTone::Accent,
        CaptureState::Idle => if has_target {
            StatusTone::Accent
        } else {
            StatusTone::Muted
        },
    }
}

proof fn lemma_two_digits(n: nat)
    requires
        n < 100,
    ensures
        dec_padded(n, 2).len() == 2,
{
    if n >= 10 {
        assert(n / 10 < 10);
        assert(dec(n / 10).len() == 1);
    }
}

/// The clock keeps a stable width: under an hour it is always five
/// characters, `MM:SS`, so the status well does not reflow as it runs.
pub proof fn lemma_clock_width(ms: u64)
    requires
        ms < 3_600_000,
    ensures
        clock_text(ms).len() == 5,
        clock_text(ms)[2] == ':',
{
    let seconds = ms / 1000;
    assert(seconds < 3600);
    assert(seconds / 3600 == 0);
    lemma_two_digits(((seconds % 3600) / 60) as nat);
    lemma_two_digits((seconds % 60) as nat);
}

/// Brackets, braces and quotes: what a Rust type's debug text is made of.
pub open spec fn is_debris(c: char) -> bool {
    c == '(' || c == ')' || c == '{' || c == '}' || c == '"'
}

pub open spec fn free_of_debris(s: Seq<char>) -> bool {
    forall|i: int| 0 <= i < s.len() ==> !is_debris(#[trigger] s[i])
}

proof fn lemma_free_concat_text(a: Seq<char>, b: Seq<char>)
    requires
        free_of_debris(a),
        free_of_debris(b),
    ensures
        free_of_debris(a + b),
{
    assert forall|i: int| 0 <= i < (a + b).len() implies !is_debris(#[trigger] (a + b)[i]) by {
        if i < a.len() {
            assert((a + b)[i] == a[i]);
        } else {
            assert((a + b)[i] == b[i - a.len()]);
        }
    }
}

proof fn lemma_dec_free(n: nat)
    ensures
        free_of_debris(dec(n)),
{
    crate::text::lemma_dec_digits(n);
}

/// No state reads as a Rust type in the status well: whatever the state,
/// its text holds no bracket, brace or quote, as long as the text it
/// carries from outside (a window's process name, a failure's summary)
/// holds none either.
pub proof fn lemma_status_text_has_no_debris(state: CaptureState, target: Option<CaptureTarget>)
    requires
        target matches Some(CaptureTarget::Window { process_name, .. }) ==> free_of_debris(
            process_name@,
        ),
        state matches CaptureState::Error(failure) ==> free_of_debris(failure.summary@),
    ensures
        free_of_debris(status_text_of(state, target)),
{
    reveal_strlit("Video");
    reveal_strlit("GIF");
    reveal_strlit("Region");
    reveal_strlit("Window");
    reveal_strlit("Selected ");
    reveal_strlit(" × ");
    reveal_strlit("Ready");
    reveal_strlit("Selecting · Esc to cancel");
    reveal_strlit(" starts in ");
    reveal_strlit("Recording ");
    reveal_strlit("Paused ");
    reveal_strlit("Finalizing ");
    reveal_strlit("…");
    assert(free_of_debris("Selected "@));
    assert(free_of_debris(" × "@));
    assert(free_of_debris("Ready"@));
    assert(free_of_debris("Selecting · Esc to cancel"@));
    assert(free_of_debris(" starts in "@));
    assert(free_of_debris("Recording "@));
    assert(free_of_debris("Paused "@));
    assert(free_of_debris("Finalizing "@));
    assert(free_of_debris("…"@));
    assert forall|kind: CaptureKind| free_of_debris(#[trigger] panel_noun(kind)) by {
        assert(free_of_debris("Video"@));
        assert(free_of_debris("GIF"@));
        assert(free_of_debris("Region"@));
        assert(free_of_debris("Window"@));
    }
    match state {
        CaptureState::Idle => match target {
            Some(CaptureTarget::Region(region)) => {
                lemma_dec_free(region.width as nat);
                lemma_dec_free(region.height as nat);
                lemma_free_concat_text(dec(region.width as nat), " × "@);
                lemma_free_concat_text(dec(region.width as nat) + " × "@, dec(region.height as nat));
                lemma_free_concat_text("Selected "@, size_text(region.width, region.height));
            },
            Some(CaptureTarget::Window { process_name, .. }) => {
                lemma_free_concat_text("Selected "@, process_name@);
            },
            None => {},
        },
        CaptureState::Selecting(_) => {},
        CaptureState::Countdown(kind, seconds) => {
            lemma_dec_free(seconds as nat);
            lemma_free_concat_text(panel_noun(kind), " starts in "@);
            lemma_free_concat_text(panel_noun(kind) + " starts in "@, dec(seconds as nat));
        },
        CaptureState::Recording(kind) => {
            lemma_free_concat_text("Recording "@, panel_noun(kind));
        },
        CaptureState::Paused(kind) => {
            lemma_free_concat_text("Paused "@, panel_noun(kind));
        },
        CaptureState::Finalizing(kind) => {
            lemma_free_concat_text("Finalizing "@, panel_noun(kind));
            lemma_free_concat_text("Finalizing "@ + panel_noun(kind), "…"@);
        },
        CaptureState::Error(_) => {},
    }
}

/// The confirmation in the footer for the few seconds after a capture
/// lands: the saved file, and the text the status well shows in place of
/// the state while it is up.
pub struct SavedChip {
    notice: Option<(String, String)>,
}

impl SavedChip {
    /// The file the chip offers and the status well's text, while it is up.
    pub closed spec fn shown(&self) -> Option<(Seq<char>, Seq<char>)> {
        match self.notice {
            Some((path, summary)) => Some((path@, summary@)),
            None => None,
        }
    }

    /// No chip up.
    pub fn new() -> (res: Self)
        ensures
            res.shown() is None,
    {
        SavedChip { notice: None }
    }

    /// A capture landed: its chip replaces whatever was up. `size` is the
    /// file's size as the footer writes it, when it could be measured.
    pub fn show(&mut self, output: &SavedOutput, size: Option<&str>)
        ensures
            final(self).shown() == Some(
                (
                    output.path@,
                    saved_summary_text(
                        output.recorded,
                        output.copied,
                        match size {
                            Some(s) => Some(s@),
                            None => None,
                        },
                    ),
                ),
            ),
    {
        let summary = saved_summary(output, size);
        self.notice = Some((output.path.clone(), summary));
    }

    /// The timer started when the chip for `path` went up has run out. Only
    /// that chip may be taken down: a capture that landed since owns the
    /// footer now, with its own timer running. Whether the chip came down.
    pub fn expire(&mut self, path: &str) -> (res: bool)
        ensures
            res == (old(self).shown() matches Some((p, _)) && p == path@),
            res ==> final(self).shown() is None,
            !res ==> final(self).shown() == old(self).shown(),
    {
        let matches = match &self.notice {
            Some((shown, _)) => same_text(shown.as_str(), path),
            None => false,
        };
        if matches {
            self.notice = None;
        }
        matches
    }

    /// The chip was pressed: it hands over the file to open and comes down,
    /// having done its job.
    pub fn take(&mut self) -> (res: Option<String>)
        ensures
            match old(self).shown() {
                Some((p, _)) => res matches Some(r) && r@ == p,
                None => res is None,
            },
            final(self).shown() is None,
    {
        match self.notice.take() {
            Some((path, _)) => Some(path),
            None => None,
        }
    }
}

/// A mode card as the panel draws it.
#[derive(Debug, PartialEq, Eq)]
pub struct CardFace {
    pub icon: Icon,
    pub label: String,
    /// The card's target is the one armed.
    pub selected: bool,
    /// The card's recording is running; its button stops it.
    pub recording: bool,
}

/// A footer chip as the panel draws it.
#[derive(Debug, PartialEq, Eq)]
pub struct ChipFace {
    pub icon: Icon,
    pub label: String,
    pub tooltip: String,
    /// For a toggle, whether it is on.
    pub pressed: Option<bool>,
}

/// The footer: a failure takes all of it until it has been read; otherwise
/// the audio toggle and the output chip.
#[derive(Debug, PartialEq, Eq)]
pub enum Footer {
    Failure(CaptureFailure),
    Chips { audio: ChipFace, output: ChipFace },
}

/// Everything on the main panel that depends on the app's state.
#[derive(Debug, PartialEq, Eq)]
pub struct PanelFace {
    pub status: String,
    pub dot: StatusTone,
    pub region: CardFace,
    pub window: CardFace,
    pub video: CardFace,
    pub gif: CardFace,
    pub footer: Footer,
}

pub open spec fn target_view(target: Option<&CaptureTarget>) -> Option<CaptureTarget> {
    match target {
        Some(t) => Some(*t),
        None => None,
    }
}

pub open spec fn region_card_text(target: Option<CaptureTarget>) -> Seq<char> {
    match target {
        Some(CaptureTarget::Region(region)) => size_text(region.width, region.height),
        _ => "Region"@,
    }
}

pub open spec fn window_card_text(target: Option<CaptureTarget>) -> Seq<char> {
    match target {
        Some(CaptureTarget::Window { process_name, .. }) => process_name@,
        _ => "Window"@,
    }
}

pub open spec fn audio_chip_text(audio: bool) -> Seq<char> {
    if audio {
        "System audio"@
    } else {
        "No audio"@
    }
}

pub open spec fn audio_chip_tooltip(audio: bool) -> Seq<char> {
    if audio {
        "System audio is on — click to mute recordings"@
    } else {
        "System audio is off — click to record sound"@
    }
}

/// The recording card for `kind`: a stop button while its recording runs.
pub open spec fn recording_card_ok(card: CardFace, state: CaptureState, kind: CaptureKind) -> bool {
    let running = state == CaptureState::Recording(kind);
    &&& card.icon == (if running {
        Icon::Stop
    } else if kind == CaptureKind::Video {
        Icon::Video
    } else {
        Icon::Gif
    })
    &&& card.label@ == recording_label_text(state, kind)
    &&& !card.selected
    &&& card.recording == running
}

/// The output chip: the saved file while its chip is up, else the capture
/// folder.
pub open spec fn output_chip_ok(chip: ChipFace, shown: Option<(Seq<char>, Seq<char>)>, root: Seq<char>) -> bool {
    &&& chip.pressed is None
    &&& match shown {
        Some((path, _)) => chip.icon == Icon::Saved && chip.label@ == saved_label_text(path)
            && chip.tooltip@ == "Saved — open "@ + path,
        None => chip.icon == Icon::Folder && chip.label@ == folder_label_text(root)
            && chip.tooltip@ == "Open output folder "@ + root,
    }
}

fn recording_card(state: &CaptureState, kind: CaptureKind) -> (res: CardFace)
    requires
        kind == CaptureKind::Video || kind == CaptureKind::Gif,
    ensures
        recording_card_ok(res, *state, kind),
{
    let running = match state {
        CaptureState::Recording(k) => *k == kind,
        _ => false,
    };
    let icon = if running {
        Icon::Stop
    } else if kind == CaptureKind::Video {
        Icon::Video
    } else {
        Icon::Gif
    };
    CardFace {
        icon,
        label: String::from_str(recording_label(state, kind)),
        selected: false,
        recording: running,
    }
}

/// What the main panel shows for the app's state: the status well (the
/// saved chip's text while one is up, else the state), the four mode
/// cards, and the footer. `audio` is the audio setting and `capture_root`
/// the folder captures go to.
pub fn panel_face(
    state: &CaptureState,
    target: Option<&CaptureTarget>,
    audio: bool,
    capture_root: &str,
    error: Option<&CaptureFailure>,
    saved: &SavedChip,
) -> (res: PanelFace)
    ensures
        res.status@ == match saved.shown() {
            Some((_, summary)) => summary,
            None => status_text_of(*state, target_view(target)),
        },
        res.dot == status_tone_of(*state, target is Some),
        res.region.icon == Icon::Region,
        res.region.label@ == region_card_text(target_view(target)),
        res.region.selected == (target_view(target) matches Some(CaptureTarget::Region(_))),
        !res.region.recording,
        res.window.icon == Icon::Window,
        res.window.label@ == window_card_text(target_view(target)),
        res.window.selected == (target_view(target) matches Some(CaptureTarget::Window { .. })),
        !res.window.recording,
        recording_card_ok(res.video, *state, CaptureKind::Video),
        recording_card_ok(res.gif, *state, CaptureKind::Gif),
        match error {
            Some(failure) => res.footer == Footer::Failure(*failure),
            None => res.footer matches Footer::Chips { audio: a, output: o } && a.icon == (if audio {
                Icon::AudioOn
            } else {
                Icon::AudioOff
            }) && a.label@ == audio_chip_text(audio) && a.tooltip@ == audio_chip_tooltip(audio)
                && a.pressed == Some(audio) && output_chip_ok(o, saved.shown(), capture_root@),
        },
{
    let status = match &saved.notice {
        Some((_, summary)) => summary.clone(),
        None => status_text(state, target),
    };
    let region = CardFace {
        icon: Icon::Region,
        label: region_label(target),
        selected: match target {
            Some(CaptureTarget::Region(_)) => true,
            _ => false,
        },
        recording: false,
    };
    let window = CardFace {
        icon: Icon::Window,
        label: window_label(target),
        selected: match target {
            Some(CaptureTarget::Window { .. }) => true,
            _ => false,
        },
        recording: false,
    };
    let footer = match error {
        Some(failure) => Footer::Failure(failure.clone()),
        None => {
            let audio_chip = ChipFace {
                icon: if audio {
                    Icon::AudioOn
                } else {
                    Icon::AudioOff
                },
                label: String::from_str(
                    if audio {
                        "System audio"
                    } else {
                        "No audio"
                    },
                ),
                tooltip: String::from_str(
                    if audio {
                        "System audio is on — click to mute recordings"
                    } else {
                        "System audio is off — click to record sound"
                    },
                ),
                pressed: Some(audio),
            };
            let output_chip = match &saved.notice {
                Some((path, _)) => {
                    let mut tooltip = String::from_str("Saved — open ");
                    tooltip.append(path.as_str());
                    ChipFace {
                        icon: Icon::Saved,
                        label: saved_label(path.as_str()),
                        tooltip,
                        pressed: None,
                    }
                },
                None => {
                    let mut tooltip = String::from_str("Open output folder ");
                    tooltip.append(capture_root);
                    ChipFace {
                        icon: Icon::Folder,
                        label: folder_label(capture_root),
                        tooltip,
                        pressed: None,
                    }
                },
            };
            Footer::Chips { audio: audio_chip, output: output_chip }
        },
    };
    PanelFace {
        status,
        dot: status_dot(state, target.is_some()),
        region,
        window,
        video: recording_card(state, CaptureKind::Video),
        gif: recording_card(state, CaptureKind::Gif),
        footer,
    }
}

} // verus!
