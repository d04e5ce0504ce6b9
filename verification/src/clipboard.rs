//! The bytes RapidCap hands the Windows clipboard: a `CF_DIBV5` image, the
//! path as `CF_UNICODETEXT`, and a `CF_HDROP` file list.

use vstd::prelude::*;

use crate::geometry::{lemma_packed_order, lemma_packed_step, packed_index, swizzle};
use crate::screenshot::SavedCapture;

verus! {

/// A clipboard write that did not happen.
#[derive(Debug, PartialEq, Eq)]
pub struct ClipboardError(pub String);

impl ClipboardError {
    /// The error as a sentence.
    pub fn message(&self) -> (res: &str)
        ensures
            res@ == self.0@,
    {
        self.0.as_str()
    }
}

/// `v` as two little-endian bytes.
pub open spec fn le16(v: nat) -> Seq<u8> {
    seq![(v % 256) as u8, ((v / 256) % 256) as u8]
}

/// `v` as four little-endian bytes, keeping its low 32 bits.
pub open spec fn le32(v: nat) -> Seq<u8> {
    seq![
        (v % 256) as u8,
        ((v / 256) % 256) as u8,
        ((v / 65536) % 256) as u8,
        ((v / 16777216) % 256) as u8,
    ]
}

pub open spec fn zeros(n: nat) -> Seq<u8> {
    Seq::new(n, |i: int| 0u8)
}

/// The 124-byte `BITMAPV5HEADER` for a `width` x `height` 32-bit image of
/// `size` bytes: bottom-up rows, `BI_BITFIELDS` with BGRA masks, sRGB.
pub open spec fn dib_header(width: nat, height: nat, size: nat) -> Seq<u8> {
    dib_geometry(width, height, size) + dib_color_masks()
}

/// The first 40 bytes of the header: its size, the image's extent, one plane
/// of 32 bits, `BI_BITFIELDS`, the image size, and zero resolution and palette.
pub open spec fn dib_geometry(width: nat, height: nat, size: nat) -> Seq<u8> {
    le32(124) + le32(width) + le32(height) + le16(1) + le16(32) + le32(3) + le32(size) + zeros(16)
}

/// The last 84 bytes of the header: the red, green, blue and alpha masks,
/// the sRGB colour space tag, and zeroed endpoints, gammas and intent.
pub open spec fn dib_color_masks() -> Seq<u8> {
    le32(0x00ff_0000) + le32(0x0000_ff00) + le32(0x0000_00ff) + le32(0xff00_0000) + le32(
        0x7352_4742,
    ) + zeros(64)
}

/// `pixels` is `rgba` flipped to bottom-up row order with red and blue
/// swapped: row `r` of the output is row `height - 1 - r` of the input.
pub open spec fn is_bottom_up_bgra(pixels: Seq<u8>, rgba: Seq<u8>, width: nat, height: nat) -> bool {
    &&& pixels.len() == width * height * 4
    &&& forall|row: int, col: int, k: int|
        0 <= row < height && 0 <= col < width && 0 <= k < 4 ==> #[trigger] pixels[packed_index(
            width as int,
            row,
            col,
            k,
        )] == rgba[packed_index(width as int, height - 1 - row, col, swizzle(k))]
}

fn push_le16(out: &mut Vec<u8>, v: u16)
    ensures
        final(out)@ == old(out)@ + le16(v as nat),
{
    out.push((v % 256) as u8);
    out.push(((v / 256) % 256) as u8);
    assert(final(out)@ =~= old(out)@ + le16(v as nat));
}

fn push_le32(out: &mut Vec<u8>, v: u64)
    ensures
        final(out)@ == old(out)@ + le32(v as nat),
{
    out.push((v % 256) as u8);
    out.push(((v / 256) % 256) as u8);
    out.push(((v / 65536) % 256) as u8);
    out.push(((v / 16777216) % 256) as u8);
    assert(final(out)@ =~= old(out)@ + le32(v as nat));
}

fn push_zeros(out: &mut Vec<u8>, n: usize)
    ensures
        final(out)@ == old(out)@ + zeros(n as nat),
{
    let ghost start = out@;
    let mut i: usize = 0;
    while i < n
        invariant
            i <= n,
            out@ == start + zeros(i as nat),
        decreases n - i,
    {
        out.push(0);
        i = i + 1;
        assert(out@ =~= start + zeros(i as nat));
    }
}

fn push_dib_geometry(out: &mut Vec<u8>, width: u32, height: u32, size: usize)
    ensures
        final(out)@ == old(out)@ + dib_geometry(width as nat, height as nat, size as nat),
{
    let ghost start = out@;
    push_le32(out, 124);
    push_le32(out, width as u64);
    push_le32(out, height as u64);
    push_le16(out, 1);
    push_le16(out, 32);
    push_le32(out, 3);
    push_le32(out, size as u64);
    push_zeros(out, 16);
    assert(out@ =~= start + dib_geometry(width as nat, height as nat, size as nat));
}

fn push_dib_color_masks(out: &mut Vec<u8>)
    ensures
        final(out)@ == old(out)@ + dib_color_masks(),
{
    let ghost start = out@;
    push_le32(out, 0x00ff_0000);
    push_le32(out, 0x0000_ff00);
    push_le32(out, 0x0000_00ff);
    push_le32(out, 0xff00_0000);
    push_le32(out, 0x7352_4742);
    push_zeros(out, 64);
    assert(out@ =~= start + dib_color_masks());
}

fn dib_header_bytes(width: u32, height: u32, size: usize) -> (res: Vec<u8>)
    ensures
        res@ == dib_header(width as nat, height as nat, size as nat),
        res@.len() == 124,
{
    let mut bytes: Vec<u8> = Vec::new();
    push_dib_geometry(&mut bytes, width, height, size);
    push_dib_color_masks(&mut bytes);
    assert(bytes@ =~= dib_header(width as nat, height as nat, size as nat));
    bytes
}

fn bottom_up_bgra(rgba: &[u8], w: u32, h: u32) -> (res: Vec<u8>)
    requires
        rgba@.len() == w * h * 4,
    ensures
        is_bottom_up_bgra(res@, rgba@, w as nat, h as nat),
{
    let mut bytes: Vec<u8> = Vec::new();
    let mut row: u32 = 0;
    while row < h
        invariant
            rgba@.len() == w * h * 4,
            row <= h,
            bytes@.len() == packed_index(w as int, row as int, 0, 0),
            forall|r: int, c: int, k: int|
                0 <= r < row && 0 <= c < w && 0 <= k < 4 ==> #[trigger] bytes@[packed_index(
                    w as int,
                    r,
                    c,
                    k,
                )] == rgba@[packed_index(w as int, h - 1 - r, c, swizzle(k))],
        decreases h - row,
    {
        let mut col: u32 = 0;
        while col < w
            invariant
                rgba@.len() == w * h * 4,
                row < h,
                col <= w,
                bytes@.len() == packed_index(w as int, row as int, col as int, 0),
                forall|r: int, c: int, k: int|
                    0 <= k < 4 && ((0 <= r < row && 0 <= c < w) || (r == row && 0 <= c < col))
                        ==> #[trigger] bytes@[packed_index(w as int, r, c, k)] == rgba@[packed_index(
                        w as int,
                        h - 1 - r,
                        c,
                        swizzle(k),
                    )],
            decreases w - col,
        {
            let src_row: u32 = h - 1 - row;
            proof {
                lemma_packed_step(w as int, row as int, col as int);
                lemma_packed_step(w as int, src_row as int, col as int);
                lemma_packed_order(w as int, src_row as int, col as int, h as int, 0);
                lemma_packed_step(w as int, h as int, 0);
                assert(h * w * 4 == w * h * 4) by (nonlinear_arith);
            }
            assert(rgba@.len() == rgba.len());
            assert(packed_index(w as int, src_row as int, col as int, 0) + 4 <= rgba.len());
            let start: usize = ((src_row as usize) * (w as usize) + col as usize) * 4;
            let ghost before = bytes@;
            bytes.push(rgba[start + 2]);
            bytes.push(rgba[start + 1]);
            bytes.push(rgba[start]);
            bytes.push(rgba[start + 3]);
            proof {
                let base = packed_index(w as int, row as int, col as int, 0);
                assert forall|r: int, c: int, k: int|
                    0 <= k < 4 && ((0 <= r < row && 0 <= c < w) || (r == row && 0 <= c < col + 1))
                    implies #[trigger] bytes@[packed_index(w as int, r, c, k)]
                    == rgba@[packed_index(w as int, h - 1 - r, c, swizzle(k))] by {
                    lemma_packed_step(w as int, r, c);
                    lemma_packed_step(w as int, h - 1 - r, c);
                    if r == row && c == col {
                        assert(packed_index(w as int, r, c, k) == base + k);
                    } else {
                        lemma_packed_order(w as int, r, c, row as int, col as int);
                        assert(bytes@[packed_index(w as int, r, c, k)] == before[packed_index(
                            w as int,
                            r,
                            c,
                            k,
                        )]);
                    }
                }
            }
            col = col + 1;
        }
        proof {
            lemma_packed_step(w as int, row as int, w as int);
            lemma_packed_step(w as int, row as int + 1, 0);
        }
        row = row + 1;
    }
    proof {
        lemma_packed_step(w as int, h as int, 0);
        assert(h * w * 4 == w * h * 4) by (nonlinear_arith);
    }
    bytes
}

/// A `CF_DIBV5` block for a packed RGBA image: the header, then the pixels
/// bottom-up in BGRA.
pub fn dibv5_bytes(rgba: &[u8], width: u32, height: u32) -> (res: Result<Vec<u8>, ClipboardError>)
    ensures
        res is Ok <==> (width != 0 && height != 0 && rgba@.len() == width * height * 4),
        res matches Err(e) ==> e.0@ == "pixel buffer dimensions do not match"@,
        res matches Ok(bytes) ==> bytes@.len() == 124 + width * height * 4,
        res matches Ok(bytes) ==> bytes@.subrange(0, 124) == dib_header(
            width as nat,
            height as nat,
            (width * height * 4) as nat,
        ) && is_bottom_up_bgra(
            bytes@.subrange(124, bytes@.len() as int),
            rgba@,
            width as nat,
            height as nat,
        ),
{
    proof {
        let a = width as int;
        let b = height as int;
        assert(a * b * 4 <= 0xffff_ffff * 0xffff_ffff * 4) by (nonlinear_arith)
            requires
                0 <= a <= 0xffff_ffff,
                0 <= b <= 0xffff_ffff,
        ;
    }
    let total: u128 = width as u128 * height as u128 * 4;
    if width == 0 || height == 0 || rgba.len() as u128 != total {
        return Err(ClipboardError(String::from_str("pixel buffer dimensions do not match")));
    }
    let mut bytes = dib_header_bytes(width, height, rgba.len());
    let mut pixels = bottom_up_bgra(rgba, width, height);
    let ghost header = bytes@;
    let ghost body = pixels@;
    bytes.append(&mut pixels);
    assert(bytes@.subrange(0, 124) =~= header);
    assert(bytes@.subrange(124, bytes@.len() as int) =~= body);
    Ok(bytes)
}

/// UTF-16 code units of one character.
pub open spec fn utf16_of(c: char) -> Seq<u16> {
    let v = c as nat;
    if v < 0x10000 {
        seq![v as u16]
    } else {
        seq![(0xd800 + (v - 0x10000) / 1024) as u16, (0xdc00 + (v - 0x10000) % 1024) as u16]
    }
}

/// UTF-16 code units of a string.
pub open spec fn utf16(s: Seq<char>) -> Seq<u16>
    decreases s.len(),
{
    if s.len() == 0 {
        seq![]
    } else {
        utf16(s.drop_last()) + utf16_of(s.last())
    }
}

/// Code units as little-endian bytes.
pub open spec fn le_units(units: Seq<u16>) -> Seq<u8>
    decreases units.len(),
{
    if units.len() == 0 {
        seq![]
    } else {
        le_units(units.drop_last()) + le16(units.last() as nat)
    }
}

/// The path as NUL-terminated little-endian UTF-16: `CF_UNICODETEXT`.
pub open spec fn unicode_path(path: Seq<char>) -> Seq<u8> {
    le_units(utf16(path).push(0))
}

proof fn lemma_le_units_append(units: Seq<u16>, more: Seq<u16>)
    ensures
        le_units(units + more) == le_units(units) + le_units(more),
    decreases more.len(),
{
    if more.len() == 0 {
        assert(units + more =~= units);
        assert(le_units(units) + le_units(more) =~= le_units(units));
    } else {
        lemma_le_units_append(units, more.drop_last());
        assert((units + more).drop_last() =~= units + more.drop_last());
        assert(le_units(units) + le_units(more) =~= le_units(units) + le_units(more.drop_last())
            + le16(more.last() as nat));
    }
}

fn push_char_utf16(out: &mut Vec<u8>, c: char)
    ensures
        final(out)@ == old(out)@ + le_units(utf16_of(c)),
{
    reveal_with_fuel(le_units, 3);
    let v = c as u32;
    if v < 0x10000 {
        push_le16(out, v as u16);
        proof {
            assert(utf16_of(c) =~= seq![v as u16]);
            assert(seq![v as u16].drop_last() =~= Seq::<u16>::empty());
        }
    } else {
        let high: u16 = (0xd800 + (v - 0x10000) / 1024) as u16;
        let low: u16 = (0xdc00 + (v - 0x10000) % 1024) as u16;
        push_le16(out, high);
        push_le16(out, low);
        proof {
            let units = seq![high, low];
            assert(utf16_of(c) =~= units);
            assert(units.drop_last() =~= seq![high]);
            assert(seq![high].drop_last() =~= Seq::<u16>::empty());
        }
    }
}

/// The path as NUL-terminated little-endian UTF-16, what `CF_UNICODETEXT`
/// and the file list both carry.
pub fn unicode_path_bytes(path: &str) -> (res: Vec<u8>)
    ensures
        res@ == unicode_path(path@),
{
    let n = path.unicode_len();
    let mut out: Vec<u8> = Vec::new();
    let mut i: usize = 0;
    while i < n
        invariant
            n == path@.len(),
            i <= n,
            out@ == le_units(utf16(path@.subrange(0, i as int))),
        decreases n - i,
    {
        let c = path.get_char(i);
        push_char_utf16(&mut out, c);
        proof {
            let prefix = path@.subrange(0, i as int);
            let next = path@.subrange(0, i + 1);
            assert(next.drop_last() =~= prefix);
            lemma_le_units_append(utf16(prefix), utf16_of(c));
        }
        i = i + 1;
    }
    push_le16(&mut out, 0);
    proof {
        assert(path@.subrange(0, n as int) =~= path@);
        let units = utf16(path@);
        assert(units.push(0).drop_last() =~= units);
    }
    out
}

/// A `CF_HDROP` block naming one file: a 20-byte `DROPFILES` header with the
/// list at offset 20 and wide characters on, then the path, then the empty
/// name that ends the list.
pub open spec fn hdrop(path: Seq<char>) -> Seq<u8> {
    le32(20) + zeros(12) + le32(1) + unicode_path(path) + seq![0u8, 0u8]
}

/// The file list a paste into a folder, a chat or a mail draft reads.
pub fn hdrop_bytes(path: &str) -> (res: Vec<u8>)
    ensures
        res@ == hdrop(path@),
{
    let mut bytes: Vec<u8> = Vec::new();
    push_le32(&mut bytes, 20);
    push_zeros(&mut bytes, 12);
    push_le32(&mut bytes, 1);
    let mut wide = unicode_path_bytes(path);
    bytes.append(&mut wide);
    bytes.push(0);
    bytes.push(0);
    assert(bytes@ =~= hdrop(path@));
    bytes
}

/// A file list ends in four zero bytes: the path's terminator and then the
/// empty name that closes the list.
pub proof fn lemma_hdrop_double_terminated(path: Seq<char>)
    ensures
        hdrop(path).len() >= 24,
        hdrop(path).subrange(hdrop(path).len() - 4, hdrop(path).len() as int) == seq![
            0u8,
            0u8,
            0u8,
            0u8,
        ],
        hdrop(path).subrange(0, 4) == le32(20),
        hdrop(path).subrange(16, 20) == le32(1),
{
    let units = utf16(path);
    assert(units.push(0).drop_last() =~= units);
    let wide = unicode_path(path);
    assert(wide == le_units(units) + le16(0));
    let all = hdrop(path);
    assert(all.subrange(all.len() - 4, all.len() as int) =~= seq![0u8, 0u8, 0u8, 0u8]);
    assert(all.subrange(0, 4) =~= le32(20));
    assert(all.subrange(16, 20) =~= le32(1));
}

/// The clipboard formats RapidCap offers.
#[derive(Clone, Copy, Debug, PartialEq, Eq, Structural)]
pub enum ClipboardFormat {
    /// `CF_DIBV5`: the pixels, for a paste into chat or an editor.
    DibV5,
    /// `CF_UNICODETEXT`: the path, for a paste into a text field.
    UnicodeText,
    /// `CF_HDROP`: the file, for a paste into a folder or a mail draft.
    HDrop,
    /// The registered `Preferred DropEffect`: a copy, not a move.
    PreferredDropEffect,
}

/// One format's bytes, in the order they are put on the clipboard.
#[derive(Debug, PartialEq, Eq)]
pub struct ClipboardBlock {
    pub format: ClipboardFormat,
    pub bytes: Vec<u8>,
}

/// A file's formats: the optional pixels, then the path as text, the file
/// list, and the drop effect asking for a copy.
pub open spec fn block_formats(with_pixels: bool) -> Seq<ClipboardFormat> {
    (if with_pixels {
        seq![ClipboardFormat::DibV5]
    } else {
        Seq::empty()
    }) + seq![
        ClipboardFormat::UnicodeText,
        ClipboardFormat::HDrop,
        ClipboardFormat::PreferredDropEffect,
    ]
}

/// What each block holds, for `path` and the pixels `dib` if any.
pub open spec fn blocks_hold(blocks: Seq<ClipboardBlock>, path: Seq<char>, dib: Option<Seq<u8>>) -> bool {
    let offset: int = if dib is Some {
        1
    } else {
        0
    };
    &&& blocks.len() == block_formats(dib is Some).len()
    &&& forall|i: int| 0 <= i < blocks.len() ==> #[trigger] blocks[i].format == block_formats(dib is Some)[i]
    &&& dib matches Some(d) ==> blocks[0].bytes@ == d
    &&& blocks[offset].bytes@ == unicode_path(path)
    &&& blocks[offset + 1].bytes@ == hdrop(path)
    &&& blocks[offset + 2].bytes@ == le32(1)
}

fn blocks_for(path: &str, dib: Option<Vec<u8>>) -> (res: Vec<ClipboardBlock>)
    ensures
        blocks_hold(
            res@,
            path@,
            match dib {
                Some(d) => Some(d@),
                None => None,
            },
        ),
{
    let with_pixels = dib.is_some();
    let mut blocks: Vec<ClipboardBlock> = Vec::new();
    match dib {
        Some(d) => blocks.push(ClipboardBlock { format: ClipboardFormat::DibV5, bytes: d }),
        None => {},
    }
    blocks.push(ClipboardBlock { format: ClipboardFormat::UnicodeText, bytes: unicode_path_bytes(path) });
    blocks.push(ClipboardBlock { format: ClipboardFormat::HDrop, bytes: hdrop_bytes(path) });
    let mut effect: Vec<u8> = Vec::new();
    push_le32(&mut effect, 1);
    assert(effect@ =~= le32(1));
    blocks.push(ClipboardBlock { format: ClipboardFormat::PreferredDropEffect, bytes: effect });
    assert(blocks@.len() == block_formats(with_pixels).len());
    assert forall|i: int| 0 <= i < blocks@.len() implies #[trigger] blocks@[i].format
        == block_formats(with_pixels)[i] by {
        if with_pixels {
            assert(block_formats(with_pixels) =~= seq![
                ClipboardFormat::DibV5,
                ClipboardFormat::UnicodeText,
                ClipboardFormat::HDrop,
                ClipboardFormat::PreferredDropEffect,
            ]);
        } else {
            assert(block_formats(with_pixels) =~= seq![
                ClipboardFormat::UnicodeText,
                ClipboardFormat::HDrop,
                ClipboardFormat::PreferredDropEffect,
            ]);
        }
    }
    blocks
}

/// A screenshot's clipboard contents: the pixels *and* the file, so a paste
/// lands as an image in chat and as a file in a folder. Pixels that do not
/// describe the image are refused.
pub fn screenshot_blocks(capture: &SavedCapture) -> (res: Result<Vec<ClipboardBlock>, ClipboardError>)
    ensures
        res is Ok <==> (capture.width != 0 && capture.height != 0 && capture.rgba@.len()
            == capture.width * capture.height * 4),
        res matches Err(e) ==> e.0@ == "pixel buffer dimensions do not match"@,
        res matches Ok(blocks) ==> blocks.len() == 4 && blocks@[0].bytes@.len() == 124
            + capture.width * capture.height * 4 && blocks_hold(
            blocks@,
            capture.path@,
            Some(blocks@[0].bytes@),
        ) && blocks@[0].bytes@.subrange(0, 124) == dib_header(
            capture.width as nat,
            capture.height as nat,
            (capture.width * capture.height * 4) as nat,
        ) && is_bottom_up_bgra(
            blocks@[0].bytes@.subrange(124, blocks@[0].bytes@.len() as int),
            capture.rgba@,
            capture.width as nat,
            capture.height as nat,
        ),
{
    let dib = dibv5_bytes(capture.rgba.as_slice(), capture.width, capture.height)?;
    let ghost dib_view = dib@;
    let blocks = blocks_for(capture.path.as_str(), Some(dib));
    assert(blocks@[0].bytes@ == dib_view);
    Ok(blocks)
}

/// A recording's clipboard contents: the file only. A video has no single
/// frame to offer, but the file list is what every file target reads.
pub fn file_blocks(path: &str) -> (res: Vec<ClipboardBlock>)
    ensures
        res.len() == 3,
        blocks_hold(res@, path@, None),
{
    blocks_for(path, None)
}

/// How many times the clipboard is asked for before the write gives up:
/// another program may hold it open for a moment.
pub const CLIPBOARD_OPEN_ATTEMPTS: u32 = 5;

/// The pause after each refused attempt, in milliseconds.
pub const CLIPBOARD_RETRY_MS: u64 = 10;

/// What to do after an attempt to open the clipboard.
#[derive(Debug, PartialEq, Eq)]
pub enum OpenStep {
    /// It is open: empty it and write the blocks.
    Write,
    /// Refused: wait this many milliseconds and ask again.
    Retry(u64),
    /// Refused for the last time: wait this many milliseconds, then fail.
    GiveUp(u64, ClipboardError),
}

/// Asking for the clipboard, a few times over.
pub struct ClipboardOpener {
    refused: u32,
}

impl ClipboardOpener {
    /// How many attempts have been refused so far.
    pub closed spec fn refused_of(&self) -> nat {
        self.refused as nat
    }

    /// Nothing asked yet.
    pub fn new() -> (res: Self)
        ensures
            res.refused_of() == 0,
    {
        ClipboardOpener { refused: 0 }
    }

    /// The outcome of one attempt, `opened` or refused, while fewer than
    /// five have been refused. An open clipboard is written; a refusal is
    /// followed by a short wait and, after the fifth, by "clipboard is busy".
    pub fn after_attempt(&mut self, opened: bool) -> (res: OpenStep)
        requires
            old(self).refused_of() < CLIPBOARD_OPEN_ATTEMPTS,
        ensures
            opened ==> res == OpenStep::Write && final(self).refused_of() == old(
                self,
            ).refused_of(),
            !opened ==> final(self).refused_of() == old(self).refused_of() + 1,
            !opened && final(self).refused_of() < CLIPBOARD_OPEN_ATTEMPTS ==> res
                == OpenStep::Retry(CLIPBOARD_RETRY_MS),
            !opened && final(self).refused_of() == CLIPBOARD_OPEN_ATTEMPTS ==> (res matches OpenStep::GiveUp(
                wait,
                e,
            ) && wait == CLIPBOARD_RETRY_MS && e.0@ == "clipboard is busy"@),
    {
        if opened {
            return OpenStep::Write;
        }
        self.refused = self.refused + 1;
        if self.refused < CLIPBOARD_OPEN_ATTEMPTS {
            OpenStep::Retry(CLIPBOARD_RETRY_MS)
        } else {
            OpenStep::GiveUp(CLIPBOARD_RETRY_MS, ClipboardError(String::from_str("clipboard is busy")))
        }
    }
}

/// The error when the `Preferred DropEffect` format cannot be registered.
pub fn drop_effect_failure() -> (res: ClipboardError)
    ensures
        res.0@ == "register Preferred DropEffect failed"@,
{
    ClipboardError(String::from_str("register Preferred DropEffect failed"))
}

} // verus!
