//! Screen rectangles, what the user picked, and the pixels that came back.

use vstd::prelude::*;

verus! {

/// A rectangle in device pixels on the virtual desktop. A display left of or
/// above the primary one has negative coordinates.
#[derive(Clone, Copy, Debug, PartialEq, Eq, Structural)]
pub struct PhysicalRegion {
    pub x: i32,
    pub y: i32,
    pub width: u32,
    pub height: u32,
}

pub open spec fn min_int(a: int, b: int) -> int {
    if a <= b {
        a
    } else {
        b
    }
}

pub open spec fn max_int(a: int, b: int) -> int {
    if a >= b {
        a
    } else {
        b
    }
}

pub open spec fn abs_diff(a: int, b: int) -> int {
    if a >= b {
        a - b
    } else {
        b - a
    }
}

/// The rectangle spanned by a drag from `start` to `end`, in any direction,
/// or `None` when it is under two pixels in either axis.
pub open spec fn drag_region(start: (i32, i32), end: (i32, i32)) -> Option<PhysicalRegion> {
    let width = abs_diff(start.0 as int, end.0 as int);
    let height = abs_diff(start.1 as int, end.1 as int);
    if width >= 2 && height >= 2 {
        Some(
            PhysicalRegion {
                x: min_int(start.0 as int, end.0 as int) as i32,
                y: min_int(start.1 as int, end.1 as int) as i32,
                width: width as u32,
                height: height as u32,
            },
        )
    } else {
        None
    }
}

/// The right and bottom edges, exclusive.
pub open spec fn right(r: PhysicalRegion) -> int {
    r.x + r.width
}

pub open spec fn bottom(r: PhysicalRegion) -> int {
    r.y + r.height
}

/// The overlap of two rectangles, or `None` when it is under two pixels in
/// either axis.
pub open spec fn overlap(a: PhysicalRegion, b: PhysicalRegion) -> Option<PhysicalRegion> {
    let left = max_int(a.x as int, b.x as int);
    let top = max_int(a.y as int, b.y as int);
    let r = min_int(right(a), right(b));
    let btm = min_int(bottom(a), bottom(b));
    if r - left >= 2 && btm - top >= 2 {
        Some(
            PhysicalRegion {
                x: left as i32,
                y: top as i32,
                width: (r - left) as u32,
                height: (btm - top) as u32,
            },
        )
    } else {
        None
    }
}

/// `inner` lies entirely within `outer`.
pub open spec fn contains(outer: PhysicalRegion, inner: PhysicalRegion) -> bool {
    &&& outer.x <= inner.x
    &&& outer.y <= inner.y
    &&& right(inner) <= right(outer)
    &&& bottom(inner) <= bottom(outer)
}

fn min_i32(a: i32, b: i32) -> (res: i32)
    ensures
        res == min_int(a as int, b as int),
{
    if a <= b {
        a
    } else {
        b
    }
}

fn abs_diff_i32(a: i32, b: i32) -> (res: u32)
    ensures
        res == abs_diff(a as int, b as int),
{
    if a >= b {
        (a as i64 - b as i64) as u32
    } else {
        (b as i64 - a as i64) as u32
    }
}

/// The extent from `lo` to `hi` as the system's rectangles give it: the
/// difference read as an unsigned 32-bit number, so an inverted rectangle
/// wraps rather than going negative.
pub open spec fn span(lo: i32, hi: i32) -> u32 {
    if hi >= lo {
        (hi - lo) as u32
    } else {
        (hi - lo + 0x1_0000_0000) as u32
    }
}

fn span_of(lo: i32, hi: i32) -> (res: u32)
    requires
        i32::MIN <= hi - lo <= i32::MAX,
    ensures
        res == span(lo, hi),
{
    let d: i32 = hi - lo;
    if d >= 0 {
        d as u32
    } else {
        (d as i64 + 0x1_0000_0000) as u32
    }
}

impl PhysicalRegion {
    /// The rectangle a drag from `start` to `end` selected.
    pub fn from_drag(start: (i32, i32), end: (i32, i32)) -> (res: Option<Self>)
        ensures
            res == drag_region(start, end),
    {
        let x = min_i32(start.0, end.0);
        let y = min_i32(start.1, end.1);
        let width = abs_diff_i32(start.0, end.0);
        let height = abs_diff_i32(start.1, end.1);
        if width >= 2 && height >= 2 {
            Some(PhysicalRegion { x, y, width, height })
        } else {
            None
        }
    }

    /// The rectangle between a system rectangle's edges, as a monitor's or a
    /// window's bounds arrive: its left-top corner and the spans to its
    /// right and bottom edges.
    pub fn from_edges(left: i32, top: i32, right: i32, bottom: i32) -> (res: Self)
        requires
            i32::MIN <= right - left <= i32::MAX,
            i32::MIN <= bottom - top <= i32::MAX,
        ensures
            res == (PhysicalRegion {
                x: left,
                y: top,
                width: span(left, right),
                height: span(top, bottom),
            }),
    {
        PhysicalRegion {
            x: left,
            y: top,
            width: span_of(left, right),
            height: span_of(top, bottom),
        }
    }

    /// The part of this rectangle that `other` also covers - a selection
    /// clamped to a monitor, say.
    pub fn intersection(&self, other: Self) -> (res: Option<Self>)
        ensures
            res == overlap(*self, other),
    {
        let left: i64 = if self.x >= other.x {
            self.x as i64
        } else {
            other.x as i64
        };
        let top: i64 = if self.y >= other.y {
            self.y as i64
        } else {
            other.y as i64
        };
        let right_a: i64 = self.x as i64 + self.width as i64;
        let right_b: i64 = other.x as i64 + other.width as i64;
        let r: i64 = if right_a <= right_b {
            right_a
        } else {
            right_b
        };
        let bottom_a: i64 = self.y as i64 + self.height as i64;
        let bottom_b: i64 = other.y as i64 + other.height as i64;
        let btm: i64 = if bottom_a <= bottom_b {
            bottom_a
        } else {
            bottom_b
        };
        if r - left >= 2 && btm - top >= 2 {
            assert(r - left <= self.width);
            assert(btm - top <= self.height);
            Some(
                PhysicalRegion {
                    x: left as i32,
                    y: top as i32,
                    width: (r - left) as u32,
                    height: (btm - top) as u32,
                },
            )
        } else {
            None
        }
    }
}

/// A frame that could not be captured.
#[derive(Debug, PartialEq, Eq)]
pub struct CaptureError(pub String);

impl CaptureError {
    /// The error as a sentence.
    pub fn message(&self) -> (res: &str)
        ensures
            res@ == self.0@,
    {
        self.0.as_str()
    }
}

/// What the user chose to capture.
#[derive(Debug, PartialEq, Eq)]
pub enum CaptureTarget {
    Region(PhysicalRegion),
    Window { hwnd: isize, region: PhysicalRegion, process_name: String },
}

impl Clone for CaptureTarget {
    fn clone(&self) -> (res: Self)
        ensures
            res == *self,
    {
        match self {
            CaptureTarget::Region(region) => CaptureTarget::Region(*region),
            CaptureTarget::Window { hwnd, region, process_name } => CaptureTarget::Window {
                hwnd: *hwnd,
                region: *region,
                process_name: process_name.clone(),
            },
        }
    }
}

impl CaptureTarget {
    /// The rectangle the target covers.
    pub fn region(&self) -> (res: PhysicalRegion)
        ensures
            res == target_region(*self),
    {
        match self {
            CaptureTarget::Region(region) => *region,
            CaptureTarget::Window { region, .. } => *region,
        }
    }
}

pub open spec fn target_region(target: CaptureTarget) -> PhysicalRegion {
    match target {
        CaptureTarget::Region(region) => region,
        CaptureTarget::Window { region, .. } => region,
    }
}

/// Pixels as a capture backend hands them over: BGRA rows, each `stride`
/// bytes apart, which may be wider than `width * 4`.
#[derive(Debug, PartialEq, Eq)]
pub struct RawFrame {
    pub bytes: Vec<u8>,
    pub width: u32,
    pub height: u32,
    pub stride: u32,
}

/// Tightly packed RGBA, `width * height * 4` bytes.
#[derive(Debug, PartialEq, Eq)]
pub struct CapturedFrame {
    pub rgba: Vec<u8>,
    pub width: u32,
    pub height: u32,
}

/// Whether `crop` can be read out of `frame`: it lies inside the image, the
/// rows are at least an image wide, and the buffer holds every row.
pub open spec fn crop_readable(frame: RawFrame, crop: PhysicalRegion) -> bool {
    &&& crop.x >= 0
    &&& crop.y >= 0
    &&& crop.x + crop.width <= frame.width
    &&& crop.y + crop.height <= frame.height
    &&& frame.stride >= frame.width * 4
    &&& frame.bytes@.len() >= frame.stride * frame.height
}

/// Which BGRA byte supplies RGBA channel `k`: red, green and blue swap ends.
pub open spec fn swizzle(k: int) -> int {
    if k == 0 {
        2
    } else if k == 1 {
        1
    } else if k == 2 {
        0
    } else {
        3
    }
}

/// Where in the frame channel `k` of crop pixel (`col`, `row`) is read from.
pub open spec fn source_index(
    frame: RawFrame,
    crop: PhysicalRegion,
    row: int,
    col: int,
    k: int,
) -> int {
    (crop.y + row) * frame.stride + (crop.x + col) * 4 + swizzle(k)
}

/// Where channel `k` of pixel (`col`, `row`) lands in a packed `width`-wide
/// RGBA image.
pub open spec fn packed_index(width: int, row: int, col: int, k: int) -> int {
    (row * width + col) * 4 + k
}

/// `rgba` is `crop` of `frame`, converted to packed RGBA.
pub open spec fn is_crop_of(rgba: Seq<u8>, frame: RawFrame, crop: PhysicalRegion) -> bool {
    &&& rgba.len() == crop.width * crop.height * 4
    &&& forall|row: int, col: int, k: int|
        0 <= row < crop.height && 0 <= col < crop.width && 0 <= k < 4 ==> #[trigger] rgba[packed_index(
            crop.width as int,
            row,
            col,
            k,
        )] == frame.bytes@[source_index(frame, crop, row, col, k)]
}

proof fn lemma_source_in_bounds(frame: RawFrame, crop: PhysicalRegion, row: int, col: int, k: int)
    requires
        crop_readable(frame, crop),
        0 <= row < crop.height,
        0 <= col < crop.width,
        0 <= k < 4,
    ensures
        0 <= source_index(frame, crop, row, col, k) < frame.bytes@.len(),
        (crop.y + row) * frame.stride + (crop.x + col) * 4 + 4 <= frame.bytes@.len(),
{
    let yy = crop.y + row;
    let xx = crop.x + col;
    let s = frame.stride as int;
    let h = frame.height as int;
    assert(yy + 1 <= h);
    assert(xx * 4 + 4 <= frame.width * 4);
    assert(yy * s + s <= h * s) by (nonlinear_arith)
        requires
            yy + 1 <= h,
            s >= 0,
    ;
    assert(0 <= yy * s) by (nonlinear_arith)
        requires
            yy >= 0,
            s >= 0,
    ;
}

pub(crate) proof fn lemma_packed_step(width: int, row: int, col: int)
    requires
        width >= 0,
        0 <= col,
        row >= 0,
    ensures
        packed_index(width, row, col + 1, 0) == packed_index(width, row, col, 0) + 4,
        forall|k: int| #[trigger] packed_index(width, row, col, k) == packed_index(width, row, col, 0) + k,
        packed_index(width, row + 1, 0, 0) == packed_index(width, row, width, 0),
        packed_index(width, row, 0, 0) == row * width * 4,
{
    assert((row + 1) * width == row * width + width) by (nonlinear_arith);
    assert(row * width * 4 == (row * width + 0) * 4) by (nonlinear_arith);
}

pub(crate) proof fn lemma_packed_order(width: int, row: int, col: int, r2: int, c2: int)
    requires
        width >= 0,
        0 <= col < width,
        0 <= c2 < width,
        0 <= row,
        0 <= r2,
        row < r2 || (row == r2 && col < c2),
    ensures
        packed_index(width, row, col, 0) + 4 <= packed_index(width, r2, c2, 0),
{
    if row < r2 {
        assert(row * width + width <= r2 * width) by (nonlinear_arith)
            requires
                row < r2,
                width >= 0,
        ;
    }
}

impl RawFrame {
    /// The `crop` rectangle as packed RGBA, or `None` when it cannot be read:
    /// outside the image, rows narrower than the image, or a short buffer.
    pub fn crop_rgba(&self, crop: PhysicalRegion) -> (res: Option<CapturedFrame>)
        ensures
            crop_readable(*self, crop) <==> res is Some,
            res matches Some(out) ==> out.width == crop.width && out.height == crop.height
                && is_crop_of(out.rgba@, *self, crop),
    {
        proof {
            let a = self.stride as int;
            let b = self.height as int;
            assert(a * b <= 0xffff_ffff * 0xffff_ffff) by (nonlinear_arith)
                requires
                    0 <= a <= 0xffff_ffff,
                    0 <= b <= 0xffff_ffff,
            ;
        }
        let frame_bytes: u64 = (self.stride as u64) * (self.height as u64);
        if crop.x < 0 || crop.y < 0 || crop.x as u64 + crop.width as u64 > self.width as u64
            || crop.y as u64 + crop.height as u64 > self.height as u64 || (self.stride as u64)
            < (self.width as u64) * 4 || (self.bytes.len() as u64) < frame_bytes {
            return None;
        }
        let ghost frame = *self;
        let w = crop.width;
        let h = crop.height;
        let x = crop.x as u32;
        let y = crop.y as u32;
        let stride = self.stride;
        let mut rgba: Vec<u8> = Vec::new();
        let mut row: u32 = 0;
        while row < h
            invariant
                frame == *self,
                crop_readable(frame, crop),
                w == crop.width,
                h == crop.height,
                x == crop.x,
                y == crop.y,
                stride == frame.stride,
                row <= h,
                rgba@.len() == packed_index(w as int, row as int, 0, 0),
                forall|r: int, c: int, k: int|
                    0 <= r < row && 0 <= c < w && 0 <= k < 4 ==> #[trigger] rgba@[packed_index(
                        w as int,
                        r,
                        c,
                        k,
                    )] == frame.bytes@[source_index(frame, crop, r, c, k)],
            decreases h - row,
        {
            let mut col: u32 = 0;
            while col < w
                invariant
                    frame == *self,
                    crop_readable(frame, crop),
                    w == crop.width,
                    h == crop.height,
                    x == crop.x,
                    y == crop.y,
                    stride == frame.stride,
                    row < h,
                    col <= w,
                    rgba@.len() == packed_index(w as int, row as int, col as int, 0),
                    forall|r: int, c: int, k: int|
                        0 <= k < 4 && ((0 <= r < row && 0 <= c < w) || (r == row && 0 <= c
                            < col)) ==> #[trigger] rgba@[packed_index(w as int, r, c, k)]
                            == frame.bytes@[source_index(frame, crop, r, c, k)],
                decreases w - col,
            {
                proof {
                    lemma_source_in_bounds(frame, crop, row as int, col as int, 0);
                    lemma_packed_step(w as int, row as int, col as int);
                }
                let line: usize = y as usize + row as usize;
                let across: usize = x as usize + col as usize;
                assert(line * stride + across * 4 + 4 <= self.bytes@.len());
                assert(self.bytes@.len() == self.bytes.len());
                let start: usize = line * stride as usize + across * 4;
                let ghost before = rgba@;
                rgba.push(self.bytes[start + 2]);
                rgba.push(self.bytes[start + 1]);
                rgba.push(self.bytes[start]);
                rgba.push(self.bytes[start + 3]);
                proof {
                    let base = packed_index(w as int, row as int, col as int, 0);
                    assert forall|r: int, c: int, k: int|
                        0 <= k < 4 && ((0 <= r < row && 0 <= c < w) || (r == row && 0 <= c
                            < col + 1)) implies #[trigger] rgba@[packed_index(w as int, r, c, k)]
                        == frame.bytes@[source_index(frame, crop, r, c, k)] by {
                        lemma_packed_step(w as int, r, c);
                        if r == row && c == col {
                            assert(packed_index(w as int, r, c, k) == base + k);
                        } else {
                            lemma_packed_order(w as int, r, c, row as int, col as int);
                            assert(packed_index(w as int, r, c, k) < base);
                            assert(rgba@[packed_index(w as int, r, c, k)] == before[packed_index(
                                w as int,
                                r,
                                c,
                                k,
                            )]);
                        }
                    }
                }
                col = col + 1;
            }
            proof {
                lemma_packed_step(w as int, row as int, w as int);
                lemma_packed_step(w as int, row as int + 1, 0);
            }
            row = row + 1;
        }
        proof {
            lemma_packed_step(w as int, h as int, 0);
            assert(h * w * 4 == w * h * 4) by (nonlinear_arith);
        }
        Some(CapturedFrame { rgba, width: w, height: h })
    }
}

/// A drag selects the same rectangle whichever corner it starts from and in
/// whichever direction it runs.
pub proof fn lemma_drag_direction_free(start: (i32, i32), end: (i32, i32))
    ensures
        drag_region(start, end) == drag_region(end, start),
        drag_region(start, end) == drag_region((end.0, start.1), (start.0, end.1)),
{
}

/// A selected rectangle is at least two pixels each way and spans exactly the
/// two corners of the drag, keeping negative coordinates as they were.
pub proof fn lemma_drag_spans_its_corners(start: (i32, i32), end: (i32, i32))
    ensures
        drag_region(start, end) matches Some(r) ==> {
            &&& r.width >= 2 && r.height >= 2
            &&& r.x == min_int(start.0 as int, end.0 as int)
            &&& r.y == min_int(start.1 as int, end.1 as int)
            &&& right(r) == max_int(start.0 as int, end.0 as int)
            &&& bottom(r) == max_int(start.1 as int, end.1 as int)
        },
        drag_region(start, end) is None <==> (abs_diff(start.0 as int, end.0 as int) < 2
            || abs_diff(start.1 as int, end.1 as int) < 2),
{
}

/// Clamping is symmetric: the overlap of `a` with `b` is the overlap of `b`
/// with `a`.
pub proof fn lemma_overlap_commutative(a: PhysicalRegion, b: PhysicalRegion)
    ensures
        overlap(a, b) == overlap(b, a),
{
}

/// An overlap lies inside both rectangles, so a clamped selection never reads
/// a pixel the monitor does not show.
pub proof fn lemma_overlap_within_both(a: PhysicalRegion, b: PhysicalRegion)
    ensures
        overlap(a, b) matches Some(r) ==> contains(a, r) && contains(b, r) && r.width >= 2
            && r.height >= 2,
{
}

/// A region already inside the monitor comes back untouched.
pub proof fn lemma_contained_region_unchanged(outer: PhysicalRegion, inner: PhysicalRegion)
    requires
        contains(outer, inner),
        inner.width >= 2,
        inner.height >= 2,
    ensures
        overlap(inner, outer) == Some(inner),
        overlap(outer, inner) == Some(inner),
{
}

/// Every point covered by both rectangles is covered by their overlap: the
/// clamp keeps everything the monitor shows of the selection.
pub proof fn lemma_overlap_keeps_shared_points(a: PhysicalRegion, b: PhysicalRegion, px: int, py: int)
    requires
        a.x <= px < right(a),
        a.y <= py < bottom(a),
        b.x <= px < right(b),
        b.y <= py < bottom(b),
        overlap(a, b) is Some,
    ensures
        overlap(a, b) matches Some(r) && r.x <= px < right(r) && r.y <= py < bottom(r),
{
}

/// A crop of the whole image can be read exactly when the rows are an image
/// wide and the buffer holds them all, and then it yields every pixel.
pub proof fn lemma_whole_frame_crop(frame: RawFrame)
    ensures
        crop_readable(
            frame,
            PhysicalRegion { x: 0, y: 0, width: frame.width, height: frame.height },
        ) <==> (frame.stride >= frame.width * 4 && frame.bytes@.len() >= frame.stride
            * frame.height),
{
}

} // verus!
