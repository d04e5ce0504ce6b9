//! Where a screenshot is saved, and what a saved one hands back.

use vstd::prelude::*;

use crate::geometry::{overlap, CaptureError, CaptureTarget, CapturedFrame, PhysicalRegion, RawFrame};
use crate::image_file::{image_error_text, ImageFileError};
use crate::recording::{area, display_rect};
use crate::naming::{file_stem_text, month_folder, month_folder_text, OutputNamer};
use crate::settings::{join, join_path};

verus! {

/// A screenshot on disk, with the pixels it was made from so they can also
/// go to the clipboard.
#[derive(Debug, PartialEq, Eq)]
pub struct SavedCapture {
    pub path: String,
    pub rgba: Vec<u8>,
    pub width: u32,
    pub height: u32,
}

impl Clone for SavedCapture {
    fn clone(&self) -> (res: Self)
        ensures
            res.path == self.path,
            res.rgba@ == self.rgba@,
            res.width == self.width,
            res.height == self.height,
    {
        SavedCapture {
            path: self.path.clone(),
            rgba: self.rgba.clone(),
            width: self.width,
            height: self.height,
        }
    }
}

/// A screenshot that was not taken or not saved.
#[derive(Debug, PartialEq, Eq)]
pub struct ScreenshotError(pub String);

impl ScreenshotError {
    /// A capture that failed, in its own words.
    pub fn from_capture(error: &CaptureError) -> (res: Self)
        ensures
            res.0@ == error.0@,
    {
        ScreenshotError(error.0.clone())
    }

    /// An image that was not written, in its own words.
    pub fn from_image(error: &ImageFileError) -> (res: Self)
        ensures
            res.0@ == image_error_text(*error),
    {
        ScreenshotError(error.message())
    }

    /// The error as a sentence.
    pub fn message(&self) -> (res: &str)
        ensures
            res@ == self.0@,
    {
        self.0.as_str()
    }
}

/// The process a capture is named after: the window's owner, or `Screen`
/// for a region.
pub open spec fn capture_process_name(target: CaptureTarget) -> Seq<char> {
    match target {
        CaptureTarget::Window { process_name, .. } => process_name@,
        CaptureTarget::Region(_) => "Screen"@,
    }
}

/// The name a capture of `target` is filed under.
pub fn process_name_of(target: &CaptureTarget) -> (res: &str)
    ensures
        res@ == capture_process_name(*target),
{
    match target {
        CaptureTarget::Window { process_name, .. } => process_name.as_str(),
        CaptureTarget::Region(_) => "Screen",
    }
}

/// `<root>/<YYYY-MM>/<process>_<stamp>`: the path a screenshot is saved
/// under, before its extension.
pub open spec fn output_base_text(
    root: Seq<char>,
    year: u16,
    month: u16,
    process_name: Seq<char>,
    stamp: Seq<char>,
) -> Seq<char> {
    join_path(
        join_path(root, month_folder_text(year as nat, month as nat)),
        file_stem_text(process_name, stamp),
    )
}

/// The path a screenshot taken in `month` of `year` of `process_name` is
/// saved under, without its extension.
pub fn output_base(root: &str, year: u16, month: u16, process_name: &str, namer: &OutputNamer) -> (res:
    String)
    ensures
        res@ == output_base_text(root@, year, month, process_name@, namer.stamp()),
{
    let folder = join(root, month_folder(year, month).as_str());
    join(folder.as_str(), namer.file_stem(process_name).as_str())
}

/// Among the first `n` monitors, the one `region` overlaps most; on a tie
/// the later one. `None` when it overlaps none of them.
pub open spec fn best_monitor(region: PhysicalRegion, monitors: Seq<PhysicalRegion>, n: int) -> Option<
    int,
>
    decreases n,
{
    if n <= 0 {
        None
    } else {
        let previous = best_monitor(region, monitors, n - 1);
        match overlap(region, monitors[n - 1]) {
            None => previous,
            Some(crop) => match previous {
                None => Some(n - 1),
                Some(b) => if area(crop) >= area(overlap(region, monitors[b]).unwrap()) {
                    Some(n - 1)
                } else {
                    previous
                },
            },
        }
    }
}

proof fn lemma_best_monitor_overlaps(region: PhysicalRegion, monitors: Seq<PhysicalRegion>, n: int)
    ensures
        best_monitor(region, monitors, n) matches Some(b) ==> 0 <= b < n && overlap(
            region,
            monitors[b],
        ) is Some,
    decreases n,
{
    if n > 0 {
        lemma_best_monitor_overlaps(region, monitors, n - 1);
    }
}

/// Which monitor a screenshot is taken from, and the crop within it in
/// that monitor's own coordinates.
#[derive(Clone, Copy, Debug, PartialEq, Eq, Structural)]
pub struct MonitorCrop {
    pub monitor: usize,
    pub crop: PhysicalRegion,
}

/// The crop of `region` on `monitor`, moved to the monitor's origin.
pub open spec fn local_crop(region: PhysicalRegion, monitor: PhysicalRegion) -> PhysicalRegion {
    let crop = overlap(region, monitor).unwrap();
    PhysicalRegion {
        x: (crop.x - monitor.x) as i32,
        y: (crop.y - monitor.y) as i32,
        width: crop.width,
        height: crop.height,
    }
}

/// The monitor a screenshot of `region` is taken from: the one it overlaps
/// most, the later one on a tie, among `monitors` in the order the system
/// lists them. One monitor per capture: the part of a selection on another
/// monitor is left out.
pub fn locate_capture(region: &PhysicalRegion, monitors: &[PhysicalRegion]) -> (res: Result<
    MonitorCrop,
    CaptureError,
>)
    requires
        forall|i: int| 0 <= i < monitors@.len() ==> display_rect(#[trigger] monitors@[i]),
    ensures
        match best_monitor(*region, monitors@, monitors@.len() as int) {
            None => res matches Err(e) && e.0@ == "capture region does not intersect a monitor"@,
            Some(i) => res == Ok::<MonitorCrop, CaptureError>(
                MonitorCrop { monitor: i as usize, crop: local_crop(*region, monitors@[i]) },
            ),
        },
{
    let mut best: Option<usize> = None;
    let mut best_area: u64 = 0;
    let mut index: usize = 0;
    while index < monitors.len()
        invariant
            index <= monitors@.len(),
            match best_monitor(*region, monitors@, index as int) {
                None => best is None,
                Some(b) => best == Some(b as usize),
            },
            best matches Some(b) ==> b < index && overlap(*region, monitors@[b as int]) is Some
                && best_area == area(overlap(*region, monitors@[b as int]).unwrap()),
        decreases monitors@.len() - index,
    {
        let bounds = monitors[index];
        assert(monitors@[index as int] == bounds);
        proof {
            lemma_best_monitor_overlaps(*region, monitors@, index as int);
        }
        match region.intersection(bounds) {
            None => {},
            Some(crop) => {
                proof {
                    let w = crop.width as int;
                    let h = crop.height as int;
                    assert(w * h <= 0xffff_ffff * 0xffff_ffff) by (nonlinear_arith)
                        requires
                            0 <= w <= 0xffff_ffff,
                            0 <= h <= 0xffff_ffff,
                    ;
                }
                let found: u64 = crop.width as u64 * crop.height as u64;
                assert(found == area(crop));
                let better = match best {
                    None => true,
                    Some(_) => found >= best_area,
                };
                if better {
                    best = Some(index);
                    best_area = found;
                }
            },
        }
        index = index + 1;
    }
    proof {
        lemma_best_monitor_overlaps(*region, monitors@, monitors@.len() as int);
    }
    match best {
        None => Err(CaptureError(String::from_str("capture region does not intersect a monitor"))),
        Some(i) => {
            let bounds = monitors[i];
            let crop = region.intersection(bounds).unwrap();
            assert(display_rect(monitors@[i as int]));
            let x: i32 = (crop.x as i64 - bounds.x as i64) as i32;
            let y: i32 = (crop.y as i64 - bounds.y as i64) as i32;
            Ok(MonitorCrop {
                monitor: i,
                crop: PhysicalRegion { x, y, width: crop.width, height: crop.height },
            })
        },
    }
}

/// The captured monitor's frame cut down to the selection, or an error when
/// the frame that arrived does not hold it.
pub fn crop_captured(frame: &RawFrame, crop: PhysicalRegion) -> (res: Result<
    CapturedFrame,
    CaptureError,
>)
    ensures
        crate::geometry::crop_readable(*frame, crop) <==> res is Ok,
        res matches Err(e) ==> e.0@ == "captured frame did not contain requested crop"@,
        res matches Ok(out) ==> out.width == crop.width && out.height == crop.height
            && crate::geometry::is_crop_of(out.rgba@, *frame, crop),
{
    match frame.crop_rgba(crop) {
        Some(out) => Ok(out),
        None => Err(CaptureError(String::from_str("captured frame did not contain requested crop"))),
    }
}

/// The monitor a screenshot is taken from is the one the region covers most:
/// its overlap with the region is at least as large, in width times height,
/// as the overlap with any other monitor, and strictly larger than that of
/// any monitor listed after it. There is one exactly when the region
/// overlaps some monitor.
pub proof fn lemma_best_monitor_covers_most(
    region: PhysicalRegion,
    monitors: Seq<PhysicalRegion>,
    n: int,
)
    requires
        0 <= n <= monitors.len(),
    ensures
        best_monitor(region, monitors, n) is None <==> forall|j: int|
            0 <= j < n ==> overlap(region, #[trigger] monitors[j]) is None,
        best_monitor(region, monitors, n) matches Some(b) ==> {
            let chosen = overlap(region, monitors[b]).unwrap();
            &&& 0 <= b < n
            &&& overlap(region, monitors[b]) is Some
            &&& forall|j: int|
                0 <= j < n && overlap(region, #[trigger] monitors[j]) is Some ==> {
                    let other = overlap(region, monitors[j]).unwrap();
                    &&& chosen.width * chosen.height >= other.width * other.height
                    &&& j > b ==> chosen.width * chosen.height > other.width * other.height
                }
        },
    decreases n,
{
    if n > 0 {
        lemma_best_monitor_covers_most(region, monitors, n - 1);
        lemma_best_monitor_overlaps(region, monitors, n - 1);
    }
}

} // verus!
