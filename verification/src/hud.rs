//! The region overlay's pick and the recording bar's face.

use vstd::prelude::*;

use crate::geometry::{abs_diff, drag_region, CaptureTarget, PhysicalRegion};
use crate::icons::Icon;
use crate::panel::{kind_noun, panel_noun};
use crate::state::{CaptureKind, CaptureState};
use crate::text::{dec, dec_padded, push_char, push_dec, push_dec_padded};

verus! {

/// How far the pointer has to travel, in physical pixels, for a press to
/// mean a region rather than a click.
pub const DRAG_SLACK: u32 = 6;

/// Has the pointer travelled far enough for this press to mean a region? A
/// window screenshot never reads a drag: its target is always the window
/// under the pointer.
pub open spec fn region_drag(kind: CaptureKind, start: (i32, i32), end: (i32, i32)) -> bool {
    kind != CaptureKind::ActiveWindowScreenshot && (abs_diff(start.0 as int, end.0 as int)
        >= DRAG_SLACK || abs_diff(start.1 as int, end.1 as int) >= DRAG_SLACK)
}

pub fn is_region_drag(kind: CaptureKind, start: (i32, i32), end: (i32, i32)) -> (res: bool)
    ensures
        res == region_drag(kind, start, end),
{
    let dx: i64 = if start.0 >= end.0 {
        start.0 as i64 - end.0 as i64
    } else {
        end.0 as i64 - start.0 as i64
    };
    let dy: i64 = if start.1 >= end.1 {
        start.1 as i64 - end.1 as i64
    } else {
        end.1 as i64 - start.1 as i64
    };
    let slack = DRAG_SLACK as i64;
    kind != CaptureKind::ActiveWindowScreenshot && (dx >= slack || dy >= slack)
}

/// What a press from `start` released at `end` picks: the dragged region,
/// or else the window under the pointer.
pub fn selected_target(
    kind: CaptureKind,
    start: (i32, i32),
    end: (i32, i32),
    hovered: Option<&CaptureTarget>,
) -> (res: Option<CaptureTarget>)
    ensures
        region_drag(kind, start, end) ==> res == match drag_region(start, end) {
            Some(region) => Some(CaptureTarget::Region(region)),
            None => None::<CaptureTarget>,
        },
        !region_drag(kind, start, end) ==> res == match hovered {
            Some(t) => Some(*t),
            None => None::<CaptureTarget>,
        },
{
    if is_region_drag(kind, start, end) {
        match PhysicalRegion::from_drag(start, end) {
            Some(region) => Some(CaptureTarget::Region(region)),
            None => None,
        }
    } else {
        match hovered {
            Some(t) => Some(t.clone()),
            None => None,
        }
    }
}

/// The bar's state dot.
#[derive(Clone, Copy, Debug, PartialEq, Eq, Structural)]
pub enum HudDot {
    /// Nothing is being written.
    Muted,
    /// Frames are being written.
    Recording,
    /// A recording is paused.
    Paused,
}

/// What the recording bar says and shows for one capture state.
#[derive(Debug, PartialEq, Eq)]
pub struct HudFace {
    pub status: String,
    pub pause_label: &'static str,
    pub pause_icon: Icon,
    pub can_pause: bool,
    pub dot: HudDot,
}

/// `MM:SS`, zero-padded so the bar does not resize as the timer rolls over.
pub open spec fn hud_clock_text(seconds: u64) -> Seq<char> {
    dec_padded((seconds / 60) as nat, 2) + seq![':'] + dec_padded((seconds % 60) as nat, 2)
}

pub fn hud_clock(seconds: u64) -> (res: String)
    ensures
        res@ == hud_clock_text(seconds),
{
    let mut out = String::new();
    push_dec_padded(&mut out, seconds / 60, 2);
    push_char(&mut out, ':');
    push_dec_padded(&mut out, seconds % 60, 2);
    assert(out@ =~= hud_clock_text(seconds));
    out
}

/// The bar's status: the kind, the seconds left and the target during the
/// countdown, when there is still a decision to make; only the clock once
/// the recording runs.
pub open spec fn hud_status(state: CaptureState, target: Seq<char>, countdown_elapsed: u8, recorded: u64) -> Seq<
    char,
> {
    match state {
        CaptureState::Countdown(kind, seconds) => panel_noun(kind) + " in "@ + dec(
            (if seconds >= countdown_elapsed {
                seconds - countdown_elapsed
            } else {
                0
            }) as nat,
        ) + " · "@ + target,
        CaptureState::Recording(_) => hud_clock_text(recorded),
        CaptureState::Paused(_) => hud_clock_text(recorded),
        CaptureState::Finalizing(kind) => "Finalizing "@ + panel_noun(kind) + "…"@,
        _ => "Closing…"@,
    }
}

/// The face of the recording bar. The pause button offers the action the
/// state is missing, and the dot is the recording colour only while frames
/// are being written.
pub fn hud_face(state: &CaptureState, target: &str, countdown_elapsed: u8, recorded: u64) -> (res:
    HudFace)
    ensures
        res.status@ == hud_status(*state, target@, countdown_elapsed, recorded),
        res.pause_label@ == (if *state is Paused {
            "Resume"@
        } else {
            "Pause"@
        }),
        res.pause_icon == (if *state is Paused {
            Icon::Play
        } else {
            Icon::Pause
        }),
        res.can_pause == (*state is Recording || *state is Paused),
        res.dot == (if *state is Recording {
            HudDot::Recording
        } else if *state is Paused {
            HudDot::Paused
        } else {
            HudDot::Muted
        }),
{
    match state {
        CaptureState::Countdown(kind, seconds) => {
            let mut status = String::from_str(kind_noun(*kind));
            status.append(" in ");
            let left: u8 = if *seconds >= countdown_elapsed {
                *seconds - countdown_elapsed
            } else {
                0
            };
            push_dec(&mut status, left as u64);
            status.append(" · ");
            status.append(target);
            HudFace {
                status,
                pause_label: "Pause",
                pause_icon: Icon::Pause,
                can_pause: false,
                dot: HudDot::Muted,
            }
        },
        CaptureState::Recording(_) => HudFace {
            status: hud_clock(recorded),
            pause_label: "Pause",
            pause_icon: Icon::Pause,
            can_pause: true,
            dot: HudDot::Recording,
        },
        CaptureState::Paused(_) => HudFace {
            status: hud_clock(recorded),
            pause_label: "Resume",
            pause_icon: Icon::Play,
            can_pause: true,
            dot: HudDot::Paused,
        },
        CaptureState::Finalizing(kind) => {
            let mut status = String::from_str("Finalizing ");
            status.append(kind_noun(*kind));
            status.append("…");
            HudFace {
                status,
                pause_label: "Pause",
                pause_icon: Icon::Pause,
                can_pause: false,
                dot: HudDot::Muted,
            }
        },
        _ => HudFace {
            status: String::from_str("Closing…"),
            pause_label: "Pause",
            pause_icon: Icon::Pause,
            can_pause: false,
            dot: HudDot::Muted,
        },
    }
}

/// The bar's clock keeps its width for the first hundred minutes:
/// always `MM:SS`.
pub proof fn lemma_hud_clock_width(seconds: u64)
    requires
        seconds < 6000,
    ensures
        hud_clock_text(seconds).len() == 5,
{
    let minutes = (seconds / 60) as nat;
    let secs = (seconds % 60) as nat;
    if minutes >= 10 {
        assert(dec(minutes / 10).len() == 1);
    }
    if secs >= 10 {
        assert(dec(secs / 10).len() == 1);
    }
}

/// The region overlay's hint line: a window screenshot is picked by a click
/// alone; anything else can also be dragged out as a region.
pub fn overlay_hint(kind: CaptureKind) -> (res: &'static str)
    ensures
        res@ == (if kind == CaptureKind::ActiveWindowScreenshot {
            "Click window · Esc cancel"@
        } else {
            "Click window or drag region · Esc cancel"@
        }),
{
    if kind == CaptureKind::ActiveWindowScreenshot {
        "Click window · Esc cancel"
    } else {
        "Click window or drag region · Esc cancel"
    }
}

/// How long the recording bar waits, pointer away, before it fades, in
/// milliseconds.
pub const HUD_FADE_AFTER_MS: u64 = 3000;

/// Which way the bar's contents animate on a frame.
#[derive(Clone, Copy, Debug, PartialEq, Eq, Structural)]
pub enum HudFade {
    /// Fully shown, and never dimmed since the bar opened.
    Steady,
    /// Dimming to the idle opacity.
    Dimming,
    /// Coming back to full opacity after having been dimmed.
    Returning,
}

/// How the bar moves on a frame: its fade, and whether the dot pulses.
#[derive(Clone, Copy, Debug, PartialEq, Eq, Structural)]
pub struct HudMotion {
    pub fade: HudFade,
    pub pulsing: bool,
}

/// Something is running that the bar can step back from: a recording,
/// paused or not. A countdown is asking a question and has to stay legible.
pub open spec fn can_fade(state: CaptureState) -> bool {
    state is Recording || state is Paused
}

/// The recording bar's memory of having faded: long recordings stop
/// feeling watched, so after a few quiet seconds the contents dim, and come
/// back when the pointer returns.
pub struct HudFader {
    has_faded: bool,
}

impl HudFader {
    /// Whether the bar has dimmed since it opened.
    pub closed spec fn has_faded(&self) -> bool {
        self.has_faded
    }

    /// A bar that has never dimmed.
    pub fn new() -> (res: Self)
        ensures
            !res.has_faded(),
    {
        HudFader { has_faded: false }
    }

    /// The motion for a frame drawn in `state`, `quiet_ms` after the
    /// pointer was last over the bar. The bar dims while something is
    /// running and the pointer has been away long enough; having dimmed,
    /// it animates back rather than snapping; the dot pulses only while
    /// frames are being written.
    pub fn frame(&mut self, state: &CaptureState, quiet_ms: u64) -> (res: HudMotion)
        ensures
            ({
                let faded = can_fade(*state) && quiet_ms >= HUD_FADE_AFTER_MS;
                &&& res.fade == (if faded {
                    HudFade::Dimming
                } else if old(self).has_faded() {
                    HudFade::Returning
                } else {
                    HudFade::Steady
                })
                &&& final(self).has_faded() == (old(self).has_faded() || faded)
            }),
            res.pulsing == (*state is Recording),
    {
        let running = match state {
            CaptureState::Recording(_) => true,
            CaptureState::Paused(_) => true,
            _ => false,
        };
        let faded = running && quiet_ms >= HUD_FADE_AFTER_MS;
        let fade = if faded {
            HudFade::Dimming
        } else if self.has_faded {
            HudFade::Returning
        } else {
            HudFade::Steady
        };
        self.has_faded = self.has_faded || faded;
        let pulsing = match state {
            CaptureState::Recording(_) => true,
            _ => false,
        };
        HudMotion { fade, pulsing }
    }
}

} // verus!
