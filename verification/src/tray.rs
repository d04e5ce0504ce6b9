//! What the tray icon carries: which of five faces it shows, and its hover
//! text.

use vstd::prelude::*;

use crate::state::{CaptureKind, CaptureState};
use crate::text::{dec, push_dec};

verus! {

/// What the icon shows. Derived from the capture state, not stored.
#[derive(Clone, Copy, Debug, PartialEq, Eq, Structural)]
pub enum TrayState {
    Idle,
    Recording,
    Paused,
    Finalizing,
    Error,
}

/// A countdown is already committed, so it reads as recording; a selection
/// has nothing running yet, so it reads as idle.
pub open spec fn tray_state_of(state: CaptureState) -> TrayState {
    match state {
        CaptureState::Recording(_) | CaptureState::Countdown(_, _) => TrayState::Recording,
        CaptureState::Paused(_) => TrayState::Paused,
        CaptureState::Finalizing(_) => TrayState::Finalizing,
        CaptureState::Error(_) => TrayState::Error,
        CaptureState::Idle | CaptureState::Selecting(_) => TrayState::Idle,
    }
}

/// How the tooltip names a kind.
pub open spec fn tray_noun(kind: CaptureKind) -> Seq<char> {
    match kind {
        CaptureKind::Video => "video"@,
        CaptureKind::Gif => "GIF"@,
        CaptureKind::RegionScreenshot => "region"@,
        CaptureKind::ActiveWindowScreenshot => "window"@,
    }
}

/// The part of the tooltip after the app's name: the same words, in the
/// same order, as the panel's status well.
pub open spec fn tooltip_detail(state: CaptureState) -> Seq<char> {
    match state {
        CaptureState::Countdown(kind, seconds) => tray_noun(kind) + " starts in "@ + dec(
            seconds as nat,
        ),
        CaptureState::Recording(kind) => "Recording "@ + tray_noun(kind),
        CaptureState::Paused(kind) => "Paused "@ + tray_noun(kind),
        CaptureState::Finalizing(kind) => "Finalizing "@ + tray_noun(kind),
        CaptureState::Selecting(_) => "Selecting"@,
        CaptureState::Error(_) => "Capture failed"@,
        CaptureState::Idle => "Ready"@,
    }
}

fn noun(kind: CaptureKind) -> (res: &'static str)
    ensures
        res@ == tray_noun(kind),
{
    match kind {
        CaptureKind::Video => "video",
        CaptureKind::Gif => "GIF",
        CaptureKind::RegionScreenshot => "region",
        CaptureKind::ActiveWindowScreenshot => "window",
    }
}

impl TrayState {
    /// The face for a capture state.
    pub fn from_capture(state: &CaptureState) -> (res: Self)
        ensures
            res == tray_state_of(*state),
    {
        match state {
            CaptureState::Recording(_) | CaptureState::Countdown(_, _) => TrayState::Recording,
            CaptureState::Paused(_) => TrayState::Paused,
            CaptureState::Finalizing(_) => TrayState::Finalizing,
            CaptureState::Error(_) => TrayState::Error,
            CaptureState::Idle | CaptureState::Selecting(_) => TrayState::Idle,
        }
    }

    /// Hover text: `RapidCap — Recording video`.
    pub fn tooltip(self, state: &CaptureState) -> (res: String)
        ensures
            res@ == "RapidCap — "@ + tooltip_detail(*state),
    {
        let mut text = String::from_str("RapidCap — ");
        match state {
            CaptureState::Countdown(kind, seconds) => {
                text.append(noun(*kind));
                text.append(" starts in ");
                push_dec(&mut text, *seconds as u64);
            },
            CaptureState::Recording(kind) => {
                text.append("Recording ");
                text.append(noun(*kind));
            },
            CaptureState::Paused(kind) => {
                text.append("Paused ");
                text.append(noun(*kind));
            },
            CaptureState::Finalizing(kind) => {
                text.append("Finalizing ");
                text.append(noun(*kind));
            },
            CaptureState::Selecting(_) => text.append("Selecting"),
            CaptureState::Error(_) => text.append("Capture failed"),
            CaptureState::Idle => text.append("Ready"),
        }
        assert(text@ =~= "RapidCap — "@ + tooltip_detail(*state));
        text
    }
}

/// No tooltip leaks a Rust type: none holds a bracket or a brace, whatever
/// the state, a failure's own text included.
pub proof fn lemma_tooltip_has_no_debris(state: CaptureState, i: int)
    requires
        0 <= i < ("RapidCap — "@ + tooltip_detail(state)).len(),
    ensures
        ({
            let c = ("RapidCap — "@ + tooltip_detail(state))[i];
            c != '(' && c != ')' && c != '{' && c != '}'
        }),
{
    reveal_strlit("RapidCap — ");
    reveal_strlit("video");
    reveal_strlit("GIF");
    reveal_strlit("region");
    reveal_strlit("window");
    reveal_strlit(" starts in ");
    reveal_strlit("Recording ");
    reveal_strlit("Paused ");
    reveal_strlit("Finalizing ");
    reveal_strlit("Selecting");
    reveal_strlit("Capture failed");
    reveal_strlit("Ready");
    let text = "RapidCap — "@ + tooltip_detail(state);
    let head = "RapidCap — "@;
    if i >= head.len() {
        let j = i - head.len();
        let detail = tooltip_detail(state);
        assert(text[i] == detail[j]);
        match state {
            CaptureState::Countdown(kind, seconds) => {
                let front = tray_noun(kind) + " starts in "@;
                if j >= front.len() {
                    crate::text::lemma_dec_digits(seconds as nat);
                    assert(detail[j] == dec(seconds as nat)[j - front.len()]);
                }
            },
            _ => {},
        }
    }
}

/// What the tray has to do for a capture state: the face to repaint, when
/// it differs from the one on screen, and the tooltip, always.
#[derive(Debug, PartialEq, Eq)]
pub struct TrayUpdate {
    pub repaint: Option<TrayState>,
    pub tooltip: String,
}

/// The face to repaint when `painted` is on screen and `state` is to be
/// shown: none when the face is already there.
pub open spec fn repaint_for(painted: Option<TrayState>, state: CaptureState) -> Option<TrayState> {
    if painted == Some(tray_state_of(state)) {
        None
    } else {
        Some(tray_state_of(state))
    }
}

/// Remembers the face last painted: repainting is a round trip to the
/// system, and most state changes leave the face as it is.
#[derive(Clone, Copy, Debug, PartialEq, Eq)]
pub struct TrayPainter {
    painted: Option<TrayState>,
}

impl TrayPainter {
    pub closed spec fn painted_face(&self) -> Option<TrayState> {
        self.painted
    }

    /// Nothing painted yet.
    pub fn new() -> (res: Self)
        ensures
            res.painted_face() is None,
    {
        TrayPainter { painted: None }
    }

    /// What showing `state` takes.
    pub fn update(&self, state: &CaptureState) -> (res: TrayUpdate)
        ensures
            res.repaint == repaint_for(self.painted_face(), *state),
            res.tooltip@ == "RapidCap — "@ + tooltip_detail(*state),
    {
        let next = TrayState::from_capture(state);
        let same = match self.painted {
            Some(face) => face == next,
            None => false,
        };
        TrayUpdate { repaint: if same {
            None
        } else {
            Some(next)
        }, tooltip: next.tooltip(state) }
    }

    /// `face` is now on screen.
    pub fn painted(&mut self, face: TrayState)
        ensures
            final(self).painted_face() == Some(face),
    {
        self.painted = Some(face);
    }
}

/// Once a face is painted, showing any state with that face again repaints
/// nothing, and a state with another face is always repainted.
pub proof fn lemma_repaint_only_on_change(face: TrayState, state: CaptureState)
    ensures
        tray_state_of(state) == face ==> repaint_for(Some(face), state) is None,
        tray_state_of(state) != face ==> repaint_for(Some(face), state) == Some(
            tray_state_of(state),
        ),
        repaint_for(None, state) == Some(tray_state_of(state)),
{
}

/// The tray face tells the capture states apart the way the icon promises:
/// a paused recording shows the paused face and nothing else does, a
/// running recording or a committed countdown shows the recording face,
/// finalising and failing have their own faces, and nothing else is idle.
/// Pausing therefore always changes the face, whatever is being recorded.
pub proof fn lemma_tray_face_follows_the_state(state: CaptureState, kind: CaptureKind)
    ensures
        tray_state_of(state) == TrayState::Paused <==> state is Paused,
        tray_state_of(state) == TrayState::Recording <==> (state is Recording || state is Countdown),
        tray_state_of(state) == TrayState::Finalizing <==> state is Finalizing,
        tray_state_of(state) == TrayState::Error <==> state is Error,
        tray_state_of(state) == TrayState::Idle <==> (state is Idle || state is Selecting),
        tray_state_of(CaptureState::Paused(kind)) != tray_state_of(CaptureState::Recording(kind)),
{
}

} // verus!
