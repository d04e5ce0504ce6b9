//! The icon set: one family on a 24 grid, a 1.5 stroke, round caps and
//! joins, no fills but for the recording dot, the transport controls and
//! the warning's dot. Each icon is a complete SVG document, served by name.

use vstd::prelude::*;

use crate::text::same_text;

verus! {

/// An icon, identified by name.
#[derive(Clone, Copy, Debug, PartialEq, Eq, Structural)]
pub enum Icon {
    Region,
    Window,
    Video,
    Gif,
    Gallery,
    Folder,
    Pause,
    Play,
    Stop,
    Dot,
    Clock,
    Instant,
    AudioOff,
    AudioLow,
    AudioOn,
    Microphone,
    Mark,
    Settings,
    Minimize,
    Close,
    Back,
    Chevron,
    Check,
    Copy,
    Delete,
    Saved,
    Open,
    Exit,
    Warning,
}

/// Everything inside an icon's `<svg>` element.
pub open spec fn icon_body(icon: Icon) -> Seq<char> {
    match icon {
        Icon::Region => r#"<path d="M4 8V5a1 1 0 0 1 1-1h3M20 8V5a1 1 0 0 0-1-1h-3M4 16v3a1 1 0 0 0 1 1h3m12-4v3a1 1 0 0 1-1 1h-3"/>"#@,
        Icon::Window => r#"<rect x="3" y="4" width="18" height="16" rx="2"/><path d="M3 9h18"/>"#@,
        Icon::Video => r#"<rect x="2.5" y="6" width="13" height="12" rx="2"/><path d="m21.5 8-6 4 6 4z"/>"#@,
        Icon::Gif => r#"<rect x="3" y="5" width="18" height="14" rx="2"/><path d="M7 5v14M17 5v14"/>"#@,
        Icon::Gallery => r#"<rect x="3" y="4" width="18" height="16" rx="2"/><circle cx="8.5" cy="9.5" r="1.5"/><path d="m4 17 5-5 4 4 3-2 4 4"/>"#@,
        Icon::Folder => r#"<path d="M3 7a2 2 0 0 1 2-2h4l2 2h8a2 2 0 0 1 2 2v8a2 2 0 0 1-2 2H5a2 2 0 0 1-2-2z"/>"#@,
        Icon::Pause => r#"<rect x="7" y="5" width="3.4" height="14" rx="1.2" fill="black" stroke="none"/><rect x="13.6" y="5" width="3.4" height="14" rx="1.2" fill="black" stroke="none"/>"#@,
        Icon::Play => r#"<path d="M7 5.5v13l10-6.5z" fill="black" stroke="none"/>"#@,
        Icon::Stop => r#"<rect x="5" y="5" width="14" height="14" rx="2.4" fill="black" stroke="none"/>"#@,
        Icon::Dot => r#"<circle cx="12" cy="12" r="5" fill="black" stroke="none"/>"#@,
        Icon::Clock => r#"<circle cx="12" cy="12" r="9"/><path d="M12 7v5l3 2"/>"#@,
        Icon::Instant => r#"<path d="M13 2 4.5 13H11l-1 9 8.5-11H12z"/>"#@,
        Icon::AudioOff => r#"<path d="M4 9h3l5-4v14l-5-4H4z"/><path d="m17 10 4 4m0-4-4 4"/>"#@,
        Icon::AudioLow => r#"<path d="M4 9h3l5-4v14l-5-4H4z"/><path d="M17 9.5a3.5 3.5 0 0 1 0 5"/>"#@,
        Icon::AudioOn => r#"<path d="M4 9h3l5-4v14l-5-4H4z"/><path d="M17 9.5a3.5 3.5 0 0 1 0 5M20 7a7 7 0 0 1 0 10"/>"#@,
        Icon::Microphone => r#"<rect x="9" y="3" width="6" height="11" rx="3"/><path d="M5 11a7 7 0 0 0 14 0M12 18v3"/>"#@,
        Icon::Mark => r#"<circle cx="12" cy="12" r="8"/><circle cx="12" cy="12" r="3.2"/>"#@,
        Icon::Settings => r#"<circle cx="12" cy="12" r="3"/><path d="M12 3v2m0 14v2M3 12h2m14 0h2M5.6 5.6l1.4 1.4m10 10 1.4 1.4m0-12.8-1.4 1.4m-10 10-1.4 1.4"/>"#@,
        Icon::Minimize => r#"<path d="M5 12h14"/>"#@,
        Icon::Close => r#"<path d="M6 6l12 12M18 6 6 18"/>"#@,
        Icon::Back => r#"<path d="M15 5l-7 7 7 7"/>"#@,
        Icon::Chevron => r#"<path d="m6 9 6 6 6-6"/>"#@,
        Icon::Check => r#"<path d="m5 12 5 5 9-10"/>"#@,
        Icon::Copy => r#"<rect x="9" y="9" width="11" height="11" rx="2"/><path d="M5 15V6a1 1 0 0 1 1-1h9"/>"#@,
        Icon::Delete => r#"<path d="M5 7h14M9 7V5h6v2M7 7l1 12h8l1-12"/>"#@,
        Icon::Saved => r#"<rect x="4" y="3" width="16" height="18" rx="2"/><path d="m8.5 12 2.5 2.5 4.5-5"/>"#@,
        Icon::Open => r#"<path d="M14.5 9.5 21 3M21 3h-5m5 0v5"/><path d="M20 14v5a1 1 0 0 1-1 1H5a1 1 0 0 1-1-1V5a1 1 0 0 1 1-1h5"/>"#@,
        Icon::Exit => r#"<path d="M9 5H6a1 1 0 0 0-1 1v12a1 1 0 0 0 1 1h3"/><path d="m15 8 4 4-4 4M19 12h-9"/>"#@,
        Icon::Warning => r#"<circle cx="12" cy="12" r="9"/><path d="M12 8v5"/><circle cx="12" cy="16.5" r=".9" fill="black" stroke="none"/>"#@,
    }
}

/// The stroke width: the single-line glyphs are drawn a little heavier so
/// they do not read thin.
pub open spec fn icon_stroke(icon: Icon) -> Seq<char> {
    match icon {
        Icon::Minimize | Icon::Close => "1.6"@,
        Icon::Check => "2"@,
        _ => "1.5"@,
    }
}

/// The asset path the icon is served under.
pub open spec fn icon_source(icon: Icon) -> Seq<char> {
    match icon {
        Icon::Region => "icons/region.svg"@,
        Icon::Window => "icons/window.svg"@,
        Icon::Video => "icons/video.svg"@,
        Icon::Gif => "icons/gif.svg"@,
        Icon::Gallery => "icons/gallery.svg"@,
        Icon::Folder => "icons/folder.svg"@,
        Icon::Pause => "icons/pause.svg"@,
        Icon::Play => "icons/play.svg"@,
        Icon::Stop => "icons/stop.svg"@,
        Icon::Dot => "icons/dot.svg"@,
        Icon::Clock => "icons/clock.svg"@,
        Icon::Instant => "icons/instant.svg"@,
        Icon::AudioOff => "icons/audio-off.svg"@,
        Icon::AudioLow => "icons/audio-low.svg"@,
        Icon::AudioOn => "icons/audio-on.svg"@,
        Icon::Microphone => "icons/microphone.svg"@,
        Icon::Mark => "icons/mark.svg"@,
        Icon::Settings => "icons/settings.svg"@,
        Icon::Minimize => "icons/minimize.svg"@,
        Icon::Close => "icons/close.svg"@,
        Icon::Back => "icons/back.svg"@,
        Icon::Chevron => "icons/chevron.svg"@,
        Icon::Check => "icons/check.svg"@,
        Icon::Copy => "icons/copy.svg"@,
        Icon::Delete => "icons/delete.svg"@,
        Icon::Saved => "icons/saved.svg"@,
        Icon::Open => "icons/open.svg"@,
        Icon::Exit => "icons/exit.svg"@,
        Icon::Warning => "icons/warning.svg"@,
    }
}

/// What every icon document opens with, up to its stroke width.
pub open spec fn svg_open() -> Seq<char> {
    r##"<svg xmlns="http://www.w3.org/2000/svg" viewBox="0 0 24 24" fill="none" stroke="black" stroke-width=""##@
}

/// What follows the stroke width, before the body.
pub open spec fn svg_mid() -> Seq<char> {
    r#"" stroke-linecap="round" stroke-linejoin="round">"#@
}

/// The complete document: painted black, because the renderer keeps only
/// the alpha and tints it with the element's text colour.
pub open spec fn icon_svg(icon: Icon) -> Seq<char> {
    svg_open() + icon_stroke(icon) + svg_mid() + icon_body(icon) + "</svg>"@
}

/// Every icon, in declaration order.
pub open spec fn all_icons_seq() -> Seq<Icon> {
    seq![
        Icon::Region,
        Icon::Window,
        Icon::Video,
        Icon::Gif,
        Icon::Gallery,
        Icon::Folder,
        Icon::Pause,
        Icon::Play,
        Icon::Stop,
        Icon::Dot,
        Icon::Clock,
        Icon::Instant,
        Icon::AudioOff,
        Icon::AudioLow,
        Icon::AudioOn,
        Icon::Microphone,
        Icon::Mark,
        Icon::Settings,
        Icon::Minimize,
        Icon::Close,
        Icon::Back,
        Icon::Chevron,
        Icon::Check,
        Icon::Copy,
        Icon::Delete,
        Icon::Saved,
        Icon::Open,
        Icon::Exit,
        Icon::Warning,
    ]
}

impl Icon {
    /// The SVG body: everything inside the `<svg>` element.
    pub fn body(self) -> (res: &'static str)
        ensures
            res@ == icon_body(self),
    {
        match self {
            Icon::Region => r#"<path d="M4 8V5a1 1 0 0 1 1-1h3M20 8V5a1 1 0 0 0-1-1h-3M4 16v3a1 1 0 0 0 1 1h3m12-4v3a1 1 0 0 1-1 1h-3"/>"#,
            Icon::Window => r#"<rect x="3" y="4" width="18" height="16" rx="2"/><path d="M3 9h18"/>"#,
            Icon::Video => r#"<rect x="2.5" y="6" width="13" height="12" rx="2"/><path d="m21.5 8-6 4 6 4z"/>"#,
            Icon::Gif => r#"<rect x="3" y="5" width="18" height="14" rx="2"/><path d="M7 5v14M17 5v14"/>"#,
            Icon::Gallery => r#"<rect x="3" y="4" width="18" height="16" rx="2"/><circle cx="8.5" cy="9.5" r="1.5"/><path d="m4 17 5-5 4 4 3-2 4 4"/>"#,
            Icon::Folder => r#"<path d="M3 7a2 2 0 0 1 2-2h4l2 2h8a2 2 0 0 1 2 2v8a2 2 0 0 1-2 2H5a2 2 0 0 1-2-2z"/>"#,
            Icon::Pause => r#"<rect x="7" y="5" width="3.4" height="14" rx="1.2" fill="black" stroke="none"/><rect x="13.6" y="5" width="3.4" height="14" rx="1.2" fill="black" stroke="none"/>"#,
            Icon::Play => r#"<path d="M7 5.5v13l10-6.5z" fill="black" stroke="none"/>"#,
            Icon::Stop => r#"<rect x="5" y="5" width="14" height="14" rx="2.4" fill="black" stroke="none"/>"#,
            Icon::Dot => r#"<circle cx="12" cy="12" r="5" fill="black" stroke="none"/>"#,
            Icon::Clock => r#"<circle cx="12" cy="12" r="9"/><path d="M12 7v5l3 2"/>"#,
            Icon::Instant => r#"<path d="M13 2 4.5 13H11l-1 9 8.5-11H12z"/>"#,
            Icon::AudioOff => r#"<path d="M4 9h3l5-4v14l-5-4H4z"/><path d="m17 10 4 4m0-4-4 4"/>"#,
            Icon::AudioLow => r#"<path d="M4 9h3l5-4v14l-5-4H4z"/><path d="M17 9.5a3.5 3.5 0 0 1 0 5"/>"#,
            Icon::AudioOn => r#"<path d="M4 9h3l5-4v14l-5-4H4z"/><path d="M17 9.5a3.5 3.5 0 0 1 0 5M20 7a7 7 0 0 1 0 10"/>"#,
            Icon::Microphone => r#"<rect x="9" y="3" width="6" height="11" rx="3"/><path d="M5 11a7 7 0 0 0 14 0M12 18v3"/>"#,
            Icon::Mark => r#"<circle cx="12" cy="12" r="8"/><circle cx="12" cy="12" r="3.2"/>"#,
            Icon::Settings => r#"<circle cx="12" cy="12" r="3"/><path d="M12 3v2m0 14v2M3 12h2m14 0h2M5.6 5.6l1.4 1.4m10 10 1.4 1.4m0-12.8-1.4 1.4m-10 10-1.4 1.4"/>"#,
            Icon::Minimize => r#"<path d="M5 12h14"/>"#,
            Icon::Close => r#"<path d="M6 6l12 12M18 6 6 18"/>"#,
            Icon::Back => r#"<path d="M15 5l-7 7 7 7"/>"#,
            Icon::Chevron => r#"<path d="m6 9 6 6 6-6"/>"#,
            Icon::Check => r#"<path d="m5 12 5 5 9-10"/>"#,
            Icon::Copy => r#"<rect x="9" y="9" width="11" height="11" rx="2"/><path d="M5 15V6a1 1 0 0 1 1-1h9"/>"#,
            Icon::Delete => r#"<path d="M5 7h14M9 7V5h6v2M7 7l1 12h8l1-12"/>"#,
            Icon::Saved => r#"<rect x="4" y="3" width="16" height="18" rx="2"/><path d="m8.5 12 2.5 2.5 4.5-5"/>"#,
            Icon::Open => r#"<path d="M14.5 9.5 21 3M21 3h-5m5 0v5"/><path d="M20 14v5a1 1 0 0 1-1 1H5a1 1 0 0 1-1-1V5a1 1 0 0 1 1-1h5"/>"#,
            Icon::Exit => r#"<path d="M9 5H6a1 1 0 0 0-1 1v12a1 1 0 0 0 1 1h3"/><path d="m15 8 4 4-4 4M19 12h-9"/>"#,
            Icon::Warning => r#"<circle cx="12" cy="12" r="9"/><path d="M12 8v5"/><circle cx="12" cy="16.5" r=".9" fill="black" stroke="none"/>"#,
        }
    }

    /// The stroke width.
    pub fn stroke(self) -> (res: &'static str)
        ensures
            res@ == icon_stroke(self),
    {
        match self {
            Icon::Minimize | Icon::Close => "1.6",
            Icon::Check => "2",
            _ => "1.5",
        }
    }

    /// The asset path the renderer resolves this icon through.
    pub fn source_path(self) -> (res: &'static str)
        ensures
            res@ == icon_source(self),
    {
        match self {
            Icon::Region => "icons/region.svg",
            Icon::Window => "icons/window.svg",
            Icon::Video => "icons/video.svg",
            Icon::Gif => "icons/gif.svg",
            Icon::Gallery => "icons/gallery.svg",
            Icon::Folder => "icons/folder.svg",
            Icon::Pause => "icons/pause.svg",
            Icon::Play => "icons/play.svg",
            Icon::Stop => "icons/stop.svg",
            Icon::Dot => "icons/dot.svg",
            Icon::Clock => "icons/clock.svg",
            Icon::Instant => "icons/instant.svg",
            Icon::AudioOff => "icons/audio-off.svg",
            Icon::AudioLow => "icons/audio-low.svg",
            Icon::AudioOn => "icons/audio-on.svg",
            Icon::Microphone => "icons/microphone.svg",
            Icon::Mark => "icons/mark.svg",
            Icon::Settings => "icons/settings.svg",
            Icon::Minimize => "icons/minimize.svg",
            Icon::Close => "icons/close.svg",
            Icon::Back => "icons/back.svg",
            Icon::Chevron => "icons/chevron.svg",
            Icon::Check => "icons/check.svg",
            Icon::Copy => "icons/copy.svg",
            Icon::Delete => "icons/delete.svg",
            Icon::Saved => "icons/saved.svg",
            Icon::Open => "icons/open.svg",
            Icon::Exit => "icons/exit.svg",
            Icon::Warning => "icons/warning.svg",
        }
    }

    /// A complete SVG document.
    pub fn to_svg(self) -> (res: String)
        ensures
            res@ == icon_svg(self),
    {
        let mut svg = String::from_str(
            r##"<svg xmlns="http://www.w3.org/2000/svg" viewBox="0 0 24 24" fill="none" stroke="black" stroke-width=""##,
        );
        svg.append(self.stroke());
        svg.append(r#"" stroke-linecap="round" stroke-linejoin="round">"#);
        svg.append(self.body());
        svg.append("</svg>");
        svg
    }
}

/// Every icon, in declaration order.
pub fn all_icons() -> (res: Vec<Icon>)
    ensures
        res@ == all_icons_seq(),
{
    let mut icons: Vec<Icon> = Vec::new();
    icons.push(Icon::Region);
    icons.push(Icon::Window);
    icons.push(Icon::Video);
    icons.push(Icon::Gif);
    icons.push(Icon::Gallery);
    icons.push(Icon::Folder);
    icons.push(Icon::Pause);
    icons.push(Icon::Play);
    icons.push(Icon::Stop);
    icons.push(Icon::Dot);
    icons.push(Icon::Clock);
    icons.push(Icon::Instant);
    icons.push(Icon::AudioOff);
    icons.push(Icon::AudioLow);
    icons.push(Icon::AudioOn);
    icons.push(Icon::Microphone);
    icons.push(Icon::Mark);
    icons.push(Icon::Settings);
    icons.push(Icon::Minimize);
    icons.push(Icon::Close);
    icons.push(Icon::Back);
    icons.push(Icon::Chevron);
    icons.push(Icon::Check);
    icons.push(Icon::Copy);
    icons.push(Icon::Delete);
    icons.push(Icon::Saved);
    icons.push(Icon::Open);
    icons.push(Icon::Exit);
    icons.push(Icon::Warning);
    assert(icons@ =~= all_icons_seq());
    icons
}

/// Serves the embedded icon set by asset path.
#[derive(Clone, Copy, Debug, PartialEq, Eq)]
pub struct IconAssets;

impl IconAssets {
    /// The document for `path`: the first icon served under it, or `None`
    /// for a path that names no icon.
    pub fn load(&self, path: &str) -> (res: Option<String>)
        ensures
            (exists|i: int| 0 <= i < all_icons_seq().len() && icon_source(#[trigger] all_icons_seq()[i]) == path@)
                <==> res is Some,
            res matches Some(svg) ==> exists|i: int|
                0 <= i < all_icons_seq().len() && icon_source(#[trigger] all_icons_seq()[i])
                    == path@ && svg@ == icon_svg(all_icons_seq()[i]),
    {
        let icons = all_icons();
        let mut i: usize = 0;
        while i < icons.len()
            invariant
                icons@ == all_icons_seq(),
                i <= icons@.len(),
                forall|j: int| 0 <= j < i ==> icon_source(#[trigger] all_icons_seq()[j]) != path@,
            decreases icons@.len() - i,
        {
            let icon = icons[i];
            if same_text(icon.source_path(), path) {
                return Some(icon.to_svg());
            }
            i = i + 1;
        }
        None
    }

    /// Every asset path under `icons`, a trailing slash or not; nothing for
    /// any other folder.
    pub fn list(&self, path: &str) -> (res: Vec<String>)
        ensures
            trim_trailing_slashes(path@) == "icons"@ ==> res@.len() == all_icons_seq().len()
                && forall|i: int| 0 <= i < res@.len() ==> #[trigger] res@[i]@ == icon_source(
                all_icons_seq()[i],
            ),
            trim_trailing_slashes(path@) != "icons"@ ==> res@.len() == 0,
    {
        let mut out: Vec<String> = Vec::new();
        let trimmed = trim_slashes(path);
        if !same_text(trimmed, "icons") {
            return out;
        }
        let icons = all_icons();
        let mut i: usize = 0;
        while i < icons.len()
            invariant
                icons@ == all_icons_seq(),
                i <= icons@.len(),
                out@.len() == i,
                forall|j: int| 0 <= j < i ==> #[trigger] out@[j]@ == icon_source(all_icons_seq()[j]),
            decreases icons@.len() - i,
        {
            out.push(String::from_str(icons[i].source_path()));
            i = i + 1;
        }
        out
    }
}

/// `s` without the slashes at its end.
pub open spec fn trim_trailing_slashes(s: Seq<char>) -> Seq<char>
    decreases s.len(),
{
    if s.len() > 0 && s.last() == '/' {
        trim_trailing_slashes(s.drop_last())
    } else {
        s
    }
}

fn trim_slashes(s: &str) -> (res: &str)
    ensures
        res@ == trim_trailing_slashes(s@),
{
    let mut n = s.unicode_len();
    assert(s@.subrange(0, n as int) =~= s@);
    while n > 0 && s.get_char(n - 1) == '/'
        invariant
            n <= s@.len(),
            trim_trailing_slashes(s@.subrange(0, n as int)) == trim_trailing_slashes(s@),
        decreases n,
    {
        proof {
            let t = s@.subrange(0, n as int);
            assert(t.drop_last() =~= s@.subrange(0, n - 1));
        }
        n = n - 1;
    }
    proof {
        let t = s@.subrange(0, n as int);
        if n > 0 {
            assert(t.last() == s@[n - 1]);
        }
        assert(trim_trailing_slashes(t) == t);
    }
    s.substring_char(0, n)
}

/// Every icon is a closed SVG document on the same 24 grid: it opens with
/// `<svg`, declares `viewBox="0 0 24 24"`, and ends with `</svg>`.
pub proof fn lemma_icon_svg_is_closed(icon: Icon)
    ensures
        icon_svg(icon).len() >= 60,
        icon_svg(icon).subrange(0, 4) == "<svg"@,
        icon_svg(icon).subrange(40, 59) == r#"viewBox="0 0 24 24""#@,
        icon_svg(icon).subrange(icon_svg(icon).len() - 6, icon_svg(icon).len() as int)
            == "</svg>"@,
{
    reveal_strlit(r##"<svg xmlns="http://www.w3.org/2000/svg" viewBox="0 0 24 24" fill="none" stroke="black" stroke-width=""##);
    reveal_strlit("<svg");
    reveal_strlit(r#"viewBox="0 0 24 24""#);
    reveal_strlit("</svg>");
    let svg = icon_svg(icon);
    let open = svg_open();
    assert(svg.subrange(0, 4) =~= open.subrange(0, 4));
    assert(open.subrange(0, 4) =~= "<svg"@);
    assert(svg.subrange(40, 59) =~= open.subrange(40, 59));
    assert(open.subrange(40, 59) =~= r#"viewBox="0 0 24 24""#@);
    assert(svg.subrange(svg.len() - 6, svg.len() as int) =~= "</svg>"@);
}

/// Four facts that tell the asset paths apart: the length and the
/// characters at 8, 9 and 12.
pub open spec fn source_key(path: Seq<char>) -> int {
    path.len() * 1000000000 + (path[8] as int) * 1000000 + (path[9] as int) * 1000 + (
    path[12] as int)
}

pub open spec fn source_key_table(icon: Icon) -> int {
    match icon {
        Icon::Region => 16103105046,
        Icon::Window => 16110100046,
        Icon::Video => 15100101115,
        Icon::Gif => 13102046103,
        Icon::Gallery => 17108108121,
        Icon::Folder => 16108100046,
        Icon::Pause => 15117115115,
        Icon::Play => 14097121118,
        Icon::Stop => 14111112118,
        Icon::Dot => 13116046103,
        Icon::Clock => 15111099115,
        Icon::Instant => 17115116116,
        Icon::AudioOff => 19100105111,
        Icon::AudioLow => 19100105108,
        Icon::AudioOn => 18100105111,
        Icon::Microphone => 20099114104,
        Icon::Mark => 14114107118,
        Icon::Settings => 18116116103,
        Icon::Minimize => 18110105122,
        Icon::Close => 15111115115,
        Icon::Back => 14099107118,
        Icon::Chevron => 17101118110,
        Icon::Check => 15101099115,
        Icon::Copy => 14112121118,
        Icon::Delete => 16108101046,
        Icon::Saved => 15118101115,
        Icon::Open => 14101110118,
        Icon::Exit => 14105116118,
        Icon::Warning => 17114110103,
    }
}

proof fn lemma_source_key(icon: Icon)
    ensures
        source_key(icon_source(icon)) == source_key_table(icon),
{
    match icon {
        Icon::Region => {
            reveal_strlit("icons/region.svg");
        },
        Icon::Window => {
            reveal_strlit("icons/window.svg");
        },
        Icon::Video => {
            reveal_strlit("icons/video.svg");
        },
        Icon::Gif => {
            reveal_strlit("icons/gif.svg");
        },
        Icon::Gallery => {
            reveal_strlit("icons/gallery.svg");
        },
        Icon::Folder => {
            reveal_strlit("icons/folder.svg");
        },
        Icon::Pause => {
            reveal_strlit("icons/pause.svg");
        },
        Icon::Play => {
            reveal_strlit("icons/play.svg");
        },
        Icon::Stop => {
            reveal_strlit("icons/stop.svg");
        },
        Icon::Dot => {
            reveal_strlit("icons/dot.svg");
        },
        Icon::Clock => {
            reveal_strlit("icons/clock.svg");
        },
        Icon::Instant => {
            reveal_strlit("icons/instant.svg");
        },
        Icon::AudioOff => {
            reveal_strlit("icons/audio-off.svg");
        },
        Icon::AudioLow => {
            reveal_strlit("icons/audio-low.svg");
        },
        Icon::AudioOn => {
            reveal_strlit("icons/audio-on.svg");
        },
        Icon::Microphone => {
            reveal_strlit("icons/microphone.svg");
        },
        Icon::Mark => {
            reveal_strlit("icons/mark.svg");
        },
        Icon::Settings => {
            reveal_strlit("icons/settings.svg");
        },
        Icon::Minimize => {
            reveal_strlit("icons/minimize.svg");
        },
        Icon::Close => {
            reveal_strlit("icons/close.svg");
        },
        Icon::Back => {
            reveal_strlit("icons/back.svg");
        },
        Icon::Chevron => {
            reveal_strlit("icons/chevron.svg");
        },
        Icon::Check => {
            reveal_strlit("icons/check.svg");
        },
        Icon::Copy => {
            reveal_strlit("icons/copy.svg");
        },
        Icon::Delete => {
            reveal_strlit("icons/delete.svg");
        },
        Icon::Saved => {
            reveal_strlit("icons/saved.svg");
        },
        Icon::Open => {
            reveal_strlit("icons/open.svg");
        },
        Icon::Exit => {
            reveal_strlit("icons/exit.svg");
        },
        Icon::Warning => {
            reveal_strlit("icons/warning.svg");
        },
    }
}

/// No two icons share an asset path, so each resolves to its own document.
pub proof fn lemma_icon_sources_distinct(a: Icon, b: Icon)
    requires
        a != b,
    ensures
        icon_source(a) != icon_source(b),
{
    lemma_source_key(a);
    lemma_source_key(b);
}

} // verus!
