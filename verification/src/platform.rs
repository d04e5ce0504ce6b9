//! The global shortcuts, how they read on a card, and which window the
//! pointer picks.

use vstd::prelude::*;

use crate::geometry::PhysicalRegion;
use crate::panel::{file_name_of, segment_bounds};
use crate::state::CaptureCommand;
use crate::text::same_text;

verus! {

/// The modifier keys of a chord.
#[derive(Clone, Copy, Debug, PartialEq, Eq, Structural)]
pub struct Modifiers {
    pub control: bool,
    pub shift: bool,
    pub alt: bool,
    pub super_key: bool,
}

impl Modifiers {
    /// Alt alone.
    pub fn alt() -> (res: Self)
        ensures
            res == (Modifiers { control: false, shift: false, alt: true, super_key: false }),
    {
        Modifiers { control: false, shift: false, alt: true, super_key: false }
    }

    /// Ctrl and Shift together.
    pub fn control_shift() -> (res: Self)
        ensures
            res == (Modifiers { control: true, shift: true, alt: false, super_key: false }),
    {
        Modifiers { control: true, shift: true, alt: false, super_key: false }
    }
}

/// The letter keys the shortcuts use.
#[derive(Clone, Copy, Debug, PartialEq, Eq, Structural)]
pub enum KeyCode {
    KeyE,
    KeyG,
    KeyP,
    KeyQ,
    KeyW,
}

pub open spec fn key_name(code: KeyCode) -> Seq<char> {
    match code {
        KeyCode::KeyE => "E"@,
        KeyCode::KeyG => "G"@,
        KeyCode::KeyP => "P"@,
        KeyCode::KeyQ => "Q"@,
        KeyCode::KeyW => "W"@,
    }
}

impl KeyCode {
    /// The key as printed on the keycap.
    pub fn name(self) -> (res: &'static str)
        ensures
            res@ == key_name(self),
    {
        match self {
            KeyCode::KeyE => "E",
            KeyCode::KeyG => "G",
            KeyCode::KeyP => "P",
            KeyCode::KeyQ => "Q",
            KeyCode::KeyW => "W",
        }
    }
}

/// One global shortcut: a chord and the command it fires.
#[derive(Clone, Copy, Debug, PartialEq, Eq, Structural)]
pub struct HotkeySpec {
    pub modifiers: Modifiers,
    pub code: KeyCode,
    pub command: CaptureCommand,
}

/// The desktop a shortcut is bound and printed on.
#[derive(Clone, Copy, Debug, PartialEq, Eq, Structural)]
pub enum Desktop {
    Windows,
    MacOs,
}

pub open spec fn when_text(cond: bool, text: Seq<char>) -> Seq<char> {
    if cond {
        text
    } else {
        Seq::empty()
    }
}

/// How a chord reads on Windows: `Alt+E`, `Ctrl+Shift+G` - Ctrl, Shift, Win
/// and Alt in that order, then the key, joined by `+`.
pub open spec fn chord_label(modifiers: Modifiers, code: KeyCode) -> Seq<char> {
    when_text(modifiers.control, "Ctrl+"@) + when_text(modifiers.shift, "Shift+"@) + when_text(
        modifiers.super_key,
        "Win+"@,
    ) + when_text(modifiers.alt, "Alt+"@) + key_name(code)
}

/// How a chord reads on macOS: the modifier glyphs in the Mac's fixed order,
/// control, option, shift, command, then the key, with nothing between.
pub open spec fn mac_chord_label(modifiers: Modifiers, code: KeyCode) -> Seq<char> {
    when_text(modifiers.control, "⌃"@) + when_text(modifiers.alt, "⌥"@) + when_text(
        modifiers.shift,
        "⇧"@,
    ) + when_text(modifiers.super_key, "⌘"@) + key_name(code)
}

pub open spec fn chord_label_on(desktop: Desktop, modifiers: Modifiers, code: KeyCode) -> Seq<
    char,
> {
    match desktop {
        Desktop::Windows => chord_label(modifiers, code),
        Desktop::MacOs => mac_chord_label(modifiers, code),
    }
}

impl HotkeySpec {
    pub fn new(modifiers: Modifiers, code: KeyCode, command: CaptureCommand) -> (res: Self)
        ensures
            res.modifiers == modifiers,
            res.code == code,
            res.command == command,
    {
        HotkeySpec { modifiers, code, command }
    }

    pub fn modifiers(self) -> (res: Modifiers)
        ensures
            res == self.modifiers,
    {
        self.modifiers
    }

    pub fn code(self) -> (res: KeyCode)
        ensures
            res == self.code,
    {
        self.code
    }

    pub fn command(self) -> (res: CaptureCommand)
        ensures
            res == self.command,
    {
        self.command
    }

    /// How the shortcut reads to a Windows user, derived from the chord
    /// itself so a card cannot promise a key the app never registered.
    pub fn label(self) -> (res: String)
        ensures
            res@ == chord_label(self.modifiers, self.code),
    {
        self.label_on(Desktop::Windows)
    }

    /// How the shortcut reads on `desktop`.
    pub fn label_on(self, desktop: Desktop) -> (res: String)
        ensures
            res@ == chord_label_on(desktop, self.modifiers, self.code),
    {
        let mut text = String::new();
        match desktop {
            Desktop::Windows => {
                if self.modifiers.control {
                    text.append("Ctrl+");
                }
                if self.modifiers.shift {
                    text.append("Shift+");
                }
                if self.modifiers.super_key {
                    text.append("Win+");
                }
                if self.modifiers.alt {
                    text.append("Alt+");
                }
            },
            Desktop::MacOs => {
                if self.modifiers.control {
                    text.append("⌃");
                }
                if self.modifiers.alt {
                    text.append("⌥");
                }
                if self.modifiers.shift {
                    text.append("⇧");
                }
                if self.modifiers.super_key {
                    text.append("⌘");
                }
            },
        }
        text.append(self.code.name());
        assert(text@ =~= chord_label_on(desktop, self.modifiers, self.code));
        text
    }
}

/// The three-finger chord's leading modifier: Ctrl on Windows, Command on
/// macOS, each platform's own convention.
pub open spec fn primary_shift(desktop: Desktop) -> Modifiers {
    match desktop {
        Desktop::Windows => Modifiers { control: true, shift: true, alt: false, super_key: false },
        Desktop::MacOs => Modifiers { control: false, shift: true, alt: false, super_key: true },
    }
}

/// The five shortcuts, one per command, on `desktop`. Alt+E and Alt+Q were
/// asked for by name and are the same keys everywhere; the other three are
/// the platform's three-finger chord and a letter for the command.
pub open spec fn hotkey_table_on(desktop: Desktop) -> Seq<HotkeySpec> {
    let alt = Modifiers { control: false, shift: false, alt: true, super_key: false };
    let chord = primary_shift(desktop);
    seq![
        HotkeySpec { modifiers: alt, code: KeyCode::KeyE, command: CaptureCommand::CaptureRegion },
        HotkeySpec {
            modifiers: chord,
            code: KeyCode::KeyW,
            command: CaptureCommand::CaptureActiveWindow,
        },
        HotkeySpec { modifiers: alt, code: KeyCode::KeyQ, command: CaptureCommand::ToggleVideo },
        HotkeySpec { modifiers: chord, code: KeyCode::KeyG, command: CaptureCommand::ToggleGif },
        HotkeySpec { modifiers: chord, code: KeyCode::KeyP, command: CaptureCommand::TogglePause },
    ]
}

/// The shortcuts as Windows binds them.
pub open spec fn hotkey_table() -> Seq<HotkeySpec> {
    hotkey_table_on(Desktop::Windows)
}

/// The five shortcuts on `desktop`, in the order they are registered.
pub fn hotkey_specs_on(desktop: Desktop) -> (res: [HotkeySpec; 5])
    ensures
        res@ == hotkey_table_on(desktop),
{
    let alt = Modifiers::alt();
    let chord = match desktop {
        Desktop::Windows => Modifiers::control_shift(),
        Desktop::MacOs => Modifiers { control: false, shift: true, alt: false, super_key: true },
    };
    let specs = [
        HotkeySpec::new(alt, KeyCode::KeyE, CaptureCommand::CaptureRegion),
        HotkeySpec::new(chord, KeyCode::KeyW, CaptureCommand::CaptureActiveWindow),
        HotkeySpec::new(alt, KeyCode::KeyQ, CaptureCommand::ToggleVideo),
        HotkeySpec::new(chord, KeyCode::KeyG, CaptureCommand::ToggleGif),
        HotkeySpec::new(chord, KeyCode::KeyP, CaptureCommand::TogglePause),
    ];
    assert(specs@ =~= hotkey_table_on(desktop));
    specs
}

/// The five shortcuts as Windows registers them.
pub fn hotkey_specs() -> (res: [HotkeySpec; 5])
    ensures
        res@ == hotkey_table(),
{
    hotkey_specs_on(Desktop::Windows)
}

/// The index of the first shortcut that fires `command`, if any.
pub open spec fn first_binding(table: Seq<HotkeySpec>, command: CaptureCommand, from: int) -> Option<
    int,
>
    decreases table.len() - from,
{
    if from < 0 || from >= table.len() {
        None
    } else if table[from].command == command {
        Some(from)
    } else {
        first_binding(table, command, from + 1)
    }
}

/// The shortcut a control prints for `command` on `desktop`, or `None` for
/// a command nobody bound.
pub fn shortcut_label_on(desktop: Desktop, command: CaptureCommand) -> (res: Option<String>)
    ensures
        match first_binding(hotkey_table_on(desktop), command, 0) {
            None => res is None,
            Some(i) => res matches Some(label) && label@ == chord_label_on(
                desktop,
                hotkey_table_on(desktop)[i].modifiers,
                hotkey_table_on(desktop)[i].code,
            ),
        },
{
    let specs = hotkey_specs_on(desktop);
    let mut i: usize = 0;
    while i < 5
        invariant
            specs@ == hotkey_table_on(desktop),
            i <= 5,
            first_binding(hotkey_table_on(desktop), command, 0) == first_binding(
                hotkey_table_on(desktop),
                command,
                i as int,
            ),
        decreases 5 - i,
    {
        if specs[i].command == command {
            return Some(specs[i].label_on(desktop));
        }
        i = i + 1;
    }
    None
}

/// The shortcut a control prints for `command` on Windows, or `None` for a
/// command nobody bound.
pub fn shortcut_label(command: CaptureCommand) -> (res: Option<String>)
    ensures
        match first_binding(hotkey_table(), command, 0) {
            None => res is None,
            Some(i) => res matches Some(label) && label@ == chord_label(
                hotkey_table()[i].modifiers,
                hotkey_table()[i].code,
            ),
        },
{
    shortcut_label_on(Desktop::Windows, command)
}

/// Every command but Cancel has exactly one shortcut, and Cancel has none:
/// no two shortcuts fire the same command, on either desktop.
pub proof fn lemma_one_shortcut_per_command(desktop: Desktop, command: CaptureCommand)
    ensures
        command != CaptureCommand::Cancel ==> (exists|i: int|
            0 <= i < hotkey_table_on(desktop).len() && #[trigger] hotkey_table_on(desktop)[i].command
                == command),
        command == CaptureCommand::Cancel ==> first_binding(hotkey_table_on(desktop), command, 0) is None,
        forall|i: int, j: int|
            0 <= i < j < hotkey_table_on(desktop).len() ==> #[trigger] hotkey_table_on(desktop)[i].command
                != #[trigger] hotkey_table_on(desktop)[j].command,
{
    reveal_with_fuel(first_binding, 6);
    let table = hotkey_table_on(desktop);
    assert(table[0].command == CaptureCommand::CaptureRegion);
    assert(table[1].command == CaptureCommand::CaptureActiveWindow);
    assert(table[2].command == CaptureCommand::ToggleVideo);
    assert(table[3].command == CaptureCommand::ToggleGif);
    assert(table[4].command == CaptureCommand::TogglePause);
}

/// Both desktops bind the same command to the same key in the same order;
/// the Alt chords are identical, and the other three differ only in that
/// Command stands where Windows has Ctrl.
pub proof fn lemma_same_keys_on_both_desktops(i: int)
    requires
        0 <= i < 5,
    ensures
        hotkey_table_on(Desktop::Windows)[i].code == hotkey_table_on(Desktop::MacOs)[i].code,
        hotkey_table_on(Desktop::Windows)[i].command == hotkey_table_on(Desktop::MacOs)[i].command,
        hotkey_table_on(Desktop::Windows)[i].modifiers.alt ==> hotkey_table_on(
            Desktop::MacOs,
        )[i].modifiers == hotkey_table_on(Desktop::Windows)[i].modifiers,
        !hotkey_table_on(Desktop::Windows)[i].modifiers.alt ==> ({
            let win = hotkey_table_on(Desktop::Windows)[i].modifiers;
            let mac = hotkey_table_on(Desktop::MacOs)[i].modifiers;
            &&& win.control && !win.super_key
            &&& mac.super_key && !mac.control
            &&& win.shift == mac.shift
            &&& !mac.alt
        }),
{
}

/// The system's text size, as the percentage the titlebar scales by: the
/// accessibility setting's own 100 to 225, with anything outside that range
/// (a hand-edited value) clamped rather than trusted.
pub fn text_scale_percent(percent: u32) -> (res: u32)
    ensures
        res == (if percent < 100 {
            100
        } else if percent > 225 {
            225
        } else {
            percent
        }),
{
    if percent < 100 {
        100
    } else if percent > 225 {
        225
    } else {
        percent
    }
}

/// The window that traces a recording region: `thickness` pixels larger than
/// the region on every side, with the region itself cut out of its middle.
/// The hole is the cut-out in the window's own coordinates.
#[derive(Clone, Copy, Debug, PartialEq, Eq, Structural)]
pub struct RecordingFrame {
    pub x: i32,
    pub y: i32,
    pub width: i32,
    pub height: i32,
    pub hole_left: i32,
    pub hole_top: i32,
    pub hole_right: i32,
    pub hole_bottom: i32,
}

/// A border is at least a pixel thick.
pub open spec fn frame_thickness(thickness: u32) -> int {
    if thickness == 0 {
        1
    } else {
        thickness as int
    }
}

/// The frame fits the system's 32-bit window coordinates.
pub open spec fn frame_fits(region: PhysicalRegion, thickness: u32) -> bool {
    let t = frame_thickness(thickness);
    &&& region.width + 2 * t <= i32::MAX
    &&& region.height + 2 * t <= i32::MAX
    &&& region.x - t >= i32::MIN
    &&& region.y - t >= i32::MIN
}

pub open spec fn frame_around(region: PhysicalRegion, thickness: u32) -> RecordingFrame {
    let t = frame_thickness(thickness);
    let width = region.width + 2 * t;
    let height = region.height + 2 * t;
    RecordingFrame {
        x: (region.x - t) as i32,
        y: (region.y - t) as i32,
        width: width as i32,
        height: height as i32,
        hole_left: t as i32,
        hole_top: t as i32,
        hole_right: (width - t) as i32,
        hole_bottom: (height - t) as i32,
    }
}

/// The frame to trace `region` with a `thickness`-pixel border, in device
/// pixels.
pub fn recording_frame(region: &PhysicalRegion, thickness: u32) -> (res: RecordingFrame)
    requires
        frame_fits(*region, thickness),
    ensures
        res == frame_around(*region, thickness),
{
    let t: i32 = if thickness == 0 {
        1
    } else {
        thickness as i32
    };
    let width: i32 = region.width as i32 + t * 2;
    let height: i32 = region.height as i32 + t * 2;
    RecordingFrame {
        x: region.x - t,
        y: region.y - t,
        width,
        height,
        hole_left: t,
        hole_top: t,
        hole_right: width - t,
        hole_bottom: height - t,
    }
}

/// The frame never covers what is being recorded: its hole, placed on the
/// screen, is exactly the region, and the border around it is the same
/// thickness on every side.
pub proof fn lemma_frame_hole_is_the_region(region: PhysicalRegion, thickness: u32)
    requires
        frame_fits(region, thickness),
    ensures
        ({
            let f = frame_around(region, thickness);
            &&& f.x + f.hole_left == region.x
            &&& f.y + f.hole_top == region.y
            &&& f.hole_right - f.hole_left == region.width
            &&& f.hole_bottom - f.hole_top == region.height
            &&& f.hole_left == f.hole_top == f.width - f.hole_right == f.height - f.hole_bottom
            &&& f.hole_left >= 1
        }),
{
}

/// A window's rectangle as the window manager reports it: right and bottom
/// exclusive.
#[derive(Clone, Copy, Debug, PartialEq, Eq, Structural)]
pub struct WindowRect {
    pub left: i32,
    pub top: i32,
    pub right: i32,
    pub bottom: i32,
}

/// The pointer picks a window of another process whose rectangle holds the
/// point; RapidCap's own windows are never a capture target.
pub fn window_candidate_contains(
    rect: WindowRect,
    point: (i32, i32),
    process_id: u32,
    current_process: u32,
) -> (res: bool)
    ensures
        res == (process_id != current_process && rect.left <= point.0 < rect.right && rect.top
            <= point.1 < rect.bottom),
{
    process_id != current_process && point.0 >= rect.left && point.0 < rect.right && point.1
        >= rect.top && point.1 < rect.bottom
}

/// Where the cursor holds the panel when a titlebar drag starts: its offset
/// from the panel's top-left corner, in screen pixels.
pub fn drag_grab(cursor: (i32, i32), window_top_left: (i32, i32)) -> (res: (i32, i32))
    requires
        i32::MIN <= cursor.0 - window_top_left.0 <= i32::MAX,
        i32::MIN <= cursor.1 - window_top_left.1 <= i32::MAX,
    ensures
        res.0 == cursor.0 - window_top_left.0,
        res.1 == cursor.1 - window_top_left.1,
{
    (cursor.0 - window_top_left.0, cursor.1 - window_top_left.1)
}

/// Where the panel's top-left corner goes on a move of the drag, so that the
/// cursor keeps holding it at `grab`.
pub fn dragged_top_left(cursor: (i32, i32), grab: (i32, i32)) -> (res: (i32, i32))
    requires
        i32::MIN <= cursor.0 - grab.0 <= i32::MAX,
        i32::MIN <= cursor.1 - grab.1 <= i32::MAX,
    ensures
        res.0 == cursor.0 - grab.0,
        res.1 == cursor.1 - grab.1,
{
    (cursor.0 - grab.0, cursor.1 - grab.1)
}

/// A titlebar drag keeps the panel under the same point of the cursor: on
/// every move the panel is displaced exactly as far as the cursor was since
/// the drag started, so a cursor that comes back to where it grabbed puts
/// the panel back where it was.
pub proof fn lemma_drag_keeps_the_grab(
    start: (i32, i32),
    window_top_left: (i32, i32),
    cursor: (i32, i32),
)
    requires
        i32::MIN <= start.0 - window_top_left.0 <= i32::MAX,
        i32::MIN <= start.1 - window_top_left.1 <= i32::MAX,
        i32::MIN <= cursor.0 - (start.0 - window_top_left.0) <= i32::MAX,
        i32::MIN <= cursor.1 - (start.1 - window_top_left.1) <= i32::MAX,
    ensures
        ({
            let grab = (
                (start.0 - window_top_left.0) as i32,
                (start.1 - window_top_left.1) as i32,
            );
            let moved = ((cursor.0 - grab.0) as i32, (cursor.1 - grab.1) as i32);
            &&& moved.0 - window_top_left.0 == cursor.0 - start.0
            &&& moved.1 - window_top_left.1 == cursor.1 - start.1
            &&& cursor == start ==> moved == window_top_left
        }),
{
}

/// A top-level window as the pointer walk meets it, front to back: its
/// rectangle when it could be read, its process, whether it is shown and
/// not minimised, and whether its capture target (its process's name)
/// could be read.
#[derive(Clone, Copy, Debug, PartialEq, Eq, Structural)]
pub struct WindowCandidate {
    pub rect: Option<WindowRect>,
    pub process_id: u32,
    pub visible: bool,
    pub minimized: bool,
    pub target_readable: bool,
}

/// The pointer picks this window: shown, not minimised, of another process,
/// holding the point, and with a target that could be read.
pub open spec fn picks(window: WindowCandidate, point: (i32, i32), current_process: u32) -> bool {
    &&& window.visible
    &&& !window.minimized
    &&& window.rect matches Some(rect)
    &&& window.process_id != current_process
    &&& rect.left <= point.0 < rect.right
    &&& rect.top <= point.1 < rect.bottom
    &&& window.target_readable
}

/// The window the pointer picks among `windows`, listed front to back: the
/// frontmost one it picks, or `None` when the walk runs out.
pub fn topmost_window_at(windows: &[WindowCandidate], point: (i32, i32), current_process: u32) -> (res:
    Option<usize>)
    ensures
        res matches Some(i) ==> i < windows@.len() && picks(windows@[i as int], point, current_process)
            && forall|j: int| 0 <= j < i ==> !picks(#[trigger] windows@[j], point, current_process),
        res is None ==> forall|j: int|
            0 <= j < windows@.len() ==> !picks(#[trigger] windows@[j], point, current_process),
{
    let mut i: usize = 0;
    while i < windows.len()
        invariant
            i <= windows@.len(),
            forall|j: int| 0 <= j < i ==> !picks(#[trigger] windows@[j], point, current_process),
        decreases windows@.len() - i,
    {
        let window = windows[i];
        let hit = match window.rect {
            Some(rect) => window.visible && !window.minimized && window_candidate_contains(
                rect,
                point,
                window.process_id,
                current_process,
            ) && window.target_readable,
            None => false,
        };
        if hit {
            return Some(i);
        }
        i = i + 1;
    }
    None
}

/// What the tray, the global shortcuts and the single-instance signal ask of
/// the app.
#[derive(Clone, Copy, Debug, PartialEq, Eq, Structural)]
pub enum PlatformEvent {
    Capture(CaptureCommand),
    Show,
    OpenOutput,
    Exit,
}

/// What a click on the tray menu item `id` asks of the app: `show` the
/// panel, open the `output` folder or `exit`; `None` for an id the menu
/// never hands out.
pub fn menu_event(id: &str) -> (res: Option<PlatformEvent>)
    ensures
        res == (if id@ == "show"@ {
            Some(PlatformEvent::Show)
        } else if id@ == "output"@ {
            Some(PlatformEvent::OpenOutput)
        } else if id@ == "exit"@ {
            Some(PlatformEvent::Exit)
        } else {
            None
        }),
{
    if same_text(id, "show") {
        Some(PlatformEvent::Show)
    } else if same_text(id, "output") {
        Some(PlatformEvent::OpenOutput)
    } else if same_text(id, "exit") {
        Some(PlatformEvent::Exit)
    } else {
        None
    }
}

/// The index of the last `.` in `s` before `end`, or -1 when there is none.
pub open spec fn last_dot(s: Seq<char>, end: int) -> int
    decreases end,
{
    if end <= 0 {
        -1
    } else if s[end - 1] == '.' {
        end - 1
    } else {
        last_dot(s, end - 1)
    }
}

/// A file name without its extension: everything before the last dot,
/// unless that dot opens the name.
pub open spec fn stem_of(name: Seq<char>) -> Seq<char> {
    let dot = last_dot(name, name.len() as int);
    if dot <= 0 {
        name
    } else {
        name.subrange(0, dot)
    }
}

/// A process's name from the path of its executable: the file name without
/// its extension, `Microsoft.Photos` for `C:\...\Microsoft.Photos.exe`.
/// `None` when the path names no file.
pub fn process_name_from_image(path: &str) -> (res: Option<String>)
    ensures
        match file_name_of(path@) {
            None => res is None,
            Some(name) => res matches Some(stem) && stem@ == stem_of(name),
        },
{
    let (start, end) = segment_bounds(path);
    let name = path.substring_char(start, end);
    let count = end - start;
    let dots = count == 2 && name.get_char(0) == '.' && name.get_char(1) == '.';
    proof {
        if name@ == seq!['.', '.'] {
            assert(name@[0] == '.' && name@[1] == '.');
        }
        if dots {
            assert(name@ =~= seq!['.', '.']);
        }
    }
    if count == 0 || dots {
        return None;
    }
    let mut i: usize = count;
    while i > 0 && name.get_char(i - 1) != '.'
        invariant
            count == name@.len(),
            i <= count,
            last_dot(name@, count as int) == last_dot(name@, i as int),
        decreases i,
    {
        i = i - 1;
    }
    proof {
        if i > 0 {
            assert(last_dot(name@, i as int) == i - 1);
        } else {
            assert(last_dot(name@, 0) == -1);
        }
    }
    if i <= 1 {
        Some(String::from_str(name))
    } else {
        Some(String::from_str(name.substring_char(0, i - 1)))
    }
}

} // verus!
