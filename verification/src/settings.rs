//! Settings, the validation that guards them, and where the app keeps its
//! files.

use vstd::prelude::*;

use crate::text::{dec, push_char, push_dec};

verus! {

pub const SETTINGS_SCHEMA_VERSION: u32 = 1;

/// Unicode `White_Space`: what `str::trim` strips.
pub open spec fn is_whitespace(c: char) -> bool {
    ||| ('\u{9}' <= c && c <= '\u{d}')
    ||| c == ' '
    ||| c == '\u{85}'
    ||| c == '\u{a0}'
    ||| c == '\u{1680}'
    ||| ('\u{2000}' <= c && c <= '\u{200a}')
    ||| c == '\u{2028}'
    ||| c == '\u{2029}'
    ||| c == '\u{202f}'
    ||| c == '\u{205f}'
    ||| c == '\u{3000}'
}

/// Nothing but whitespace, so nothing is left once trimmed.
pub open spec fn is_blank(s: Seq<char>) -> bool {
    forall|i: int| 0 <= i < s.len() ==> is_whitespace(#[trigger] s[i])
}

pub(crate) fn char_is_whitespace(c: char) -> (res: bool)
    ensures
        res == is_whitespace(c),
{
    ('\u{9}' <= c && c <= '\u{d}') || c == ' ' || c == '\u{85}' || c == '\u{a0}' || c
        == '\u{1680}' || ('\u{2000}' <= c && c <= '\u{200a}') || c == '\u{2028}' || c
        == '\u{2029}' || c == '\u{202f}' || c == '\u{205f}' || c == '\u{3000}'
}

/// Whether `s` trims to nothing.
pub fn blank(s: &str) -> (res: bool)
    ensures
        res == is_blank(s@),
{
    let n = s.unicode_len();
    let mut i: usize = 0;
    while i < n
        invariant
            n == s@.len(),
            i <= n,
            forall|j: int| 0 <= j < i ==> is_whitespace(#[trigger] s@[j]),
        decreases n - i,
    {
        if !char_is_whitespace(s.get_char(i)) {
            return false;
        }
        i = i + 1;
    }
    true
}

#[derive(Debug, PartialEq, Eq)]
pub struct ScreenshotSettings {
    pub png_to_jpeg_threshold_bytes: usize,
    pub jpeg_quality: u8,
}

#[derive(Debug, PartialEq, Eq)]
pub struct VideoSettings {
    pub fps: u32,
    pub bitrate: u32,
    pub preset: String,
    pub tune: String,
}

#[derive(Debug, PartialEq, Eq)]
pub struct AudioSettings {
    /// Whether a video recording carries a soundtrack. A settings file written
    /// before this field existed means `true`: back then every recording had
    /// sound.
    pub enabled: bool,
    pub bitrate: u32,
    pub channels: u16,
}

#[derive(Debug, PartialEq, Eq)]
pub struct GifSettings {
    pub fps: u32,
    pub palette_stats_mode: String,
    pub dither: String,
}

#[derive(Debug, PartialEq, Eq)]
pub struct HotkeySettings {
    pub region: String,
    pub window: String,
    pub video: [String; 2],
    pub gif: String,
}

#[derive(Debug, PartialEq, Eq)]
pub struct Settings {
    pub schema_version: u32,
    pub screenshot: ScreenshotSettings,
    pub video: VideoSettings,
    pub audio: AudioSettings,
    pub gif: GifSettings,
    pub countdown_seconds: u8,
    pub hotkeys: HotkeySettings,
}

/// What every value in a settings file has to satisfy before it can reach an
/// encoder or an FFmpeg argument.
pub open spec fn settings_valid(s: Settings) -> bool {
    &&& s.schema_version == SETTINGS_SCHEMA_VERSION
    &&& 1 <= s.screenshot.jpeg_quality <= 100
    &&& s.video.fps != 0
    &&& s.gif.fps != 0
    &&& s.video.bitrate >= 1000
    &&& s.audio.bitrate >= 1000
    &&& s.audio.channels != 0
    &&& !is_blank(s.video.preset@)
    &&& !is_blank(s.video.tune@)
}

/// The message for the first rule `s` breaks, checked in the order the rules
/// are listed in `settings_valid`.
pub open spec fn validation_message(s: Settings) -> Seq<char> {
    if s.schema_version != SETTINGS_SCHEMA_VERSION {
        "unsupported settings schema "@ + dec(s.schema_version as nat)
    } else if !(1 <= s.screenshot.jpeg_quality <= 100) || s.video.fps == 0 || s.gif.fps == 0 {
        "settings contain zero or out-of-range values"@
    } else if s.video.bitrate < 1000 || s.audio.bitrate < 1000 {
        "bitrates are given in bits per second and must be at least 1000"@
    } else if s.audio.channels == 0 {
        "a recording needs at least one audio channel"@
    } else {
        "encoder preset and tune must be named"@
    }
}

/// Why settings could not be read, written or accepted.
#[derive(Debug, PartialEq, Eq)]
pub enum SettingsError {
    Io(String),
    Invalid(String),
}

impl Clone for SettingsError {
    fn clone(&self) -> (res: Self)
        ensures
            res == *self,
    {
        match self {
            SettingsError::Io(m) => SettingsError::Io(m.clone()),
            SettingsError::Invalid(m) => SettingsError::Invalid(m.clone()),
        }
    }
}

pub open spec fn settings_error_message(e: SettingsError) -> Seq<char> {
    match e {
        SettingsError::Io(m) => "settings I/O failed: "@ + m@,
        SettingsError::Invalid(m) => "settings invalid: "@ + m@,
    }
}

impl SettingsError {
    /// A failed file operation, carrying the operating system's words.
    pub fn io(message: &str) -> (res: Self)
        ensures
            res matches SettingsError::Io(m) && m@ == message@,
    {
        SettingsError::Io(String::from_str(message))
    }

    /// The error as a sentence for the log.
    pub fn message(&self) -> (res: String)
        ensures
            res@ == settings_error_message(*self),
    {
        match self {
            SettingsError::Io(m) => {
                let mut out = String::from_str("settings I/O failed: ");
                out.append(m.as_str());
                out
            },
            SettingsError::Invalid(m) => {
                let mut out = String::from_str("settings invalid: ");
                out.append(m.as_str());
                out
            },
        }
    }
}

/// The defaults RapidCap ships with, carried over from ShareX.
pub open spec fn default_settings(s: Settings) -> bool {
    &&& s.schema_version == SETTINGS_SCHEMA_VERSION
    &&& s.screenshot.png_to_jpeg_threshold_bytes == 2_097_152
    &&& s.screenshot.jpeg_quality == 90
    &&& s.video.fps == 30
    &&& s.video.bitrate == 3_000_000
    &&& s.video.preset@ == "p7"@
    &&& s.video.tune@ == "hq"@
    &&& s.audio.enabled
    &&& s.audio.bitrate == 128_000
    &&& s.audio.channels == 2
    &&& s.gif.fps == 15
    &&& s.gif.palette_stats_mode@ == "full"@
    &&& s.gif.dither@ == "sierra2_4a"@
    &&& s.countdown_seconds == 5
    &&& s.hotkeys.region@ == "Alt+Q"@
    &&& s.hotkeys.window@ == "Alt+Print Screen"@
    &&& s.hotkeys.video[0]@ == "Alt+E"@
    &&& s.hotkeys.video[1]@ == "Shift+Print Screen"@
    &&& s.hotkeys.gif@ == "Ctrl+Shift+Print Screen"@
}

impl Default for Settings {
    fn default() -> (res: Self)
        ensures
            default_settings(res),
    {
        Settings {
            schema_version: SETTINGS_SCHEMA_VERSION,
            screenshot: ScreenshotSettings { png_to_jpeg_threshold_bytes: 2_097_152, jpeg_quality: 90 },
            video: VideoSettings {
                fps: 30,
                bitrate: 3_000_000,
                preset: String::from_str("p7"),
                tune: String::from_str("hq"),
            },
            audio: AudioSettings { enabled: true, bitrate: 128_000, channels: 2 },
            gif: GifSettings {
                fps: 15,
                palette_stats_mode: String::from_str("full"),
                dither: String::from_str("sierra2_4a"),
            },
            countdown_seconds: 5,
            hotkeys: HotkeySettings {
                region: String::from_str("Alt+Q"),
                window: String::from_str("Alt+Print Screen"),
                video: [String::from_str("Alt+E"), String::from_str("Shift+Print Screen")],
                gif: String::from_str("Ctrl+Shift+Print Screen"),
            },
        }
    }
}

impl Clone for Settings {
    fn clone(&self) -> (res: Self)
        ensures
            res == *self,
    {
        let video = [self.hotkeys.video[0].clone(), self.hotkeys.video[1].clone()];
        assert(video@ =~= self.hotkeys.video@);
        let res = Settings {
            schema_version: self.schema_version,
            screenshot: ScreenshotSettings {
                png_to_jpeg_threshold_bytes: self.screenshot.png_to_jpeg_threshold_bytes,
                jpeg_quality: self.screenshot.jpeg_quality,
            },
            video: VideoSettings {
                fps: self.video.fps,
                bitrate: self.video.bitrate,
                preset: self.video.preset.clone(),
                tune: self.video.tune.clone(),
            },
            audio: AudioSettings {
                enabled: self.audio.enabled,
                bitrate: self.audio.bitrate,
                channels: self.audio.channels,
            },
            gif: GifSettings {
                fps: self.gif.fps,
                palette_stats_mode: self.gif.palette_stats_mode.clone(),
                dither: self.gif.dither.clone(),
            },
            countdown_seconds: self.countdown_seconds,
            hotkeys: HotkeySettings {
                region: self.hotkeys.region.clone(),
                window: self.hotkeys.window.clone(),
                video,
                gif: self.hotkeys.gif.clone(),
            },
        };
        assert(res.hotkeys.video == self.hotkeys.video);
        res
    }
}

impl Settings {
    /// Refuse values that would only fail later, at the moment a take is
    /// lost: an unknown schema, a quality or frame rate out of range, a
    /// bitrate that truncates to `0k`, no audio channels, or an unnamed
    /// encoder preset or tune.
    pub fn validate(&self) -> (res: Result<(), SettingsError>)
        ensures
            res is Ok <==> settings_valid(*self),
            res matches Err(e) ==> e matches SettingsError::Invalid(m) && m@ == validation_message(
                *self,
            ),
    {
        if self.schema_version != SETTINGS_SCHEMA_VERSION {
            let mut m = String::from_str("unsupported settings schema ");
            push_dec(&mut m, self.schema_version as u64);
            return Err(SettingsError::Invalid(m));
        }
        if !(1 <= self.screenshot.jpeg_quality && self.screenshot.jpeg_quality <= 100)
            || self.video.fps == 0 || self.gif.fps == 0 {
            return Err(
                SettingsError::Invalid(String::from_str("settings contain zero or out-of-range values")),
            );
        }
        if self.video.bitrate < 1000 || self.audio.bitrate < 1000 {
            return Err(
                SettingsError::Invalid(
                    String::from_str("bitrates are given in bits per second and must be at least 1000"),
                ),
            );
        }
        if self.audio.channels == 0 {
            return Err(
                SettingsError::Invalid(String::from_str("a recording needs at least one audio channel")),
            );
        }
        if blank(self.video.preset.as_str()) || blank(self.video.tune.as_str()) {
            return Err(SettingsError::Invalid(String::from_str("encoder preset and tune must be named")));
        }
        Ok(())
    }
}

/// The shipped defaults pass their own validation, or the app would refuse
/// to start on a clean install.
pub proof fn lemma_defaults_are_valid(s: Settings)
    requires
        default_settings(s),
    ensures
        settings_valid(s),
{
    reveal_strlit("p7");
    reveal_strlit("hq");
    assert(!is_whitespace(s.video.preset@[0]));
    assert(!is_whitespace(s.video.tune@[0]));
}

/// Where the settings file lives. Reading and writing it is the app's job;
/// every value goes through `Settings::validate` on the way in and out.
#[derive(Debug, PartialEq, Eq)]
pub struct SettingsStore {
    file: String,
}

impl Clone for SettingsStore {
    fn clone(&self) -> (res: Self)
        ensures
            res == *self,
    {
        SettingsStore { file: self.file.clone() }
    }
}

impl SettingsStore {
    pub closed spec fn path(&self) -> Seq<char> {
        self.file@
    }

    pub fn new(file: String) -> (res: Self)
        ensures
            res.path() == file@,
    {
        SettingsStore { file }
    }

    /// The settings file.
    pub fn file(&self) -> (res: &str)
        ensures
            res@ == self.path(),
    {
        self.file.as_str()
    }
}

/// `part` appended to `base` as a path component, with one `/` between them
/// unless `base` already ends in a separator.
pub open spec fn join_path(base: Seq<char>, part: Seq<char>) -> Seq<char> {
    if base.len() == 0 {
        part
    } else if base.last() == '/' || base.last() == '\\' {
        base + part
    } else {
        base + seq!['/'] + part
    }
}

/// Appends `part` to `base` as a path component.
pub fn join(base: &str, part: &str) -> (res: String)
    ensures
        res@ == join_path(base@, part@),
{
    let n = base.unicode_len();
    let mut out = String::from_str(base);
    if n > 0 {
        let last = base.get_char(n - 1);
        if last != '/' && last != '\\' {
            push_char(&mut out, '/');
        }
    }
    out.append(part);
    out
}

/// The four places RapidCap writes to.
#[derive(Debug, PartialEq, Eq)]
pub struct AppPaths {
    pub capture_root: String,
    pub settings_file: String,
    pub log_dir: String,
    pub temp_dir: String,
}

impl Clone for AppPaths {
    fn clone(&self) -> (res: Self)
        ensures
            res == *self,
    {
        AppPaths {
            capture_root: self.capture_root.clone(),
            settings_file: self.settings_file.clone(),
            log_dir: self.log_dir.clone(),
            temp_dir: self.temp_dir.clone(),
        }
    }
}

impl AppPaths {
    /// Captures under Documents, settings under the roaming profile, logs
    /// and scratch files under the local one - each under `RapidCap`.
    pub fn from_roots(documents: &str, roaming_app_data: &str, local_app_data: &str) -> (res: Self)
        ensures
            res.capture_root@ == join_path(join_path(documents@, "RapidCap"@), "Screenshots"@),
            res.settings_file@ == join_path(
                join_path(roaming_app_data@, "RapidCap"@),
                "settings.json"@,
            ),
            res.log_dir@ == join_path(join_path(local_app_data@, "RapidCap"@), "Logs"@),
            res.temp_dir@ == join_path(join_path(local_app_data@, "RapidCap"@), "Temp"@),
    {
        let documents_app = join(documents, "RapidCap");
        let roaming_app = join(roaming_app_data, "RapidCap");
        let local_app = join(local_app_data, "RapidCap");
        AppPaths {
            capture_root: join(documents_app.as_str(), "Screenshots"),
            settings_file: join(roaming_app.as_str(), "settings.json"),
            log_dir: join(local_app.as_str(), "Logs"),
            temp_dir: join(local_app.as_str(), "Temp"),
        }
    }

    /// The macOS layout: `$HOME/Documents`, `Library/Application Support`
    /// and `Library/Caches`, the last standing in for the local profile.
    /// Without a home directory there is nowhere to put anything.
    pub fn discover(home: Option<&str>) -> (res: Result<Self, PathDiscoveryError>)
        ensures
            home is None <==> res is Err,
            res matches Err(e) ==> e.message_text() == "HOME is not set"@,
            res matches Ok(paths) ==> home matches Some(h) && paths.capture_root@ == join_path(
                join_path(join_path(h@, "Documents"@), "RapidCap"@),
                "Screenshots"@,
            ) && paths.settings_file@ == join_path(
                join_path(join_path(h@, "Library/Application Support"@), "RapidCap"@),
                "settings.json"@,
            ) && paths.log_dir@ == join_path(
                join_path(join_path(h@, "Library/Caches"@), "RapidCap"@),
                "Logs"@,
            ) && paths.temp_dir@ == join_path(
                join_path(join_path(h@, "Library/Caches"@), "RapidCap"@),
                "Temp"@,
            ),
    {
        match home {
            None => Err(PathDiscoveryError(String::from_str("HOME is not set"))),
            Some(h) => {
                let documents = join(h, "Documents");
                let support = join(h, "Library/Application Support");
                let caches = join(h, "Library/Caches");
                Ok(AppPaths::from_roots(documents.as_str(), support.as_str(), caches.as_str()))
            },
        }
    }
}

/// A platform folder that could not be resolved.
#[derive(Debug, PartialEq, Eq)]
pub struct PathDiscoveryError(pub String);

impl PathDiscoveryError {
    pub open spec fn message_text(&self) -> Seq<char> {
        self.0@
    }

    /// The error as a sentence for the log.
    pub fn message(&self) -> (res: String)
        ensures
            res@ == "failed to resolve a platform folder: "@ + self.0@,
    {
        let mut out = String::from_str("failed to resolve a platform folder: ");
        out.append(self.0.as_str());
        out
    }
}

/// Valid settings stay valid whatever their numbers are changed to, within
/// the documented ranges: any JPEG quality from 1 to 100, any frame rate
/// but zero, any bitrate of at least 1000 bits per second, any channel
/// count but zero. Nothing else about the numbers is checked - a 60 fps
/// video is as acceptable as a 30 fps one.
pub proof fn lemma_any_documented_value_is_accepted(s: Settings, t: Settings)
    requires
        settings_valid(s),
        t.schema_version == s.schema_version,
        t.video.preset == s.video.preset,
        t.video.tune == s.video.tune,
        1 <= t.screenshot.jpeg_quality <= 100,
        t.video.fps != 0,
        t.gif.fps != 0,
        t.video.bitrate >= 1000,
        t.audio.bitrate >= 1000,
        t.audio.channels != 0,
    ensures
        settings_valid(t),
{
}

/// Each documented limit is enforced on its own: settings from another
/// schema, a JPEG quality outside 1 to 100, a zero frame rate, a bitrate
/// under 1000 bits per second, no audio channel, or an unnamed preset or
/// tune are refused, whatever the rest holds.
pub proof fn lemma_each_limit_is_enforced(s: Settings)
    ensures
        s.schema_version != SETTINGS_SCHEMA_VERSION ==> !settings_valid(s),
        s.screenshot.jpeg_quality == 0 || s.screenshot.jpeg_quality > 100 ==> !settings_valid(s),
        s.video.fps == 0 || s.gif.fps == 0 ==> !settings_valid(s),
        s.video.bitrate < 1000 || s.audio.bitrate < 1000 ==> !settings_valid(s),
        s.audio.channels == 0 ==> !settings_valid(s),
        s.video.preset@.len() == 0 || s.video.tune@.len() == 0 ==> !settings_valid(s),
{
}

} // verus!
