//! User settings: output format, save directory, ffmpeg location, volume and
//! interface language, and the rules that choose their values.
use std::path::PathBuf;
use vstd::prelude::*;
use crate::encoder::OutputFormat;
use crate::paths;
use crate::paths::path_from;

verus! {

/// UI display language.
#[derive(Clone, Copy, Debug, PartialEq, Eq, Structural)]
pub enum Lang {
    En,
    Ja,
}

/// The volume used when none is stored: 100% is the -14 LUFS reference.
pub fn default_volume_pct() -> (v: u32)
    ensures
        v == 100,
{
    100
}

/// The language used when none is stored.
pub fn default_lang() -> (l: Lang)
    ensures
        l == Lang::En,
{
    Lang::En
}

/// Highest volume the user can choose, in percent.
pub const MAX_VOLUME_PCT: u32 = 200;

/// Volumes above this many percent may clip.
pub const CLIPPING_WARNING_PCT: u32 = 150;

/// The text for `lang`: `ja` in Japanese, `en` otherwise.
pub open spec fn spec_t(lang: Lang, en: &'static str, ja: &'static str) -> &'static str {
    if lang == Lang::Ja {
        ja
    } else {
        en
    }
}

/// The language the interface can use: Japanese needs a CJK font.
pub open spec fn usable_lang(lang: Lang, cjk_available: bool) -> Lang {
    if cjk_available {
        lang
    } else {
        Lang::En
    }
}

/// The text for `lang`: `ja` in Japanese, `en` otherwise.
pub fn t(lang: Lang, en: &'static str, ja: &'static str) -> (s: &'static str)
    ensures
        s == spec_t(lang, en, ja),
{
    if lang == Lang::Ja {
        ja
    } else {
        en
    }
}

/// The file name of the ffmpeg program on Windows (`windows`) or elsewhere.
pub fn ffmpeg_binary_name(windows: bool) -> (n: &'static str)
    ensures
        n@ == (if windows { "ffmpeg.exe"@ } else { "ffmpeg"@ }),
{
    if windows {
        "ffmpeg.exe"
    } else {
        "ffmpeg"
    }
}

#[derive(Clone, Debug)]
pub struct Settings {
    pub output_format: OutputFormat,
    pub save_directory: PathBuf,
    pub ffmpeg_path: Option<PathBuf>,
    /// Output volume (0-200%). 100 = -14 LUFS. Only compressed formats use it.
    pub volume_pct: u32,
    /// UI display language. Japanese only where a CJK font could be loaded.
    pub lang: Lang,
}

/// Where ffmpeg was looked for, and what was found; see
/// [`Settings::find_ffmpeg`].
#[derive(Clone, Debug)]
pub struct FfmpegProbe {
    /// The stored path names an existing file.
    pub stored_exists: bool,
    /// The location an automatic download puts ffmpeg.
    pub cached: PathBuf,
    pub cached_exists: bool,
    /// ffmpeg beside the running program, where that folder is known.
    pub beside_exe: Option<PathBuf>,
    pub beside_exe_exists: bool,
    /// ffmpeg as found on the search path.
    pub on_path: Option<PathBuf>,
}

impl Settings {
    /// The settings before the user changed anything: WAV, full volume,
    /// English, no known ffmpeg, saving to the audio folder, else the home
    /// folder, else the current directory.
    pub fn with_defaults(audio_dir: Option<PathBuf>, home_dir: Option<PathBuf>) -> (s: Settings)
        ensures
            s.output_format == OutputFormat::Wav,
            s.save_directory == (match audio_dir {
                Some(a) => a,
                None => match home_dir {
                    Some(h) => h,
                    None => paths::path_of("."@),
                },
            }),
            s.ffmpeg_path is None,
            s.volume_pct == 100,
            s.lang == Lang::En,
    {
        let save_dir = match audio_dir {
            Some(a) => a,
            None => match home_dir {
                Some(h) => h,
                None => path_from("."),
            },
        };
        Settings {
            output_format: OutputFormat::Wav,
            save_directory: save_dir,
            ffmpeg_path: None,
            volume_pct: default_volume_pct(),
            lang: default_lang(),
        }
    }

    /// Which ffmpeg to use, in this order: the stored path, the downloaded
    /// copy, one beside the program, one on the search path.
    pub open spec fn spec_find_ffmpeg(self, probe: FfmpegProbe) -> Option<PathBuf> {
        if self.ffmpeg_path is Some && probe.stored_exists {
            self.ffmpeg_path
        } else if probe.cached_exists {
            Some(probe.cached)
        } else if probe.beside_exe is Some && probe.beside_exe_exists {
            probe.beside_exe
        } else {
            probe.on_path
        }
    }

    /// Find ffmpeg binary.
    /// 1. Stored path in settings
    /// 2. App cache (auto-downloaded)
    /// 3. Same folder as the executable
    /// 4. System PATH
    pub fn find_ffmpeg(&self, probe: FfmpegProbe) -> (r: Option<PathBuf>)
        ensures
            r == self.spec_find_ffmpeg(probe),
    {
        if let Some(p) = &self.ffmpeg_path {
            if probe.stored_exists {
                return Some(p.clone());
            }
        }
        if probe.cached_exists {
            return Some(probe.cached);
        }
        if probe.beside_exe.is_some() && probe.beside_exe_exists {
            return probe.beside_exe;
        }
        probe.on_path
    }

    /// Japanese needs a CJK font: without one the interface stays English.
    pub fn restrict_language(&mut self, cjk_available: bool)
        ensures
            final(self).lang == usable_lang(old(self).lang, cjk_available),
            final(self).output_format == old(self).output_format,
            final(self).save_directory == old(self).save_directory,
            final(self).ffmpeg_path == old(self).ffmpeg_path,
            final(self).volume_pct == old(self).volume_pct,
    {
        if !cjk_available {
            self.lang = Lang::En;
        }
    }

    /// A volume above 150% is shown with a clipping warning.
    pub fn volume_warning(&self) -> (b: bool)
        ensures
            b == (self.volume_pct > 150),
    {
        self.volume_pct > CLIPPING_WARNING_PCT
    }

    /// The volume lies in the range the user can choose, and the language is
    /// English where no CJK font is available.
    pub open spec fn within_bounds(self, cjk_available: bool) -> bool {
        &&& self.volume_pct <= 200
        &&& !cjk_available ==> self.lang == Lang::En
    }

    /// The format `f` may be chosen: only while idle, and only where it
    /// needs no ffmpeg or ffmpeg is available.
    pub open spec fn spec_choose_format(self, f: OutputFormat, idle: bool, ffmpeg_available: bool) -> Settings {
        if idle && (!f.spec_requires_ffmpeg() || ffmpeg_available) {
            Settings { output_format: f, ..self }
        } else {
            self
        }
    }

    /// The volume slider is active while idle with a compressed format.
    pub open spec fn volume_adjustable(self, idle: bool) -> bool {
        idle && self.output_format.spec_requires_ffmpeg()
    }

    /// A slider position, held to the slider's range 0..=200.
    pub open spec fn slider_volume(v: int) -> int {
        if v < 0 {
            0
        } else if v > 200 {
            200
        } else {
            v
        }
    }

    pub open spec fn spec_set_volume(self, v: i32, idle: bool) -> Settings {
        if self.volume_adjustable(idle) {
            Settings { volume_pct: Self::slider_volume(v as int) as u32, ..self }
        } else {
            self
        }
    }

    pub open spec fn spec_reset_volume(self, idle: bool) -> Settings {
        if self.volume_adjustable(idle) {
            Settings { volume_pct: 100, ..self }
        } else {
            self
        }
    }

    /// The language toggle is shown only with a CJK font and works only while
    /// idle.
    pub open spec fn spec_choose_language(self, l: Lang, idle: bool, cjk_available: bool) -> Settings {
        if idle && cjk_available {
            Settings { lang: l, ..self }
        } else {
            self
        }
    }

    pub open spec fn spec_choose_save_directory(self, dir: PathBuf, idle: bool) -> Settings {
        if idle {
            Settings { save_directory: dir, ..self }
        } else {
            self
        }
    }

    /// Chooses the output format; the result tells whether it was taken.
    pub fn choose_format(&mut self, f: OutputFormat, idle: bool, ffmpeg_available: bool) -> (taken:
        bool)
        ensures
            *final(self) == old(self).spec_choose_format(f, idle, ffmpeg_available),
            taken == (idle && (!f.spec_requires_ffmpeg() || ffmpeg_available)),
            taken ==> final(self).output_format == f,
            !taken ==> *final(self) == *old(self),
    {
        if idle && (!f.requires_ffmpeg() || ffmpeg_available) {
            self.output_format = f;
            true
        } else {
            false
        }
    }

    /// Takes the slider position `v` as the volume, held to 0..=200; the
    /// result tells whether the slider was active.
    pub fn set_volume(&mut self, v: i32, idle: bool) -> (taken: bool)
        ensures
            *final(self) == old(self).spec_set_volume(v, idle),
            taken == old(self).volume_adjustable(idle),
    {
        if idle && self.output_format.requires_ffmpeg() {
            let pct: u32 = if v < 0 {
                0
            } else if v > 200 {
                MAX_VOLUME_PCT
            } else {
                v as u32
            };
            self.volume_pct = pct;
            true
        } else {
            false
        }
    }

    /// Puts the volume back to 100%; the result tells whether the slider was
    /// active.
    pub fn reset_volume(&mut self, idle: bool) -> (taken: bool)
        ensures
            *final(self) == old(self).spec_reset_volume(idle),
            taken == old(self).volume_adjustable(idle),
    {
        if idle && self.output_format.requires_ffmpeg() {
            self.volume_pct = default_volume_pct();
            true
        } else {
            false
        }
    }

    /// Chooses the interface language; the result tells whether it was taken
    /// (and the settings are to be saved).
    pub fn choose_language(&mut self, l: Lang, idle: bool, cjk_available: bool) -> (taken: bool)
        ensures
            *final(self) == old(self).spec_choose_language(l, idle, cjk_available),
            taken == (idle && cjk_available),
            taken ==> final(self).lang == l,
            !taken ==> *final(self) == *old(self),
    {
        if idle && cjk_available {
            self.lang = l;
            true
        } else {
            false
        }
    }

    /// Chooses the folder recordings are saved to; the result tells whether
    /// it was taken (and the settings are to be saved).
    pub fn choose_save_directory(&mut self, dir: PathBuf, idle: bool) -> (taken: bool)
        ensures
            *final(self) == old(self).spec_choose_save_directory(dir, idle),
            taken == idle,
    {
        if idle {
            self.save_directory = dir;
            true
        } else {
            false
        }
    }
}

/// Without a CJK font every text of the interface is the English one,
/// whatever language was stored.
pub proof fn law_english_without_cjk_font(stored: Lang, en: &'static str, ja: &'static str)
    ensures
        spec_t(usable_lang(stored, false), en, ja) == en,
        spec_t(usable_lang(stored, true), en, ja) == spec_t(stored, en, ja),
{
}

/// The settings stay within bounds: the volume at most 200% and the
/// language English without a CJK font, whatever the user does. Nothing
/// changes except while idle, and a newly chosen format is one that can be
/// produced.
pub proof fn law_settings_stay_in_bounds(
    s: Settings,
    cjk_available: bool,
    idle: bool,
    ffmpeg_available: bool,
    f: OutputFormat,
    v: i32,
    l: Lang,
    dir: PathBuf,
)
    requires
        s.within_bounds(cjk_available),
    ensures
        s.spec_choose_format(f, idle, ffmpeg_available).within_bounds(cjk_available),
        s.spec_set_volume(v, idle).within_bounds(cjk_available),
        s.spec_reset_volume(idle).within_bounds(cjk_available),
        s.spec_choose_language(l, idle, cjk_available).within_bounds(cjk_available),
        s.spec_choose_save_directory(dir, idle).within_bounds(cjk_available),
        !idle ==> s.spec_choose_format(f, idle, ffmpeg_available) == s,
        !idle ==> s.spec_set_volume(v, idle) == s,
        !idle ==> s.spec_reset_volume(idle) == s,
        !idle ==> s.spec_choose_language(l, idle, cjk_available) == s,
        !idle ==> s.spec_choose_save_directory(dir, idle) == s,
        s.spec_choose_format(f, idle, ffmpeg_available).output_format == s.output_format
            || !f.spec_requires_ffmpeg() || ffmpeg_available,
{
}

/// Settings start within bounds: the defaults for any font, and any stored
/// settings with a volume of at most 200% once the language is fitted to
/// the font.
pub proof fn law_settings_start_in_bounds(s: Settings, cjk_available: bool)
    requires
        s.volume_pct <= 200,
    ensures
        (Settings { lang: usable_lang(s.lang, cjk_available), ..s }).within_bounds(cjk_available),
{
}

/// ffmpeg is looked for in a fixed order, each place winning over every
/// later one: a stored path that exists; else the downloaded copy, if it
/// exists, whatever is beside the program or on the search path; else the
/// copy beside the program, if it exists; else whatever the search path
/// gives. A place that does not exist is never chosen.
pub proof fn law_ffmpeg_search_order(s: Settings, probe: FfmpegProbe)
    ensures
        ({
            let stored_usable = s.ffmpeg_path is Some && probe.stored_exists;
            let beside_usable = probe.beside_exe is Some && probe.beside_exe_exists;
            let r = s.spec_find_ffmpeg(probe);
            &&& stored_usable ==> r == s.ffmpeg_path
            &&& !stored_usable && probe.cached_exists ==> r == Some(probe.cached)
            &&& !stored_usable && !probe.cached_exists && beside_usable ==> r == probe.beside_exe
            &&& !stored_usable && !probe.cached_exists && !beside_usable ==> r == probe.on_path
            &&& (stored_usable && r == s.ffmpeg_path) || (probe.cached_exists && r == Some(
                probe.cached,
            )) || (beside_usable && r == probe.beside_exe) || r == probe.on_path
        }),
{
}

/// A format the user may pick is the one that is then set, and nothing
/// else changes; a format that may not be picked changes nothing. Picking
/// is possible exactly while idle, and for a compressed format only once
/// ffmpeg is available.
pub proof fn law_format_choice_is_taken(
    s: Settings,
    f: OutputFormat,
    idle: bool,
    ffmpeg_available: bool,
)
    ensures
        ({
            let t = s.spec_choose_format(f, idle, ffmpeg_available);
            &&& idle && (!f.spec_requires_ffmpeg() || ffmpeg_available) ==> t.output_format == f
            &&& !(idle && (!f.spec_requires_ffmpeg() || ffmpeg_available)) ==> t.output_format
                == s.output_format
            &&& t.save_directory == s.save_directory
            &&& t.ffmpeg_path == s.ffmpeg_path
            &&& t.volume_pct == s.volume_pct
            &&& t.lang == s.lang
        }),
        idle ==> s.spec_choose_format(OutputFormat::Wav, idle, ffmpeg_available).output_format
            == OutputFormat::Wav,
        idle && ffmpeg_available ==> s.spec_choose_format(f, idle, ffmpeg_available).output_format
            == f,
{
}

/// The volume slider sets the volume it shows, held to 0..=200, and the
/// reset puts it back to 100%; while the slider is inactive the volume stays.
/// The save folder chosen while idle is the one then kept.
pub proof fn law_volume_and_folder_choices(s: Settings, v: i32, idle: bool, dir: PathBuf)
    ensures
        s.volume_adjustable(idle) && 0 <= v <= 200 ==> s.spec_set_volume(v, idle).volume_pct == v,
        s.volume_adjustable(idle) && v > 200 ==> s.spec_set_volume(v, idle).volume_pct == 200,
        s.volume_adjustable(idle) && v < 0 ==> s.spec_set_volume(v, idle).volume_pct == 0,
        !s.volume_adjustable(idle) ==> s.spec_set_volume(v, idle).volume_pct == s.volume_pct,
        s.volume_adjustable(idle) ==> s.spec_reset_volume(idle).volume_pct == 100,
        s.spec_set_volume(v, idle).output_format == s.output_format,
        idle ==> s.spec_choose_save_directory(dir, idle).save_directory == dir,
        !idle ==> s.spec_choose_save_directory(dir, idle).save_directory == s.save_directory,
{
}

/// With a CJK font and while idle, the language the user picks is the one
/// then used, in either direction: picking English after Japanese gives
/// English again. Without a CJK font or while busy nothing changes.
pub proof fn law_language_choice_is_taken(s: Settings, l: Lang, m: Lang, idle: bool, cjk_available: bool)
    ensures
        idle && cjk_available ==> s.spec_choose_language(l, idle, cjk_available).lang == l,
        !(idle && cjk_available) ==> s.spec_choose_language(l, idle, cjk_available).lang == s.lang,
        idle && cjk_available ==> s.spec_choose_language(l, idle, cjk_available).spec_choose_language(
            m,
            idle,
            cjk_available,
        ).lang == m,
        s.spec_choose_language(l, idle, cjk_available).output_format == s.output_format,
        s.spec_choose_language(l, idle, cjk_available).volume_pct == s.volume_pct,
{
}

} // verus!
