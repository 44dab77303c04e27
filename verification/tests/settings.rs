use std::path::PathBuf;
use sysvoice_rec::encoder::OutputFormat;
use sysvoice_rec::settings::{default_lang, default_volume_pct, ffmpeg_binary_name, t, FfmpegProbe, Lang, Settings};

fn probe() -> FfmpegProbe {
    FfmpegProbe {
        stored_exists: false,
        cached: PathBuf::from("/cache/ffmpeg"),
        cached_exists: false,
        beside_exe: Some(PathBuf::from("/opt/app/ffmpeg")),
        beside_exe_exists: false,
        on_path: Some(PathBuf::from("/usr/bin/ffmpeg")),
    }
}

#[test]
fn defaults() {
    assert_eq!(default_volume_pct(), 100);
    assert_eq!(default_lang(), Lang::En);
}

#[test]
fn default_save_directory_prefers_audio_dir() {
    let s = Settings::with_defaults(Some(PathBuf::from("/home/u/Music")), Some(PathBuf::from("/home/u")));
    assert_eq!(s.save_directory, PathBuf::from("/home/u/Music"));
    assert_eq!(s.output_format, OutputFormat::Wav);
    assert_eq!(s.ffmpeg_path, None);
    assert_eq!(s.volume_pct, 100);
    assert_eq!(s.lang, Lang::En);
    let h = Settings::with_defaults(None, Some(PathBuf::from("/home/u")));
    assert_eq!(h.save_directory, PathBuf::from("/home/u"));
    let d = Settings::with_defaults(None, None);
    assert_eq!(d.save_directory, PathBuf::from("."));
}

#[test]
fn find_ffmpeg_order() {
    let mut s = Settings::with_defaults(None, None);
    s.ffmpeg_path = Some(PathBuf::from("/stored/ffmpeg"));
    let mut p = probe();
    p.stored_exists = true;
    p.cached_exists = true;
    assert_eq!(s.find_ffmpeg(p.clone()), Some(PathBuf::from("/stored/ffmpeg")));
    p.stored_exists = false;
    assert_eq!(s.find_ffmpeg(p.clone()), Some(PathBuf::from("/cache/ffmpeg")));
    p.cached_exists = false;
    p.beside_exe_exists = true;
    assert_eq!(s.find_ffmpeg(p.clone()), Some(PathBuf::from("/opt/app/ffmpeg")));
    p.beside_exe_exists = false;
    assert_eq!(s.find_ffmpeg(p.clone()), Some(PathBuf::from("/usr/bin/ffmpeg")));
    p.on_path = None;
    assert_eq!(s.find_ffmpeg(p), None);
}

#[test]
fn stored_flag_without_stored_path_is_ignored() {
    let s = Settings::with_defaults(None, None);
    let mut p = probe();
    p.stored_exists = true;
    assert_eq!(s.find_ffmpeg(p), Some(PathBuf::from("/usr/bin/ffmpeg")));
}

#[test]
fn binary_name() {
    assert_eq!(ffmpeg_binary_name(true), "ffmpeg.exe");
    assert_eq!(ffmpeg_binary_name(false), "ffmpeg");
}

#[test]
fn language_needs_cjk_font() {
    let mut s = Settings::with_defaults(None, None);
    s.lang = Lang::Ja;
    s.restrict_language(true);
    assert_eq!(s.lang, Lang::Ja);
    s.restrict_language(false);
    assert_eq!(s.lang, Lang::En);
}

#[test]
fn translation_pick() {
    assert_eq!(t(Lang::En, "Format:", "形式:"), "Format:");
    assert_eq!(t(Lang::Ja, "Format:", "形式:"), "形式:");
}

#[test]
fn volume_warning_above_150() {
    let mut s = Settings::with_defaults(None, None);
    s.volume_pct = 150;
    assert!(!s.volume_warning());
    s.volume_pct = 151;
    assert!(s.volume_warning());
}

#[test]
fn format_choice_needs_idle_and_ffmpeg() {
    let mut s = Settings::with_defaults(None, None);
    assert!(!s.choose_format(OutputFormat::Mp3, true, false));
    assert_eq!(s.output_format, OutputFormat::Wav);
    assert!(!s.choose_format(OutputFormat::Flac, false, true));
    assert_eq!(s.output_format, OutputFormat::Wav);
    assert!(s.choose_format(OutputFormat::Opus, true, true));
    assert_eq!(s.output_format, OutputFormat::Opus);
    assert!(s.choose_format(OutputFormat::Wav, true, false));
    assert_eq!(s.output_format, OutputFormat::Wav);
}

#[test]
fn volume_slider_is_held_to_range() {
    let mut s = Settings::with_defaults(None, None);
    assert!(!s.set_volume(150, true));
    assert_eq!(s.volume_pct, 100);
    s.choose_format(OutputFormat::Mp3, true, true);
    assert!(!s.set_volume(150, false));
    assert_eq!(s.volume_pct, 100);
    assert!(s.set_volume(150, true));
    assert_eq!(s.volume_pct, 150);
    assert!(s.set_volume(500, true));
    assert_eq!(s.volume_pct, 200);
    assert!(s.set_volume(-3, true));
    assert_eq!(s.volume_pct, 0);
    assert!(s.reset_volume(true));
    assert_eq!(s.volume_pct, 100);
}

#[test]
fn language_choice_needs_cjk_and_idle() {
    let mut s = Settings::with_defaults(None, None);
    assert!(!s.choose_language(Lang::Ja, true, false));
    assert_eq!(s.lang, Lang::En);
    assert!(!s.choose_language(Lang::Ja, false, true));
    assert_eq!(s.lang, Lang::En);
    assert!(s.choose_language(Lang::Ja, true, true));
    assert_eq!(s.lang, Lang::Ja);
}

#[test]
fn save_directory_choice_needs_idle() {
    let mut s = Settings::with_defaults(None, None);
    assert!(!s.choose_save_directory(PathBuf::from("/x"), false));
    assert_eq!(s.save_directory, PathBuf::from("."));
    assert!(s.choose_save_directory(PathBuf::from("/x"), true));
    assert_eq!(s.save_directory, PathBuf::from("/x"));
}
