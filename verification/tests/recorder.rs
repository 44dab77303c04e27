use std::path::PathBuf;
use sysvoice_rec::encoder::OutputFormat;
use sysvoice_rec::ffmpeg_manager::DlMsg;
use sysvoice_rec::recorder::{Phase, RecordCommand, Recorder, StatusTone};

fn idle_with_ffmpeg() -> Recorder {
    Recorder::new(Some(PathBuf::from("/usr/bin/ffmpeg")), false).0
}

#[test]
fn startup_with_ffmpeg() {
    let (r, download) = Recorder::new(Some(PathBuf::from("/usr/bin/ffmpeg")), true);
    assert!(!download);
    assert_eq!(r.phase(), Phase::Idle);
    assert_eq!(r.status_msg(), "ffmpeg found - all formats available");
    assert!(!r.downloading());
    assert_eq!(r.status_tone(), StatusTone::Ready);
}

#[test]
fn startup_without_ffmpeg_downloads_where_supported() {
    let (r, download) = Recorder::new(None, true);
    assert!(download);
    assert!(r.downloading());
    assert_eq!(r.status_msg(), "Fetching ffmpeg...");
    assert_eq!(r.status_tone(), StatusTone::Downloading);
    assert!(r.needs_repaint());
}

#[test]
fn startup_without_ffmpeg_unsupported_platform() {
    let (r, download) = Recorder::new(None, false);
    assert!(!download);
    assert!(!r.downloading());
    assert_eq!(r.status_msg(), "ffmpeg not found - install it manually to enable MP3/FLAC/AAC/Opus");
    assert_eq!(r.status_tone(), StatusTone::NoFfmpeg);
    assert!(r.needs_ffmpeg_help());
    assert!(r.format_available(OutputFormat::Wav));
    assert!(!r.format_available(OutputFormat::Mp3));
}

#[test]
fn download_progress_messages() {
    let (mut r, _) = Recorder::new(None, true);
    assert!(!r.on_download_msg(DlMsg::Downloading));
    assert_eq!(r.status_msg(), "Downloading ffmpeg...");
    assert!(!r.on_download_msg(DlMsg::Extracting));
    assert_eq!(r.status_msg(), "Extracting ffmpeg...");
    assert!(r.on_download_msg(DlMsg::Done(PathBuf::from("/cache/ffmpeg"))));
    assert_eq!(r.status_msg(), "All formats available");
    assert_eq!(r.ffmpeg_path(), &Some(PathBuf::from("/cache/ffmpeg")));
    assert!(!r.downloading());
    for &f in OutputFormat::all() {
        assert!(r.format_available(f));
    }
    assert_eq!(r.phase(), Phase::Idle);
}

#[test]
fn download_failure() {
    let (mut r, _) = Recorder::new(None, true);
    assert!(!r.on_download_msg(DlMsg::Failed("network down".to_string())));
    assert!(r.dl_failed());
    assert!(!r.downloading());
    assert_eq!(r.dl_error().as_deref(), Some("network down"));
    assert_eq!(r.status_msg(), "ffmpeg download failed: network down");
    assert_eq!(r.download_error_line().as_deref(), Some("Auto-download failed: network down"));
}

#[test]
fn retry_download() {
    let (mut r, _) = Recorder::new(None, true);
    r.on_download_msg(DlMsg::Failed("x".to_string()));
    assert!(r.retry_download(true));
    assert!(r.downloading());
    assert!(!r.dl_failed());
    assert_eq!(r.dl_error(), &None);
    assert_eq!(r.status_msg(), "Retrying ffmpeg download...");
    assert_eq!(r.download_error_line(), None);
    let (mut u, _) = Recorder::new(None, false);
    assert!(!u.retry_download(false));
    assert!(u.dl_failed());
    assert_eq!(u.dl_error().as_deref(), Some("Automatic ffmpeg download is unsupported on this OS."));
    assert_eq!(u.status_msg(), "Install ffmpeg manually and restart the app.");
}

#[test]
fn successful_recording_cycle() {
    let mut r = idle_with_ffmpeg();
    assert_eq!(r.record_label(), "REC");
    assert_eq!(r.record_command(), RecordCommand::Start);
    r.recording_started();
    assert_eq!(r.phase(), Phase::Recording);
    assert_eq!(r.status_msg(), "Recording...");
    assert_eq!(r.record_label(), "STOP");
    assert_eq!(r.record_command(), RecordCommand::Stop);
    assert!(!r.is_idle());
    assert!(r.needs_repaint());
    r.recording_stopped();
    assert_eq!(r.phase(), Phase::Processing);
    assert_eq!(r.status_msg(), "Converting & saving...");
    assert_eq!(r.record_label(), "Converting...");
    assert!(!r.record_enabled());
    assert_eq!(r.record_command(), RecordCommand::Nothing);
    let out = PathBuf::from("/music/recording_1.mp3");
    assert!(r.conversion_finished(Ok(out.clone())));
    assert_eq!(r.phase(), Phase::Done);
    assert_eq!(r.last_output(), &Some(out));
    assert_eq!(r.last_error(), &None);
    assert_eq!(r.status_msg(), "Saved!");
    assert!(r.is_idle());
    assert!(r.record_enabled());
    assert_eq!(r.status_tone(), StatusTone::Done);
    assert_eq!(r.error_line(), None);
}

#[test]
fn failed_recording_cycle() {
    let mut r = idle_with_ffmpeg();
    r.recording_started();
    r.recording_stopped();
    assert!(!r.conversion_finished(Err("WAV write timeout".to_string())));
    assert_eq!(r.phase(), Phase::Error);
    assert_eq!(r.last_error().as_deref(), Some("WAV write timeout"));
    assert_eq!(r.status_msg(), "Error");
    assert_eq!(r.last_output(), &None);
    assert!(r.is_idle());
    assert_eq!(r.status_tone(), StatusTone::Error);
    assert_eq!(r.error_line().as_deref(), Some("Error: WAV write timeout"));
}

#[test]
fn starting_clears_previous_outcome() {
    let mut r = idle_with_ffmpeg();
    r.recording_started();
    r.recording_stopped();
    r.conversion_finished(Ok(PathBuf::from("a.wav")));
    assert_eq!(r.last_output(), &Some(PathBuf::from("a.wav")));
    r.recording_started();
    assert_eq!(r.last_output(), &None);
    assert_eq!(r.last_error(), &None);
}

#[test]
fn capture_failure() {
    let mut r = idle_with_ffmpeg();
    r.capture_failed("No input device found");
    assert_eq!(r.phase(), Phase::Error);
    assert_eq!(r.last_error().as_deref(), Some("Failed to start device: No input device found"));
    assert_eq!(r.status_msg(), "ffmpeg found - all formats available");
}

#[test]
fn wav_writer_failure() {
    let mut r = idle_with_ffmpeg();
    r.recording_started();
    r.wav_failed("disk full".to_string());
    assert_eq!(r.phase(), Phase::Error);
    assert_eq!(r.last_error().as_deref(), Some("disk full"));
    assert_eq!(r.status_msg(), "Recording...");
}

#[test]
fn download_does_not_disturb_recording() {
    let (mut r, _) = Recorder::new(None, true);
    r.recording_started();
    r.on_download_msg(DlMsg::Done(PathBuf::from("/c/ffmpeg")));
    assert_eq!(r.phase(), Phase::Recording);
    assert_eq!(r.status_msg(), "All formats available");
}

#[test]
fn button_acts_only_along_the_cycle() {
    let mut r = idle_with_ffmpeg();
    assert_eq!(r.record_command(), RecordCommand::Start);
    r.capture_failed("busy");
    assert_eq!(r.phase(), Phase::Error);
    assert_eq!(r.record_command(), RecordCommand::Start);
    r.recording_started();
    r.wav_failed("bad header".to_string());
    assert_eq!(r.phase(), Phase::Error);
    assert_eq!(r.record_command(), RecordCommand::Start);
}

#[test]
fn events_outside_their_phase_change_nothing() {
    let mut r = idle_with_ffmpeg();
    assert!(!r.conversion_finished(Ok(PathBuf::from("x.wav"))));
    assert_eq!(r.phase(), Phase::Idle);
    assert_eq!(r.last_output(), &None);
    r.wav_failed("late".to_string());
    assert_eq!(r.phase(), Phase::Idle);
    assert_eq!(r.last_error(), &None);
    r.recording_stopped();
    assert_eq!(r.phase(), Phase::Idle);
    r.recording_started();
    r.recording_started();
    assert_eq!(r.phase(), Phase::Recording);
    r.capture_failed("busy");
    assert_eq!(r.phase(), Phase::Recording);
    assert_eq!(r.last_error(), &None);
    r.recording_stopped();
    r.wav_failed("late".to_string());
    assert_eq!(r.phase(), Phase::Processing);
    r.recording_started();
    assert_eq!(r.phase(), Phase::Processing);
    assert!(!r.conversion_finished(Err("disk full".to_string())));
    assert_eq!(r.phase(), Phase::Error);
    assert!(!r.conversion_finished(Ok(PathBuf::from("y.wav"))));
    assert_eq!(r.phase(), Phase::Error);
    assert_eq!(r.last_output(), &None);
}
