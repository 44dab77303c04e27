use std::path::PathBuf;
use sysvoice_rec::encoder::{EncodeJob, OutputFormat};
use sysvoice_rec::recording::{
    elapsed_text, ffmpeg_missing_message, is_leftover_temp_wav, output_file_name, plan_conversion,
    temp_wav_file_name, wav_finish, Conversion,
};

#[test]
fn temp_wav_name() {
    assert_eq!(temp_wav_file_name(1700000000), "sysvoice_1700000000.wav");
    assert_eq!(temp_wav_file_name(0), "sysvoice_0.wav");
}

#[test]
fn temp_wav_names_are_cleaned_up() {
    for e in [0u64, 7, 1700000000, u64::MAX] {
        assert!(is_leftover_temp_wav(&temp_wav_file_name(e)));
    }
}

#[test]
fn leftover_recognition_edge_cases() {
    assert!(is_leftover_temp_wav("sysvoice_.wav"));
    assert!(is_leftover_temp_wav("sysvoice_x.y.wav"));
    assert!(!is_leftover_temp_wav("sysvoice_1.WAV"));
    assert!(!is_leftover_temp_wav("sysvoice_1.wav.bak"));
    assert!(!is_leftover_temp_wav("sysvoice_wav"));
    assert!(!is_leftover_temp_wav("other_1.wav"));
    assert!(!is_leftover_temp_wav("sysvoice"));
    assert!(!is_leftover_temp_wav(""));
    for name in ["sysvoice_.wav", "sysvoice_1.WAV", "sysvoice_wav", "sysvoice_a.b.wav"] {
        let std_view = PathBuf::from(name).extension().map(|e| e == "wav").unwrap_or(false)
            && name.starts_with("sysvoice_");
        assert_eq!(is_leftover_temp_wav(name), std_view);
    }
}

#[test]
fn output_name() {
    assert_eq!(output_file_name(1700000123, OutputFormat::Aac), "recording_1700000123.m4a");
    assert_eq!(output_file_name(5, OutputFormat::Wav), "recording_5.wav");
    for &f in OutputFormat::all() {
        let n = output_file_name(42, f);
        assert_eq!(PathBuf::from(&n).extension().unwrap(), f.extension());
        assert!(!is_leftover_temp_wav(&n));
    }
}

#[test]
fn elapsed_formatting() {
    assert_eq!(elapsed_text(0), "00:00:00");
    assert_eq!(elapsed_text(59), "00:00:59");
    assert_eq!(elapsed_text(61), "00:01:01");
    assert_eq!(elapsed_text(3600), "01:00:00");
    assert_eq!(elapsed_text(3 * 3600 + 25 * 60 + 7), "03:25:07");
    assert_eq!(elapsed_text(100 * 3600 + 5), "100:00:05");
    for s in [0u64, 9, 10, 599, 3599, 3600, 86399, 360000] {
        assert_eq!(elapsed_text(s), format!("{:02}:{:02}:{:02}", s / 3600, (s % 3600) / 60, s % 60));
    }
}

#[test]
fn wav_finish_outcomes() {
    assert_eq!(wav_finish(None), Err("WAV write timeout".to_string()));
    assert_eq!(wav_finish(Some("")), Ok(()));
    assert_eq!(wav_finish(Some("io error")), Err("WAV error: io error".to_string()));
}

#[test]
fn conversion_plans() {
    assert!(matches!(plan_conversion(OutputFormat::Wav, None, 100), Conversion::CopyWav));
    assert!(matches!(
        plan_conversion(OutputFormat::Wav, Some(PathBuf::from("/f")), 100),
        Conversion::CopyWav
    ));
    assert!(matches!(plan_conversion(OutputFormat::Mp3, None, 100), Conversion::FfmpegMissing));
    match plan_conversion(OutputFormat::Opus, Some(PathBuf::from("/f")), 120) {
        Conversion::Encode(p, EncodeJob { format, volume_pct }) => {
            assert_eq!(p, PathBuf::from("/f"));
            assert_eq!(format, OutputFormat::Opus);
            assert_eq!(volume_pct, 120);
        }
        other => panic!("unexpected {:?}", other),
    }
    assert_eq!(ffmpeg_missing_message(), "ffmpeg is downloading. Please wait and try again.");
}
