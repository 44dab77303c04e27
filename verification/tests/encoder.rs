use std::path::PathBuf;
use sysvoice_rec::encoder::loudnorm::{parse_loudnorm_json, LoudnormError, LoudnormField, LoudnormStats};
use sysvoice_rec::encoder::{
    normalise_filter_text, volume_gain_text, EncodeError, EncodeJob, EncodeStep, FfmpegArg, OutputFormat,
};

const FFMPEG_STDERR: &str = "ffmpeg version 6.0 Copyright (c) 2000-2023 the FFmpeg developers\n\
  built with gcc 12 {weird}\n\
Input #0, wav, from 'in.wav':\n\
[Parsed_loudnorm_0 @ 0x55d0c8a1c340] \n\
{\n\
\t\"input_i\" : \"-27.61\",\n\
\t\"input_tp\" : \"-4.47\",\n\
\t\"input_lra\" : \"18.06\",\n\
\t\"input_thresh\" : \"-39.20\",\n\
\t\"output_i\" : \"-16.58\",\n\
\t\"output_tp\" : \"-1.50\",\n\
\t\"output_lra\" : \"14.78\",\n\
\t\"output_thresh\" : \"-27.71\",\n\
\t\"normalization_type\" : \"dynamic\",\n\
\t\"target_offset\" : \"0.58\"\n\
}\n\
size=N/A time=00:00:05.00 bitrate=N/A speed= 512x\n";

fn texts(args: &[FfmpegArg]) -> Vec<String> {
    args.iter()
        .map(|a| match a {
            FfmpegArg::Text(s) => s.clone(),
            FfmpegArg::InputFile => "<in>".to_string(),
            FfmpegArg::OutputFile => "<out>".to_string(),
        })
        .collect()
}

#[test]
fn extension_of_each_format() {
    assert_eq!(OutputFormat::Wav.extension(), "wav");
    assert_eq!(OutputFormat::Flac.extension(), "flac");
    assert_eq!(OutputFormat::Mp3.extension(), "mp3");
    assert_eq!(OutputFormat::Aac.extension(), "m4a");
    assert_eq!(OutputFormat::Opus.extension(), "opus");
}

#[test]
fn display_name_of_each_format() {
    assert_eq!(OutputFormat::Wav.display_name(), "WAV");
    assert_eq!(OutputFormat::Flac.display_name(), "FLAC");
    assert_eq!(OutputFormat::Mp3.display_name(), "MP3");
    assert_eq!(OutputFormat::Aac.display_name(), "AAC");
    assert_eq!(OutputFormat::Opus.display_name(), "Opus");
}

#[test]
fn only_wav_needs_no_ffmpeg() {
    assert!(!OutputFormat::Wav.requires_ffmpeg());
    for f in [OutputFormat::Flac, OutputFormat::Mp3, OutputFormat::Aac, OutputFormat::Opus] {
        assert!(f.requires_ffmpeg());
    }
}

#[test]
fn all_lists_every_format_once_in_order() {
    let all = OutputFormat::all();
    assert_eq!(
        all.to_vec(),
        vec![OutputFormat::Wav, OutputFormat::Flac, OutputFormat::Mp3, OutputFormat::Aac, OutputFormat::Opus]
    );
    let mut exts: Vec<&str> = all.iter().map(|f| f.extension()).collect();
    exts.sort();
    exts.dedup();
    assert_eq!(exts.len(), 5);
}

#[test]
fn default_format_is_wav() {
    assert_eq!(OutputFormat::default(), OutputFormat::Wav);
}

#[test]
fn parses_ffmpeg_analysis_output() {
    let st = parse_loudnorm_json(FFMPEG_STDERR).unwrap();
    assert_eq!(st.input_i, "-27.61");
    assert_eq!(st.input_tp, "-4.47");
    assert_eq!(st.input_lra, "18.06");
    assert_eq!(st.input_thresh, "-39.20");
    assert_eq!(st.target_offset, "0.58");
}

#[test]
fn parse_without_brace_fails() {
    assert_eq!(parse_loudnorm_json("no json here").unwrap_err(), LoudnormError::JsonNotFound);
    assert_eq!(
        LoudnormError::JsonNotFound.message(),
        "loudnorm JSON not found in ffmpeg output"
    );
}

#[test]
fn parse_without_closing_brace_fails() {
    assert_eq!(
        parse_loudnorm_json("} before { \"input_i\" : \"1\"").unwrap_err(),
        LoudnormError::JsonNotTerminated
    );
    assert_eq!(LoudnormError::JsonNotTerminated.message(), "loudnorm JSON not terminated");
}

#[test]
fn parse_uses_last_open_brace() {
    let text = "{ \"input_i\" : \"9\" } then { \"input_tp\" : \"1\" }";
    assert_eq!(
        parse_loudnorm_json(text).unwrap_err(),
        LoudnormError::KeyNotFound(LoudnormField::InputI)
    );
}

#[test]
fn parse_missing_key_fails() {
    let text = "{ \"input_i\" : \"-20\", \"input_tp\" : \"-1\", \"input_lra\" : \"3\", \"input_thresh\" : \"-30\" }";
    let e = parse_loudnorm_json(text).unwrap_err();
    assert_eq!(e, LoudnormError::KeyNotFound(LoudnormField::TargetOffset));
    assert_eq!(e.message(), "loudnorm key 'target_offset' not found");
}

#[test]
fn parse_value_without_quote_fails() {
    let e = parse_loudnorm_json("{ \"input_i\" : -20 }").unwrap_err();
    assert_eq!(e, LoudnormError::ValueNotFound(LoudnormField::InputI));
    assert_eq!(e.message(), "loudnorm value for 'input_i' not found");
}

#[test]
fn parse_unterminated_value_fails() {
    let e = parse_loudnorm_json("{ \"input_i\" : \"-20 }").unwrap_err();
    assert_eq!(e, LoudnormError::ValueNotTerminated(LoudnormField::InputI));
    assert_eq!(e.message(), "loudnorm value for 'input_i' not terminated");
}

#[test]
fn parse_handles_non_ascii_text() {
    let text = "ラウドネス解析 {\"input_i\":\"-1\",\"input_tp\":\"é\",\"input_lra\":\"3\",\"input_thresh\":\"4\",\"target_offset\":\"5\"}";
    let st = parse_loudnorm_json(text).unwrap();
    assert_eq!(st.input_i, "-1");
    assert_eq!(st.input_tp, "é");
    assert_eq!(st.target_offset, "5");
}

fn stats(i: &str, tp: &str) -> LoudnormStats {
    LoudnormStats {
        input_i: i.to_string(),
        input_tp: tp.to_string(),
        input_lra: "18.06".to_string(),
        input_thresh: "-39.20".to_string(),
        target_offset: "0.58".to_string(),
    }
}

#[test]
fn normalise_filter_uses_measurements() {
    assert_eq!(
        normalise_filter_text(&stats("-27.61", "-4.47")),
        "loudnorm=I=-14:TP=-1:LRA=11:measured_I=-27.61:measured_TP=-4.47:measured_LRA=18.06:measured_thresh=-39.20:offset=0.58:linear=true"
    );
}

#[test]
fn normalise_filter_falls_back_on_infinite_measurement() {
    assert_eq!(normalise_filter_text(&stats("-inf", "-4.47")), "loudnorm=I=-14:TP=-1:LRA=11");
    assert_eq!(normalise_filter_text(&stats("-27.61", "-inf")), "loudnorm=I=-14:TP=-1:LRA=11");
}

#[test]
fn volume_gain_has_four_decimals() {
    assert_eq!(volume_gain_text(100), "1.0000");
    assert_eq!(volume_gain_text(0), "0.0000");
    assert_eq!(volume_gain_text(5), "0.0500");
    assert_eq!(volume_gain_text(123), "1.2300");
    assert_eq!(volume_gain_text(200), "2.0000");
    for v in 0..=200u32 {
        assert_eq!(volume_gain_text(v), format!("{:.4}", v as f32 / 100.0));
    }
}

#[test]
fn wav_job_copies() {
    let job = EncodeJob { format: OutputFormat::Wav, volume_pct: 100 };
    assert!(matches!(job.start(), EncodeStep::CopyFile));
}

#[test]
fn compressed_job_analyses_first() {
    let job = EncodeJob { format: OutputFormat::Mp3, volume_pct: 100 };
    match job.start() {
        EncodeStep::RunAnalysis(args) => assert_eq!(
            texts(&args),
            vec!["-y", "-i", "<in>", "-af", "loudnorm=I=-14:TP=-1:LRA=11:print_format=json", "-f", "null", "-"]
        ),
        other => panic!("unexpected step {:?}", other),
    }
}

#[test]
fn analysis_failure_reports_stderr() {
    let job = EncodeJob { format: OutputFormat::Flac, volume_pct: 100 };
    match job.after_analysis(false, "boom") {
        EncodeStep::Fail(e) => assert_eq!(e.message(), "loudnorm pass 1 failed:\nboom"),
        other => panic!("unexpected step {:?}", other),
    }
}

#[test]
fn analysis_without_json_fails_with_parse_error() {
    let job = EncodeJob { format: OutputFormat::Flac, volume_pct: 100 };
    match job.after_analysis(true, "nothing") {
        EncodeStep::Fail(EncodeError::Loudnorm(e)) => assert_eq!(e, LoudnormError::JsonNotFound),
        other => panic!("unexpected step {:?}", other),
    }
}

#[test]
fn encode_arguments_for_each_codec() {
    let cases = [
        (OutputFormat::Flac, vec!["-c:a", "flac", "-compression_level", "8"]),
        (OutputFormat::Mp3, vec!["-c:a", "libmp3lame", "-q:a", "2"]),
        (OutputFormat::Aac, vec!["-c:a", "aac", "-b:a", "256k"]),
        (OutputFormat::Opus, vec!["-c:a", "libopus", "-b:a", "192k"]),
    ];
    for (format, codec) in cases {
        let job = EncodeJob { format, volume_pct: 150 };
        match job.after_analysis(true, FFMPEG_STDERR) {
            EncodeStep::RunEncode(args) => {
                let mut expected = vec![
                    "-y".to_string(),
                    "-i".to_string(),
                    "<in>".to_string(),
                    "-af".to_string(),
                    "loudnorm=I=-14:TP=-1:LRA=11:measured_I=-27.61:measured_TP=-4.47:measured_LRA=18.06:measured_thresh=-39.20:offset=0.58:linear=true,volume=1.5000".to_string(),
                ];
                expected.extend(codec.iter().map(|s| s.to_string()));
                expected.push("<out>".to_string());
                assert_eq!(texts(&args), expected);
            }
            other => panic!("unexpected step {:?}", other),
        }
    }
}

#[test]
fn encode_pass_outcome() {
    let job = EncodeJob { format: OutputFormat::Opus, volume_pct: 100 };
    assert!(matches!(job.after_encode(true, ""), EncodeStep::Finished));
    match job.after_encode(false, "bad codec") {
        EncodeStep::Fail(e) => assert_eq!(e.message(), "ffmpeg エラー:\nbad codec"),
        other => panic!("unexpected step {:?}", other),
    }
}

#[test]
fn silent_recording_falls_back_to_single_pass() {
    let silent = FFMPEG_STDERR.replace("\"-27.61\"", "\"-inf\"");
    let job = EncodeJob { format: OutputFormat::Aac, volume_pct: 100 };
    match job.after_analysis(true, &silent) {
        EncodeStep::RunEncode(args) => {
            assert_eq!(texts(&args)[4], "loudnorm=I=-14:TP=-1:LRA=11,volume=1.0000");
        }
        other => panic!("unexpected step {:?}", other),
    }
    let _ = PathBuf::new();
}
