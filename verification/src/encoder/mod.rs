//! Output formats and the two-pass loudness-normalised encoding.
//!
//! A recording is first written as WAV. WAV output is a plain copy of that
//! file; every other format runs ffmpeg twice: an analysis pass that measures
//! loudness, then an encoding pass that normalises to -14 LUFS with the
//! measured values and applies the user's volume. [`EncodeJob`] decides each
//! step; the caller runs the copy or the ffmpeg process and reports back.
pub mod analysis_output;
pub mod loudnorm;

use vstd::prelude::*;
use crate::text;
use crate::text::{chars_of, find_in, push_decimal, push_two_digits};
use self::loudnorm::{parse_loudnorm_json, LoudnormError, LoudnormStats, LoudnormValues};

verus! {

/// Output format
#[derive(Clone, Copy, Debug, PartialEq, Eq, Structural)]
pub enum OutputFormat {
    Wav,
    Flac,
    Mp3,
    Aac,
    Opus,
}

impl Default for OutputFormat {
    fn default() -> (f: Self)
        ensures
            f == OutputFormat::Wav,
    {
        OutputFormat::Wav
    }
}

impl OutputFormat {
    /// File extension of the format, without the dot.
    pub open spec fn spec_extension(self) -> Seq<char> {
        match self {
            OutputFormat::Wav => "wav"@,
            OutputFormat::Flac => "flac"@,
            OutputFormat::Mp3 => "mp3"@,
            OutputFormat::Aac => "m4a"@,
            OutputFormat::Opus => "opus"@,
        }
    }

    /// Name of the format shown to the user.
    pub open spec fn spec_display_name(self) -> Seq<char> {
        match self {
            OutputFormat::Wav => "WAV"@,
            OutputFormat::Flac => "FLAC"@,
            OutputFormat::Mp3 => "MP3"@,
            OutputFormat::Aac => "AAC"@,
            OutputFormat::Opus => "Opus"@,
        }
    }

    /// Every format except WAV is produced by ffmpeg.
    pub open spec fn spec_requires_ffmpeg(self) -> bool {
        self != OutputFormat::Wav
    }

    /// Every format, in the order the user is offered them.
    pub open spec fn spec_all() -> Seq<OutputFormat> {
        seq![
            OutputFormat::Wav,
            OutputFormat::Flac,
            OutputFormat::Mp3,
            OutputFormat::Aac,
            OutputFormat::Opus,
        ]
    }

    pub fn extension(self) -> (e: &'static str)
        ensures
            e@ == self.spec_extension(),
    {
        match self {
            OutputFormat::Wav => "wav",
            OutputFormat::Flac => "flac",
            OutputFormat::Mp3 => "mp3",
            OutputFormat::Aac => "m4a",
            OutputFormat::Opus => "opus",
        }
    }

    pub fn display_name(self) -> (n: &'static str)
        ensures
            n@ == self.spec_display_name(),
    {
        match self {
            OutputFormat::Wav => "WAV",
            OutputFormat::Flac => "FLAC",
            OutputFormat::Mp3 => "MP3",
            OutputFormat::Aac => "AAC",
            OutputFormat::Opus => "Opus",
        }
    }

    /// Returns true if ffmpeg is required
    pub fn requires_ffmpeg(self) -> (b: bool)
        ensures
            b == self.spec_requires_ffmpeg(),
    {
        !matches!(self, OutputFormat::Wav)
    }

    pub fn all() -> (v: &'static [OutputFormat])
        ensures
            v@ == Self::spec_all(),
    {
        let v: &'static [OutputFormat] = &[
            OutputFormat::Wav,
            OutputFormat::Flac,
            OutputFormat::Mp3,
            OutputFormat::Aac,
            OutputFormat::Opus,
        ];
        assert(v@ =~= Self::spec_all());
        v
    }

    /// The ffmpeg codec options of a compressed format.
    pub open spec fn spec_codec_args(self) -> Seq<Seq<char>> {
        match self {
            OutputFormat::Flac => seq!["-c:a"@, "flac"@, "-compression_level"@, "8"@],
            OutputFormat::Mp3 => seq!["-c:a"@, "libmp3lame"@, "-q:a"@, "2"@],
            OutputFormat::Aac => seq!["-c:a"@, "aac"@, "-b:a"@, "256k"@],
            OutputFormat::Opus => seq!["-c:a"@, "libopus"@, "-b:a"@, "192k"@],
            OutputFormat::Wav => seq![],
        }
    }

    fn codec_args(self) -> (v: Vec<&'static str>)
        requires
            self.spec_requires_ffmpeg(),
        ensures
            v@.map_values(|a: &'static str| a@) == self.spec_codec_args(),
    {
        let v = match self {
            OutputFormat::Flac => vec!["-c:a", "flac", "-compression_level", "8"],
            OutputFormat::Mp3 => vec!["-c:a", "libmp3lame", "-q:a", "2"],
            OutputFormat::Aac => vec!["-c:a", "aac", "-b:a", "256k"],
            _ => vec!["-c:a", "libopus", "-b:a", "192k"],
        };
        assert(v@.map_values(|a: &'static str| a@) =~= self.spec_codec_args());
        v
    }
}

/// One argument of an ffmpeg command line.
#[derive(Clone, Debug)]
pub enum FfmpegArg {
    /// A literal argument.
    Text(String),
    /// The recorded WAV file.
    InputFile,
    /// The file to produce.
    OutputFile,
}

/// An ffmpeg argument with its text as characters.
pub enum ArgView {
    Text(Seq<char>),
    InputFile,
    OutputFile,
}

impl View for FfmpegArg {
    type V = ArgView;

    open spec fn view(&self) -> ArgView {
        match self {
            FfmpegArg::Text(s) => ArgView::Text(s@),
            FfmpegArg::InputFile => ArgView::InputFile,
            FfmpegArg::OutputFile => ArgView::OutputFile,
        }
    }
}

/// The views of a list of arguments.
pub open spec fn arg_views(v: Seq<FfmpegArg>) -> Seq<ArgView> {
    v.map_values(|a: FfmpegArg| a@)
}

/// Literal arguments.
pub open spec fn texts(v: Seq<Seq<char>>) -> Seq<ArgView> {
    v.map_values(|t: Seq<char>| ArgView::Text(t))
}

/// Why an encoding failed.
#[derive(Clone, Debug)]
pub enum EncodeError {
    /// The analysis pass exited with failure; its error output.
    AnalysisFailed(String),
    /// The analysis output held no readable loudness statistics.
    Loudnorm(LoudnormError),
    /// The encoding pass exited with failure; its error output.
    EncodeFailed(String),
}

/// An encoding failure, with texts as characters.
pub enum EncodeErrorView {
    AnalysisFailed(Seq<char>),
    Loudnorm(LoudnormError),
    EncodeFailed(Seq<char>),
}

impl View for EncodeError {
    type V = EncodeErrorView;

    open spec fn view(&self) -> EncodeErrorView {
        match self {
            EncodeError::AnalysisFailed(s) => EncodeErrorView::AnalysisFailed(s@),
            EncodeError::Loudnorm(e) => EncodeErrorView::Loudnorm(*e),
            EncodeError::EncodeFailed(s) => EncodeErrorView::EncodeFailed(s@),
        }
    }
}

impl EncodeErrorView {
    /// The text of the error as the user sees it.
    pub open spec fn spec_message(self) -> Seq<char> {
        match self {
            EncodeErrorView::AnalysisFailed(s) => "loudnorm pass 1 failed:\n"@ + s,
            EncodeErrorView::Loudnorm(e) => e.spec_message(),
            EncodeErrorView::EncodeFailed(s) => "ffmpeg エラー:\n"@ + s,
        }
    }
}

impl EncodeError {
    /// The text of the error as the user sees it.
    pub fn message(&self) -> (m: String)
        ensures
            m@ == self@.spec_message(),
    {
        match self {
            EncodeError::AnalysisFailed(s) => {
                let mut m = "loudnorm pass 1 failed:\n".to_owned();
                m.append(s.as_str());
                m
            },
            EncodeError::Loudnorm(e) => e.message(),
            EncodeError::EncodeFailed(s) => {
                let mut m = "ffmpeg エラー:\n".to_owned();
                m.append(s.as_str());
                m
            },
        }
    }
}

/// What the caller is to do next for an encoding.
#[derive(Clone, Debug)]
pub enum EncodeStep {
    /// Copy the recorded WAV file to the output path.
    CopyFile,
    /// Run ffmpeg with these arguments to measure loudness.
    RunAnalysis(Vec<FfmpegArg>),
    /// Run ffmpeg with these arguments to produce the output file.
    RunEncode(Vec<FfmpegArg>),
    /// The encoding failed.
    Fail(EncodeError),
    /// The output file is complete.
    Finished,
}

/// An encoding step, with texts as characters.
pub enum StepView {
    CopyFile,
    RunAnalysis(Seq<ArgView>),
    RunEncode(Seq<ArgView>),
    Fail(EncodeErrorView),
    Finished,
}

impl View for EncodeStep {
    type V = StepView;

    open spec fn view(&self) -> StepView {
        match self {
            EncodeStep::CopyFile => StepView::CopyFile,
            EncodeStep::RunAnalysis(v) => StepView::RunAnalysis(arg_views(v@)),
            EncodeStep::RunEncode(v) => StepView::RunEncode(arg_views(v@)),
            EncodeStep::Fail(e) => StepView::Fail(e@),
            EncodeStep::Finished => StepView::Finished,
        }
    }
}

/// The loudnorm target of both passes: -14 LUFS integrated, -1 dBTP peak,
/// 11 LU range.
pub open spec fn loudnorm_target() -> Seq<char> {
    "loudnorm=I=-14:TP=-1:LRA=11"@
}

/// The filter of the analysis pass, which prints its measurements as JSON.
pub open spec fn analysis_filter() -> Seq<char> {
    "loudnorm=I=-14:TP=-1:LRA=11:print_format=json"@
}

/// The arguments of the analysis pass: decode the input, measure, discard.
pub open spec fn analysis_args() -> Seq<ArgView> {
    seq![
        ArgView::Text("-y"@),
        ArgView::Text("-i"@),
        ArgView::InputFile,
        ArgView::Text("-af"@),
        ArgView::Text(analysis_filter()),
        ArgView::Text("-f"@),
        ArgView::Text("null"@),
        ArgView::Text("-"@),
    ]
}

/// A measurement of "-inf" (a silent recording) cannot be fed back to the
/// filter; a single-pass normalisation is used then.
pub open spec fn measurement_unusable(v: LoudnormValues) -> bool {
    text::contains_seq(v.input_i, "inf"@) || text::contains_seq(v.input_tp, "inf"@)
}

/// The normalisation filter of the encoding pass.
pub open spec fn normalise_filter(v: LoudnormValues) -> Seq<char> {
    if measurement_unusable(v) {
        loudnorm_target()
    } else {
        loudnorm_target() + ":measured_I="@ + v.input_i + ":measured_TP="@ + v.input_tp
            + ":measured_LRA="@ + v.input_lra + ":measured_thresh="@ + v.input_thresh
            + ":offset="@ + v.target_offset + ":linear=true"@
    }
}

/// The gain of a volume in percent, with four decimals (100 is "1.0000").
pub open spec fn volume_gain(volume_pct: nat) -> Seq<char> {
    text::decimal(volume_pct / 100) + "."@ + text::two_digits(volume_pct % 100) + "00"@
}

/// The whole filter chain of the encoding pass.
pub open spec fn encode_filter(v: LoudnormValues, volume_pct: nat) -> Seq<char> {
    normalise_filter(v) + ",volume="@ + volume_gain(volume_pct)
}

/// The arguments of the encoding pass.
pub open spec fn encode_args(format: OutputFormat, v: LoudnormValues, volume_pct: nat) -> Seq<
    ArgView,
> {
    seq![
        ArgView::Text("-y"@),
        ArgView::Text("-i"@),
        ArgView::InputFile,
        ArgView::Text("-af"@),
        ArgView::Text(encode_filter(v, volume_pct)),
    ] + texts(format.spec_codec_args()) + seq![ArgView::OutputFile]
}

/// The conversion of a recorded WAV file into one output format.
#[derive(Clone, Copy, Debug)]
pub struct EncodeJob {
    pub format: OutputFormat,
    /// Output volume in percent; 100 is the -14 LUFS reference.
    pub volume_pct: u32,
}

impl EncodeJob {
    /// The first step: WAV is copied, everything else is analysed first.
    pub open spec fn spec_start(self) -> StepView {
        if self.format.spec_requires_ffmpeg() {
            StepView::RunAnalysis(analysis_args())
        } else {
            StepView::CopyFile
        }
    }

    /// The step after the analysis pass ended.
    pub open spec fn spec_after_analysis(self, success: bool, stderr: Seq<char>) -> StepView {
        if !success {
            StepView::Fail(EncodeErrorView::AnalysisFailed(stderr))
        } else {
            match loudnorm::spec_parse_loudnorm(stderr) {
                Err(e) => StepView::Fail(EncodeErrorView::Loudnorm(e)),
                Ok(v) => StepView::RunEncode(encode_args(self.format, v, self.volume_pct as nat)),
            }
        }
    }

    /// The step after the encoding pass ended.
    pub open spec fn spec_after_encode(self, success: bool, stderr: Seq<char>) -> StepView {
        if success {
            StepView::Finished
        } else {
            StepView::Fail(EncodeErrorView::EncodeFailed(stderr))
        }
    }

    pub fn start(&self) -> (s: EncodeStep)
        ensures
            s@ == self.spec_start(),
    {
        if self.format.requires_ffmpeg() {
            EncodeStep::RunAnalysis(analysis_arguments())
        } else {
            EncodeStep::CopyFile
        }
    }

    /// `success` and `stderr` are the exit status and the error output of the
    /// analysis pass.
    pub fn after_analysis(&self, success: bool, stderr: &str) -> (s: EncodeStep)
        requires
            self.format.spec_requires_ffmpeg(),
        ensures
            s@ == self.spec_after_analysis(success, stderr@),
    {
        if !success {
            return EncodeStep::Fail(EncodeError::AnalysisFailed(stderr.to_owned()));
        }
        match parse_loudnorm_json(stderr) {
            Err(e) => EncodeStep::Fail(EncodeError::Loudnorm(e)),
            Ok(stats) => EncodeStep::RunEncode(encode_arguments(self.format, &stats, self.volume_pct)),
        }
    }

    /// `success` and `stderr` are the exit status and the error output of the
    /// encoding pass.
    pub fn after_encode(&self, success: bool, stderr: &str) -> (s: EncodeStep)
        ensures
            s@ == self.spec_after_encode(success, stderr@),
    {
        if success {
            EncodeStep::Finished
        } else {
            EncodeStep::Fail(EncodeError::EncodeFailed(stderr.to_owned()))
        }
    }
}

fn text_arg(s: &str) -> (a: FfmpegArg)
    ensures
        a@ == ArgView::Text(s@),
{
    FfmpegArg::Text(s.to_owned())
}

fn analysis_arguments() -> (v: Vec<FfmpegArg>)
    ensures
        arg_views(v@) == analysis_args(),
{
    let v = vec![
        text_arg("-y"),
        text_arg("-i"),
        FfmpegArg::InputFile,
        text_arg("-af"),
        text_arg("loudnorm=I=-14:TP=-1:LRA=11:print_format=json"),
        text_arg("-f"),
        text_arg("null"),
        text_arg("-"),
    ];
    assert(arg_views(v@) =~= analysis_args());
    v
}

fn contains_inf(s: &str) -> (b: bool)
    ensures
        b == text::contains_seq(s@, "inf"@),
{
    let chars = chars_of(s);
    let needle = chars_of("inf");
    let r = find_in(&chars, 0, chars.len(), &needle);
    proof {
        assert(chars@.subrange(0, chars@.len() as int) =~= s@);
        text::lemma_find_seq_none_iff(s@, "inf"@);
    }
    r.is_some()
}

/// The normalisation filter of the encoding pass for these measurements.
pub fn normalise_filter_text(stats: &LoudnormStats) -> (f: String)
    ensures
        f@ == normalise_filter(stats@),
{
    let mut f = "loudnorm=I=-14:TP=-1:LRA=11".to_owned();
    if contains_inf(stats.input_i.as_str()) || contains_inf(stats.input_tp.as_str()) {
        return f;
    }
    f.append(":measured_I=");
    f.append(stats.input_i.as_str());
    f.append(":measured_TP=");
    f.append(stats.input_tp.as_str());
    f.append(":measured_LRA=");
    f.append(stats.input_lra.as_str());
    f.append(":measured_thresh=");
    f.append(stats.input_thresh.as_str());
    f.append(":offset=");
    f.append(stats.target_offset.as_str());
    f.append(":linear=true");
    f
}

/// The gain of a volume in percent, with four decimals.
pub fn volume_gain_text(volume_pct: u32) -> (g: String)
    ensures
        g@ == volume_gain(volume_pct as nat),
{
    let mut g = String::new();
    push_decimal(&mut g, (volume_pct / 100) as u64);
    g.append(".");
    push_two_digits(&mut g, (volume_pct % 100) as u64);
    g.append("00");
    assert(g@ =~= volume_gain(volume_pct as nat));
    g
}

fn encode_arguments(format: OutputFormat, stats: &LoudnormStats, volume_pct: u32) -> (v: Vec<
    FfmpegArg,
>)
    requires
        format.spec_requires_ffmpeg(),
    ensures
        arg_views(v@) == encode_args(format, stats@, volume_pct as nat),
{
    let mut filter = normalise_filter_text(stats);
    filter.append(",volume=");
    let gain = volume_gain_text(volume_pct);
    filter.append(gain.as_str());
    let mut v = vec![text_arg("-y"), text_arg("-i"), FfmpegArg::InputFile, text_arg("-af")];
    v.push(FfmpegArg::Text(filter));
    let codec = format.codec_args();
    let ghost prefix = arg_views(v@);
    let ghost codec_texts = codec@.map_values(|a: &'static str| a@);
    let mut i: usize = 0;
    while i < codec.len()
        invariant
            i <= codec.len(),
            codec_texts == codec@.map_values(|a: &'static str| a@),
            arg_views(v@) == prefix + texts(codec_texts.take(i as int)),
        decreases codec.len() - i,
    {
        let ghost before = v@;
        v.push(text_arg(codec[i]));
        proof {
            assert(arg_views(v@) =~= arg_views(before).push(ArgView::Text(codec_texts[i as int])));
            assert(texts(codec_texts.take(i + 1)) =~= texts(codec_texts.take(i as int)).push(
                ArgView::Text(codec_texts[i as int]),
            ));
        }
        i = i + 1;
    }
    let ghost before = v@;
    v.push(FfmpegArg::OutputFile);
    proof {
        assert(codec_texts.take(codec.len() as int) =~= codec_texts);
        assert(arg_views(v@) =~= arg_views(before).push(ArgView::OutputFile));
        assert(prefix =~= seq![
            ArgView::Text("-y"@),
            ArgView::Text("-i"@),
            ArgView::InputFile,
            ArgView::Text("-af"@),
            ArgView::Text(encode_filter(stats@, volume_pct as nat)),
        ]);
        assert(arg_views(v@) =~= encode_args(format, stats@, volume_pct as nat));
    }
    v
}

} // verus!

verus! {

/// The format list offers every format exactly once.
pub proof fn law_all_formats_once(f: OutputFormat)
    ensures
        OutputFormat::spec_all().contains(f),
        OutputFormat::spec_all().len() == 5,
        forall|i: int, j: int|
            0 <= i < j < 5 ==> OutputFormat::spec_all()[i] != OutputFormat::spec_all()[j],
{
    let all = OutputFormat::spec_all();
    match f {
        OutputFormat::Wav => assert(all[0] == f),
        OutputFormat::Flac => assert(all[1] == f),
        OutputFormat::Mp3 => assert(all[2] == f),
        OutputFormat::Aac => assert(all[3] == f),
        OutputFormat::Opus => assert(all[4] == f),
    }
}

/// Different formats have different extensions and names, so saved files of
/// different formats never share a name.
pub proof fn law_formats_distinguishable(f: OutputFormat, g: OutputFormat)
    requires
        f != g,
    ensures
        f.spec_extension() != g.spec_extension(),
        f.spec_display_name() != g.spec_display_name(),
{
    reveal_strlit("wav");
    reveal_strlit("flac");
    reveal_strlit("mp3");
    reveal_strlit("m4a");
    reveal_strlit("opus");
    reveal_strlit("WAV");
    reveal_strlit("FLAC");
    reveal_strlit("MP3");
    reveal_strlit("AAC");
    reveal_strlit("Opus");
    let (a, b) = (f.spec_extension(), g.spec_extension());
    let (c, d) = (f.spec_display_name(), g.spec_display_name());
    assert(a.len() != b.len() || a[0] != b[0] || a[1] != b[1]);
    assert(c.len() != d.len() || c[0] != d[0] || c[1] != d[1]);
}

/// WAV output never runs ffmpeg; every other format is measured first and
/// only then encoded, and a finished encoding pass ends the job.
pub proof fn law_encoding_sequence(job: EncodeJob, stderr: Seq<char>)
    ensures
        job.format == OutputFormat::Wav ==> job.spec_start() == StepView::CopyFile,
        job.format != OutputFormat::Wav ==> job.spec_start() == StepView::RunAnalysis(
            analysis_args(),
        ),
        job.spec_after_encode(true, stderr) == StepView::Finished,
        job.spec_after_analysis(false, stderr) == StepView::Fail(
            EncodeErrorView::AnalysisFailed(stderr),
        ),
{
}

} // verus!

verus! {

proof fn lemma_volume_gain_reads_back(p: nat)
    ensures
        ({
            let g = volume_gain(p);
            let w = g.len() - 5;
            &&& g.len() >= 6
            &&& g[w] == '.'
            &&& g.skip(w + 1).len() == 4
            &&& text::numeral_value(g.take(w)) == p / 100
            &&& text::numeral_value(g.skip(w + 1)) == (p % 100) * 100
        }),
{
    reveal_strlit(".");
    reveal_strlit("00");
    let whole = text::decimal(p / 100);
    let two = text::two_digits(p % 100);
    text::lemma_decimal_digits(p / 100);
    text::lemma_decimal_value(p / 100);
    text::lemma_two_digits_value(p % 100);
    let g = volume_gain(p);
    let w = g.len() - 5;
    assert(w == whole.len());
    assert(g.take(w) =~= whole);
    assert(g.skip(w + 1) =~= two.push('0').push('0'));
    text::lemma_numeral_push_zero(two);
    text::lemma_numeral_push_zero(two.push('0'));
}

/// The encoding pass applies the job's own volume: its filter is the
/// normalisation followed by `,volume=` and a gain that reads as the volume
/// divided by 100, whole part before the point and exactly four decimals
/// after it. So different volumes always give different filters.
pub proof fn law_filter_carries_volume(v: LoudnormValues, p: nat, q: nat)
    ensures
        ({
            let g = volume_gain(p);
            let w = g.len() - 5;
            &&& encode_filter(v, p) =~= normalise_filter(v) + ",volume="@ + g
            &&& g.len() >= 6
            &&& g[w] == '.'
            &&& g.skip(w + 1).len() == 4
            &&& text::numeral_value(g.take(w)) == p / 100
            &&& text::numeral_value(g.skip(w + 1)) == (p % 100) * 100
        }),
        p != q ==> encode_filter(v, p) != encode_filter(v, q),
{
    lemma_volume_gain_reads_back(p);
    lemma_volume_gain_reads_back(q);
    if p != q && encode_filter(v, p) == encode_filter(v, q) {
        let pre = normalise_filter(v) + ",volume="@;
        let gp = volume_gain(p);
        let gq = volume_gain(q);
        assert(encode_filter(v, p) =~= pre + gp);
        assert(encode_filter(v, q) =~= pre + gq);
        assert((pre + gp).skip(pre.len() as int) =~= gp);
        assert((pre + gq).skip(pre.len() as int) =~= gq);
        assert(gp == gq);
        assert(p == (p / 100) * 100 + p % 100);
        assert(q == (q / 100) * 100 + q % 100);
    }
}

} // verus!
