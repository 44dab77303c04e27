//! The state of the recorder window and how each event changes it.
//!
//! The window's loop performs the outside work (audio capture, threads, the
//! ffmpeg download) and reports every outcome here; [`Recorder`] keeps the
//! phase, the messages shown to the user and the paths of ffmpeg and of the
//! last saved file.
use std::path::PathBuf;
use vstd::prelude::*;
use crate::encoder::OutputFormat;
use crate::ffmpeg_manager::{DlMsg, DlMsgView};

verus! {

/// Where the recorder is in its cycle.
#[derive(Clone, Copy, Debug, PartialEq, Eq, Structural)]
pub enum Phase {
    Idle,
    Recording,
    Processing,
    Done,
    Error,
}

/// A new recording can be started (and the settings changed).
pub open spec fn phase_is_idle(p: Phase) -> bool {
    p == Phase::Idle || p == Phase::Done || p == Phase::Error
}

/// The recording cycle: from an idle phase a recording starts (or the
/// device fails); a recording stops into converting (or its WAV writer
/// fails); a conversion ends done or failed. Staying put is always allowed.
pub open spec fn cycle_edge(from: Phase, to: Phase) -> bool {
    ||| from == to
    ||| phase_is_idle(from) && (to == Phase::Recording || to == Phase::Error)
    ||| from == Phase::Recording && (to == Phase::Processing || to == Phase::Error)
    ||| from == Phase::Processing && (to == Phase::Done || to == Phase::Error)
}

/// What a click on the record button does.
#[derive(Clone, Copy, Debug, PartialEq, Eq, Structural)]
pub enum RecordCommand {
    Start,
    Stop,
    Nothing,
}

/// The colour class of the status line.
#[derive(Clone, Copy, Debug, PartialEq, Eq, Structural)]
pub enum StatusTone {
    /// ffmpeg is being downloaded.
    Downloading,
    Error,
    Done,
    /// Idle, recording or converting with ffmpeg available.
    Ready,
    /// Idle, recording or converting without ffmpeg.
    NoFfmpeg,
}

/// The non-graphical state of the recorder window. Its fields change only
/// through the event handlers below, so every change of phase follows the
/// recording cycle (see `law_phase_changes_follow_cycle`).
#[derive(Debug)]
pub struct Recorder {
    phase: Phase,
    ffmpeg_path: Option<PathBuf>,
    /// An ffmpeg download is under way.
    downloading: bool,
    dl_failed: bool,
    dl_error: Option<String>,
    last_output: Option<PathBuf>,
    last_error: Option<String>,
    status_msg: String,
}

/// The recorder state, with texts as characters.
pub struct RecorderView {
    pub phase: Phase,
    pub ffmpeg_path: Option<PathBuf>,
    pub downloading: bool,
    pub dl_failed: bool,
    pub dl_error: Option<Seq<char>>,
    pub last_output: Option<PathBuf>,
    pub last_error: Option<Seq<char>>,
    pub status: Seq<char>,
}

pub open spec fn opt_text(o: Option<String>) -> Option<Seq<char>> {
    match o {
        Some(s) => Some(s@),
        None => None,
    }
}

impl View for Recorder {
    type V = RecorderView;

    closed spec fn view(&self) -> RecorderView {
        RecorderView {
            phase: self.phase,
            ffmpeg_path: self.ffmpeg_path,
            downloading: self.downloading,
            dl_failed: self.dl_failed,
            dl_error: opt_text(self.dl_error),
            last_output: self.last_output,
            last_error: opt_text(self.last_error),
            status: self.status_msg@,
        }
    }
}

impl RecorderView {
    /// The state at start-up: a download starts where ffmpeg is missing and
    /// the platform supports fetching it.
    pub open spec fn initial(ffmpeg_path: Option<PathBuf>, auto_download: bool) -> RecorderView {
        RecorderView {
            phase: Phase::Idle,
            ffmpeg_path: ffmpeg_path,
            downloading: ffmpeg_path is None && auto_download,
            dl_failed: false,
            dl_error: None,
            last_output: None,
            last_error: None,
            status: if ffmpeg_path is Some {
                "ffmpeg found - all formats available"@
            } else if auto_download {
                "Fetching ffmpeg..."@
            } else {
                "ffmpeg not found - install it manually to enable MP3/FLAC/AAC/Opus"@
            },
        }
    }

    /// A progress report of the download.
    pub open spec fn after_download_msg(self, m: DlMsgView) -> RecorderView {
        match m {
            DlMsgView::Downloading => RecorderView { status: "Downloading ffmpeg..."@, ..self },
            DlMsgView::Extracting => RecorderView { status: "Extracting ffmpeg..."@, ..self },
            DlMsgView::Done(p) => RecorderView {
                ffmpeg_path: Some(p),
                downloading: false,
                status: "All formats available"@,
                ..self
            },
            DlMsgView::Failed(e) => RecorderView {
                downloading: false,
                dl_failed: true,
                dl_error: Some(e),
                status: "ffmpeg download failed: "@ + e,
                ..self
            },
        }
    }

    /// A new download was asked for; `supported` tells whether the platform
    /// can fetch ffmpeg at all.
    pub open spec fn after_retry(self, supported: bool) -> RecorderView {
        if supported {
            RecorderView {
                downloading: true,
                dl_failed: false,
                dl_error: None,
                status: "Retrying ffmpeg download..."@,
                ..self
            }
        } else {
            RecorderView {
                dl_failed: true,
                dl_error: Some("Automatic ffmpeg download is unsupported on this OS."@),
                status: "Install ffmpeg manually and restart the app."@,
                ..self
            }
        }
    }

    /// The audio device could not be opened after a click on REC; `err`
    /// says why. Outside an idle phase no recording can be started, and the
    /// state stays as it is.
    pub open spec fn after_capture_failed(self, err: Seq<char>) -> RecorderView {
        if phase_is_idle(self.phase) {
            RecorderView {
                phase: Phase::Error,
                last_error: Some("Failed to start device: "@ + err),
                ..self
            }
        } else {
            self
        }
    }

    /// Capture runs and the WAV writer was started after a click on REC.
    /// Outside an idle phase the state stays as it is.
    pub open spec fn after_recording_started(self) -> RecorderView {
        if phase_is_idle(self.phase) {
            RecorderView {
                phase: Phase::Recording,
                last_error: None,
                last_output: None,
                status: "Recording..."@,
                ..self
            }
        } else {
            self
        }
    }

    /// Capture stopped after a click on STOP; the file is being converted and
    /// saved. Only a recording can be stopped.
    pub open spec fn after_stop(self) -> RecorderView {
        if self.phase == Phase::Recording {
            RecorderView { phase: Phase::Processing, status: "Converting & saving..."@, ..self }
        } else {
            self
        }
    }

    /// The WAV writer failed with `err`. The writer runs only while recording;
    /// in any other phase there is no writer to report, and the state stays.
    pub open spec fn after_wav_error(self, err: Seq<char>) -> RecorderView {
        if self.phase == Phase::Recording {
            RecorderView { phase: Phase::Error, last_error: Some(err), ..self }
        } else {
            self
        }
    }

    /// The conversion finished: the saved file, or why it failed. A result is
    /// awaited only while converting; in any other phase the state stays.
    pub open spec fn after_result(self, r: Result<PathBuf, Seq<char>>) -> RecorderView {
        if self.phase != Phase::Processing {
            self
        } else {
            match r {
                Ok(p) => RecorderView {
                    phase: Phase::Done,
                    last_output: Some(p),
                    status: "Saved!"@,
                    ..self
                },
                Err(e) => RecorderView {
                    phase: Phase::Error,
                    last_error: Some(e),
                    status: "Error"@,
                    ..self
                },
            }
        }
    }

    pub open spec fn is_idle(self) -> bool {
        phase_is_idle(self.phase)
    }

    /// The format can be chosen: WAV always, the others once ffmpeg is known.
    pub open spec fn format_available(self, f: OutputFormat) -> bool {
        !f.spec_requires_ffmpeg() || self.ffmpeg_path is Some
    }

    pub open spec fn record_label(self) -> Seq<char> {
        match self.phase {
            Phase::Recording => "STOP"@,
            Phase::Processing => "Converting..."@,
            _ => "REC"@,
        }
    }

    pub open spec fn record_command(self) -> RecordCommand {
        match self.phase {
            Phase::Recording => RecordCommand::Stop,
            Phase::Processing => RecordCommand::Nothing,
            _ => RecordCommand::Start,
        }
    }

    pub open spec fn status_tone(self) -> StatusTone {
        if self.downloading {
            StatusTone::Downloading
        } else if self.phase == Phase::Error {
            StatusTone::Error
        } else if self.phase == Phase::Done {
            StatusTone::Done
        } else if self.ffmpeg_path is Some {
            StatusTone::Ready
        } else {
            StatusTone::NoFfmpeg
        }
    }
}

fn concat(a: &str, b: &str) -> (s: String)
    ensures
        s@ == a@ + b@,
{
    let mut s = a.to_owned();
    s.append(b);
    s
}

impl Recorder {
    /// The state at start-up, and whether to start the ffmpeg download.
    /// `auto_download` tells whether the platform can fetch ffmpeg.
    pub fn new(ffmpeg_path: Option<PathBuf>, auto_download: bool) -> (r: (Recorder, bool))
        ensures
            r.0@ == RecorderView::initial(ffmpeg_path, auto_download),
            r.1 == (ffmpeg_path is None && auto_download),
    {
        let start_download = ffmpeg_path.is_none() && auto_download;
        let status_msg = if ffmpeg_path.is_some() {
            "ffmpeg found - all formats available".to_owned()
        } else if auto_download {
            "Fetching ffmpeg...".to_owned()
        } else {
            "ffmpeg not found - install it manually to enable MP3/FLAC/AAC/Opus".to_owned()
        };
        let r = Recorder {
            phase: Phase::Idle,
            ffmpeg_path,
            downloading: start_download,
            dl_failed: false,
            dl_error: None,
            last_output: None,
            last_error: None,
            status_msg,
        };
        (r, start_download)
    }

    /// Handles one message of the download worker; the result tells whether
    /// the settings are to be saved.
    pub fn on_download_msg(&mut self, m: DlMsg) -> (save: bool)
        ensures
            final(self)@ == old(self)@.after_download_msg(m@),
            save == (m is Done),
    {
        match m {
            DlMsg::Downloading => {
                self.status_msg = "Downloading ffmpeg...".to_owned();
                false
            },
            DlMsg::Extracting => {
                self.status_msg = "Extracting ffmpeg...".to_owned();
                false
            },
            DlMsg::Done(path) => {
                self.ffmpeg_path = Some(path);
                self.downloading = false;
                self.status_msg = "All formats available".to_owned();
                true
            },
            DlMsg::Failed(e) => {
                self.downloading = false;
                self.dl_failed = true;
                self.status_msg = concat("ffmpeg download failed: ", e.as_str());
                self.dl_error = Some(e);
                false
            },
        }
    }

    /// A new download was asked for; the result tells whether to start it.
    pub fn retry_download(&mut self, supported: bool) -> (start: bool)
        ensures
            final(self)@ == old(self)@.after_retry(supported),
            start == supported,
    {
        if !supported {
            self.dl_failed = true;
            self.dl_error = Some("Automatic ffmpeg download is unsupported on this OS.".to_owned());
            self.status_msg = "Install ffmpeg manually and restart the app.".to_owned();
            return false;
        }
        self.downloading = true;
        self.dl_failed = false;
        self.dl_error = None;
        self.status_msg = "Retrying ffmpeg download...".to_owned();
        true
    }

    /// The audio device could not be opened after a click on REC; `err`
    /// says why.
    pub fn capture_failed(&mut self, err: &str)
        ensures
            final(self)@ == old(self)@.after_capture_failed(err@),
    {
        if self.is_idle() {
            self.phase = Phase::Error;
            self.last_error = Some(concat("Failed to start device: ", err));
        }
    }

    /// Capture runs and the WAV writer was started after a click on REC.
    pub fn recording_started(&mut self)
        ensures
            final(self)@ == old(self)@.after_recording_started(),
    {
        if self.is_idle() {
            self.phase = Phase::Recording;
            self.last_error = None;
            self.last_output = None;
            self.status_msg = "Recording...".to_owned();
        }
    }

    /// Capture stopped after a click on STOP; the file is being converted
    /// and saved.
    pub fn recording_stopped(&mut self)
        ensures
            final(self)@ == old(self)@.after_stop(),
    {
        if matches!(self.phase, Phase::Recording) {
            self.phase = Phase::Processing;
            self.status_msg = "Converting & saving...".to_owned();
        }
    }

    /// The WAV writer failed with `err`.
    pub fn wav_failed(&mut self, err: String)
        ensures
            final(self)@ == old(self)@.after_wav_error(err@),
    {
        if matches!(self.phase, Phase::Recording) {
            self.last_error = Some(err);
            self.phase = Phase::Error;
        }
    }

    /// The conversion finished; the result tells whether the settings are to
    /// be saved.
    pub fn conversion_finished(&mut self, r: Result<PathBuf, String>) -> (save: bool)
        ensures
            final(self)@ == old(self)@.after_result(
                match r {
                    Ok(p) => Ok(p),
                    Err(e) => Err(e@),
                },
            ),
            save == (old(self)@.phase == Phase::Processing && r is Ok),
    {
        if !matches!(self.phase, Phase::Processing) {
            return false;
        }
        match r {
            Ok(path) => {
                self.last_output = Some(path);
                self.phase = Phase::Done;
                self.status_msg = "Saved!".to_owned();
                true
            },
            Err(e) => {
                self.last_error = Some(e);
                self.phase = Phase::Error;
                self.status_msg = "Error".to_owned();
                false
            },
        }
    }

    pub fn phase(&self) -> (p: Phase)
        ensures
            p == self@.phase,
    {
        self.phase
    }

    /// The ffmpeg in use, once found or downloaded.
    pub fn ffmpeg_path(&self) -> (p: &Option<PathBuf>)
        ensures
            *p == self@.ffmpeg_path,
    {
        &self.ffmpeg_path
    }

    /// An ffmpeg download is under way.
    pub fn downloading(&self) -> (b: bool)
        ensures
            b == self@.downloading,
    {
        self.downloading
    }

    /// The last download failed.
    pub fn dl_failed(&self) -> (b: bool)
        ensures
            b == self@.dl_failed,
    {
        self.dl_failed
    }

    pub fn dl_error(&self) -> (e: &Option<String>)
        ensures
            opt_text(*e) == self@.dl_error,
    {
        &self.dl_error
    }

    /// The file saved by the last recording.
    pub fn last_output(&self) -> (p: &Option<PathBuf>)
        ensures
            *p == self@.last_output,
    {
        &self.last_output
    }

    pub fn last_error(&self) -> (e: &Option<String>)
        ensures
            opt_text(*e) == self@.last_error,
    {
        &self.last_error
    }

    /// The status line.
    pub fn status_msg(&self) -> (m: &String)
        ensures
            m@ == self@.status,
    {
        &self.status_msg
    }

    /// A new recording may be started and the settings changed.
    pub fn is_idle(&self) -> (b: bool)
        ensures
            b == self@.is_idle(),
    {
        matches!(self.phase, Phase::Idle | Phase::Done | Phase::Error)
    }

    /// The format can be chosen now.
    pub fn format_available(&self, f: OutputFormat) -> (b: bool)
        ensures
            b == self@.format_available(f),
    {
        !f.requires_ffmpeg() || self.ffmpeg_path.is_some()
    }

    /// The caption of the record button.
    pub fn record_label(&self) -> (s: &'static str)
        ensures
            s@ == self@.record_label(),
    {
        match self.phase {
            Phase::Recording => "STOP",
            Phase::Processing => "Converting...",
            _ => "REC",
        }
    }

    /// The record button is disabled while converting.
    pub fn record_enabled(&self) -> (b: bool)
        ensures
            b == (self@.phase != Phase::Processing),
    {
        !matches!(self.phase, Phase::Processing)
    }

    /// What a click on the record button does.
    pub fn record_command(&self) -> (c: RecordCommand)
        ensures
            c == self@.record_command(),
    {
        match self.phase {
            Phase::Recording => RecordCommand::Stop,
            Phase::Processing => RecordCommand::Nothing,
            _ => RecordCommand::Start,
        }
    }

    /// The colour class of the status line.
    pub fn status_tone(&self) -> (t: StatusTone)
        ensures
            t == self@.status_tone(),
    {
        if self.downloading {
            StatusTone::Downloading
        } else {
            match self.phase {
                Phase::Error => StatusTone::Error,
                Phase::Done => StatusTone::Done,
                _ => if self.ffmpeg_path.is_some() {
                    StatusTone::Ready
                } else {
                    StatusTone::NoFfmpeg
                },
            }
        }
    }

    /// The window keeps redrawing while recording, converting or downloading.
    pub fn needs_repaint(&self) -> (b: bool)
        ensures
            b == (self@.phase == Phase::Recording || self@.phase == Phase::Processing
                || self@.downloading),
    {
        matches!(self.phase, Phase::Recording | Phase::Processing) || self.downloading
    }

    /// The help on installing ffmpeg is shown while it is missing.
    pub fn needs_ffmpeg_help(&self) -> (b: bool)
        ensures
            b == (self@.ffmpeg_path is None),
    {
        self.ffmpeg_path.is_none()
    }

    /// The error line under the button: shown in the error phase only.
    pub fn error_line(&self) -> (l: Option<String>)
        ensures
            opt_text(l) == (if self@.phase == Phase::Error && self@.last_error is Some {
                Some("Error: "@ + self@.last_error->0)
            } else {
                None
            }),
    {
        if matches!(self.phase, Phase::Error) {
            if let Some(e) = &self.last_error {
                return Some(concat("Error: ", e.as_str()));
            }
        }
        None
    }

    /// The reason a download failed, shown in the ffmpeg help.
    pub fn download_error_line(&self) -> (l: Option<String>)
        ensures
            opt_text(l) == (if self@.dl_failed && self@.dl_error is Some {
                Some("Auto-download failed: "@ + self@.dl_error->0)
            } else {
                None
            }),
    {
        if self.dl_failed {
            if let Some(e) = &self.dl_error {
                return Some(concat("Auto-download failed: ", e.as_str()));
            }
        }
        None
    }
}

} // verus!

verus! {

/// A recording cycle that succeeds: from an idle state, starting, stopping
/// and a saved file leave the recorder done and idle again, showing that file
/// and no error, ready to start the next recording.
pub proof fn law_successful_recording_cycle(s: RecorderView, saved: PathBuf)
    requires
        s.is_idle(),
    ensures
        ({
            let t = s.after_recording_started().after_stop().after_result(Ok(saved));
            &&& t.phase == Phase::Done
            &&& t.last_output == Some(saved)
            &&& t.last_error is None
            &&& t.is_idle()
            &&& t.record_command() == RecordCommand::Start
            &&& t.ffmpeg_path == s.ffmpeg_path
        }),
{
}

/// A recording cycle whose conversion fails ends in the error phase with that
/// error, no saved file of an earlier cycle, and the recorder idle again.
pub proof fn law_failed_recording_cycle(s: RecorderView, err: Seq<char>)
    requires
        s.is_idle(),
    ensures
        ({
            let t = s.after_recording_started().after_stop().after_result(Err(err));
            &&& t.phase == Phase::Error
            &&& t.last_error == Some(err)
            &&& t.last_output is None
            &&& t.is_idle()
        }),
{
}

/// While a recording is converted, the record button does nothing and no
/// setting can be changed.
pub proof fn law_processing_blocks_input(s: RecorderView)
    requires
        s.phase == Phase::Processing,
    ensures
        s.record_command() == RecordCommand::Nothing,
        !s.is_idle(),
{
}

/// Download progress never disturbs a recording: the phase, the saved file
/// and the recording error stay as they were.
pub proof fn law_download_keeps_recording(s: RecorderView, m: DlMsgView)
    ensures
        s.after_download_msg(m).phase == s.phase,
        s.after_download_msg(m).last_output == s.last_output,
        s.after_download_msg(m).last_error == s.last_error,
{
}

/// Once the download delivered ffmpeg, every format can be chosen and the
/// download indicator is off.
pub proof fn law_download_done_unlocks_formats(s: RecorderView, p: PathBuf, f: OutputFormat)
    ensures
        s.after_download_msg(DlMsgView::Done(p)).format_available(f),
        s.after_download_msg(DlMsgView::Done(p)).status_tone() != StatusTone::Downloading,
{
}

/// WAV needs no ffmpeg and can always be chosen.
pub proof fn law_wav_always_available(s: RecorderView)
    ensures
        s.format_available(OutputFormat::Wav),
{
}

/// At start-up a download is under way exactly when ffmpeg was not found and
/// the platform can fetch it.
pub proof fn law_initial_download(ffmpeg_path: Option<PathBuf>, auto_download: bool)
    ensures
        RecorderView::initial(ffmpeg_path, auto_download).downloading <==> (ffmpeg_path is None
            && auto_download),
        RecorderView::initial(ffmpeg_path, auto_download).is_idle(),
{
}

/// Every change of phase follows the recording cycle, whatever the state
/// and whatever event arrives: a start or a device failure only from an
/// idle phase, a stop or a WAV-writer failure only while recording, a
/// conversion result only while converting. Download events never change
/// the phase, and the button starts only from an idle phase, stops only a
/// recording and does nothing while converting.
pub proof fn law_phase_changes_follow_cycle(
    s: RecorderView,
    err: Seq<char>,
    r: Result<PathBuf, Seq<char>>,
    m: DlMsgView,
    supported: bool,
)
    ensures
        cycle_edge(s.phase, s.after_recording_started().phase),
        cycle_edge(s.phase, s.after_capture_failed(err).phase),
        cycle_edge(s.phase, s.after_stop().phase),
        cycle_edge(s.phase, s.after_wav_error(err).phase),
        cycle_edge(s.phase, s.after_result(r).phase),
        s.after_download_msg(m).phase == s.phase,
        s.after_retry(supported).phase == s.phase,
        s.record_command() == RecordCommand::Start ==> phase_is_idle(s.phase),
        s.record_command() == RecordCommand::Stop ==> s.phase == Phase::Recording,
        s.phase == Phase::Processing ==> s.record_command() == RecordCommand::Nothing,
{
}

/// The record button says what a click does: REC in every idle phase
/// (including after a saved or failed recording), where a click starts;
/// STOP while recording, where a click stops; "Converting..." while
/// converting, where a click does nothing. The caption is REC exactly when
/// the click starts a recording.
pub proof fn law_record_button_caption(s: RecorderView)
    ensures
        phase_is_idle(s.phase) ==> s.record_label() == "REC"@,
        s.phase == Phase::Recording ==> s.record_label() == "STOP"@,
        s.phase == Phase::Processing ==> s.record_label() == "Converting..."@,
        s.record_command() == RecordCommand::Start <==> s.record_label() == "REC"@,
        s.record_command() == RecordCommand::Stop <==> s.record_label() == "STOP"@,
        s.record_command() == RecordCommand::Nothing <==> s.record_label() == "Converting..."@,
{
    reveal_strlit("REC");
    reveal_strlit("STOP");
    reveal_strlit("Converting...");
    assert("REC"@.len() != "STOP"@.len());
    assert("REC"@.len() != "Converting..."@.len());
    assert("STOP"@.len() != "Converting..."@.len());
}

} // verus!
