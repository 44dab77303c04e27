//! Names of the files a recording produces, and the decisions taken when a
//! recording is stopped.
use std::path::PathBuf;
use vstd::prelude::*;
use crate::encoder::{EncodeJob, OutputFormat};
use crate::text;
use crate::text::{chars_of, push_decimal, push_two_digits, rfind_char_in};

verus! {

/// Name of the temporary WAV file of a recording started at `epoch` (seconds
/// since 1970).
pub open spec fn spec_temp_wav_name(epoch: nat) -> Seq<char> {
    "sysvoice_"@ + text::decimal(epoch) + ".wav"@
}

/// Name of the saved file of a recording finished at `epoch`.
pub open spec fn spec_output_name(epoch: nat, format: OutputFormat) -> Seq<char> {
    "recording_"@ + text::decimal(epoch) + "."@ + format.spec_extension()
}

/// The extension of a file name, as `Path::extension` reports it: the text
/// after the last dot, unless there is no dot, the only dot is the first
/// character, or the name is `..`.
pub open spec fn file_extension(name: Seq<char>) -> Option<Seq<char>> {
    if name =~= ".."@ {
        None
    } else {
        match text::rfind_char(name, '.') {
            Some(i) => if i > 0 {
                Some(name.skip(i + 1))
            } else {
                None
            },
            None => None,
        }
    }
}

/// A temporary WAV file that a recording left behind: its name starts with
/// `sysvoice_` and its extension is `wav`.
pub open spec fn spec_is_leftover_temp_wav(name: Seq<char>) -> bool {
    &&& "sysvoice_"@.is_prefix_of(name)
    &&& file_extension(name) == Some("wav"@)
}

/// Elapsed recording time as `hh:mm:ss`; hours may take more than two digits.
pub open spec fn spec_elapsed_text(secs: nat) -> Seq<char> {
    text::two_digits(secs / 3600) + ":"@ + text::two_digits((secs % 3600) / 60) + ":"@
        + text::two_digits(secs % 60)
}

/// Name of the temporary WAV file of a recording started at `epoch`.
pub fn temp_wav_file_name(epoch: u64) -> (n: String)
    ensures
        n@ == spec_temp_wav_name(epoch as nat),
{
    let mut n = "sysvoice_".to_owned();
    push_decimal(&mut n, epoch);
    n.append(".wav");
    n
}

/// Name of the saved file of a recording finished at `epoch`.
pub fn output_file_name(epoch: u64, format: OutputFormat) -> (n: String)
    ensures
        n@ == spec_output_name(epoch as nat, format),
{
    let mut n = "recording_".to_owned();
    push_decimal(&mut n, epoch);
    n.append(".");
    n.append(format.extension());
    n
}

fn equals_text(s: &Vec<char>, lo: usize, t: &str) -> (b: bool)
    requires
        lo <= s.len(),
    ensures
        b == (s@.skip(lo as int) =~= t@),
{
    let tc = chars_of(t);
    if s.len() - lo != tc.len() {
        proof {
            if s@.skip(lo as int) =~= t@ {
                assert(s@.skip(lo as int).len() == t@.len());
            }
        }
        return false;
    }
    let mut i: usize = 0;
    while i < tc.len()
        invariant
            i <= tc.len(),
            s.len() - lo == tc.len(),
            tc@ == t@,
            forall|k: int| 0 <= k < i ==> s@[lo + k] == tc@[k],
        decreases tc.len() - i,
    {
        if s[lo + i] != tc[i] {
            assert(s@.skip(lo as int)[i as int] != t@[i as int]);
            return false;
        }
        i = i + 1;
    }
    assert(s@.skip(lo as int) =~= t@);
    true
}

/// Is `name` a temporary WAV file left behind by an earlier run?
pub fn is_leftover_temp_wav(name: &str) -> (b: bool)
    ensures
        b == spec_is_leftover_temp_wav(name@),
{
    let chars = chars_of(name);
    let prefix = chars_of("sysvoice_");
    if chars.len() < prefix.len() {
        return false;
    }
    let mut i: usize = 0;
    while i < prefix.len()
        invariant
            i <= prefix.len() <= chars.len(),
            chars@ == name@,
            prefix@ == "sysvoice_"@,
            forall|k: int| 0 <= k < i ==> chars@[k] == prefix@[k],
        decreases prefix.len() - i,
    {
        if chars[i] != prefix[i] {
            return false;
        }
        i = i + 1;
    }
    assert("sysvoice_"@.is_prefix_of(name@));
    if equals_text(&chars, 0, "..") {
        assert(name@ =~= chars@.skip(0));
        return false;
    }
    assert(name@ =~= chars@.skip(0));
    match rfind_char_in(&chars, '.') {
        None => false,
        Some(dot) => {
            if dot == 0 {
                false
            } else {
                equals_text(&chars, dot + 1, "wav")
            }
        },
    }
}

/// Elapsed recording time as `hh:mm:ss`.
pub fn elapsed_text(secs: u64) -> (s: String)
    ensures
        s@ == spec_elapsed_text(secs as nat),
{
    let mut s = String::new();
    push_two_digits(&mut s, secs / 3600);
    s.append(":");
    push_two_digits(&mut s, (secs % 3600) / 60);
    s.append(":");
    push_two_digits(&mut s, secs % 60);
    assert(s@ =~= spec_elapsed_text(secs as nat));
    s
}

/// The outcome of finishing the WAV file: `status` is what the writer
/// reported (empty on success), or `None` when it did not answer in time.
pub fn wav_finish(status: Option<&str>) -> (r: Result<(), String>)
    ensures
        match status {
            None => r matches Err(e) && e@ == "WAV write timeout"@,
            Some(s) => if s@.len() == 0 {
                r is Ok
            } else {
                r matches Err(e) && e@ == "WAV error: "@ + s@
            },
        },
{
    match status {
        None => Err("WAV write timeout".to_owned()),
        Some(s) => if s.is_empty() {
            Ok(())
        } else {
            let mut e = "WAV error: ".to_owned();
            e.append(s);
            Err(e)
        },
    }
}

/// How a stopped recording becomes the saved file.
#[derive(Debug, Clone)]
pub enum Conversion {
    /// The WAV file is copied as it is.
    CopyWav,
    /// ffmpeg at this path converts it.
    Encode(PathBuf, EncodeJob),
    /// The format needs ffmpeg, which is not available yet.
    FfmpegMissing,
}

/// The message of a conversion that could not run for want of ffmpeg.
pub fn ffmpeg_missing_message() -> (m: String)
    ensures
        m@ == "ffmpeg is downloading. Please wait and try again."@,
{
    "ffmpeg is downloading. Please wait and try again.".to_owned()
}

/// Chooses the conversion of a stopped recording.
pub fn plan_conversion(format: OutputFormat, ffmpeg: Option<PathBuf>, volume_pct: u32) -> (c:
    Conversion)
    ensures
        match c {
            Conversion::CopyWav => !format.spec_requires_ffmpeg(),
            Conversion::Encode(p, job) => format.spec_requires_ffmpeg() && ffmpeg == Some(p)
                && job == (EncodeJob { format, volume_pct }),
            Conversion::FfmpegMissing => format.spec_requires_ffmpeg() && ffmpeg is None,
        },
{
    if format.requires_ffmpeg() {
        match ffmpeg {
            Some(ff) => Conversion::Encode(ff, EncodeJob { format, volume_pct }),
            None => Conversion::FfmpegMissing,
        }
    } else {
        Conversion::CopyWav
    }
}

} // verus!

verus! {

/// Every temporary WAV file a recording creates is recognised, and removed,
/// as a leftover by the clean-up at the next start.
pub proof fn law_temp_wav_is_recognised_as_leftover(epoch: nat)
    ensures
        spec_is_leftover_temp_wav(spec_temp_wav_name(epoch)),
{
    reveal_strlit("sysvoice_");
    reveal_strlit(".wav");
    reveal_strlit("wav");
    reveal_strlit("..");
    let name = spec_temp_wav_name(epoch);
    let d = text::decimal(epoch);
    text::lemma_decimal_digits(epoch);
    let dot = name.len() - 4;
    assert(name[dot] == '.');
    assert forall|j: int| dot < j < name.len() implies name[j] != '.' by {}
    text::lemma_rfind_char_is(name, '.', dot);
    assert(name.skip(dot + 1) =~= "wav"@);
    assert("sysvoice_"@.is_prefix_of(name)) by {
        assert(name.subrange(0, 9) =~= "sysvoice_"@);
    }
    assert(!(name =~= ".."@)) by {
        assert(name.len() > 2);
    }
}

/// The saved file of a recording carries the extension of its format, as
/// `Path::extension` reads it.
pub proof fn law_output_name_has_format_extension(epoch: nat, format: OutputFormat)
    ensures
        file_extension(spec_output_name(epoch, format)) == Some(format.spec_extension()),
        !spec_is_leftover_temp_wav(spec_output_name(epoch, format)),
{
    reveal_strlit("recording_");
    reveal_strlit("sysvoice_");
    reveal_strlit(".");
    reveal_strlit("..");
    reveal_strlit("wav");
    reveal_strlit("flac");
    reveal_strlit("mp3");
    reveal_strlit("m4a");
    reveal_strlit("opus");
    let name = spec_output_name(epoch, format);
    let ext = format.spec_extension();
    text::lemma_decimal_digits(epoch);
    let dot = name.len() - ext.len() - 1;
    assert(name[dot] == '.');
    assert forall|j: int| dot < j < name.len() implies name[j] != '.' by {
        assert(name[j] == ext[j - dot - 1]);
    }
    text::lemma_rfind_char_is(name, '.', dot);
    assert(name.skip(dot + 1) =~= ext);
    assert(!(name =~= ".."@)) by {
        assert(name.len() > 2);
    }
    assert(!"sysvoice_"@.is_prefix_of(name)) by {
        assert(name[0] == 'r');
        if "sysvoice_"@.is_prefix_of(name) {
            assert(name.subrange(0, 9)[0] == "sysvoice_"@[0]);
        }
    }
}

} // verus!

verus! {

/// The elapsed-time text reads back as the elapsed seconds: hours, minutes
/// and seconds separated by colons, minutes and seconds with two digits each
/// and below 60.
pub proof fn law_elapsed_text_reads_back(secs: nat)
    ensures
        ({
            let t = spec_elapsed_text(secs);
            let n = t.len() as int;
            let h = text::numeral_value(t.take(n - 6));
            let m = text::numeral_value(t.subrange(n - 5, n - 3));
            let s = text::numeral_value(t.skip(n - 2));
            &&& n >= 8
            &&& t[n - 6] == ':'
            &&& t[n - 3] == ':'
            &&& m < 60
            &&& s < 60
            &&& h * 3600 + m * 60 + s == secs
        }),
{
    reveal_strlit(":");
    let hh = text::two_digits(secs / 3600);
    let mm = text::two_digits((secs % 3600) / 60);
    let ss = text::two_digits(secs % 60);
    text::lemma_two_digits_value_any(secs / 3600);
    text::lemma_two_digits_value(((secs % 3600) / 60) as nat);
    text::lemma_two_digits_value(secs % 60);
    let t = spec_elapsed_text(secs);
    let n = t.len() as int;
    assert(t =~= hh + ":"@ + mm + ":"@ + ss);
    assert(t.take(n - 6) =~= hh);
    assert(t.subrange(n - 5, n - 3) =~= mm);
    assert(t.skip(n - 2) =~= ss);
    assert(secs == (secs / 3600) * 3600 + ((secs % 3600) / 60) * 60 + secs % 60) by (nonlinear_arith);
}

} // verus!
