//! Reading the statistics that ffmpeg's `loudnorm` filter prints after an
//! analysis pass.
//!
//! ffmpeg writes a JSON object such as
//! `{ "input_i" : "-23.5", "input_tp" : "-4.1", ... }` to its error stream.
//! The last `{` of the stream opens that object and the first `}` after it
//! closes it; each field is the first quoted text after its quoted key.
use vstd::prelude::*;
use crate::text;
use crate::text::{chars_of, find_in, rfind_char_in};

verus! {

/// The measured values that the second pass of the normalisation needs.
#[derive(Clone, Copy, Debug, PartialEq, Eq, Structural)]
pub enum LoudnormField {
    InputI,
    InputTp,
    InputLra,
    InputThresh,
    TargetOffset,
}

impl LoudnormField {
    /// The JSON key under which ffmpeg prints the field.
    pub open spec fn spec_key(self) -> Seq<char> {
        match self {
            LoudnormField::InputI => "input_i"@,
            LoudnormField::InputTp => "input_tp"@,
            LoudnormField::InputLra => "input_lra"@,
            LoudnormField::InputThresh => "input_thresh"@,
            LoudnormField::TargetOffset => "target_offset"@,
        }
    }

    /// The JSON key under which ffmpeg prints the field.
    pub fn key(self) -> (k: &'static str)
        ensures
            k@ == self.spec_key(),
    {
        match self {
            LoudnormField::InputI => "input_i",
            LoudnormField::InputTp => "input_tp",
            LoudnormField::InputLra => "input_lra",
            LoudnormField::InputThresh => "input_thresh",
            LoudnormField::TargetOffset => "target_offset",
        }
    }
}

/// Why the analysis output could not be read.
#[derive(Clone, Copy, Debug, PartialEq, Eq, Structural)]
pub enum LoudnormError {
    /// No `{` in the output.
    JsonNotFound,
    /// No `}` after the last `{`.
    JsonNotTerminated,
    /// The quoted key does not occur in the object.
    KeyNotFound(LoudnormField),
    /// No opening quote of a value after the key.
    ValueNotFound(LoudnormField),
    /// No closing quote of the value.
    ValueNotTerminated(LoudnormField),
}

impl LoudnormError {
    /// The text of the error as the user sees it.
    pub open spec fn spec_message(self) -> Seq<char> {
        match self {
            LoudnormError::JsonNotFound => "loudnorm JSON not found in ffmpeg output"@,
            LoudnormError::JsonNotTerminated => "loudnorm JSON not terminated"@,
            LoudnormError::KeyNotFound(f) => "loudnorm key '"@ + f.spec_key() + "' not found"@,
            LoudnormError::ValueNotFound(f) => "loudnorm value for '"@ + f.spec_key()
                + "' not found"@,
            LoudnormError::ValueNotTerminated(f) => "loudnorm value for '"@ + f.spec_key()
                + "' not terminated"@,
        }
    }

    /// The text of the error as the user sees it.
    pub fn message(&self) -> (m: String)
        ensures
            m@ == self.spec_message(),
    {
        match *self {
            LoudnormError::JsonNotFound => "loudnorm JSON not found in ffmpeg output".to_owned(),
            LoudnormError::JsonNotTerminated => "loudnorm JSON not terminated".to_owned(),
            LoudnormError::KeyNotFound(f) => {
                let mut m = "loudnorm key '".to_owned();
                m.append(f.key());
                m.append("' not found");
                m
            },
            LoudnormError::ValueNotFound(f) => {
                let mut m = "loudnorm value for '".to_owned();
                m.append(f.key());
                m.append("' not found");
                m
            },
            LoudnormError::ValueNotTerminated(f) => {
                let mut m = "loudnorm value for '".to_owned();
                m.append(f.key());
                m.append("' not terminated");
                m
            },
        }
    }
}

/// Measured loudness values returned by the analysis pass, as ffmpeg printed them.
#[derive(Clone, Debug)]
pub struct LoudnormStats {
    pub input_i: String,
    pub input_tp: String,
    pub input_lra: String,
    pub input_thresh: String,
    pub target_offset: String,
}

/// The text of each measured value.
#[verifier::ext_equal]
pub struct LoudnormValues {
    pub input_i: Seq<char>,
    pub input_tp: Seq<char>,
    pub input_lra: Seq<char>,
    pub input_thresh: Seq<char>,
    pub target_offset: Seq<char>,
}

impl View for LoudnormStats {
    type V = LoudnormValues;

    open spec fn view(&self) -> LoudnormValues {
        LoudnormValues {
            input_i: self.input_i@,
            input_tp: self.input_tp@,
            input_lra: self.input_lra@,
            input_thresh: self.input_thresh@,
            target_offset: self.target_offset@,
        }
    }
}

/// A key in double quotes, as it is searched for in the object.
pub open spec fn quoted(key: Seq<char>) -> Seq<char> {
    seq!['"'] + key + seq!['"']
}

/// The value of `field` in the object `json`: after the first occurrence of
/// the quoted key, the text between the next two double quotes.
pub open spec fn spec_extract(json: Seq<char>, field: LoudnormField) -> Result<
    Seq<char>,
    LoudnormError,
> {
    let needle = quoted(field.spec_key());
    match text::find_seq(json, needle) {
        None => Err(LoudnormError::KeyNotFound(field)),
        Some(pos) => {
            let after = json.skip(pos + needle.len());
            match text::find_seq(after, seq!['"']) {
                None => Err(LoudnormError::ValueNotFound(field)),
                Some(val_start) => {
                    let inner = after.skip(val_start + 1);
                    match text::find_seq(inner, seq!['"']) {
                        None => Err(LoudnormError::ValueNotTerminated(field)),
                        Some(val_end) => Ok(inner.take(val_end)),
                    }
                },
            }
        },
    }
}

/// The object in the output: from its last `{` to the first `}` after it.
pub open spec fn spec_json_block(stderr: Seq<char>) -> Result<Seq<char>, LoudnormError> {
    match text::rfind_char(stderr, '{') {
        None => Err(LoudnormError::JsonNotFound),
        Some(start) => match text::find_seq(stderr.skip(start), seq!['}']) {
            None => Err(LoudnormError::JsonNotTerminated),
            Some(end) => Ok(stderr.subrange(start, start + end + 1)),
        },
    }
}

/// All five values from the object, the first failure in field order otherwise.
pub open spec fn spec_values(json: Seq<char>) -> Result<LoudnormValues, LoudnormError> {
    match spec_extract(json, LoudnormField::InputI) {
        Err(e) => Err(e),
        Ok(i) => match spec_extract(json, LoudnormField::InputTp) {
            Err(e) => Err(e),
            Ok(tp) => match spec_extract(json, LoudnormField::InputLra) {
                Err(e) => Err(e),
                Ok(lra) => match spec_extract(json, LoudnormField::InputThresh) {
                    Err(e) => Err(e),
                    Ok(thresh) => match spec_extract(json, LoudnormField::TargetOffset) {
                        Err(e) => Err(e),
                        Ok(offset) => Ok(
                            LoudnormValues {
                                input_i: i,
                                input_tp: tp,
                                input_lra: lra,
                                input_thresh: thresh,
                                target_offset: offset,
                            },
                        ),
                    },
                },
            },
        },
    }
}

/// What reading the analysis output gives.
pub open spec fn spec_parse_loudnorm(stderr: Seq<char>) -> Result<LoudnormValues, LoudnormError> {
    match spec_json_block(stderr) {
        Err(e) => Err(e),
        Ok(json) => spec_values(json),
    }
}

fn quoted_key(field: LoudnormField) -> (v: Vec<char>)
    ensures
        v@ == quoted(field.spec_key()),
{
    let mut v: Vec<char> = Vec::new();
    v.push('"');
    let k = chars_of(field.key());
    let mut i: usize = 0;
    while i < k.len()
        invariant
            i <= k.len(),
            v@ == seq!['"'] + k@.take(i as int),
        decreases k.len() - i,
    {
        v.push(k[i]);
        i = i + 1;
        assert(v@ =~= seq!['"'] + k@.take(i as int));
    }
    v.push('"');
    assert(v@ =~= quoted(field.spec_key()));
    v
}

/// The value of `field` inside the object `text[lo..hi]`, where `chars` are
/// the characters of `text`.
fn extract(source: &str, chars: &Vec<char>, lo: usize, hi: usize, field: LoudnormField) -> (r: Result<
    String,
    LoudnormError,
>)
    requires
        chars@ == source@,
        lo <= hi <= chars.len(),
    ensures
        match (r, spec_extract(chars@.subrange(lo as int, hi as int), field)) {
            (Ok(v), Ok(w)) => v@ == w,
            (Err(e), Err(f)) => e == f,
            _ => false,
        },
{
    let ghost json = chars@.subrange(lo as int, hi as int);
    let needle = quoted_key(field);
    let quote: Vec<char> = vec!['"'];
    assert(quote@ =~= seq!['"']);
    let pos = match find_in(chars, lo, hi, &needle) {
        None => {
            return Err(LoudnormError::KeyNotFound(field));
        },
        Some(p) => p,
    };
    proof {
        text::lemma_find_seq_none_iff(json, needle@);
    }
    let after_lo = lo + pos + needle.len();
    assert(json.skip(pos + needle.len()) =~= chars@.subrange(after_lo as int, hi as int));
    let val_start = match find_in(chars, after_lo, hi, &quote) {
        None => {
            return Err(LoudnormError::ValueNotFound(field));
        },
        Some(p) => p,
    };
    proof {
        text::lemma_find_seq_none_iff(chars@.subrange(after_lo as int, hi as int), quote@);
    }
    let inner_lo = after_lo + val_start + 1;
    assert(json.skip(pos + needle.len()).skip(val_start + 1) =~= chars@.subrange(
        inner_lo as int,
        hi as int,
    ));
    let val_end = match find_in(chars, inner_lo, hi, &quote) {
        None => {
            return Err(LoudnormError::ValueNotTerminated(field));
        },
        Some(p) => p,
    };
    proof {
        text::lemma_find_seq_none_iff(chars@.subrange(inner_lo as int, hi as int), quote@);
    }
    let value = source.substring_char(inner_lo, inner_lo + val_end).to_owned();
    assert(chars@.subrange(inner_lo as int, hi as int).take(val_end as int) =~= chars@.subrange(
        inner_lo as int,
        inner_lo + val_end,
    ));
    Ok(value)
}

/// Extracts the loudnorm JSON block from ffmpeg's error stream and reads the
/// five measured values from it.
pub fn parse_loudnorm_json(stderr: &str) -> (r: Result<LoudnormStats, LoudnormError>)
    ensures
        match (r, spec_parse_loudnorm(stderr@)) {
            (Ok(st), Ok(v)) => st@ == v,
            (Err(e), Err(f)) => e == f,
            _ => false,
        },
{
    let chars = chars_of(stderr);
    let start = match rfind_char_in(&chars, '{') {
        None => {
            return Err(LoudnormError::JsonNotFound);
        },
        Some(s) => s,
    };
    let close: Vec<char> = vec!['}'];
    assert(close@ =~= seq!['}']);
    assert(chars@.subrange(start as int, chars.len() as int) =~= stderr@.skip(start as int));
    let end = match find_in(&chars, start, chars.len(), &close) {
        None => {
            return Err(LoudnormError::JsonNotTerminated);
        },
        Some(e) => e,
    };
    proof {
        text::lemma_find_seq_none_iff(stderr@.skip(start as int), close@);
    }
    let lo = start;
    let hi = start + end + 1;
    let ghost json = chars@.subrange(lo as int, hi as int);
    assert(spec_json_block(stderr@) == Ok::<Seq<char>, LoudnormError>(json));
    let input_i = match extract(stderr, &chars, lo, hi, LoudnormField::InputI) {
        Ok(v) => v,
        Err(e) => {
            return Err(e);
        },
    };
    let input_tp = match extract(stderr, &chars, lo, hi, LoudnormField::InputTp) {
        Ok(v) => v,
        Err(e) => {
            return Err(e);
        },
    };
    let input_lra = match extract(stderr, &chars, lo, hi, LoudnormField::InputLra) {
        Ok(v) => v,
        Err(e) => {
            return Err(e);
        },
    };
    let input_thresh = match extract(stderr, &chars, lo, hi, LoudnormField::InputThresh) {
        Ok(v) => v,
        Err(e) => {
            return Err(e);
        },
    };
    let target_offset = match extract(stderr, &chars, lo, hi, LoudnormField::TargetOffset) {
        Ok(v) => v,
        Err(e) => {
            return Err(e);
        },
    };
    Ok(LoudnormStats { input_i, input_tp, input_lra, input_thresh, target_offset })
}

} // verus!
