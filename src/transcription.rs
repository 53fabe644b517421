use vstd::prelude::*;
use crate::riff_wave::{Channels, RiffWave, RiffWaveFormat};

verus! {

/// The sample rate that speech recognition expects.
pub const WHISPER_SAMPLE_RATE: u32 = 16000;

/// Why a recording could not be transcribed.
#[derive(Clone, Debug, PartialEq, Eq)]
pub enum TranscribeError {
    /// The samples are not at the rate the backend expects.
    UnsupportedSampleRate(u32),
    /// The samples are not single-channel.
    UnsupportedChannels(Channels),
    /// The backend has no model loaded.
    NotInitialized,
    /// The backend failed; its message.
    Backend(String),
}

/// Turns a recording into text.
pub trait Transcribe {
    fn transcribe(&self, data: &RiffWave) -> Result<String, TranscribeError>;
}

/// Whether a recording in `format` can go to speech recognition: 16 kHz mono.
pub open spec fn spec_check_input(format: RiffWaveFormat) -> Result<(), TranscribeError> {
    if format.sample_rate != WHISPER_SAMPLE_RATE {
        Err(TranscribeError::UnsupportedSampleRate(format.sample_rate))
    } else if format.num_channels != Channels::Mono {
        Err(TranscribeError::UnsupportedChannels(format.num_channels))
    } else {
        Ok(())
    }
}

/// Checks that a recording can go to speech recognition: 16 kHz and mono.
pub fn check_input(format: &RiffWaveFormat) -> (r: Result<(), TranscribeError>)
    ensures
        r == spec_check_input(*format),
{
    if format.sample_rate != WHISPER_SAMPLE_RATE {
        return Err(TranscribeError::UnsupportedSampleRate(format.sample_rate));
    }
    match format.num_channels {
        Channels::Mono => Ok(()),
        Channels::Stereo => Err(TranscribeError::UnsupportedChannels(format.num_channels)),
    }
}

/// The decimal digit for `d < 10`.
pub open spec fn digit_char(d: nat) -> char {
    if d == 0 {
        '0'
    } else if d == 1 {
        '1'
    } else if d == 2 {
        '2'
    } else if d == 3 {
        '3'
    } else if d == 4 {
        '4'
    } else if d == 5 {
        '5'
    } else if d == 6 {
        '6'
    } else if d == 7 {
        '7'
    } else if d == 8 {
        '8'
    } else {
        '9'
    }
}

/// `n` written in decimal, without leading zeros.
pub open spec fn decimal(n: nat) -> Seq<char>
    decreases n,
{
    if n < 10 {
        seq![digit_char(n)]
    } else {
        decimal(n / 10) + seq![digit_char(n % 10)]
    }
}

fn digit_str(d: usize) -> (r: &'static str)
    requires
        d < 10,
    ensures
        r@ == seq![digit_char(d as nat)],
{
    proof {
        reveal_strlit("0");
        reveal_strlit("1");
        reveal_strlit("2");
        reveal_strlit("3");
        reveal_strlit("4");
        reveal_strlit("5");
        reveal_strlit("6");
        reveal_strlit("7");
        reveal_strlit("8");
        reveal_strlit("9");
    }
    let r = if d == 0 {
        "0"
    } else if d == 1 {
        "1"
    } else if d == 2 {
        "2"
    } else if d == 3 {
        "3"
    } else if d == 4 {
        "4"
    } else if d == 5 {
        "5"
    } else if d == 6 {
        "6"
    } else if d == 7 {
        "7"
    } else if d == 8 {
        "8"
    } else {
        "9"
    };
    assert(r@ =~= seq![digit_char(d as nat)]);
    r
}

/// `n` written in decimal.
pub fn decimal_string(n: usize) -> (r: String)
    ensures
        r@ == decimal(n as nat),
    decreases n,
{
    if n < 10 {
        String::from_str(digit_str(n))
    } else {
        let mut s = decimal_string(n / 10);
        s.append(digit_str(n % 10));
        s
    }
}

/// The text that the stand-in transcriber returns for `len` bytes of samples.
pub open spec fn fake_transcript(len: nat) -> Seq<char> {
    "No real transcription, but returning some data. Length="@ + decimal(len)
}

/// A transcriber that reports the size of the recording instead of recognising speech.
pub struct FakeTranscriber {}

impl FakeTranscriber {
    /// The report for a recording with `len` bytes of samples.
    pub fn describe(&self, len: usize) -> (r: String)
        ensures
            r@ == fake_transcript(len as nat),
    {
        let mut s = String::from_str("No real transcription, but returning some data. Length=");
        let digits = decimal_string(len);
        s.append(digits.as_str());
        s
    }
}

impl Transcribe for FakeTranscriber {
    fn transcribe(&self, data: &RiffWave) -> Result<String, TranscribeError> {
        Ok(self.describe(data.data.len()))
    }
}

/// Sizes of the speech-recognition model.
#[derive(Clone, Copy, Debug, PartialEq, Eq, Structural)]
pub enum WhisperModel {
    Tiny,
    Base,
    Small,
    Medium,
    Large,
}

/// The file name of each model.
pub open spec fn model_name(m: WhisperModel) -> Seq<char> {
    match m {
        WhisperModel::Tiny => "ggml-tiny.en.bin"@,
        WhisperModel::Base => "ggml-base.bin"@,
        WhisperModel::Small => "ggml-small.bin"@,
        WhisperModel::Medium => "ggml-medium.bin"@,
        WhisperModel::Large => "ggml-large-v3.bin"@,
    }
}

/// Where the model files are published.
pub open spec fn model_base_url() -> Seq<char> {
    "https://huggingface.co/ggerganov/whisper.cpp/resolve/main/"@
}

impl WhisperModel {
    /// The file name of the model.
    pub fn get_model_name(&self) -> (r: &'static str)
        ensures
            r@ == model_name(*self),
    {
        match self {
            WhisperModel::Tiny => "ggml-tiny.en.bin",
            WhisperModel::Base => "ggml-base.bin",
            WhisperModel::Small => "ggml-small.bin",
            WhisperModel::Medium => "ggml-medium.bin",
            WhisperModel::Large => "ggml-large-v3.bin",
        }
    }

    /// The address the model file is downloaded from.
    pub fn get_model_url(&self) -> (r: String)
        ensures
            r@ == model_base_url() + model_name(*self),
    {
        let mut url = String::from_str("https://huggingface.co/ggerganov/whisper.cpp/resolve/main/");
        url.append(self.get_model_name());
        url
    }
}

/// Settings of a speech-recognition backend.
pub struct WhisperConfig {
    pub model: WhisperModel,
}

/// Quality of a transcription; a higher one takes longer.
#[derive(Clone, Copy, Debug, PartialEq, Eq, Structural)]
pub enum Quality {
    Low,
    Medium,
    High,
}

impl Quality {
    /// The model used for each quality.
    pub open spec fn spec_model(self) -> WhisperModel {
        match self {
            Quality::Low => WhisperModel::Tiny,
            Quality::Medium => WhisperModel::Medium,
            Quality::High => WhisperModel::Large,
        }
    }

    /// The model used for this quality.
    pub fn model(&self) -> (r: WhisperModel)
        ensures
            r == self.spec_model(),
    {
        match self {
            Quality::Low => WhisperModel::Tiny,
            Quality::Medium => WhisperModel::Medium,
            Quality::High => WhisperModel::Large,
        }
    }

    /// The name under which the quality is given and shown.
    pub fn name(&self) -> (r: &'static str)
        ensures
            r@ == (match self {
                Quality::Low => "low"@,
                Quality::Medium => "medium"@,
                Quality::High => "high"@,
            }),
    {
        match self {
            Quality::Low => "low",
            Quality::Medium => "medium",
            Quality::High => "high",
        }
    }
}

} // verus!
