use vstd::prelude::*;

verus! {

/// The errors a transcription request can end with. Every stage failure is
/// fatal for its request and is surfaced as one of these values; callers
/// always receive a well-formed error, never a crash.
#[derive(Clone, Copy, Debug, PartialEq, Eq, Structural)]
pub enum TranscribeError {
    /// Temporary-storage read or write failed during audio normalization.
    IoError,
    /// The external transcoder could not be started or exited with a
    /// non-zero status.
    ConversionFailed,
    /// The decoded audio is not canonical: channel count not 1 or 2,
    /// sample rate not 16000 Hz, or the container is not 16-bit PCM WAV.
    UnsupportedAudioFormat,
    /// The model weight file could not be loaded into a context.
    ModelLoadError,
    /// A decoding session could not be created from the context.
    SessionError,
    /// The recognition run itself failed; no partial result is salvaged.
    InferenceError,
    /// The requested model name is not one of the accepted names.
    UnknownModel,
    /// The model name is valid but its weight file is absent on disk.
    ModelUnavailable,
}

/// What `TranscribeError::message` returns for each variant.
pub open spec fn spec_error_message(e: TranscribeError) -> Seq<char> {
    match e {
        TranscribeError::IoError => "temporary storage failure during audio normalization"@,
        TranscribeError::ConversionFailed => "audio transcoder failed to start or exited with an error"@,
        TranscribeError::UnsupportedAudioFormat => "unsupported audio format: need 1 or 2 channels at 16000 Hz, 16-bit PCM"@,
        TranscribeError::ModelLoadError => "failed to load model"@,
        TranscribeError::SessionError => "failed to create decoding session"@,
        TranscribeError::InferenceError => "failed to run model"@,
        TranscribeError::UnknownModel => "invalid model: expected one of base, tiny, small, medium, large"@,
        TranscribeError::ModelUnavailable => "model file not found, run `make pull`: expected one of base, tiny, small, medium, large"@,
    }
}

impl TranscribeError {
    /// A human-readable description of the error, for the routing layer to
    /// encode into its reply.
    pub fn message(&self) -> (r: String)
        ensures
            r@ == spec_error_message(*self),
    {
        match *self {
            TranscribeError::IoError => String::from_str(
                "temporary storage failure during audio normalization",
            ),
            TranscribeError::ConversionFailed => String::from_str(
                "audio transcoder failed to start or exited with an error",
            ),
            TranscribeError::UnsupportedAudioFormat => String::from_str(
                "unsupported audio format: need 1 or 2 channels at 16000 Hz, 16-bit PCM",
            ),
            TranscribeError::ModelLoadError => String::from_str("failed to load model"),
            TranscribeError::SessionError => String::from_str("failed to create decoding session"),
            TranscribeError::InferenceError => String::from_str("failed to run model"),
            TranscribeError::UnknownModel => String::from_str(
                "invalid model: expected one of base, tiny, small, medium, large",
            ),
            TranscribeError::ModelUnavailable => String::from_str(
                "model file not found, run `make pull`: expected one of base, tiny, small, medium, large",
            ),
        }
    }
}

} // verus!
