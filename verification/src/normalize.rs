use vstd::prelude::*;

use crate::errors::TranscribeError;

verus! {

/// The normalizer's position in its fixed procedure: write the raw bytes to
/// scoped temporary storage, invoke the external transcoder once, read the
/// converted bytes back. The surrounding program performs each step's I/O
/// and reports what happened; the decisions — what follows each outcome,
/// and which error a failure becomes — are all made here.
#[derive(Debug)]
pub enum NormalizeState {
    /// Next action: create the two scoped temporary files and write the
    /// input bytes to the first.
    WriteInput,
    /// Next action: run the transcoder once with `transcoder_args`.
    RunTranscoder,
    /// Next action: read the converted bytes from the output location.
    ReadOutput,
    /// Terminal: normalization produced these canonical-audio bytes.
    Done(Vec<u8>),
    /// Terminal: normalization failed with this error.
    Failed(TranscribeError),
}

/// What the surrounding program observed while performing the current
/// step's I/O.
#[derive(Debug)]
pub enum NormalizeEvent {
    /// The input bytes were written and flushed.
    WriteOk,
    /// Creating or writing temporary storage failed.
    WriteErr,
    /// The transcoder process could not be started.
    SpawnErr,
    /// The transcoder exited; the flag is true exactly on a zero status.
    Exited(bool),
    /// The converted bytes were read back.
    ReadBytes(Vec<u8>),
    /// Reading the converted bytes failed.
    ReadErr,
}

/// The normalizer's transition function. A temporary-storage failure is
/// `IoError`; a transcoder that cannot start or exits non-zero is
/// `ConversionFailed`; a successful read completes with the bytes read. An
/// event that does not belong to the current state changes nothing.
pub open spec fn spec_normalize_step(s: NormalizeState, e: NormalizeEvent) -> NormalizeState {
    match (s, e) {
        (NormalizeState::WriteInput, NormalizeEvent::WriteOk) => NormalizeState::RunTranscoder,
        (NormalizeState::WriteInput, NormalizeEvent::WriteErr) => NormalizeState::Failed(
            TranscribeError::IoError,
        ),
        (NormalizeState::RunTranscoder, NormalizeEvent::SpawnErr) => NormalizeState::Failed(
            TranscribeError::ConversionFailed,
        ),
        (NormalizeState::RunTranscoder, NormalizeEvent::Exited(ok)) => if ok {
            NormalizeState::ReadOutput
        } else {
            NormalizeState::Failed(TranscribeError::ConversionFailed)
        },
        (NormalizeState::ReadOutput, NormalizeEvent::ReadBytes(b)) => NormalizeState::Done(b),
        (NormalizeState::ReadOutput, NormalizeEvent::ReadErr) => NormalizeState::Failed(
            TranscribeError::IoError,
        ),
        (s2, _) => s2,
    }
}

/// Advances the normalizer by one observed event. No retries anywhere: a
/// single attempt per step, and every failure is terminal.
pub fn normalize_step(s: NormalizeState, e: NormalizeEvent) -> (r: NormalizeState)
    ensures
        r == spec_normalize_step(s, e),
{
    match (s, e) {
        (NormalizeState::WriteInput, NormalizeEvent::WriteOk) => NormalizeState::RunTranscoder,
        (NormalizeState::WriteInput, NormalizeEvent::WriteErr) => NormalizeState::Failed(
            TranscribeError::IoError,
        ),
        (NormalizeState::RunTranscoder, NormalizeEvent::SpawnErr) => NormalizeState::Failed(
            TranscribeError::ConversionFailed,
        ),
        (NormalizeState::RunTranscoder, NormalizeEvent::Exited(ok)) => if ok {
            NormalizeState::ReadOutput
        } else {
            NormalizeState::Failed(TranscribeError::ConversionFailed)
        },
        (NormalizeState::ReadOutput, NormalizeEvent::ReadBytes(b)) => NormalizeState::Done(b),
        (NormalizeState::ReadOutput, NormalizeEvent::ReadErr) => NormalizeState::Failed(
            TranscribeError::IoError,
        ),
        (s2, _) => s2,
    }
}

/// The external transcoder command.
pub fn transcoder_program() -> (r: String)
    ensures
        r@ == "ffmpeg"@,
{
    String::from_str("ffmpeg")
}

/// The fixed transcoder argument list: overwrite the output if it exists,
/// read the input location, force 1 channel, force a 16000 Hz sample rate,
/// force the WAV container, write the output location.
pub open spec fn spec_transcoder_args(input: Seq<char>, output: Seq<char>) -> Seq<Seq<char>> {
    seq![
        "-y"@,
        "-i"@,
        input,
        "-ac"@,
        "1"@,
        "-ar"@,
        "16000"@,
        "-f"@,
        "wav"@,
        output,
    ]
}

/// Builds the fixed argument list for one transcoder invocation.
pub fn transcoder_args(input_path: &str, output_path: &str) -> (r: Vec<String>)
    ensures
        r@.map_values(|s: String| s@) == spec_transcoder_args(input_path@, output_path@),
{
    let mut v: Vec<String> = Vec::new();
    v.push(String::from_str("-y"));
    v.push(String::from_str("-i"));
    v.push(String::from_str(input_path));
    v.push(String::from_str("-ac"));
    v.push(String::from_str("1"));
    v.push(String::from_str("-ar"));
    v.push(String::from_str("16000"));
    v.push(String::from_str("-f"));
    v.push(String::from_str("wav"));
    v.push(String::from_str(output_path));
    proof {
        assert(v@.map_values(|s: String| s@) =~= spec_transcoder_args(
            input_path@,
            output_path@,
        ));
    }
    v
}

} // verus!
