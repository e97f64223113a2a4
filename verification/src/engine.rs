use vstd::prelude::*;

use crate::errors::TranscribeError;

verus! {

/// The engine's per-request lifecycle: load the model weights into an
/// immutable context, create the request's mutable session, run single-pass
/// greedy decoding over the whole buffer, then read the reported segment
/// count. The surrounding program performs each engine call and reports its
/// outcome; which state follows, and which error a failure becomes, is
/// decided here. A context and a session live for one request only.
#[derive(Debug, Clone, Copy, PartialEq, Eq, Structural)]
pub enum EngineState {
    /// Next action: load the weights at the resolved path into a context.
    LoadContext,
    /// Next action: create the request's session from the context.
    CreateSession,
    /// Next action: run greedy decoding over the full sample buffer.
    RunInference,
    /// Next action: ask the engine how many segments the run produced.
    CountSegments,
    /// Terminal: the run succeeded and reported this many segments; the
    /// per-index fetches may begin.
    Collect(i32),
    /// Terminal: the request failed with this error; no partial result is
    /// salvaged.
    Failed(TranscribeError),
}

/// What the surrounding program observed from the engine call it made.
#[derive(Debug, Clone, Copy, PartialEq, Eq, Structural)]
pub enum EngineEvent {
    ContextLoaded,
    ContextFailed,
    SessionCreated,
    SessionFailed,
    RunCompleted,
    RunFailed,
    SegmentCount(i32),
    CountFailed,
}

/// The engine lifecycle's transition function: a failed load is
/// `ModelLoadError`, a failed session creation is `SessionError`, and a
/// failed run or a failed segment count is `InferenceError` — each fatal
/// for the request. An event that does not belong to the current state
/// changes nothing.
pub open spec fn spec_engine_step(s: EngineState, e: EngineEvent) -> EngineState {
    match (s, e) {
        (EngineState::LoadContext, EngineEvent::ContextLoaded) => EngineState::CreateSession,
        (EngineState::LoadContext, EngineEvent::ContextFailed) => EngineState::Failed(
            TranscribeError::ModelLoadError,
        ),
        (EngineState::CreateSession, EngineEvent::SessionCreated) => EngineState::RunInference,
        (EngineState::CreateSession, EngineEvent::SessionFailed) => EngineState::Failed(
            TranscribeError::SessionError,
        ),
        (EngineState::RunInference, EngineEvent::RunCompleted) => EngineState::CountSegments,
        (EngineState::RunInference, EngineEvent::RunFailed) => EngineState::Failed(
            TranscribeError::InferenceError,
        ),
        (EngineState::CountSegments, EngineEvent::SegmentCount(n)) => EngineState::Collect(n),
        (EngineState::CountSegments, EngineEvent::CountFailed) => EngineState::Failed(
            TranscribeError::InferenceError,
        ),
        (s2, _) => s2,
    }
}

/// Advances the engine lifecycle by one observed event.
pub fn engine_step(s: EngineState, e: EngineEvent) -> (r: EngineState)
    ensures
        r == spec_engine_step(s, e),
{
    match (s, e) {
        (EngineState::LoadContext, EngineEvent::ContextLoaded) => EngineState::CreateSession,
        (EngineState::LoadContext, EngineEvent::ContextFailed) => EngineState::Failed(
            TranscribeError::ModelLoadError,
        ),
        (EngineState::CreateSession, EngineEvent::SessionCreated) => EngineState::RunInference,
        (EngineState::CreateSession, EngineEvent::SessionFailed) => EngineState::Failed(
            TranscribeError::SessionError,
        ),
        (EngineState::RunInference, EngineEvent::RunCompleted) => EngineState::CountSegments,
        (EngineState::RunInference, EngineEvent::RunFailed) => EngineState::Failed(
            TranscribeError::InferenceError,
        ),
        (EngineState::CountSegments, EngineEvent::SegmentCount(n)) => EngineState::Collect(n),
        (EngineState::CountSegments, EngineEvent::CountFailed) => EngineState::Failed(
            TranscribeError::InferenceError,
        ),
        (s2, _) => s2,
    }
}

} // verus!
