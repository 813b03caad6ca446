use vstd::prelude::*;

verus! {

/// The pipeline stage an error is tagged with.
#[derive(Clone, Copy, PartialEq, Eq, Structural, Debug)]
pub enum PipelineStage {
    Optimize,
    Fetch,
    Normalize,
    Render,
    Send,
}

/// A failure of one topic's run, carrying the stage it arose at so the
/// orchestrator can branch on error kind instead of on error text.
#[derive(Debug)]
pub enum PipelineError {
    /// Network, parse or non-success-status failure from an external
    /// collaborator at the given stage.
    UpstreamError { stage: PipelineStage, cause: String },
    /// A well-formed but contentless response at the given stage; tolerated
    /// at the fetch stage, where it contributes an empty result.
    EmptyResultError { stage: PipelineStage },
    /// Missing required configuration; fatal at startup, not per-run.
    ConfigError,
    /// Reserved for a per-topic timeout and cancellation extension.
    Timeout { stage: PipelineStage },
}

impl Clone for PipelineError {
    fn clone(&self) -> (res: Self)
        ensures
            res == *self,
    {
        match self {
            PipelineError::UpstreamError { stage, cause } => PipelineError::UpstreamError {
                stage: *stage,
                cause: cause.clone(),
            },
            PipelineError::EmptyResultError { stage } => PipelineError::EmptyResultError {
                stage: *stage,
            },
            PipelineError::ConfigError => PipelineError::ConfigError,
            PipelineError::Timeout { stage } => PipelineError::Timeout { stage: *stage },
        }
    }
}

} // verus!
