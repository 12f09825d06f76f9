//! Error taxonomy of the pipeline.

use vstd::prelude::*;

verus! {

/// Everything that can stop a request or a bank construction.
///
/// `InsufficientData` is the terminal input error for curves shorter than
/// five observations. `ConfigurationError` marks a bank whose value
/// transformer does not fit the evaluator it wraps; it can only arise while
/// configuration is built, never per request. `EvaluationError` carries the
/// cause reported when an evaluator cannot produce a result for an
/// otherwise valid series.
///
/// A zero or degenerate measurement error is deliberately not an error of
/// its own: the weight it yields is non-finite and propagates into the
/// downstream statistics unchanged. That propagation policy is uniform
/// across all versions.
#[derive(Debug)]
pub enum PipelineError {
    InsufficientData,
    ConfigurationError,
    EvaluationError(String),
}

impl PipelineError {
    /// The user-facing message for this error, as the service reports it
    /// with an HTTP 400 status.
    pub fn message(&self) -> (r: String)
        ensures
            self is InsufficientData ==> r@
                == "Bad request: Light curve must have at least five observations"@,
            self matches PipelineError::EvaluationError(cause) ==> r@ == "Bad request: "@ + cause@,
            self is ConfigurationError ==> r@ == "Feature bank misconfigured"@,
    {
        match self {
            PipelineError::InsufficientData => String::from_str(
                "Bad request: Light curve must have at least five observations",
            ),
            PipelineError::EvaluationError(cause) => String::from_str("Bad request: ").concat(
                cause.as_str(),
            ),
            PipelineError::ConfigurationError => String::from_str("Feature bank misconfigured"),
        }
    }
}

} // verus!
