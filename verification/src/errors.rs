use vstd::prelude::*;

verus! {

/// `anyhow::Error` is the error type of every sequoia-openpgp call the
/// pipeline makes; it is carried through unchanged.
#[verifier::external_type_specification]
#[verifier::external_body]
pub struct ExAnyhowError(anyhow::Error);

/// A fatal pipeline failure. Every variant is unrecoverable by design: the
/// run aborts, and no operation is retried.
pub enum PipelineError {
    /// The key provider failed to draw a fresh key.
    Generate(anyhow::Error),
    /// The predicate matcher failed while testing a fingerprint.
    Matcher(fancy_regex::Error),
    /// The key encoder failed to build or frame an artifact.
    Encode(anyhow::Error),
}

impl PipelineError {
    /// A short, fixed description of the failure, for diagnostics.
    pub fn describe(&self) -> (r: &'static str)
        ensures
            self is Generate ==> r@ == "key generation failed"@,
            self is Matcher ==> r@ == "fingerprint matching failed"@,
            self is Encode ==> r@ == "artifact encoding failed"@,
    {
        match self {
            PipelineError::Generate(_) => "key generation failed",
            PipelineError::Matcher(_) => "fingerprint matching failed",
            PipelineError::Encode(_) => "artifact encoding failed",
        }
    }
}

} // verus!
