use vstd::prelude::*;
use vstd::string::StringExecFns;

use crate::encode::{CertBundle, armor_encode, cert_armor_headers, cert_bundle_from_key,
    encrypted_packet_key, plain_packet_key, sign_direct_key};
use crate::errors::PipelineError;
use crate::keys::{Candidate, SecretKey, fresh_candidate};
use crate::pattern::{Pattern, regex_matches};

verus! {

/// The run's immutable configuration, constructed once upstream: the
/// compiled fingerprint pattern, whether the status display runs, an
/// optional positive match quota, and an optional passphrase for the
/// emitted secret material.
pub struct Config {
    pub regex: Pattern,
    pub status_enabled: bool,
    pub stop_after: Option<u64>,
    pub password: Option<sequoia_openpgp::crypto::Password>,
}

impl Config {
    /// A configured quota is positive.
    pub open spec fn wf(&self) -> bool {
        self.stop_after matches Some(n) ==> n >= 1
    }
}

/// The outcome of one worker iteration: the candidate that was drawn and
/// the matcher's verdict on its fingerprint.
pub struct Attempt {
    pub candidate: Candidate,
    pub matched: bool,
}

impl Attempt {
    /// The worker's emit rule: the candidate is handed on towards the
    /// finalizer exactly when its fingerprint matched, so the pipeline
    /// delivers every match and nothing else.
    pub fn into_match_record(self) -> (r: Option<Candidate>)
        ensures
            self.matched <==> r is Some,
            r matches Some(c) ==> c == self.candidate,
    {
        if self.matched {
            Some(self.candidate)
        } else {
            None
        }
    }
}

/// The search pipeline's engine: everything the workers, the finalizer
/// and the status reporter decide is a function of this configuration.
pub struct Fingerprunk {
    config: Config,
}

impl Fingerprunk {
    /// The source text of the configured pattern.
    pub closed spec fn spec_pattern(&self) -> Seq<char> {
        self.config.regex@
    }

    /// Whether the status display is enabled.
    pub closed spec fn spec_status_enabled(&self) -> bool {
        self.config.status_enabled
    }

    /// The configured match quota, if any.
    pub closed spec fn spec_stop_after(&self) -> Option<u64> {
        self.config.stop_after
    }

    /// Whether a passphrase is configured.
    pub closed spec fn spec_has_password(&self) -> bool {
        self.config.password is Some
    }

    #[must_use]
    pub fn new_from_config(config: Config) -> (r: Self)
        requires
            config.wf(),
        ensures
            r.spec_pattern() == config.regex@,
            r.spec_status_enabled() == config.status_enabled,
            r.spec_stop_after() == config.stop_after,
            r.spec_has_password() == (config.password is Some),
    {
        Fingerprunk { config }
    }

    /// Whether the status display runs, as configured.
    pub fn status_enabled(&self) -> (b: bool)
        ensures
            b == self.spec_status_enabled(),
    {
        self.config.status_enabled
    }

    /// One worker iteration: request a fresh candidate from the key
    /// provider and test its fingerprint against the configured pattern.
    /// The verdict in the result is exactly the matcher's; the pipeline
    /// adds no false positives or negatives. Any failure is fatal.
    pub fn worker_step(&self) -> (r: Result<Attempt, PipelineError>)
        ensures
            r matches Ok(a) ==> a.candidate.wf() && a.matched == regex_matches(
                self.spec_pattern(),
                a.candidate.fp_hex@,
            ),
    {
        let candidate = fresh_candidate()?;
        let matched = self.check_fingerprint(candidate.fp_hex.as_str())?;
        Ok(Attempt { candidate, matched })
    }

    /// The predicate matcher's verdict on one rendered fingerprint. An
    /// `Err` comes only from the match engine giving up (for example on a
    /// pathological pattern), which is fatal for the run.
    pub fn check_fingerprint(&self, fingerprint_hex: &str) -> (r: Result<bool, PipelineError>)
        ensures
            r matches Ok(b) ==> b == regex_matches(self.spec_pattern(), fingerprint_hex@),
    {
        match self.config.regex.is_match(fingerprint_hex) {
            Ok(b) => Ok(b),
            Err(e) => Err(PipelineError::Matcher(e)),
        }
    }

    /// Builds the certificate for a confirmed match: the key, its
    /// direct-key self-signature, and the secret material encrypted
    /// exactly when a passphrase is configured.
    fn key_to_cert(&self, key: &SecretKey) -> (r: Result<CertBundle, PipelineError>)
        ensures
            r matches Ok(b) ==> b.spec_encrypted() == self.spec_has_password(),
    {
        let sig = match sign_direct_key(key) {
            Ok(s) => s,
            Err(e) => {
                return Err(PipelineError::Encode(e));
            },
        };
        let packet_key = match &self.config.password {
            Some(password) => match encrypted_packet_key(key, password) {
                Ok(k) => k,
                Err(e) => {
                    return Err(PipelineError::Encode(e));
                },
            },
            None => plain_packet_key(key),
        };
        match cert_bundle_from_key(packet_key, sig) {
            Ok(bundle) => Ok(bundle),
            Err(e) => Err(PipelineError::Encode(e)),
        }
    }

    /// Frames the certificate as one self-delimited armored artifact,
    /// carrying the headers `build_armor_headers` fixes: the encoder's
    /// own comments plus one comment naming the originating pattern. The
    /// artifact is never empty.
    fn serialize_cert(&self, cert: CertBundle) -> (r: Result<Vec<u8>, PipelineError>)
        ensures
            r matches Ok(bytes) ==> bytes@.len() > 0,
    {
        let comments = cert_armor_headers(cert.cert());
        let headers = build_armor_headers(&comments, self.config.regex.source_str());
        match armor_encode(cert.cert(), &headers) {
            Ok(bytes) => Ok(bytes),
            Err(e) => Err(PipelineError::Encode(e)),
        }
    }

    /// The finalizer's work for one delivered match: invoke the key
    /// encoder with the configured passphrase and return the bytes of one
    /// complete, self-delimited artifact, never empty. Any failure is
    /// fatal.
    pub fn finalize_match(&self, record: &Candidate) -> (r: Result<Vec<u8>, PipelineError>)
        ensures
            r matches Ok(bytes) ==> bytes@.len() > 0,
    {
        let cert = self.key_to_cert(&record.key)?;
        self.serialize_cert(cert)
    }

    /// The finalizer's quota rule: after writing an artifact brings the
    /// found-count to `found`, the run stops exactly when that count has
    /// reached a configured quota.
    pub fn should_stop_after(&self, found: u64) -> (r: bool)
        ensures
            r == (self.spec_stop_after() == Some(found)),
    {
        match &self.config.stop_after {
            Some(n) => found == *n,
            None => false,
        }
    }
}

/// Builds the armor header list for one artifact: every entry is a
/// "Comment" header; the encoder's own comments come first, in order,
/// followed by one comment naming the originating pattern.
pub fn build_armor_headers(comments: &Vec<String>, pattern_source: &str) -> (r: Vec<
    (String, String),
>)
    ensures
        r@.len() == comments@.len() + 1,
        forall|j: int| 0 <= j < r@.len() ==> (#[trigger] r@[j]).0@ == "Comment"@,
        forall|j: int| 0 <= j < comments@.len() ==> (#[trigger] r@[j]).1@ == comments@[j]@,
        r@.last().1@ == "Generated with Fingerprunk. Regex: "@ + pattern_source@,
{
    let mut headers: Vec<(String, String)> = Vec::new();
    let mut i: usize = 0;
    while i < comments.len()
        invariant
            i <= comments@.len(),
            headers@.len() == i,
            forall|j: int| 0 <= j < i ==> (#[trigger] headers@[j]).0@ == "Comment"@,
            forall|j: int| 0 <= j < i ==> (#[trigger] headers@[j]).1@ == comments@[j]@,
        decreases comments@.len() - i,
    {
        headers.push((String::from_str("Comment"), String::from_str(comments[i].as_str())));
        i = i + 1;
    }
    let mut note = String::from_str("Generated with Fingerprunk. Regex: ");
    note.append(pattern_source);
    headers.push((String::from_str("Comment"), note));
    headers
}

impl From<Config> for Fingerprunk {
    fn from(config: Config) -> (r: Fingerprunk)
        ensures
            r.spec_pattern() == config.regex@,
            r.spec_status_enabled() == config.status_enabled,
            r.spec_stop_after() == config.stop_after,
            r.spec_has_password() == (config.password is Some),
    {
        Fingerprunk { config }
    }
}

impl vstd::std_specs::convert::FromSpecImpl<Config> for Fingerprunk {
    open spec fn obeys_from_spec() -> bool {
        true
    }

    closed spec fn from_spec(config: Config) -> Fingerprunk {
        Fingerprunk { config }
    }
}

} // verus!
