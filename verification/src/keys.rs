use vstd::prelude::*;

use crate::errors::PipelineError;

verus! {

/// A freshly generated primary key with its secret material. The
/// sequoia-openpgp key inside is opaque to the pipeline, which never looks
/// at anything but its fingerprint; the generic bounds of
/// `sequoia_openpgp::packet::Key` keep the type itself from being declared
/// to the verifier, so the whole struct is held opaque instead.
#[verifier::external_body]
pub struct SecretKey {
    pub(crate) inner: sequoia_openpgp::packet::Key<
        sequoia_openpgp::packet::key::SecretParts,
        sequoia_openpgp::packet::key::PrimaryRole,
    >,
}

/// An uppercase hexadecimal digit.
pub open spec fn is_upper_hex_digit(c: char) -> bool {
    (48 <= c as u32 && c as u32 <= 57) || (65 <= c as u32 && c as u32 <= 70)
}

/// A fingerprint rendered canonically: uppercase hexadecimal, no
/// separators, two digits per fingerprint byte (40 digits for a v4
/// fingerprint, 64 for a v6 one).
pub open spec fn is_fingerprint_hex(s: Seq<char>) -> bool {
    &&& (s.len() == 40 || s.len() == 64)
    &&& forall|i: int| 0 <= i < s.len() ==> is_upper_hex_digit(#[trigger] s[i])
}

/// Relies on sequoia-openpgp's `Key4::generate_ecc`: draws a fresh
/// Ed25519 signing key. The result is random, so nothing is promised of
/// it; failure means the crypto backend is exhausted or broken.
#[verifier::external_body]
fn generate_signing_key() -> (r: Result<SecretKey, anyhow::Error>)
{
    let key = sequoia_openpgp::packet::key::Key4::generate_ecc(
        true,
        sequoia_openpgp::types::Curve::Ed25519,
    )?;
    Ok(SecretKey { inner: sequoia_openpgp::packet::Key::V4(key) })
}

/// Relies on sequoia-openpgp's `Key::fingerprint` and the `UpperHex`
/// rendering of `Fingerprint`: two uppercase hexadecimal digits per
/// fingerprint byte, no separators; a v4 fingerprint has 20 bytes, a v6
/// one 32.
#[verifier::external_body]
fn fingerprint_hex(key: &SecretKey) -> (r: String)
    ensures
        is_fingerprint_hex(r@),
{
    format!("{:X}", key.inner.fingerprint())
}

/// A candidate: opaque key material plus its fingerprint rendered as
/// canonical uppercase hexadecimal, not yet known to match the pattern.
pub struct Candidate {
    pub key: SecretKey,
    pub fp_hex: String,
}

impl Candidate {
    /// The fingerprint text is in canonical form.
    pub open spec fn wf(&self) -> bool {
        is_fingerprint_hex(self.fp_hex@)
    }
}

/// Requests one fresh candidate from the key provider and renders its
/// fingerprint. Fails only on provider failure, which is fatal.
pub fn fresh_candidate() -> (r: Result<Candidate, PipelineError>)
    ensures
        r matches Ok(c) ==> c.wf(),
{
    match generate_signing_key() {
        Ok(key) => {
            let fp_hex = fingerprint_hex(&key);
            Ok(Candidate { key, fp_hex })
        },
        Err(e) => Err(PipelineError::Generate(e)),
    }
}

} // verus!
