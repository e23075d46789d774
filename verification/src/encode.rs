use vstd::prelude::*;

use sequoia_openpgp::serialize::Serialize;
use sequoia_openpgp::types::{HashAlgorithm, SignatureType, SymmetricAlgorithm};

use crate::keys::SecretKey;

verus! {

/// `sequoia_openpgp::crypto::Password` holds the optional passphrase that
/// encrypts emitted secret material; the pipeline only passes it through.
#[verifier::external_type_specification]
#[verifier::external_body]
pub struct ExPassword(sequoia_openpgp::crypto::Password);

/// `sequoia_openpgp::Cert` is the assembled certificate; opaque here, it
/// only travels from assembly to serialization.
#[verifier::external_type_specification]
#[verifier::external_body]
pub struct ExCert(sequoia_openpgp::Cert);

/// `sequoia_openpgp::packet::Signature` is the direct-key self-signature
/// bound into the certificate; opaque here.
#[verifier::external_type_specification]
#[verifier::external_body]
pub struct ExSignature(sequoia_openpgp::packet::Signature);

/// Relies on sequoia-openpgp's `SignatureBuilder` and `sign_direct_key`:
/// builds the direct-key self-signature over the key (hashed with
/// SHA-512, preferring SHA-512/SHA-256 and AES-256/AES-128), signed with
/// the key itself.
#[verifier::external_body]
pub(crate) fn sign_direct_key(key: &SecretKey) -> (r: Result<
    sequoia_openpgp::packet::Signature,
    anyhow::Error,
>)
{
    let builder = sequoia_openpgp::packet::signature::SignatureBuilder::new(
        SignatureType::DirectKey,
    ).set_hash_algo(HashAlgorithm::SHA512)
        .set_preferred_hash_algorithms(vec![HashAlgorithm::SHA512, HashAlgorithm::SHA256])?
        .set_preferred_symmetric_algorithms(vec![
            SymmetricAlgorithm::AES256,
            SymmetricAlgorithm::AES128,
        ])?;
    let mut signer = key.inner.clone().into_keypair()?;
    Ok(builder.sign_direct_key(&mut signer, key.inner.parts_as_public())?)
}

/// The packet key that goes into the certificate, together with a ghost
/// record of whether its secret material was encrypted under a
/// passphrase. The fields are private, so a value can only come from the
/// two constructors below: the record cannot be forged elsewhere.
pub struct PacketKey {
    key: SecretKey,
    encrypted: Ghost<bool>,
}

impl PacketKey {
    /// Whether this key's secret material is encrypted.
    pub closed spec fn spec_encrypted(&self) -> bool {
        self.encrypted@
    }
}

/// Relies on sequoia-openpgp's `take_secret`, `encrypt_in_place` and
/// `add_secret`: re-keys the key's secret material under `password`. The
/// transform is salted, so nothing is promised of the bytes themselves.
#[verifier::external_body]
fn encrypt_secret_material(key: &SecretKey, password: &sequoia_openpgp::crypto::Password) -> (r:
    Result<SecretKey, anyhow::Error>)
{
    let (k, mut secret) = key.inner.clone().take_secret();
    secret.encrypt_in_place(&k, password)?;
    Ok(SecretKey { inner: k.add_secret(secret).0 })
}

/// Relies on `Clone` for sequoia-openpgp keys: hands back a copy of the
/// key material.
#[verifier::external_body]
fn clone_key(key: &SecretKey) -> SecretKey {
    SecretKey { inner: key.inner.clone() }
}

/// Encrypts the key's secret material under `password` and records the
/// fact: on success the packet key is marked encrypted.
pub(crate) fn encrypted_packet_key(
    key: &SecretKey,
    password: &sequoia_openpgp::crypto::Password,
) -> (r: Result<PacketKey, anyhow::Error>)
    ensures
        r matches Ok(k) ==> k.spec_encrypted(),
{
    match encrypt_secret_material(key, password) {
        Ok(k) => Ok(PacketKey { key: k, encrypted: Ghost(true) }),
        Err(e) => Err(e),
    }
}

/// Copies the key with its secret material as generated — unencrypted —
/// and records the fact. (Every key this crate holds comes from the
/// generator, which produces unencrypted secret material.)
pub(crate) fn plain_packet_key(key: &SecretKey) -> (r: PacketKey)
    ensures
        !r.spec_encrypted(),
{
    PacketKey { key: clone_key(key), encrypted: Ghost(false) }
}

/// The assembled certificate, carrying the packet key's encryption
/// record through. The ghost field is private, so the record still
/// cannot be forged outside this module.
pub struct CertBundle {
    pub(crate) cert: sequoia_openpgp::Cert,
    encrypted: Ghost<bool>,
}

impl CertBundle {
    /// Whether the certificate's secret material is encrypted.
    pub closed spec fn spec_encrypted(&self) -> bool {
        self.encrypted@
    }

    /// The assembled certificate itself.
    pub(crate) fn cert(&self) -> &sequoia_openpgp::Cert {
        &self.cert
    }
}

/// Relies on `Cert::try_from`: assembles a certificate from the
/// secret-key packet and its direct-key signature, storing the packet
/// key as given.
#[verifier::external_body]
fn cert_from_key(key: SecretKey, sig: sequoia_openpgp::packet::Signature) -> (r: Result<
    sequoia_openpgp::Cert,
    anyhow::Error,
>)
{
    sequoia_openpgp::Cert::try_from(vec![
        sequoia_openpgp::Packet::SecretKey(key.inner),
        sequoia_openpgp::Packet::from(sig),
    ])
}

/// Assembles the certificate from the packet key and its direct-key
/// signature; the certificate's secret material is encrypted exactly when
/// the packet key's was.
pub(crate) fn cert_bundle_from_key(key: PacketKey, sig: sequoia_openpgp::packet::Signature) -> (r:
    Result<CertBundle, anyhow::Error>)
    ensures
        r matches Ok(b) ==> b.spec_encrypted() == key.spec_encrypted(),
{
    let encrypted = key.encrypted;
    match cert_from_key(key.key, sig) {
        Ok(cert) => Ok(CertBundle { cert, encrypted }),
        Err(e) => Err(e),
    }
}

/// Relies on `Cert::armor_headers`: descriptive comments for the armored
/// output; the certificate's fingerprint always comes first, so the list
/// is never empty.
#[verifier::external_body]
pub(crate) fn cert_armor_headers(cert: &sequoia_openpgp::Cert) -> (r: Vec<String>)
    ensures
        r@.len() >= 1,
{
    cert.armor_headers()
}

/// Relies on sequoia-openpgp's armor writer and `Cert::as_tsk`:
/// serializes the certificate, secret key material included, as an
/// ASCII-armored secret-key block under the RFC 4880 profile, carrying
/// `headers`, and returns the framed bytes, which are never empty.
#[verifier::external_body]
pub(crate) fn armor_encode(cert: &sequoia_openpgp::Cert, headers: &Vec<(String, String)>) -> (r:
    Result<Vec<u8>, anyhow::Error>)
    ensures
        r matches Ok(bytes) ==> bytes@.len() > 0,
{
    let mut writer = sequoia_openpgp::armor::Writer::with_headers(
        Vec::new(),
        sequoia_openpgp::armor::Kind::SecretKey,
        headers.iter().map(|(k, v)| (k.as_str(), v.as_str())),
    )?;
    writer.set_profile(sequoia_openpgp::Profile::RFC4880)?;
    cert.as_tsk().serialize(&mut writer)?;
    Ok(writer.finalize()?)
}

} // verus!
