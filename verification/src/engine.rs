//! The boundary to the outside cryptographic engine: the elliptic-curve
//! keys, the certification-request builder, and the DER codec all live in
//! outside crates, and the calls into them stand behind the trusted items
//! here. The request pipeline stands behind one wrapper, so that its
//! promise of success can be stated over the plain domain list; every other
//! wrapper holds one call. The contracts state no more than the outside
//! source shows.

use vstd::prelude::*;
use der::{Decode, Encode};
use x509_cert::builder::Builder;
use crate::san::{ascii_domain_list, domain_views, san_join};

verus! {

/// The longest joined subject-alternative-name value (in characters) for
/// which the engine is promised to succeed: 16 MiB, far under der's length
/// cap of 0x0FFF_FFFF bytes even after encoding overhead.
pub const MAX_SAN_LEN: usize = 0x0100_0000;

#[verifier::external_type_specification]
#[verifier::external_body]
pub struct ExCertReq(x509_cert::request::CertReq);

/// Holds the engine's P-384 signing key. The ecdsa key and signature types
/// cannot be declared to the verifier (their trait bounds defeat the
/// declaration), so each rides in an opaque holder instead.
#[verifier::external_body]
pub struct EngineKey {
    key: p384::ecdsa::SigningKey,
}

/// Holds the public half of an engine key pair; opaque for the same reason
/// as the signing key.
#[verifier::external_body]
pub struct EngineVerifyingKey {
    key: p384::ecdsa::VerifyingKey,
}

/// Holds a parsed ECDSA signature of the engine; opaque for the same reason
/// as the keys.
#[verifier::external_body]
pub struct EngineSignature {
    sig: p384::ecdsa::Signature,
}

/// The step of the engine's request pipeline at which a fault arose:
/// binding the public key, building the extension, signing, or encoding
/// the signed request.
#[derive(Clone, Copy, PartialEq, Eq, Debug, Structural)]
pub enum EngineFault {
    KeyBinding,
    Extension,
    Signing,
    Encoding,
}

/// Relies on ecdsa::SigningKey::random, drawing from the operating system's
/// randomness source: a fresh P-384 signing key. Nothing is assumed of the
/// value drawn.
#[verifier::external_body]
pub(crate) fn generate_signing_key() -> EngineKey {
    EngineKey { key: p384::ecdsa::SigningKey::random(&mut rand_core::OsRng) }
}

/// Relies on the engine's whole request pipeline, one step per fault tag:
/// x509_cert's RequestBuilder::new, which binds the signer's public key into
/// a request with an empty subject; der's Ia5String::new, which accepts
/// exactly the ASCII strings within der's length cap of 0x0FFF_FFFF bytes;
/// RequestBuilder::add_extension, which records one subject-alternative-name
/// extension holding the domains as DNS entries in order; Builder::build,
/// which signs the request information with deterministic P-384 ECDSA over
/// SHA-384 (RFC 6979); and Encode::to_der, whose canonical bytes open with
/// the ASN.1 SEQUENCE tag.
///
/// Success is promised for ASCII domains whose joined value stays within
/// `MAX_SAN_LEN`: each entry and the encoded extension and request then
/// stay far below der's length cap (the encoding adds at most a few bytes
/// per entry and a fixed-size header, key and signature); binding the
/// fixed-size P-384 public key cannot overflow it; and the RFC 6979 nonce
/// is drawn from 1 to n-1, so signing yields nonzero signature scalars for
/// every input that arises here.
#[verifier::external_body]
pub(crate) fn build_signed_csr(key: &EngineKey, domains: &Vec<String>) -> (r: Result<
    (x509_cert::request::CertReq, Vec<u8>),
    EngineFault,
>)
    ensures
        ascii_domain_list(domain_views(domains@)) && san_join(domain_views(domains@)).len()
            <= MAX_SAN_LEN ==> r is Ok,
        r matches Ok(p) ==> p.1@.len() > 0 && p.1@[0] == 0x30,
{
    let mut names = Vec::new();
    for d in domains.iter() {
        let s = der::asn1::Ia5String::new(d).map_err(|_| EngineFault::Extension)?;
        names.push(x509_cert::ext::pkix::name::GeneralName::DnsName(s));
    }
    let subject = x509_cert::name::Name::default();
    let mut builder = x509_cert::builder::RequestBuilder::new(subject, &key.key)
        .map_err(|_| EngineFault::KeyBinding)?;
    builder.add_extension(&x509_cert::ext::pkix::SubjectAltName(names))
        .map_err(|_| EngineFault::Extension)?;
    let req = builder.build::<p384::ecdsa::DerSignature>().map_err(|_| EngineFault::Signing)?;
    let bytes = req.to_der().map_err(|_| EngineFault::Encoding)?;
    Ok((req, bytes))
}

/// Relies on der's Encode::to_der for CertReq: the canonical DER bytes of the
/// signed request.
#[verifier::external_body]
pub(crate) fn request_to_der(req: &x509_cert::request::CertReq) -> Result<Vec<u8>, EngineFault> {
    req.to_der().map_err(|_| EngineFault::Encoding)
}

/// Relies on der's Decode::from_der for CertReq: parses DER bytes back into
/// a certification request, rejecting bytes that are not a valid encoding.
#[verifier::external_body]
pub(crate) fn request_from_der(
    bytes: &Vec<u8>,
) -> Result<x509_cert::request::CertReq, EngineFault> {
    x509_cert::request::CertReq::from_der(bytes.as_slice()).map_err(|_| EngineFault::Encoding)
}

/// Relies on der's Encode::to_der for CertReqInfo: the DER bytes of the
/// signed portion of the request, the message the signature covers.
#[verifier::external_body]
pub(crate) fn request_info_der(req: &x509_cert::request::CertReq) -> Result<Vec<u8>, EngineFault> {
    req.info.to_der().map_err(|_| EngineFault::Encoding)
}

/// Relies on der's BitString::as_bytes: the raw bytes of the signature held
/// in the request, present when the bit string is byte-aligned.
#[verifier::external_body]
pub(crate) fn request_signature_bytes(
    req: &x509_cert::request::CertReq,
) -> Result<Vec<u8>, EngineFault> {
    match req.signature.as_bytes() {
        Some(b) => Ok(b.to_vec()),
        None => Err(EngineFault::Encoding),
    }
}

/// Relies on ecdsa::Signature::from_der: parses a DER-encoded ECDSA
/// signature, rejecting bytes that are not one.
#[verifier::external_body]
pub(crate) fn signature_from_der(
    bytes: &Vec<u8>,
) -> Result<EngineSignature, EngineFault> {
    match p384::ecdsa::Signature::from_der(bytes.as_slice()) {
        Ok(sig) => Ok(EngineSignature { sig }),
        Err(_) => Err(EngineFault::Encoding),
    }
}

/// Relies on ecdsa::SigningKey::verifying_key: the public half of the pair.
#[verifier::external_body]
pub(crate) fn verifying_key_of(key: &EngineKey) -> EngineVerifyingKey {
    EngineVerifyingKey { key: key.key.verifying_key().clone() }
}

/// Relies on the signature::Verifier impl for ecdsa::VerifyingKey: whether
/// the signature verifies over the message under P-384 ECDSA with SHA-384.
#[verifier::external_body]
pub(crate) fn verify_signature(
    key: &EngineVerifyingKey,
    message: &Vec<u8>,
    signature: &EngineSignature,
) -> bool {
    ecdsa::signature::Verifier::verify(&key.key, message.as_slice(), &signature.sig).is_ok()
}

} // verus!
