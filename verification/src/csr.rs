//! Building a signed certification request for a list of domains, and its
//! serialization to DER. The request pipeline is linear: validate the
//! domains, set up the engine's builder, attach one subject-alternative-name
//! extension, sign, and record the canonical DER bytes.

use vstd::prelude::*;
use vstd::string::StringExecFnsIsAscii;
use vstd::utf8::is_ascii_chars;
use crate::engine;
use crate::engine::{EngineFault, MAX_SAN_LEN};
use crate::keys::KeyPair;
use crate::san::{ascii_domain_list, domain_views, lemma_domain_views_index, san_join, san_value};

verus! {

/// Why building or serializing a certification request failed.
#[derive(Clone, Copy, PartialEq, Eq, Debug, Structural)]
pub enum CsrError {
    /// The domain list was empty, or one of its domains was the empty string.
    InvalidInput,
    /// The engine could not set up the request builder. This engine sets
    /// the builder up while binding the key, so no failure is reported
    /// under this error alone.
    BuilderInit,
    /// The public key could not be bound into the request.
    KeyBinding,
    /// The subject-alternative-name extension could not be built; a domain
    /// with a character outside the ASCII range, or one too long for the
    /// engine's DER length cap, is such a cause.
    ExtensionBuild,
    /// Signing the request failed.
    Signing,
    /// The signed request could not be encoded to DER.
    Encoding,
}

/// No domain in the list is the empty string.
pub open spec fn no_empty_domain(ds: Seq<Seq<char>>) -> bool {
    forall|i: int| 0 <= i < ds.len() ==> ds[i].len() > 0
}

/// An acceptable domain list: at least one domain, none empty.
pub open spec fn valid_domain_list(ds: Seq<Seq<char>>) -> bool {
    &&& ds.len() > 0
    &&& no_empty_domain(ds)
}

/// A signed certification request. A value of this type exists only signed:
/// it records the engine's request object, the canonical DER bytes the
/// engine serialized it to when it was signed, and the domains it was built
/// for.
pub struct Csr {
    req: x509_cert::request::CertReq,
    der: Vec<u8>,
    domains: Vec<String>,
    san: String,
}

impl Csr {
    /// The domains the request was built for, in order.
    pub closed spec fn spec_domains(&self) -> Seq<Seq<char>> {
        domain_views(self.domains@)
    }

    /// The joined subject-alternative-name value.
    pub closed spec fn spec_san(&self) -> Seq<char> {
        self.san@
    }

    /// The DER bytes of the signed request.
    pub closed spec fn spec_der(&self) -> Seq<u8> {
        self.der@
    }

    /// A well-formed signed request: built for at least one domain, none
    /// empty; the subject-alternative-name value is exactly the joined
    /// `DNS:`-tagged entries in order; and the DER bytes are non-empty and
    /// open with the tag of an ASN.1 SEQUENCE.
    pub open spec fn wf(&self) -> bool {
        &&& valid_domain_list(self.spec_domains())
        &&& self.spec_san() == san_join(self.spec_domains())
        &&& self.spec_der().len() > 0
        &&& self.spec_der()[0] == 0x30u8
    }

    /// The domains the request was built for, in order.
    pub fn domains(&self) -> (r: &Vec<String>)
        ensures
            domain_views(r@) == self.spec_domains(),
    {
        &self.domains
    }

    /// The joined subject-alternative-name value of the request.
    pub fn san(&self) -> (r: &String)
        ensures
            r@ == self.spec_san(),
    {
        &self.san
    }
}

/// True when every string in the list is non-empty.
fn all_non_empty(domains: &Vec<String>) -> (r: bool)
    ensures
        r == no_empty_domain(domain_views(domains@)),
{
    let mut i: usize = 0;
    while i < domains.len()
        invariant
            i <= domains@.len(),
            forall|j: int| 0 <= j < i ==> #[trigger] domains@[j]@.len() > 0,
        decreases domains@.len() - i,
    {
        if domains[i].as_str().is_empty() {
            assert(domain_views(domains@)[i as int].len() == 0);
            return false;
        }
        i = i + 1;
    }
    assert forall|i: int| 0 <= i < domain_views(domains@).len()
        implies #[trigger] domain_views(domains@)[i].len() > 0 by {
        assert(domains@[i]@.len() > 0);
    }
    true
}

/// True when every string in the list is wholly ASCII.
fn all_ascii(domains: &Vec<String>) -> (r: bool)
    ensures
        r == ascii_domain_list(domain_views(domains@)),
{
    let mut i: usize = 0;
    while i < domains.len()
        invariant
            i <= domains@.len(),
            forall|j: int| 0 <= j < i ==> is_ascii_chars(#[trigger] domains@[j]@),
        decreases domains@.len() - i,
    {
        if !domains[i].is_ascii() {
            assert(!is_ascii_chars(domain_views(domains@)[i as int]));
            return false;
        }
        i = i + 1;
    }
    assert forall|i: int| 0 <= i < domain_views(domains@).len()
        implies is_ascii_chars(#[trigger] domain_views(domains@)[i]) by {
        assert(is_ascii_chars(domains@[i]@));
    }
    true
}

/// Clones a list of domain strings, character for character.
fn clone_domains(domains: &Vec<String>) -> (r: Vec<String>)
    ensures
        domain_views(r@) == domain_views(domains@),
{
    let mut r: Vec<String> = Vec::new();
    let mut i: usize = 0;
    while i < domains.len()
        invariant
            i <= domains@.len(),
            r@.len() == i,
            forall|j: int| 0 <= j < i ==> r@[j]@ == domains@[j]@,
        decreases domains@.len() - i,
    {
        r.push(domains[i].clone());
        i = i + 1;
    }
    proof {
        assert(domain_views(r@) =~= domain_views(domains@));
    }
    r
}

/// Builds a signed certification request for `domains` with `key`: an empty
/// subject, one subject-alternative-name extension carrying each domain as
/// a `DNS:` entry in order, signed with the pair's private key under
/// deterministic ECDSA over SHA-384, the digest this engine pairs with
/// P-384.
///
/// The domain list must be non-empty with no empty domain; such input is
/// rejected as `InvalidInput`, and a domain outside the ASCII range as
/// `ExtensionBuild`, before the engine is touched. For acceptable ASCII
/// input whose joined subject-alternative-name value stays within
/// `MAX_SAN_LEN`, the call succeeds; on other input, a fault the engine
/// reports surfaces as the error of the step that failed.
pub fn create_csr(key: &KeyPair, domains: &Vec<String>) -> (r: Result<Csr, CsrError>)
    ensures
        r == Err::<Csr, CsrError>(CsrError::InvalidInput) <==> !valid_domain_list(
            domain_views(domains@),
        ),
        valid_domain_list(domain_views(domains@)) && !ascii_domain_list(domain_views(domains@))
            ==> r == Err::<Csr, CsrError>(CsrError::ExtensionBuild),
        valid_domain_list(domain_views(domains@)) && ascii_domain_list(domain_views(domains@))
            && san_join(domain_views(domains@)).len() <= MAX_SAN_LEN ==> r is Ok,
        r matches Ok(c) ==> {
            &&& c.wf()
            &&& c.spec_domains() == domain_views(domains@)
            &&& c.spec_san() == san_join(domain_views(domains@))
            &&& ascii_domain_list(domain_views(domains@))
        },
{
    proof {
        lemma_domain_views_index(domains@);
    }
    if domains.len() == 0 {
        return Err(CsrError::InvalidInput);
    }
    if !all_non_empty(domains) {
        return Err(CsrError::InvalidInput);
    }
    if !all_ascii(domains) {
        return Err(CsrError::ExtensionBuild);
    }
    let san = san_value(domains);

    let (req, der) = match engine::build_signed_csr(&key.signing, domains) {
        Ok(p) => p,
        Err(EngineFault::KeyBinding) => return Err(CsrError::KeyBinding),
        Err(EngineFault::Extension) => return Err(CsrError::ExtensionBuild),
        Err(EngineFault::Signing) => return Err(CsrError::Signing),
        Err(EngineFault::Encoding) => return Err(CsrError::Encoding),
    };

    Ok(Csr { req, der, domains: clone_domains(domains), san })
}

/// The DER serialization of the signed request: the byte sequence the
/// engine's canonical encoder produced when the request was signed, returned
/// verbatim. Byte-identical on every call on the same request.
pub fn serialize_to_der(csr: &Csr) -> (r: Vec<u8>)
    ensures
        r@ == csr.spec_der(),
{
    let mut r: Vec<u8> = Vec::new();
    let mut i: usize = 0;
    while i < csr.der.len()
        invariant
            i <= csr.der@.len(),
            r@ == csr.der@.take(i as int),
        decreases csr.der@.len() - i,
    {
        r.push(csr.der[i]);
        proof {
            assert(csr.der@.take(i as int).push(csr.der@[i as int]) =~= csr.der@.take(
                i as int + 1,
            ));
        }
        i = i + 1;
    }
    proof {
        assert(csr.der@.take(csr.der@.len() as int) =~= csr.der@);
    }
    r
}

/// Serialization is deterministic: any two serializations of the same signed
/// request are byte-identical.
pub proof fn lemma_serialize_deterministic(csr: &Csr, a: Seq<u8>, b: Seq<u8>)
    requires
        a == csr.spec_der(),
        b == csr.spec_der(),
    ensures
        a == b,
{
}

/// A request built for a single domain that itself holds no comma has a
/// subject-alternative-name value with no comma.
pub proof fn lemma_csr_single_domain_no_comma(c: &Csr)
    requires
        c.wf(),
        c.spec_domains().len() == 1,
        forall|i: int| 0 <= i < c.spec_domains()[0].len() ==> c.spec_domains()[0][i] != ',',
    ensures
        forall|i: int| 0 <= i < c.spec_san().len() ==> c.spec_san()[i] != ',',
{
    crate::san::lemma_single_domain_no_comma(c.spec_domains());
}

/// True when the two byte vectors hold the same bytes in the same order.
pub fn bytes_equal(a: &Vec<u8>, b: &Vec<u8>) -> (r: bool)
    ensures
        r == (a@ == b@),
{
    if a.len() != b.len() {
        proof {
            assert(a@.len() != b@.len());
        }
        return false;
    }
    let mut i: usize = 0;
    while i < a.len()
        invariant
            i <= a@.len(),
            a@.len() == b@.len(),
            forall|j: int| 0 <= j < i ==> a@[j] == b@[j],
        decreases a@.len() - i,
    {
        if a[i] != b[i] {
            return false;
        }
        i = i + 1;
    }
    proof {
        assert(a@ =~= b@);
    }
    true
}

/// Whether the signature held in the signed request verifies, under the
/// engine's P-384 ECDSA verifier, against the given key pair's public key
/// over the signed portion of the request. The outcome is the engine's; the
/// library promises nothing of it.
pub fn csr_signature_valid(csr: &Csr, key: &KeyPair) -> bool {
    let message = match engine::request_info_der(&csr.req) {
        Ok(m) => m,
        Err(_) => return false,
    };
    let sig_bytes = match engine::request_signature_bytes(&csr.req) {
        Ok(b) => b,
        Err(_) => return false,
    };
    let sig = match engine::signature_from_der(&sig_bytes) {
        Ok(s) => s,
        Err(_) => return false,
    };
    let vk = engine::verifying_key_of(&key.signing);
    engine::verify_signature(&vk, &message, &sig)
}

/// Parses DER bytes through the engine's parser and re-encodes the result:
/// true when the bytes parse as a certification request and the re-encoding
/// is byte-identical to the input. The outcome is the engine's; the library
/// promises nothing of it.
pub fn der_round_trips(bytes: &Vec<u8>) -> bool {
    let req = match engine::request_from_der(bytes) {
        Ok(r) => r,
        Err(_) => return false,
    };
    let again = match engine::request_to_der(&req) {
        Ok(b) => b,
        Err(_) => return false,
    };
    bytes_equal(bytes, &again)
}

} // verus!
