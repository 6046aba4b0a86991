//! Named elliptic curves and key pairs. The curve and its encoding flag are
//! plain values of this library; the key material itself is held by the
//! outside cryptographic engine.

use vstd::prelude::*;
use crate::engine;

verus! {

/// A named elliptic curve identifier.
#[derive(Clone, Copy, PartialEq, Eq, Debug, Structural)]
pub enum Nid {
    Secp384r1,
}

/// An elliptic-curve group: a named curve together with the flag that asks
/// for the named-curve ASN.1 encoding rather than explicit parameters.
#[derive(Clone, Copy, PartialEq, Eq, Debug, Structural)]
pub struct EcGroup {
    pub curve: Nid,
    pub named_curve_encoding: bool,
}

/// The group for a named curve, with the named-curve encoding flag set:
/// consumers of the DER output require the named-curve form.
pub fn ec_group(nid: Nid) -> (g: EcGroup)
    ensures
        g.curve == nid,
        g.named_curve_encoding,
{
    EcGroup { curve: nid, named_curve_encoding: true }
}

/// An asymmetric key pair over a named elliptic curve. The key material is
/// owned by the outside engine; the curve it was generated on is recorded
/// as a plain value.
pub struct KeyPair {
    pub(crate) signing: engine::EngineKey,
    pub(crate) curve: Nid,
}

impl KeyPair {
    /// The named curve the pair was generated on.
    pub closed spec fn spec_curve(&self) -> Nid {
        self.curve
    }

    /// The named curve the pair was generated on.
    pub fn curve(&self) -> (n: Nid)
        ensures
            n == self.spec_curve(),
    {
        self.curve
    }
}

/// A fresh key pair on the group's named curve, drawn from the engine's
/// randomness source. Nothing is assumed of the key value itself.
pub fn generate_key_pair(group: &EcGroup) -> (k: KeyPair)
    ensures
        k.spec_curve() == group.curve,
{
    match group.curve {
        Nid::Secp384r1 => KeyPair { signing: engine::generate_signing_key(), curve: Nid::Secp384r1 },
    }
}

} // verus!
