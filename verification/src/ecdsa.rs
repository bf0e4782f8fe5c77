//! The signature engine: deterministic ECDSA signing and verification,
//! generic over the supported curves.
//!
//! Keys and signatures are held as plain bytes of the width the curve
//! fixes; the curve group arithmetic itself is supplied by an audited
//! arithmetic library underneath, which this engine only orchestrates.

use vstd::prelude::*;

use crate::curve::Curve;
use p256::ecdsa::signature::Signer;
use p256::ecdsa::signature::Verifier;

verus! {

/// The bytes that deterministic P-256 ECDSA signing returns for the given
/// scalar and message bytes, or `None` where the scalar bytes are no valid
/// non-zero scalar or a degenerate nonce arises. A function of its two
/// arguments alone: nonce derivation is deterministic (RFC 6979).
pub uninterp spec fn p256_sign_bytes(key: Seq<u8>, message: Seq<u8>) -> Option<Seq<u8>>;

/// As [`p256_sign_bytes`], for P-384.
pub uninterp spec fn p384_sign_bytes(key: Seq<u8>, message: Seq<u8>) -> Option<Seq<u8>>;

/// Whether P-256 ECDSA verification accepts the signature bytes for the
/// given SEC1 public-key bytes and message. `false` covers every failure
/// alike: an unparseable key, an (r, s) component of zero or beyond the
/// group order, and a well-formed signature that does not match.
pub uninterp spec fn p256_accepts(key: Seq<u8>, message: Seq<u8>, signature: Seq<u8>) -> bool;

/// As [`p256_accepts`], for P-384.
pub uninterp spec fn p384_accepts(key: Seq<u8>, message: Seq<u8>, signature: Seq<u8>) -> bool;

/// What signing returns, per curve.
pub open spec fn spec_sign(curve: Curve, key: Seq<u8>, message: Seq<u8>) -> Option<Seq<u8>> {
    match curve {
        Curve::P256 => p256_sign_bytes(key, message),
        Curve::P384 => p384_sign_bytes(key, message),
    }
}

/// What verification answers, per curve.
pub open spec fn spec_verify(curve: Curve, key: Seq<u8>, message: Seq<u8>, signature: Seq<u8>) -> bool {
    match curve {
        Curve::P256 => p256_accepts(key, message, signature),
        Curve::P384 => p384_accepts(key, message, signature),
    }
}

/// A private scalar for one curve, as fixed-width big-endian bytes.
///
/// The engine never serializes or mutates a key; the bytes are caller-owned
/// and caller-zeroized.
#[derive(Clone)]
pub struct SecretKey {
    curve: Curve,
    bytes: Vec<u8>,
}

/// A public curve point in SEC1 encoding; freely copyable, used only for
/// verification.
#[derive(Clone)]
pub struct PublicKey {
    curve: Curve,
    bytes: Vec<u8>,
}

/// An ordered pair (r, s) of scalars, each serialized to the curve's scalar
/// width; the whole signature is the two widths side by side.
#[derive(Clone)]
pub struct Signature {
    curve: Curve,
    bytes: Vec<u8>,
}

impl View for SecretKey {
    type V = Seq<u8>;

    closed spec fn view(&self) -> Seq<u8> {
        self.bytes@
    }
}

impl View for PublicKey {
    type V = Seq<u8>;

    closed spec fn view(&self) -> Seq<u8> {
        self.bytes@
    }
}

impl View for Signature {
    type V = Seq<u8>;

    closed spec fn view(&self) -> Seq<u8> {
        self.bytes@
    }
}

impl SecretKey {
    pub closed spec fn spec_curve(self) -> Curve {
        self.curve
    }

    /// Every key's byte width is exactly its curve's scalar width.
    pub open spec fn wf(self) -> bool {
        self@.len() == self.spec_curve().spec_scalar_size()
    }

    /// Wrap scalar bytes for the given curve; the width must be exactly the
    /// curve's scalar width.
    pub fn from_bytes(curve: Curve, bytes: Vec<u8>) -> (r: Option<SecretKey>)
        ensures
            match r {
                Some(k) => k.wf() && k.spec_curve() == curve && k@ == bytes@,
                None => bytes@.len() != curve.spec_scalar_size(),
            },
    {
        if bytes.len() == curve.scalar_size() {
            Some(SecretKey { curve, bytes })
        } else {
            None
        }
    }

    pub fn curve(&self) -> (c: Curve)
        ensures
            c == self.spec_curve(),
    {
        self.curve
    }
}

impl PublicKey {
    pub closed spec fn spec_curve(self) -> Curve {
        self.curve
    }

    /// Wrap a SEC1-encoded point for the given curve. No parsing happens
    /// here: verification answers `false` for bytes that are no valid point,
    /// indistinguishably from a signature that does not match.
    pub fn from_sec1_bytes(curve: Curve, bytes: Vec<u8>) -> (r: PublicKey)
        ensures
            r.spec_curve() == curve,
            r@ == bytes@,
    {
        PublicKey { curve, bytes }
    }

    pub fn curve(&self) -> (c: Curve)
        ensures
            c == self.spec_curve(),
    {
        self.curve
    }
}

impl Signature {
    pub closed spec fn spec_curve(self) -> Curve {
        self.curve
    }

    /// Every signature's byte width is exactly twice its curve's scalar
    /// width.
    pub open spec fn wf(self) -> bool {
        self@.len() == self.spec_curve().spec_signature_size()
    }

    /// Wrap serialized signature bytes (r and s side by side) for the given
    /// curve; the width must be exactly the curve's signature width.
    pub fn from_bytes(curve: Curve, bytes: Vec<u8>) -> (r: Option<Signature>)
        ensures
            match r {
                Some(s) => s.wf() && s.spec_curve() == curve && s@ == bytes@,
                None => bytes@.len() != curve.spec_signature_size(),
            },
    {
        if bytes.len() == curve.signature_size() {
            Some(Signature { curve, bytes })
        } else {
            None
        }
    }

    pub fn as_bytes(&self) -> (r: &[u8])
        ensures
            r@ == self@,
    {
        self.bytes.as_slice()
    }

    pub fn curve(&self) -> (c: Curve)
        ensures
            c == self.spec_curve(),
    {
        self.curve
    }
}

/// Relies on the p256 crate's ECDSA: `SigningKey::from_slice` parses the
/// scalar, `Signer::try_sign` derives the RFC 6979 nonce and signs, and
/// `Signature::to_bytes` is the fixed 64-byte r || s encoding. Every step
/// depends on the key and message bytes alone; every failure is `None`.
#[verifier::external_body]
fn sign_p256(key: &[u8], message: &[u8]) -> (r: Option<Vec<u8>>)
    ensures
        match r {
            Some(sig) => p256_sign_bytes(key@, message@) == Some(sig@) && sig@.len() == 64,
            None => p256_sign_bytes(key@, message@) is None,
        },
{
    let signing_key = match p256::ecdsa::SigningKey::from_slice(key) {
        Ok(k) => k,
        Err(_) => return None,
    };
    let signature: p256::ecdsa::Signature = match signing_key.try_sign(message) {
        Ok(s) => s,
        Err(_) => return None,
    };
    Some(signature.to_bytes().to_vec())
}

/// Relies on the p384 crate's ECDSA, exactly as [`sign_p256`] relies on
/// p256's; the fixed encoding is 96 bytes here.
#[verifier::external_body]
fn sign_p384(key: &[u8], message: &[u8]) -> (r: Option<Vec<u8>>)
    ensures
        match r {
            Some(sig) => p384_sign_bytes(key@, message@) == Some(sig@) && sig@.len() == 96,
            None => p384_sign_bytes(key@, message@) is None,
        },
{
    let signing_key = match p384::ecdsa::SigningKey::from_slice(key) {
        Ok(k) => k,
        Err(_) => return None,
    };
    let signature: p384::ecdsa::Signature = match signing_key.try_sign(message) {
        Ok(s) => s,
        Err(_) => return None,
    };
    Some(signature.to_bytes().to_vec())
}

/// Relies on the p256 crate's ECDSA: `VerifyingKey::from_sec1_bytes` parses
/// the point, `Signature::from_slice` parses r and s (rejecting zero and
/// out-of-range values), and `Verifier::verify` recomputes the verification
/// equation. All three depend on their byte inputs alone, and every failure
/// collapses into the single `false` outcome.
#[verifier::external_body]
fn verify_p256(key: &[u8], message: &[u8], signature: &[u8]) -> (r: bool)
    ensures
        r == p256_accepts(key@, message@, signature@),
{
    let verifying_key = match p256::ecdsa::VerifyingKey::from_sec1_bytes(key) {
        Ok(k) => k,
        Err(_) => return false,
    };
    let parsed = match p256::ecdsa::Signature::from_slice(signature) {
        Ok(s) => s,
        Err(_) => return false,
    };
    verifying_key.verify(message, &parsed).is_ok()
}

/// Relies on the p384 crate's ECDSA, exactly as [`verify_p256`] relies on
/// p256's.
#[verifier::external_body]
fn verify_p384(key: &[u8], message: &[u8], signature: &[u8]) -> (r: bool)
    ensures
        r == p384_accepts(key@, message@, signature@),
{
    let verifying_key = match p384::ecdsa::VerifyingKey::from_sec1_bytes(key) {
        Ok(k) => k,
        Err(_) => return false,
    };
    let parsed = match p384::ecdsa::Signature::from_slice(signature) {
        Ok(s) => s,
        Err(_) => return false,
    };
    verifying_key.verify(message, &parsed).is_ok()
}

/// Sign a message using a [`SecretKey`].
///
/// Signing is deterministic: the result is a function of the key and
/// message bytes alone, with the nonce derived from them rather than drawn
/// from a randomness source. `None` arises only where the curve arithmetic
/// rejects the scalar or the derived nonce degenerates, never from any
/// choice of this engine's own.
pub fn sign(key: &SecretKey, message: &[u8]) -> (r: Option<Signature>)
    ensures
        match r {
            Some(sig) => {
                &&& sig.wf()
                &&& sig.spec_curve() == key.spec_curve()
                &&& spec_sign(key.spec_curve(), key@, message@) == Some(sig@)
            },
            None => spec_sign(key.spec_curve(), key@, message@) is None,
        },
{
    let raw = match key.curve {
        Curve::P256 => sign_p256(key.bytes.as_slice(), message),
        Curve::P384 => sign_p384(key.bytes.as_slice(), message),
    };
    match raw {
        Some(bytes) => Some(Signature { curve: key.curve, bytes }),
        None => None,
    }
}

/// Verify a message using a [`PublicKey`] and a [`Signature`].
///
/// A pure function of the three inputs. Any malformed component — an
/// unparseable key, an (r, s) component of zero or beyond the group order,
/// or a curve mismatch between key and signature — answers `false`,
/// indistinguishably from a well-formed signature that does not match.
pub fn verify(key: &PublicKey, message: &[u8], signature: &Signature) -> (r: bool)
    ensures
        r == (key.spec_curve() == signature.spec_curve()
            && spec_verify(key.spec_curve(), key@, message@, signature@)),
{
    if key.curve == signature.curve {
        match key.curve {
            Curve::P256 => verify_p256(key.bytes.as_slice(), message, signature.bytes.as_slice()),
            Curve::P384 => verify_p384(key.bytes.as_slice(), message, signature.bytes.as_slice()),
        }
    } else {
        false
    }
}

/// Signing is deterministic: two signatures both returned for the same
/// curve, key bytes and message bytes are equal.
pub proof fn lemma_sign_deterministic(
    curve: Curve,
    key: Seq<u8>,
    message: Seq<u8>,
    sig1: Seq<u8>,
    sig2: Seq<u8>,
)
    requires
        spec_sign(curve, key, message) == Some(sig1),
        spec_sign(curve, key, message) == Some(sig2),
    ensures
        sig1 == sig2,
{
}

/// A well-formed signature's serialized width is exactly twice its curve's
/// scalar width.
pub proof fn lemma_signature_width(sig: Signature)
    requires
        sig.wf(),
    ensures
        sig@.len() == 2 * sig.spec_curve().spec_scalar_size(),
{
}

} // verus!
