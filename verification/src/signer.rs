//! Signature schemes and the signing operation.
//!
//! A keypair is derived deterministically from a secret URI and a password,
//! and the resolved message is signed with it. The derivation and the curve
//! arithmetic live in the `sp_core` crate and are reached through trusted
//! wrappers; the dispatch over the closed set of schemes, and everything the
//! callers rely on, is verified against the wrappers' contracts.

use vstd::prelude::*;
use crate::errors::Error;

verus! {

/// The closed set of supported signature schemes.
#[derive(Clone, Copy, Debug, PartialEq, Eq, Structural)]
pub enum CryptoScheme {
    Ed25519,
    Sr25519,
    Ecdsa,
}

/// Whether a secret URI (with a password) derives a keypair under Ed25519.
/// Derivation is a pure function of the two strings.
pub uninterp spec fn ed25519_suri_valid(suri: Seq<char>, password: Seq<char>) -> bool;

/// The Ed25519 public key derived from a secret URI and a password.
pub uninterp spec fn ed25519_public(suri: Seq<char>, password: Seq<char>) -> Seq<u8>;

/// The Ed25519 signature over a message by the keypair a secret URI derives.
/// Ed25519 signing is deterministic, so this is a function of its arguments.
pub uninterp spec fn ed25519_signature(
    suri: Seq<char>,
    password: Seq<char>,
    message: Seq<u8>,
) -> Seq<u8>;

/// What Ed25519 signature verification returns on a public key, a message
/// and a signature, all given as bytes.
pub uninterp spec fn ed25519_sig_good(pubkey: Seq<u8>, message: Seq<u8>, sig: Seq<u8>) -> bool;

/// Whether a secret URI (with a password) derives a keypair under Sr25519.
pub uninterp spec fn sr25519_suri_valid(suri: Seq<char>, password: Seq<char>) -> bool;

/// The Sr25519 public key derived from a secret URI and a password.
pub uninterp spec fn sr25519_public(suri: Seq<char>, password: Seq<char>) -> Seq<u8>;

/// What Sr25519 signature verification returns. Sr25519 signing draws
/// randomness, so no function names the signature itself; every outcome of
/// signing satisfies this predicate under the signer's public key.
pub uninterp spec fn sr25519_sig_good(pubkey: Seq<u8>, message: Seq<u8>, sig: Seq<u8>) -> bool;

/// Whether a secret URI (with a password) derives a keypair under ECDSA.
pub uninterp spec fn ecdsa_suri_valid(suri: Seq<char>, password: Seq<char>) -> bool;

/// The ECDSA (secp256k1) compressed public key derived from a secret URI and
/// a password.
pub uninterp spec fn ecdsa_public(suri: Seq<char>, password: Seq<char>) -> Seq<u8>;

/// The ECDSA signature over a message by the keypair a secret URI derives.
/// Signing hashes the message and uses deterministic (RFC 6979) nonces, so
/// this is a function of its arguments.
pub uninterp spec fn ecdsa_signature(
    suri: Seq<char>,
    password: Seq<char>,
    message: Seq<u8>,
) -> Seq<u8>;

/// What ECDSA signature verification returns on a public key, a message and
/// a signature, all given as bytes.
pub uninterp spec fn ecdsa_sig_good(pubkey: Seq<u8>, message: Seq<u8>, sig: Seq<u8>) -> bool;

/// Relies on `sp_core::ed25519::Pair`: `Pair::from_string` derives a keypair
/// from a secret URI, deterministically in the URI and password, and
/// `Pair::sign` produces the (deterministic) 64-byte Ed25519 signature, which
/// `Pair::verify` accepts under the pair's public key.
#[verifier::external_body]
fn ed25519_sign_suri(suri: &str, password: &str, message: &[u8]) -> (r: Result<Vec<u8>, Error>)
    ensures
        r is Ok <==> ed25519_suri_valid(suri@, password@),
        r matches Ok(v) ==> v@ == ed25519_signature(suri@, password@, message@),
        r matches Ok(v) ==> v@.len() == 64,
        r matches Ok(v) ==> ed25519_sig_good(ed25519_public(suri@, password@), message@, v@),
        r matches Err(e) ==> e == Error::InvalidSecret,
{
    match <sp_core::ed25519::Pair as sp_core::Pair>::from_string(suri, Some(password)) {
        Ok(pair) => Ok(sp_core::Pair::sign(&pair, message).0.to_vec()),
        Err(_) => Err(Error::InvalidSecret),
    }
}

/// Relies on `sp_core::ed25519::Pair`: `Pair::from_string` as above, and
/// `Pair::public` returns the pair's 32-byte public key.
#[verifier::external_body]
fn ed25519_public_key(suri: &str, password: &str) -> (r: Result<Vec<u8>, Error>)
    ensures
        r is Ok <==> ed25519_suri_valid(suri@, password@),
        r matches Ok(v) ==> v@ == ed25519_public(suri@, password@) && v@.len() == 32,
        r matches Err(e) ==> e == Error::InvalidSecret,
{
    match <sp_core::ed25519::Pair as sp_core::Pair>::from_string(suri, Some(password)) {
        Ok(pair) => Ok(sp_core::Pair::public(&pair).0.to_vec()),
        Err(_) => Err(Error::InvalidSecret),
    }
}

/// Relies on `sp_core::ed25519::Pair::verify`: returns whether the signature
/// is good for the message under the public key; a function of the three
/// byte strings.
#[verifier::external_body]
fn ed25519_verify(pubkey: &[u8], message: &[u8], sig: &[u8]) -> (r: bool)
    requires
        pubkey@.len() == 32,
        sig@.len() == 64,
    ensures
        r == ed25519_sig_good(pubkey@, message@, sig@),
{
    let p = sp_core::ed25519::Public::from_raw(pubkey.try_into().unwrap_or([0u8; 32]));
    let s = sp_core::ed25519::Signature::from_raw(sig.try_into().unwrap_or([0u8; 64]));
    <sp_core::ed25519::Pair as sp_core::Pair>::verify(&s, message, &p)
}

/// Relies on `sp_core::sr25519::Pair`: `Pair::from_string` derives a keypair
/// deterministically, and `Pair::sign` produces a 64-byte Schnorrkel
/// signature. Signing draws randomness, so only what holds of every outcome
/// is stated: the signature verifies under the pair's public key.
#[verifier::external_body]
fn sr25519_sign_suri(suri: &str, password: &str, message: &[u8]) -> (r: Result<Vec<u8>, Error>)
    ensures
        r is Ok <==> sr25519_suri_valid(suri@, password@),
        r matches Ok(v) ==> v@.len() == 64,
        r matches Ok(v) ==> sr25519_sig_good(sr25519_public(suri@, password@), message@, v@),
        r matches Err(e) ==> e == Error::InvalidSecret,
{
    match <sp_core::sr25519::Pair as sp_core::Pair>::from_string(suri, Some(password)) {
        Ok(pair) => Ok(sp_core::Pair::sign(&pair, message).0.to_vec()),
        Err(_) => Err(Error::InvalidSecret),
    }
}

/// Relies on `sp_core::sr25519::Pair`: `Pair::from_string` as above, and
/// `Pair::public` returns the pair's 32-byte public key.
#[verifier::external_body]
fn sr25519_public_key(suri: &str, password: &str) -> (r: Result<Vec<u8>, Error>)
    ensures
        r is Ok <==> sr25519_suri_valid(suri@, password@),
        r matches Ok(v) ==> v@ == sr25519_public(suri@, password@) && v@.len() == 32,
        r matches Err(e) ==> e == Error::InvalidSecret,
{
    match <sp_core::sr25519::Pair as sp_core::Pair>::from_string(suri, Some(password)) {
        Ok(pair) => Ok(sp_core::Pair::public(&pair).0.to_vec()),
        Err(_) => Err(Error::InvalidSecret),
    }
}

/// Relies on `sp_core::sr25519::Pair::verify`: returns whether the signature
/// is good for the message under the public key; a function of the three
/// byte strings.
#[verifier::external_body]
fn sr25519_verify(pubkey: &[u8], message: &[u8], sig: &[u8]) -> (r: bool)
    requires
        pubkey@.len() == 32,
        sig@.len() == 64,
    ensures
        r == sr25519_sig_good(pubkey@, message@, sig@),
{
    let p = sp_core::sr25519::Public::from_raw(pubkey.try_into().unwrap_or([0u8; 32]));
    let s = sp_core::sr25519::Signature::from_raw(sig.try_into().unwrap_or([0u8; 64]));
    <sp_core::sr25519::Pair as sp_core::Pair>::verify(&s, message, &p)
}

/// Relies on `sp_core::ecdsa::Pair`: `Pair::from_string` derives a keypair
/// deterministically, and `Pair::sign` hashes the message and signs with
/// deterministic nonces, producing the 65-byte recoverable signature, which
/// `Pair::verify` accepts under the pair's public key.
#[verifier::external_body]
fn ecdsa_sign_suri(suri: &str, password: &str, message: &[u8]) -> (r: Result<Vec<u8>, Error>)
    ensures
        r is Ok <==> ecdsa_suri_valid(suri@, password@),
        r matches Ok(v) ==> v@ == ecdsa_signature(suri@, password@, message@),
        r matches Ok(v) ==> v@.len() == 65,
        r matches Ok(v) ==> ecdsa_sig_good(ecdsa_public(suri@, password@), message@, v@),
        r matches Err(e) ==> e == Error::InvalidSecret,
{
    match <sp_core::ecdsa::Pair as sp_core::Pair>::from_string(suri, Some(password)) {
        Ok(pair) => Ok(sp_core::Pair::sign(&pair, message).0.to_vec()),
        Err(_) => Err(Error::InvalidSecret),
    }
}

/// Relies on `sp_core::ecdsa::Pair`: `Pair::from_string` as above, and
/// `Pair::public` returns the pair's 33-byte compressed public key.
#[verifier::external_body]
fn ecdsa_public_key(suri: &str, password: &str) -> (r: Result<Vec<u8>, Error>)
    ensures
        r is Ok <==> ecdsa_suri_valid(suri@, password@),
        r matches Ok(v) ==> v@ == ecdsa_public(suri@, password@) && v@.len() == 33,
        r matches Err(e) ==> e == Error::InvalidSecret,
{
    match <sp_core::ecdsa::Pair as sp_core::Pair>::from_string(suri, Some(password)) {
        Ok(pair) => Ok(sp_core::Pair::public(&pair).0.to_vec()),
        Err(_) => Err(Error::InvalidSecret),
    }
}

/// Relies on `sp_core::ecdsa::Pair::verify`: returns whether the signature
/// is good for the message under the public key; a function of the three
/// byte strings.
#[verifier::external_body]
fn ecdsa_verify(pubkey: &[u8], message: &[u8], sig: &[u8]) -> (r: bool)
    requires
        pubkey@.len() == 33,
        sig@.len() == 65,
    ensures
        r == ecdsa_sig_good(pubkey@, message@, sig@),
{
    let p = sp_core::ecdsa::Public::from_raw(pubkey.try_into().unwrap_or([0u8; 33]));
    let s = sp_core::ecdsa::Signature::from_raw(sig.try_into().unwrap_or([0u8; 65]));
    <sp_core::ecdsa::Pair as sp_core::Pair>::verify(&s, message, &p)
}

/// The byte length of a signature under a scheme.
pub open spec fn scheme_sig_len(scheme: CryptoScheme) -> nat {
    match scheme {
        CryptoScheme::Ed25519 => 64,
        CryptoScheme::Sr25519 => 64,
        CryptoScheme::Ecdsa => 65,
    }
}

/// The byte length of a public key under a scheme.
pub open spec fn scheme_pubkey_len(scheme: CryptoScheme) -> nat {
    match scheme {
        CryptoScheme::Ed25519 => 32,
        CryptoScheme::Sr25519 => 32,
        CryptoScheme::Ecdsa => 33,
    }
}

/// Whether a secret URI derives a keypair under a scheme.
pub open spec fn scheme_suri_valid(
    scheme: CryptoScheme,
    suri: Seq<char>,
    password: Seq<char>,
) -> bool {
    match scheme {
        CryptoScheme::Ed25519 => ed25519_suri_valid(suri, password),
        CryptoScheme::Sr25519 => sr25519_suri_valid(suri, password),
        CryptoScheme::Ecdsa => ecdsa_suri_valid(suri, password),
    }
}

/// The public key a secret URI derives under a scheme.
pub open spec fn scheme_public(
    scheme: CryptoScheme,
    suri: Seq<char>,
    password: Seq<char>,
) -> Seq<u8> {
    match scheme {
        CryptoScheme::Ed25519 => ed25519_public(suri, password),
        CryptoScheme::Sr25519 => sr25519_public(suri, password),
        CryptoScheme::Ecdsa => ecdsa_public(suri, password),
    }
}

/// What signature verification returns under a scheme.
pub open spec fn scheme_sig_good(
    scheme: CryptoScheme,
    pubkey: Seq<u8>,
    message: Seq<u8>,
    sig: Seq<u8>,
) -> bool {
    match scheme {
        CryptoScheme::Ed25519 => ed25519_sig_good(pubkey, message, sig),
        CryptoScheme::Sr25519 => sr25519_sig_good(pubkey, message, sig),
        CryptoScheme::Ecdsa => ecdsa_sig_good(pubkey, message, sig),
    }
}

/// Whether signing under a scheme is a function of its inputs. Sr25519
/// signing draws randomness; the other schemes are deterministic.
pub open spec fn deterministic_scheme(scheme: CryptoScheme) -> bool {
    scheme != CryptoScheme::Sr25519
}

/// The signature a deterministic scheme produces for a secret URI, a
/// password and a message.
pub open spec fn scheme_signature(
    scheme: CryptoScheme,
    suri: Seq<char>,
    password: Seq<char>,
    message: Seq<u8>,
) -> Seq<u8>
    recommends
        deterministic_scheme(scheme),
{
    match scheme {
        CryptoScheme::Ed25519 => ed25519_signature(suri, password, message),
        CryptoScheme::Ecdsa => ecdsa_signature(suri, password, message),
        CryptoScheme::Sr25519 => Seq::empty(),
    }
}

/// Sign a message with the keypair the secret URI derives under the scheme.
///
/// Succeeds exactly when the URI derives a keypair; the signature has the
/// scheme's length, verifies under the derived public key, and, for the
/// deterministic schemes, is the one signature those inputs determine.
pub fn sign_with_scheme(
    scheme: CryptoScheme,
    suri: &str,
    password: &str,
    message: &[u8],
) -> (r: Result<Vec<u8>, Error>)
    ensures
        r is Ok <==> scheme_suri_valid(scheme, suri@, password@),
        r matches Err(e) ==> e == Error::InvalidSecret,
        r matches Ok(v) ==> v@.len() == scheme_sig_len(scheme),
        r matches Ok(v) ==> scheme_sig_good(
            scheme,
            scheme_public(scheme, suri@, password@),
            message@,
            v@,
        ),
        deterministic_scheme(scheme) ==> (r matches Ok(v) ==> v@ == scheme_signature(
            scheme,
            suri@,
            password@,
            message@,
        )),
{
    match scheme {
        CryptoScheme::Ed25519 => ed25519_sign_suri(suri, password, message),
        CryptoScheme::Sr25519 => sr25519_sign_suri(suri, password, message),
        CryptoScheme::Ecdsa => ecdsa_sign_suri(suri, password, message),
    }
}

/// The public key the secret URI derives under the scheme.
///
/// Succeeds exactly when the URI derives a keypair.
pub fn public_with_scheme(scheme: CryptoScheme, suri: &str, password: &str) -> (r: Result<
    Vec<u8>,
    Error,
>)
    ensures
        r is Ok <==> scheme_suri_valid(scheme, suri@, password@),
        r matches Err(e) ==> e == Error::InvalidSecret,
        r matches Ok(v) ==> v@ == scheme_public(scheme, suri@, password@),
        r matches Ok(v) ==> v@.len() == scheme_pubkey_len(scheme),
{
    match scheme {
        CryptoScheme::Ed25519 => ed25519_public_key(suri, password),
        CryptoScheme::Sr25519 => sr25519_public_key(suri, password),
        CryptoScheme::Ecdsa => ecdsa_public_key(suri, password),
    }
}

/// Check a signature over a message under a public key for the scheme.
///
/// Returns what the scheme's verification returns; a public key or a
/// signature of the wrong length is never accepted.
pub fn verify_with_scheme(
    scheme: CryptoScheme,
    pubkey: &[u8],
    message: &[u8],
    sig: &[u8],
) -> (r: bool)
    ensures
        r == (pubkey@.len() == scheme_pubkey_len(scheme) && sig@.len() == scheme_sig_len(scheme)
            && scheme_sig_good(scheme, pubkey@, message@, sig@)),
{
    let (pk_len, sig_len): (usize, usize) = match scheme {
        CryptoScheme::Ed25519 => (32, 64),
        CryptoScheme::Sr25519 => (32, 64),
        CryptoScheme::Ecdsa => (33, 65),
    };
    if pubkey.len() != pk_len || sig.len() != sig_len {
        return false;
    }
    match scheme {
        CryptoScheme::Ed25519 => ed25519_verify(pubkey, message, sig),
        CryptoScheme::Sr25519 => sr25519_verify(pubkey, message, sig),
        CryptoScheme::Ecdsa => ecdsa_verify(pubkey, message, sig),
    }
}

/// Law: signing with a deterministic scheme is a function of the scheme, the
/// secret URI, the password and the message; two signatures over the same
/// inputs are the same bytes.
pub proof fn lemma_sign_deterministic(
    scheme: CryptoScheme,
    suri: Seq<char>,
    password: Seq<char>,
    message: Seq<u8>,
    sig1: Seq<u8>,
    sig2: Seq<u8>,
)
    requires
        deterministic_scheme(scheme),
        sig1 == scheme_signature(scheme, suri, password, message),
        sig2 == scheme_signature(scheme, suri, password, message),
    ensures
        sig1 == sig2,
{
}

} // verus!
