//! The password as the identity provider wants it: encrypted with the
//! provider's public key (PKCS#1 v1.5), base64-encoded, and marked with a
//! fixed prefix.
//!
//! Encryption pads with fresh random bytes, so two encryptions of one
//! password differ. A credential is made for one login attempt and never
//! kept.

use vstd::prelude::*;
use vstd::string::*;
use base64::Engine;
use rsa::pkcs8::DecodePublicKey;
use rsa::traits::PublicKeyParts;
use crate::login::{LoginError, LoginErrorView};

verus! {

/// The bytes that PKCS#1 v1.5 padding adds at least.
pub const PADDING_OVERHEAD: usize = 11;

/// The largest modulus, in bytes, of a key that `rsa` accepts.
pub const MAX_MODULUS_LEN: usize = 512;

/// The size in bytes of the modulus of the RSA public key that the PEM
/// text `pem` holds; `None` when `pem` holds no such key.
pub uninterp spec fn key_modulus_len(pem: Seq<char>) -> Option<nat>;

/// The base64 encoding of `bytes`, standard alphabet, with padding.
pub uninterp spec fn base64_standard(bytes: Seq<u8>) -> Seq<char>;

/// The marker that tells the provider how the password is encoded.
pub open spec fn rsa_marker() -> Seq<char> {
    "__RSA__"@
}

/// The credential made from the ciphertext `sealed`.
pub open spec fn credential_of(sealed: Seq<u8>) -> Seq<char> {
    rsa_marker() + base64_standard(sealed)
}

/// Whether a message of `message_len` bytes can be encrypted with the key
/// in `pem`: the key is readable, and padding and message fit its modulus.
pub open spec fn can_seal(pem: Seq<char>, message_len: nat) -> bool {
    match key_modulus_len(pem) {
        Some(k) => message_len + PADDING_OVERHEAD <= k,
        None => false,
    }
}

/// Why a message of `message_len` bytes cannot be encrypted with the key
/// in `pem` (meaningful when `can_seal` is false).
pub open spec fn seal_error(pem: Seq<char>, message_len: nat) -> LoginErrorView {
    match key_modulus_len(pem) {
        Some(k) => LoginErrorView::Other("Password is too long for the public key"@),
        None => LoginErrorView::Other("Public key is not valid"@),
    }
}

/// Whether base64 text for `len` bytes has a length that fits in `usize`.
pub open spec fn base64_fits(len: nat) -> bool {
    4 * ((len + 2) / 3) <= usize::MAX
}

/// Calls `rsa::RsaPublicKey::from_public_key_pem` and
/// `rsa::traits::PublicKeyParts::size`. Trusted: the result is what
/// `key_modulus_len` names.
#[verifier::external_body]
pub(crate) fn modulus_len(pem: &str) -> (len: Option<usize>)
    ensures
        match len {
            Some(k) => key_modulus_len(pem@) == Some(k as nat),
            None => key_modulus_len(pem@) is None,
        },
{
    rsa::RsaPublicKey::from_public_key_pem(pem).ok().map(|key| key.size())
}

/// Calls `rsa::RsaPublicKey::encrypt` with `rsa::Pkcs1v15Encrypt` and the
/// operating system's random generator, on the key read from `pem`.
/// Trusted: the call succeeds exactly when the key is readable and the
/// message with its padding fits the modulus; the ciphertext is as long
/// as the modulus, which for a key that `rsa` reads is at most 4096 bits.
/// Nothing is claimed of the ciphertext's bytes: they depend on the random
/// padding. The operating system's generator is taken to work.
#[verifier::external_body]
pub(crate) fn pkcs1v15_encrypt(pem: &str, message: &[u8]) -> (sealed: Option<Vec<u8>>)
    ensures
        sealed is Some <==> can_seal(pem@, message@.len()),
        sealed matches Some(c) ==> key_modulus_len(pem@) == Some(c@.len()) && c@.len()
            <= MAX_MODULUS_LEN,
{
    let key = rsa::RsaPublicKey::from_public_key_pem(pem).ok()?;
    key.encrypt(&mut rsa::rand_core::OsRng, rsa::Pkcs1v15Encrypt, message).ok()
}

/// Calls `base64::Engine::encode` on `base64::engine::general_purpose::STANDARD`.
/// Trusted: the result is what `base64_standard` names.
#[verifier::external_body]
pub(crate) fn base64_encode(bytes: &[u8]) -> (text: String)
    requires
        base64_fits(bytes@.len()),
    ensures
        text@ == base64_standard(bytes@),
{
    base64::engine::general_purpose::STANDARD.encode(bytes)
}

/// Makes the credential from a ciphertext: the marker, then the
/// ciphertext in base64.
pub fn credential_from(sealed: &[u8]) -> (credential: String)
    requires
        base64_fits(sealed@.len()),
    ensures
        credential@ == credential_of(sealed@),
        rsa_marker().is_prefix_of(credential@),
{
    let mut credential = String::from_str("__RSA__");
    let encoded = base64_encode(sealed);
    credential.append(encoded.as_str());
    credential
}

/// Encrypts `password` with the public key in `public_key_pem`.
///
/// The result is a ciphertext as long as the key's modulus, or the reason
/// why there is none: the key cannot be read, or the password does not
/// fit it.
pub fn seal_password(password: &str, public_key_pem: &str) -> (sealed: Result<Vec<u8>, LoginError>)
    ensures
        match sealed {
            Ok(c) => can_seal(public_key_pem@, password.spec_bytes().len()) && key_modulus_len(
                public_key_pem@,
            ) == Some(c@.len()) && c@.len() <= MAX_MODULUS_LEN,
            Err(e) => !can_seal(public_key_pem@, password.spec_bytes().len()) && e@ == seal_error(
                public_key_pem@,
                password.spec_bytes().len(),
            ),
        },
{
    match pkcs1v15_encrypt(public_key_pem, password.as_bytes()) {
        Some(c) => Ok(c),
        None => match modulus_len(public_key_pem) {
            Some(_) => Err(
                LoginError::Other(String::from_str("Password is too long for the public key")),
            ),
            None => Err(LoginError::Other(String::from_str("Public key is not valid"))),
        },
    }
}

/// Whether `credential` is a credential under the key in `pem`: the marker, then the base64 text of some
/// ciphertext as long as the key's modulus.
pub open spec fn is_credential(credential: Seq<char>, pem: Seq<char>) -> bool {
    exists|sealed: Seq<u8>|
        key_modulus_len(pem) == Some(sealed.len()) && sealed.len() <= MAX_MODULUS_LEN
            && credential == #[trigger] credential_of(sealed)
}

/// Turns a plaintext password into the credential that the provider
/// accepts. Each call encrypts anew.
pub fn encrypt_password(password: &str, public_key_pem: &str) -> (credential: Result<
    String,
    LoginError,
>)
    ensures
        match credential {
            Ok(c) => can_seal(public_key_pem@, password.spec_bytes().len()) && is_credential(
                c@,
                public_key_pem@,
            ) && rsa_marker().is_prefix_of(c@),
            Err(e) => !can_seal(public_key_pem@, password.spec_bytes().len()) && e@ == seal_error(
                public_key_pem@,
                password.spec_bytes().len(),
            ),
        },
{
    match seal_password(password, public_key_pem) {
        Ok(sealed) => {
            let credential = credential_from(sealed.as_slice());
            Ok(credential)
        },
        Err(e) => Err(e),
    }
}

} // verus!
