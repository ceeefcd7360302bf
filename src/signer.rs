//! RSA (PKCS#1 v1.5) signatures over SHA-256, through OpenSSL, and their
//! standard base64 text form.

use openssl::error::ErrorStack;
use openssl::hash::MessageDigest;
use openssl::pkey::{PKey, Private};
use openssl::rsa::Rsa;
use openssl::sign::Signer;
use vstd::prelude::*;

verus! {

#[verifier::external_type_specification]
#[verifier::external_body]
pub struct ExErrorStack(ErrorStack);

#[verifier::external_type_specification]
#[verifier::external_body]
pub struct ExPrivate(Private);

#[verifier::external_type_specification]
#[verifier::external_body]
#[verifier::reject_recursive_types(T)]
pub struct ExRsa<T>(Rsa<T>);

#[verifier::external_type_specification]
#[verifier::external_body]
#[verifier::reject_recursive_types(T)]
pub struct ExPKey<T>(PKey<T>);

#[verifier::external_type_specification]
#[verifier::external_body]
pub struct ExSigner<'a>(Signer<'a>);

/// Whether OpenSSL loads an RSA private key from the PEM text `pem`, given an
/// empty passphrase (so an encrypted key does not load).
pub uninterp spec fn rsa_pem_loads(pem: Seq<u8>) -> bool;

/// The RSASSA-PKCS1-v1_5 signature with SHA-256 of `data` under the RSA
/// private key held in `pem`. The scheme is deterministic: the signature
/// depends on the key and the data alone.
pub uninterp spec fn rsa_sha256_signature(pem: Seq<u8>, data: Seq<u8>) -> Seq<u8>;

/// Whether `sign` can load a key from `pem`: the bytes must fit OpenSSL's
/// buffer length (`c_int`) and hold a loadable RSA private key.
pub open spec fn key_loads(pem: Seq<u8>) -> bool {
    pem.len() <= i32::MAX && rsa_pem_loads(pem)
}

/// An RSA private key, with the PEM bytes it was loaded from. This and the two
/// types below are built only by the OpenSSL wrappers that follow, which set
/// their ghost fields to what was handed to OpenSSL.
struct RsaKey {
    rsa: Rsa<Private>,
    pem: Ghost<Seq<u8>>,
}

/// A private key ready for signing, with the PEM bytes it was loaded from.
struct PrivateKey {
    key: PKey<Private>,
    pem: Ghost<Seq<u8>>,
}

/// A SHA-256 signer under the key loaded from `pem`, which has been fed
/// `fed` so far.
struct DigestSigner<'a> {
    signer: Signer<'a>,
    pem: Ghost<Seq<u8>>,
    fed: Ghost<Seq<u8>>,
}

/// Relies on openssl's `Rsa::private_key_from_pem_passphrase`, with an empty
/// passphrase so that OpenSSL never asks the terminal for one: the RSA key in
/// `pem`, or an error. It asserts that the length fits in `c_int`.
#[verifier::external_body]
fn load_rsa(pem: &[u8]) -> (r: Result<RsaKey, ErrorStack>)
    requires
        pem@.len() <= i32::MAX,
    ensures
        r is Ok <==> rsa_pem_loads(pem@),
        r is Ok ==> r->Ok_0.pem@ == pem@,
{
    match Rsa::private_key_from_pem_passphrase(pem, b"") {
        Ok(rsa) => Ok(RsaKey { rsa, pem: Ghost(pem@) }),
        Err(e) => Err(e),
    }
}

/// Relies on openssl's `PKey::from_rsa`, which wraps an RSA key as a generic
/// key (it fails only when OpenSSL cannot allocate).
#[verifier::external_body]
fn wrap_rsa(rsa: RsaKey) -> (r: Result<PrivateKey, ErrorStack>)
    ensures
        r is Ok ==> r->Ok_0.pem == rsa.pem,
{
    match PKey::from_rsa(rsa.rsa) {
        Ok(key) => Ok(PrivateKey { key, pem: rsa.pem }),
        Err(e) => Err(e),
    }
}

/// Relies on openssl's `Signer::new` with `MessageDigest::sha256`: a signer
/// that hashes with SHA-256 and signs with `key`, with PKCS#1 v1.5 padding
/// (OpenSSL's default for an RSA key). Nothing has been fed to it yet.
#[verifier::external_body]
fn sha256_signer<'a>(key: &'a PrivateKey) -> (r: Result<DigestSigner<'a>, ErrorStack>)
    ensures
        r is Ok ==> r->Ok_0.pem == key.pem && r->Ok_0.fed@ == Seq::<u8>::empty(),
{
    match Signer::new(MessageDigest::sha256(), &key.key) {
        Ok(signer) => Ok(DigestSigner { signer, pem: key.pem, fed: Ghost(Seq::empty()) }),
        Err(e) => Err(e),
    }
}

/// Relies on openssl's `Signer::update`: feeds `data` to the signer's digest.
#[verifier::external_body]
fn signer_update(signer: &mut DigestSigner, data: &[u8]) -> (r: Result<(), ErrorStack>)
    ensures
        final(signer).pem == old(signer).pem,
        r is Ok ==> final(signer).fed@ == old(signer).fed@ + data@,
{
    let r = signer.signer.update(data);
    signer.fed = Ghost(signer.fed@ + data@);
    r
}

/// Relies on openssl's `Signer::sign_to_vec`: the signature of all data fed
/// so far, under the signer's key.
#[verifier::external_body]
fn signer_finish(signer: &DigestSigner) -> (r: Result<Vec<u8>, ErrorStack>)
    ensures
        r is Ok ==> r->Ok_0@ == rsa_sha256_signature(signer.pem@, signer.fed@),
{
    signer.signer.sign_to_vec()
}

/// The standard base64 text (RFC 4648 alphabet, `=` padding) of `bytes`.
pub uninterp spec fn base64_standard(bytes: Seq<u8>) -> Seq<char>;

/// Length of the padded base64 text of `n` bytes: four characters for each
/// started group of three bytes.
pub open spec fn base64_len(n: nat) -> nat {
    4 * ((n + 2) / 3)
}

/// Relies on base64's `Engine::encode` with the `STANDARD` engine: the padded
/// standard base64 text of `bytes`. It panics when the text's length
/// (`encoded_len`) overflows `usize`, which `requires` rules out.
#[verifier::external_body]
fn base64_encode(bytes: &[u8]) -> (r: String)
    requires
        base64_len(bytes@.len()) <= usize::MAX,
    ensures
        r@ == base64_standard(bytes@),
        r@.len() == base64_len(bytes@.len()),
{
    base64::Engine::encode(&base64::engine::general_purpose::STANDARD, bytes)
}

/// Why a signature could not be made.
#[derive(Clone, Copy, Debug, PartialEq, Eq, Structural)]
pub enum SignError {
    /// The key bytes are not a usable PEM-encoded RSA private key.
    KeyLoad,
    /// The signing operation itself failed.
    Signing,
}

/// Whether the base64 text of `n` bytes has a length that fits in `usize`.
fn base64_fits(n: usize) -> (r: bool)
    ensures
        r == (base64_len(n as nat) <= usize::MAX),
{
    let groups: usize = if n % 3 == 0 { n / 3 } else { n / 3 + 1 };
    assert(groups == (n + 2) / 3);
    groups <= usize::MAX / 4
}

/// Turns the outcome of the signing operation into the signature text: the
/// base64 form of the signature bytes, or `Signing` when the operation failed
/// (or produced more bytes than base64 text can hold in memory).
pub fn signature_text(raw: Result<Vec<u8>, ErrorStack>) -> (r: Result<String, SignError>)
    ensures
        match raw {
            Ok(bytes) => if base64_len(bytes@.len()) <= usize::MAX {
                r is Ok && r->Ok_0@ == base64_standard(bytes@)
            } else {
                r == Err::<String, SignError>(SignError::Signing)
            },
            Err(_) => r == Err::<String, SignError>(SignError::Signing),
        },
{
    match raw {
        Ok(bytes) => {
            if base64_fits(bytes.len()) {
                Ok(base64_encode(bytes.as_slice()))
            } else {
                Err(SignError::Signing)
            }
        },
        Err(_) => Err(SignError::Signing),
    }
}

/// Loads the RSA private key held in `pem`, ready for signing.
fn load_key(pem: &[u8]) -> (r: Result<PrivateKey, SignError>)
    ensures
        r == Err::<PrivateKey, SignError>(SignError::KeyLoad) <==> !key_loads(pem@),
        r is Ok ==> r->Ok_0.pem@ == pem@,
{
    if pem.len() > i32::MAX as usize {
        return Err(SignError::KeyLoad);
    }
    match load_rsa(pem) {
        Ok(rsa) => match wrap_rsa(rsa) {
            Ok(key) => Ok(key),
            Err(_) => Err(SignError::Signing),
        },
        Err(_) => Err(SignError::KeyLoad),
    }
}

/// Signs `data` with the PEM-encoded RSA private key `pem`, using SHA-256 and
/// PKCS#1 v1.5 padding, and returns the signature as standard base64 text.
/// Fails with `KeyLoad` exactly when no key can be loaded from `pem`, and with
/// `Signing` when a later step fails (for instance a key too small for the
/// digest); either way no signature is produced.
pub fn sign(data: &[u8], pem: &[u8]) -> (r: Result<String, SignError>)
    ensures
        r == Err::<String, SignError>(SignError::KeyLoad) <==> !key_loads(pem@),
        r is Ok ==> r->Ok_0@ == base64_standard(rsa_sha256_signature(pem@, data@)),
{
    let key = match load_key(pem) {
        Ok(key) => key,
        Err(e) => {
            return Err(e);
        },
    };
    let mut signer = match sha256_signer(&key) {
        Ok(signer) => signer,
        Err(_) => {
            return Err(SignError::Signing);
        },
    };
    match signer_update(&mut signer, data) {
        Ok(()) => {},
        Err(_) => {
            return Err(SignError::Signing);
        },
    }
    assert(signer.fed@ =~= data@);
    signature_text(signer_finish(&signer))
}

} // verus!
