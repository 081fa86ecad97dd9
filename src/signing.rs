//! RSA key pairs and SHA-256 signatures over request bodies, in base64.
use vstd::prelude::*;
use crate::common::BunqyyError;
use vstd::utf8::encode_utf8;

verus! {

/// The PKCS#1 v1.5 RSA signature of the SHA-256 digest of `data` under the
/// private key in `private_key_pem`.
pub uninterp spec fn rsa_sha256_signature(private_key_pem: Seq<char>, data: Seq<u8>) -> Seq<u8>;

/// The length in bytes of the modulus of the RSA key in `private_key_pem`.
pub uninterp spec fn rsa_modulus_bytes(private_key_pem: Seq<char>) -> nat;

/// Whether the PEM text, read with an empty passphrase, holds an RSA private
/// key with which openssl signs SHA-256 digests.
pub uninterp spec fn rsa_key_usable(private_key_pem: Seq<char>) -> bool;

/// The PEM text of the public key that belongs to the RSA private key in
/// `private_key_pem`.
pub uninterp spec fn rsa_public_pem_of(private_key_pem: Seq<char>) -> Seq<char>;

/// The most bytes that openssl's base64 encoder takes: more, and the length
/// of its output with the closing NUL no longer fits a C int.
pub const MAX_BASE64_INPUT: usize = 1_610_612_732;

/// The most bytes of PEM text that openssl reads from memory: a C int's worth.
pub const MAX_PEM_BYTES: usize = 0x7fff_ffff;

/// A key that signs, with signatures short enough to be written in base64.
pub open spec fn can_sign(private_key_pem: Seq<char>) -> bool {
    &&& encode_utf8(private_key_pem).len() <= MAX_PEM_BYTES
    &&& rsa_key_usable(private_key_pem)
    &&& rsa_modulus_bytes(private_key_pem) <= MAX_BASE64_INPUT
}

/// The standard base64 text of `bytes`, with padding and without line breaks.
pub uninterp spec fn base64_of(bytes: Seq<u8>) -> Seq<char>;

/// The number of base64 characters for `n` bytes: four for every three begun.
pub open spec fn base64_len(n: nat) -> nat {
    4 * ((n + 2) / 3)
}

/// The base64 signature text of `data` under the key in `private_key_pem`.
pub open spec fn signature_text(private_key_pem: Seq<char>, data: Seq<u8>) -> Seq<char> {
    base64_of(rsa_sha256_signature(private_key_pem, data))
}

/// Relies on Rsa::private_key_from_pem_passphrase with an empty passphrase
/// (so that no prompt is ever shown), PKey::from_rsa, Signer::new with
/// MessageDigest::sha256 and Signer::sign_oneshot_to_vec: a PKCS#1 v1.5
/// signature, fixed by the key and the data, exactly as long as the modulus.
/// The PEM reader asserts that its input fits a C int.
#[verifier::external_body]
fn rsa_sha256_sign(private_key_pem: &str, data: &[u8]) -> (r: Option<Vec<u8>>)
    requires
        encode_utf8(private_key_pem@).len() <= MAX_PEM_BYTES,
    ensures
        r is Some <==> rsa_key_usable(private_key_pem@),
        r matches Some(sig) ==> sig@ == rsa_sha256_signature(private_key_pem@, data@),
        r matches Some(sig) ==> sig@.len() == rsa_modulus_bytes(private_key_pem@),
{
    let rsa = openssl::rsa::Rsa::private_key_from_pem_passphrase(private_key_pem.as_bytes(), b"").ok()?;
    let key = openssl::pkey::PKey::from_rsa(rsa).ok()?;
    let digest = openssl::hash::MessageDigest::sha256();
    let mut signer = openssl::sign::Signer::new(digest, &key).ok()?;
    signer.sign_oneshot_to_vec(data).ok()
}

/// Relies on openssl::base64::encode_block, which panics where the input
/// length, or the output length with its closing NUL, overflows a C int, and
/// otherwise writes four characters for every three bytes begun.
#[verifier::external_body]
fn base64_encode(bytes: &[u8]) -> (r: String)
    requires
        bytes@.len() <= MAX_BASE64_INPUT,
    ensures
        r@ == base64_of(bytes@),
        r@.len() == base64_len(bytes@.len()),
{
    openssl::base64::encode_block(bytes)
}

/// Relies on Rsa::generate(2048), PKey::from_rsa, and the PEM writers
/// private_key_to_pem_pkcs8 and public_key_to_pem: a fresh key pair whose
/// modulus is 2048 bits, that is 256 bytes, long; the private key signs and
/// the public PEM is that of its public key.
#[verifier::external_body]
fn generate_rsa_2048() -> (r: Option<(String, String)>)
    ensures
        r matches Some(p) ==> rsa_modulus_bytes(p.0@) == 256,
        r matches Some(p) ==> rsa_key_usable(p.0@),
        r matches Some(p) ==> p.1@ == rsa_public_pem_of(p.0@),
{
    let key = openssl::pkey::PKey::from_rsa(openssl::rsa::Rsa::generate(2048).ok()?).ok()?;
    let private_pem = String::from_utf8(key.private_key_to_pem_pkcs8().ok()?).ok()?;
    let public_pem = String::from_utf8(key.public_key_to_pem().ok()?).ok()?;
    Some((private_pem, public_pem))
}

/// A key pair in PEM: the private key in PKCS#8, the public key in SubjectPublicKeyInfo.
#[derive(Clone, Debug)]
pub struct KeyPair {
    pub private_key_pem: String,
    pub public_key_pem: String,
}

/// Generates a fresh 2048-bit RSA key pair.
pub fn generate_keypair() -> (r: Result<KeyPair, BunqyyError>)
    ensures
        r matches Ok(k) ==> rsa_modulus_bytes(k.private_key_pem@) == 256,
        r matches Ok(k) ==> rsa_key_usable(k.private_key_pem@),
        r matches Ok(k) ==> can_sign(k.private_key_pem@),
        r matches Ok(k) ==> k.public_key_pem@ == rsa_public_pem_of(k.private_key_pem@),
        r matches Err(e) ==> e is KeyGeneration,
{
    match generate_rsa_2048() {
        Some((private_key_pem, public_key_pem)) => {
            if private_key_pem.as_str().as_bytes().len() > MAX_PEM_BYTES {
                return Err(BunqyyError::KeyGeneration);
            }
            Ok(KeyPair { private_key_pem, public_key_pem })
        },
        None => Err(BunqyyError::KeyGeneration),
    }
}

/// Signs `data` with the private key in `private_key_pem`; the signature in base64.
/// Its length depends on the key alone, not on `data`.
pub fn sign_bytes_data_to_string(data: &[u8], private_key_pem: String) -> (r: Result<String, BunqyyError>)
    ensures
        r is Ok <==> can_sign(private_key_pem@),
        r matches Ok(s) ==> s@ == signature_text(private_key_pem@, data@),
        r matches Ok(s) ==> s@.len() == base64_len(rsa_modulus_bytes(private_key_pem@)),
        r matches Err(e) ==> e is InvalidPrivateKey,
{
    if private_key_pem.as_str().as_bytes().len() > MAX_PEM_BYTES {
        return Err(BunqyyError::InvalidPrivateKey);
    }
    match rsa_sha256_sign(private_key_pem.as_str(), data) {
        Some(sig) => {
            if sig.len() > MAX_BASE64_INPUT {
                return Err(BunqyyError::InvalidPrivateKey);
            }
            Ok(base64_encode(sig.as_slice()))
        },
        None => Err(BunqyyError::InvalidPrivateKey),
    }
}

/// Signs for one private key; spent by its one use.
#[derive(Clone, Debug)]
pub struct Signer {
    pub private_key_pem: String,
}

impl Signer {
    /// Signs `data` with the signer's key.
    pub fn sign(self, data: &[u8]) -> (r: Result<String, BunqyyError>)
        ensures
            r is Ok <==> can_sign(self.private_key_pem@),
            r matches Ok(s) ==> s@ == signature_text(self.private_key_pem@, data@),
            r matches Ok(s) ==> s@.len() == base64_len(rsa_modulus_bytes(self.private_key_pem@)),
            r matches Err(e) ==> e is InvalidPrivateKey,
    {
        sign_bytes_data_to_string(data, self.private_key_pem)
    }
}

/// A signer bound to the private key in `private_key_pem`.
pub fn create_signer(private_key_pem: String) -> (r: Signer)
    ensures
        r.private_key_pem@ == private_key_pem@,
{
    Signer { private_key_pem }
}

/// For a usable 2048-bit key in PEM text that openssl can read, signing
/// succeeds and every signature text is 344 characters long, whatever the
/// data signed, the empty data included.
pub proof fn signature_length_for_2048_bit_keys(private_key_pem: Seq<char>)
    requires
        encode_utf8(private_key_pem).len() <= MAX_PEM_BYTES,
        rsa_key_usable(private_key_pem),
        rsa_modulus_bytes(private_key_pem) == 256,
    ensures
        can_sign(private_key_pem),
        base64_len(rsa_modulus_bytes(private_key_pem)) == 344,
{
}

} // verus!
