//! Hashing, random bytes, comparison in constant time and authenticated encryption, through
//! `sha2`, `rand`, `subtle` and `openssl`.
use rand::RngCore;
use sha2::Digest;
use subtle::ConstantTimeEq;
use vstd::prelude::*;

verus! {

/// The length of the nonce in front of an encrypted payload.
pub const NONCE_BYTES: usize = 16;

/// The length of the authentication tag behind an encrypted payload.
pub const GCM_TAG_BYTES: usize = 16;

/// The length of an AES-128 key.
pub const KEY_BYTES: usize = 16;

/// The most bytes that one call of the cipher takes: with a block behind them they have to fit in
/// a C `int`.
pub const MAX_CIPHER_BYTES: usize = 0x7fff_ffff - 16;

/// The SHA-256 digest of data.
pub uninterp spec fn sha256_digest(data: Seq<u8>) -> Seq<u8>;

/// `sha2::Sha256` over the whole of the data: 32 bytes that the data determines.
#[verifier::external_body]
fn sha256_of(data: &[u8]) -> (r: Vec<u8>)
    ensures
        r@ == sha256_digest(data@),
        r@.len() == 32,
{
    sha2::Sha256::digest(data).to_vec()
}

/// The SHA-256 digest of data.
pub fn sha256(data: &[u8]) -> (r: Vec<u8>)
    ensures
        r@ == sha256_digest(data@),
        r@.len() == 32,
{
    sha256_of(data)
}

/// `rand::RngCore::fill_bytes` on the thread's generator: it fills the buffer, with what is left
/// open.
#[verifier::external_body]
fn fill_random(buffer: &mut Vec<u8>)
    ensures
        final(buffer)@.len() == old(buffer)@.len(),
{
    rand::thread_rng().fill_bytes(buffer)
}

/// So many random bytes.
pub fn random_bytes(count: usize) -> (r: Vec<u8>)
    ensures
        r@.len() == count,
{
    let mut output: Vec<u8> = vec![0u8; count];
    fill_random(&mut output);
    output
}

/// `rand::RngCore::next_u64` on the thread's generator: any number.
#[verifier::external_body]
pub(crate) fn random_u64() -> u64 {
    rand::thread_rng().next_u64()
}

/// `subtle::ConstantTimeEq::ct_eq` on byte slices: whether they are equal.
#[verifier::external_body]
fn ct_eq(a: &[u8], b: &[u8]) -> (r: bool)
    ensures
        r == (a@ == b@),
{
    a.ct_eq(b).into()
}

/// Whether two byte strings are equal, compared in constant time.
pub fn constant_time_eq(a: &[u8], b: &[u8]) -> (r: bool)
    ensures
        r == (a@ == b@),
{
    ct_eq(a, b)
}

/// Where a run of the cipher stopped.
#[derive(Debug, Clone, Copy, PartialEq, Eq, Structural)]
pub enum CipherFailure {
    /// The cipher could not be set up.
    Setup,
    /// Data could not be passed through it.
    Run,
    /// The end of the data was not accepted, as where the authentication tag is not that of the
    /// data.
    Mismatch,
}

/// The ciphertext and the 16-byte tag that AES-128-GCM makes of a plaintext under a key and a
/// nonce, with no further authenticated data.
pub uninterp spec fn gcm_sealed(key: Seq<u8>, nonce: Seq<u8>, plain: Seq<u8>) -> (Seq<u8>, Seq<u8>);

/// AES-128-GCM encryption with `openssl::symm::Crypter`. The ciphertext is as long as the
/// plaintext. Nothing is said of when OpenSSL fails.
#[verifier::external_body]
pub(crate) fn gcm_encrypt(key: &[u8], nonce: &[u8], plain: &[u8]) -> (r: std::result::Result<
    (Vec<u8>, Vec<u8>),
    CipherFailure,
>)
    requires
        key@.len() == KEY_BYTES,
        nonce@.len() == NONCE_BYTES,
        plain@.len() <= MAX_CIPHER_BYTES,
    ensures
        r matches Ok((body, tag)) ==> (body@, tag@) == gcm_sealed(key@, nonce@, plain@)
            && body@.len() == plain@.len() && tag@.len() == GCM_TAG_BYTES,
        r matches Err(failure) ==> failure != CipherFailure::Mismatch,
{
    let cipher = openssl::symm::Cipher::aes_128_gcm();
    let mut crypter = openssl::symm::Crypter::new(
        cipher, openssl::symm::Mode::Encrypt, key, Some(nonce),
    ).map_err(|_| CipherFailure::Setup)?;
    let mut body = [plain, &[0u8; 16][..]].concat();
    let count = crypter.update(plain, &mut body).map_err(|_| CipherFailure::Run)?;
    crypter.finalize(&mut body[count..]).map_err(|_| CipherFailure::Run)?;
    body.truncate(count);
    let mut tag = vec![0u8; 16];
    crypter.get_tag(&mut tag).map_err(|_| CipherFailure::Run)?;
    Ok((body, tag))
}

/// AES-128-GCM decryption with `openssl::symm::Crypter`. What comes out is the one plaintext that
/// the key and the nonce make into this ciphertext and tag. Nothing is said of when OpenSSL fails.
#[verifier::external_body]
pub(crate) fn gcm_decrypt(key: &[u8], nonce: &[u8], body: &[u8], tag: &[u8]) -> (r: std::result::Result<
    Vec<u8>,
    CipherFailure,
>)
    requires
        key@.len() == KEY_BYTES,
        nonce@.len() == NONCE_BYTES,
        tag@.len() == GCM_TAG_BYTES,
        body@.len() <= MAX_CIPHER_BYTES,
    ensures
        r matches Ok(plain) ==> gcm_sealed(key@, nonce@, plain@) == (body@, tag@)
            && plain@.len() == body@.len(),
        r matches Ok(plain) ==> forall|p: Seq<u8>| #[trigger]
            gcm_sealed(key@, nonce@, p) == (body@, tag@) ==> p == plain@,
{
    let cipher = openssl::symm::Cipher::aes_128_gcm();
    let mut crypter = openssl::symm::Crypter::new(
        cipher, openssl::symm::Mode::Decrypt, key, Some(nonce),
    ).map_err(|_| CipherFailure::Setup)?;
    crypter.set_tag(tag).map_err(|_| CipherFailure::Setup)?;
    let mut plain = [body, &[0u8; 16][..]].concat();
    let count = crypter.update(body, &mut plain).map_err(|_| CipherFailure::Run)?;
    crypter.finalize(&mut plain[count..]).map_err(|_| CipherFailure::Mismatch)?;
    plain.truncate(count);
    Ok(plain)
}

} // verus!
