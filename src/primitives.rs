//! The outside primitives this library builds on: the memory-hard key
//! derivation, the AEAD cipher, the operating system's random source, memory
//! wiping, entry identifiers, the wall clock and URL parsing.
//!
//! Each item here is taken on trust; its doc comment names the outside
//! function it relies on.
use chacha20poly1305::aead::{Aead, KeyInit};
use rand::RngCore;
use vstd::prelude::*;

verus! {

/// Relies on the declaration of argon2's error type, which is carried opaquely.
#[verifier::external_type_specification]
#[verifier::external_body]
pub struct ExArgon2Error(argon2::Error);

/// Relies on the declaration of the AEAD error type, which is carried opaquely.
#[verifier::external_type_specification]
#[verifier::external_body]
pub struct ExAeadError(chacha20poly1305::aead::Error);

/// Relies on the declaration of rand's error type, which is carried opaquely.
#[verifier::external_type_specification]
#[verifier::external_body]
pub struct ExRandError(rand::Error);

/// The 32-byte Argon2id (version 0x13) output for the given memory cost,
/// pass count, lane count, password bytes and salt; `None` where argon2
/// rejects the parameters or inputs.
pub uninterp spec fn argon2id_key(
    m_cost: u32,
    t_cost: u32,
    p_cost: u32,
    pwd: Seq<u8>,
    salt: Seq<u8>,
) -> Option<Seq<u8>>;

/// XChaCha20-Poly1305 ciphertext followed by its tag, for a key, a nonce and
/// a plaintext (no associated data).
pub uninterp spec fn xchacha_sealed(key: Seq<u8>, nonce: Seq<u8>, plaintext: Seq<u8>) -> Seq<u8>;

/// The plaintext that XChaCha20-Poly1305 recovers from a ciphertext-and-tag
/// under a key and a nonce, or `None` where authentication fails.
pub uninterp spec fn xchacha_opened(key: Seq<u8>, nonce: Seq<u8>, sealed: Seq<u8>) -> Option<Seq<u8>>;

/// The host that `url::Url::parse` finds in a URL, or `None` where the text
/// does not parse or has no host.
pub uninterp spec fn url_host_of(url: Seq<char>) -> Option<Seq<char>>;

/// The result of `str::to_lowercase` on a text.
pub uninterp spec fn lowercase_of(s: Seq<char>) -> Seq<char>;

/// The decoded name/value pairs of an `application/x-www-form-urlencoded`
/// query, in order.
pub uninterp spec fn form_pairs_of(query: Seq<char>) -> Seq<(Seq<char>, Seq<char>)>;

/// Relies on argon2's `Params::new`, `Argon2::new` and
/// `Argon2::hash_password_into`: Argon2id, version 0x13, 32 bytes of output.
/// The outcome depends on the parameters and inputs alone. It succeeds with
/// at least 8 KiB and 8 KiB per lane, at least one pass and one lane, a salt
/// of 8 to 2^32 - 1 bytes and a password of at most 2^32 - 1 bytes. The lane
/// count is bounded by argon2's maximum, below which `Params::new` computes
/// `8 * p_cost` without overflow.
#[verifier::external_body]
pub(crate) fn argon2id_derive(m_cost: u32, t_cost: u32, p_cost: u32, pwd: &[u8], salt: &[u8]) -> (r:
    Result<[u8; 32], argon2::Error>)
    requires
        p_cost <= 0xFF_FFFF,
    ensures
        (8 <= m_cost && 8 * p_cost <= m_cost && 1 <= t_cost && 1 <= p_cost && 8 <= salt@.len()
            && salt@.len() <= 0xFFFF_FFFF && pwd@.len() <= 0xFFFF_FFFF) ==> r is Ok,
        match r {
            Ok(k) => argon2id_key(m_cost, t_cost, p_cost, pwd@, salt@) == Some(k@),
            Err(_) => argon2id_key(m_cost, t_cost, p_cost, pwd@, salt@) is None,
        },
{
    let params = argon2::Params::new(m_cost, t_cost, p_cost, Some(32))?;
    let hasher = argon2::Argon2::new(argon2::Algorithm::Argon2id, argon2::Version::V0x13, params);
    let mut out = [0u8; 32];
    hasher.hash_password_into(pwd, salt, &mut out)?;
    Ok(out)
}

/// Relies on `XChaCha20Poly1305::encrypt` (through `KeyInit::new`): it fails
/// only where the plaintext reaches 2^32 - 1 blocks of 64 bytes; otherwise it
/// returns the ciphertext with the 16-byte tag appended, which decrypts back
/// to the plaintext under the same key and nonce.
#[verifier::external_body]
pub(crate) fn xchacha_seal(key: &[u8; 32], nonce: &[u8; 24], plaintext: &[u8]) -> (r: Result<
    Vec<u8>,
    chacha20poly1305::aead::Error,
>)
    ensures
        plaintext@.len() / 64 < 0xFFFF_FFFF ==> r is Ok,
        r matches Ok(c) ==> {
            &&& c@ == xchacha_sealed(key@, nonce@, plaintext@)
            &&& c@.len() == plaintext@.len() + 16
            &&& xchacha_opened(key@, nonce@, c@) == Some(plaintext@)
        },
{
    let cipher = chacha20poly1305::XChaCha20Poly1305::new(chacha20poly1305::Key::from_slice(key));
    cipher.encrypt(chacha20poly1305::XNonce::from_slice(nonce), plaintext)
}

/// Relies on `XChaCha20Poly1305::decrypt` (through `KeyInit::new`): the
/// outcome depends on the key, the nonce and the input alone.
#[verifier::external_body]
pub(crate) fn xchacha_open(key: &[u8; 32], nonce: &[u8; 24], sealed: &[u8]) -> (r: Result<
    Vec<u8>,
    chacha20poly1305::aead::Error,
>)
    ensures
        match r {
            Ok(p) => xchacha_opened(key@, nonce@, sealed@) == Some(p@),
            Err(_) => xchacha_opened(key@, nonce@, sealed@) is None,
        },
{
    let cipher = chacha20poly1305::XChaCha20Poly1305::new(chacha20poly1305::Key::from_slice(key));
    cipher.decrypt(chacha20poly1305::XNonce::from_slice(nonce), sealed)
}

/// Relies on `RngCore::try_fill_bytes` of rand's `OsRng`: the buffer keeps
/// its length; what it holds afterwards is random.
#[verifier::external_body]
pub(crate) fn fill_random(buf: &mut [u8]) -> (r: Result<(), rand::Error>)
    ensures
        final(buf)@.len() == old(buf)@.len(),
{
    rand::rngs::OsRng.try_fill_bytes(buf)
}

/// Relies on zeroize's `Zeroize` for `String`: the bytes are overwritten with
/// zeros and the string is cleared.
#[verifier::external_body]
pub(crate) fn wipe_string(s: &mut String)
    ensures
        final(s)@.len() == 0,
    opens_invariants none
    no_unwind
{
    zeroize::Zeroize::zeroize(s)
}

/// Relies on zeroize's `Zeroize` for byte arrays: every byte becomes zero.
#[verifier::external_body]
pub(crate) fn wipe_key(k: &mut [u8; 32])
    ensures
        forall|i: int| 0 <= i < 32 ==> final(k)@[i] == 0u8,
    opens_invariants none
    no_unwind
{
    zeroize::Zeroize::zeroize(k)
}

/// Relies on uuid's `Builder::from_random_bytes` and `into_uuid`, which set
/// the version 4 and variant bits on sixteen random bytes, and on the
/// hyphenated `Display` form of a UUID, which is 36 characters long.
#[verifier::external_body]
pub(crate) fn uuid_v4_text(random_bytes: &[u8; 16]) -> (r: String)
    ensures
        r@.len() == 36,
{
    uuid::Builder::from_random_bytes(*random_bytes).into_uuid().to_string()
}

/// Relies on `url::Url::parse` and `Url::host_str`: the host of a URL, by the
/// text alone.
#[verifier::external_body]
pub(crate) fn url_host(url: &str) -> (r: Option<String>)
    ensures
        match r {
            Some(h) => url_host_of(url@) == Some(h@),
            None => url_host_of(url@) is None,
        },
{
    url::Url::parse(url).ok().and_then(|u| u.host_str().map(|h| h.to_string()))
}

/// Relies on `str::to_lowercase`: the result depends on the text alone.
#[verifier::external_body]
pub(crate) fn to_lowercase(s: &str) -> (r: String)
    ensures
        r@ == lowercase_of(s@),
{
    s.to_lowercase()
}

/// Relies on `url::form_urlencoded::parse`, decoded into owned pairs in the
/// order they appear.
#[verifier::external_body]
pub(crate) fn form_pairs(query: &str) -> (r: Vec<(String, String)>)
    ensures
        r@.len() == form_pairs_of(query@).len(),
        forall|i: int|
            0 <= i < r@.len() ==> (#[trigger] r@[i]).0@ == form_pairs_of(query@)[i].0 && r@[i].1@
                == form_pairs_of(query@)[i].1,
{
    url::form_urlencoded::parse(query.as_bytes()).into_owned().collect()
}

} // verus!
