//! Key derivation and the sealed vault file.
//!
//! The current layout is `[magic "TORG"][version][salt 32][nonce 24][ciphertext + tag 16]`.
//! Two older layouts stay readable: `[version][salt][nonce][sealed]` and the
//! headerless `[salt][nonce][sealed]`. A file whose first byte is the version
//! byte is ambiguous between them; it is read as the versioned layout first,
//! and as the headerless one only where that reading fails authentication.
use crate::models::{NONCE_LEN, SALT_LEN, VAULT_FORMAT_VERSION};
use crate::primitives::{
    argon2id_derive, argon2id_key, fill_random, xchacha_open, xchacha_opened, xchacha_seal,
    xchacha_sealed,
};
use vstd::prelude::*;
use vstd::string::StringSliceAdditionalSpecFns;

verus! {

/// Length of the AEAD authentication tag appended to the ciphertext.
pub const AEAD_TAG_LEN: usize = 16;

/// Length of the current header: the magic bytes and the version byte.
pub const HEADER_LEN: usize = 5;

/// Shortest readable file: a headerless salt, nonce and bare tag.
pub const MIN_FILE_LEN: usize = 72;

/// Argon2id working memory, in KiB (64 MiB).
pub const KDF_MEMORY_KIB: u32 = 65536;

/// Argon2id passes.
pub const KDF_PASSES: u32 = 3;

/// Argon2id lanes.
pub const KDF_LANES: u32 = 1;

/// Errors of key derivation and of reading or writing a vault file.
#[derive(Clone, Debug)]
pub enum VaultError {
    /// The file could not be read or written.
    Io(String),
    /// The file is too short to hold a vault.
    Format(String),
    /// Authentication failed: a wrong passphrase or a damaged file.
    Crypto(String),
    /// The entry collection could not be encoded or decoded.
    Json(String),
    /// The key derivation parameters or inputs were rejected.
    Kdf(String),
}

/// The variant of a [`VaultError`], without its message.
#[derive(Clone, Copy, Debug, PartialEq, Eq, Structural)]
pub enum FailureKind {
    Io,
    Format,
    Crypto,
    Json,
    Kdf,
}

impl VaultError {
    pub open spec fn spec_kind(&self) -> FailureKind {
        match self {
            VaultError::Io(_) => FailureKind::Io,
            VaultError::Format(_) => FailureKind::Format,
            VaultError::Crypto(_) => FailureKind::Crypto,
            VaultError::Json(_) => FailureKind::Json,
            VaultError::Kdf(_) => FailureKind::Kdf,
        }
    }

    #[verifier::when_used_as_spec(spec_kind)]
    pub fn kind(&self) -> (r: FailureKind)
        ensures
            r == self.spec_kind(),
    {
        match self {
            VaultError::Io(_) => FailureKind::Io,
            VaultError::Format(_) => FailureKind::Format,
            VaultError::Crypto(_) => FailureKind::Crypto,
            VaultError::Json(_) => FailureKind::Json,
            VaultError::Kdf(_) => FailureKind::Kdf,
        }
    }

    /// The error as text: the variant's name, then its message.
    pub fn message(&self) -> (r: String) {
        let (mut text, m) = match self {
            VaultError::Io(m) => ("Io: ".to_string(), m),
            VaultError::Format(m) => ("Format: ".to_string(), m),
            VaultError::Crypto(m) => ("Crypto: ".to_string(), m),
            VaultError::Json(m) => ("Json: ".to_string(), m),
            VaultError::Kdf(m) => ("Kdf: ".to_string(), m),
        };
        text.append(m.as_str());
        text
    }
}

/// The magic bytes that open the current layout: "TORG".
pub open spec fn magic() -> Seq<u8> {
    seq![0x54u8, 0x4fu8, 0x52u8, 0x47u8]
}

/// The key that a passphrase (as UTF-8 bytes) and a salt derive, if any.
pub open spec fn passphrase_key(pwd: Seq<u8>, salt: Seq<u8>) -> Option<Seq<u8>> {
    argon2id_key(KDF_MEMORY_KIB, KDF_PASSES, KDF_LANES, pwd, salt)
}

/// The bytes of a vault file in the current layout.
pub open spec fn file_image(salt: Seq<u8>, nonce: Seq<u8>, sealed: Seq<u8>) -> Seq<u8> {
    magic() + seq![VAULT_FORMAT_VERSION] + salt + nonce + sealed
}

/// What reading a file yields: the plaintext, the salt and the derived key,
/// or the kind of failure.
pub type Opened = (Seq<u8>, Seq<u8>, Seq<u8>);

/// Reading salt, nonce and sealed data from `offset` on, deriving the key
/// and authenticating.
pub open spec fn open_at(bytes: Seq<u8>, offset: int, pwd: Seq<u8>) -> Result<Opened, FailureKind> {
    if bytes.len() < offset + MIN_FILE_LEN {
        Err(FailureKind::Format)
    } else {
        let salt = bytes.subrange(offset, offset + 32);
        let nonce = bytes.subrange(offset + 32, offset + 56);
        let sealed = bytes.subrange(offset + 56, bytes.len() as int);
        match passphrase_key(pwd, salt) {
            None => Err(FailureKind::Kdf),
            Some(key) => match xchacha_opened(key, nonce, sealed) {
                None => Err(FailureKind::Crypto),
                Some(plaintext) => Ok((plaintext, salt, key)),
            },
        }
    }
}

/// Whether a file starts with the magic bytes and a version byte.
pub open spec fn has_magic(bytes: Seq<u8>) -> bool {
    bytes.len() >= HEADER_LEN && bytes.subrange(0, 4) == magic()
}

/// Reading a vault file of any layout under a passphrase.
pub open spec fn load_spec(bytes: Seq<u8>, pwd: Seq<u8>) -> Result<Opened, FailureKind> {
    if bytes.len() < MIN_FILE_LEN {
        Err(FailureKind::Format)
    } else if has_magic(bytes) {
        open_at(bytes, HEADER_LEN as int, pwd)
    } else if bytes[0] == VAULT_FORMAT_VERSION {
        match open_at(bytes, 1, pwd) {
            Err(FailureKind::Crypto) => match open_at(bytes, 0, pwd) {
                Ok(o) => Ok(o),
                Err(_) => Err(FailureKind::Crypto),
            },
            other => other,
        }
    } else {
        open_at(bytes, 0, pwd)
    }
}

/// A read result seen through its views and error kinds.
pub open spec fn outcome(r: Result<(Vec<u8>, [u8; 32], [u8; 32]), VaultError>) -> Result<
    Opened,
    FailureKind,
> {
    match r {
        Ok((p, s, k)) => Ok((p@, s@, k@)),
        Err(e) => Err(e.spec_kind()),
    }
}

/// A fresh random salt.
pub fn generate_salt() -> (r: Result<[u8; 32], VaultError>)
    ensures
        r matches Err(e) ==> e.spec_kind() == FailureKind::Io,
{
    let mut salt = [0u8; SALT_LEN];
    match fill_random(&mut salt) {
        Ok(()) => Ok(salt),
        Err(_) => Err(VaultError::Io("random source unavailable".to_string())),
    }
}

/// A fresh random nonce.
fn generate_nonce() -> (r: Result<[u8; 24], VaultError>)
    ensures
        r matches Err(e) ==> e.spec_kind() == FailureKind::Io,
{
    let mut nonce = [0u8; NONCE_LEN];
    match fill_random(&mut nonce) {
        Ok(()) => Ok(nonce),
        Err(_) => Err(VaultError::Io("random source unavailable".to_string())),
    }
}

/// Derives the 32-byte key for a passphrase and salt with Argon2id
/// (64 MiB, 3 passes, 1 lane). It fails only on a passphrase longer than
/// 2^32 - 1 bytes.
pub fn derive_key(master_password: &str, salt: &[u8; 32]) -> (r: Result<[u8; 32], VaultError>)
    ensures
        master_password.spec_bytes().len() <= 0xFFFF_FFFF ==> r is Ok,
        match r {
            Ok(k) => passphrase_key(master_password.spec_bytes(), salt@) == Some(k@),
            Err(e) => e.spec_kind() == FailureKind::Kdf && passphrase_key(
                master_password.spec_bytes(),
                salt@,
            ) is None,
        },
{
    match argon2id_derive(KDF_MEMORY_KIB, KDF_PASSES, KDF_LANES, master_password.as_bytes(), salt) {
        Ok(k) => Ok(k),
        Err(_) => Err(VaultError::Kdf("argon2 rejected the parameters or inputs".to_string())),
    }
}

/// The bytes of a vault file in the current layout, sealed with the given
/// nonce. Encryption fails only on a plaintext of 2^32 - 1 blocks of 64
/// bytes or more.
pub fn seal_with_nonce(plaintext: &[u8], salt: &[u8; 32], key: &[u8; 32], nonce: &[u8; 24]) -> (r:
    Result<Vec<u8>, VaultError>)
    ensures
        plaintext@.len() / 64 < 0xFFFF_FFFF ==> r is Ok,
        match r {
            Ok(f) => {
                &&& f@ == file_image(salt@, nonce@, xchacha_sealed(key@, nonce@, plaintext@))
                &&& xchacha_opened(key@, nonce@, xchacha_sealed(key@, nonce@, plaintext@)) == Some(
                    plaintext@,
                )
                &&& xchacha_sealed(key@, nonce@, plaintext@).len() == plaintext@.len() + 16
            },
            Err(e) => e.spec_kind() == FailureKind::Crypto,
        },
{
    let sealed = match xchacha_seal(key, nonce, plaintext) {
        Ok(c) => c,
        Err(_) => {
            return Err(VaultError::Crypto("encryption failed".to_string()));
        },
    };
    let mut out: Vec<u8> = Vec::new();
    out.push(0x54u8);
    out.push(0x4fu8);
    out.push(0x52u8);
    out.push(0x47u8);
    out.push(VAULT_FORMAT_VERSION);
    out.extend_from_slice(salt.as_slice());
    out.extend_from_slice(nonce.as_slice());
    out.extend_from_slice(sealed.as_slice());
    assert(out@ =~= file_image(salt@, nonce@, sealed@));
    Ok(out)
}

/// The bytes of a vault file in the current layout, sealed under `key` with
/// a fresh random nonce. Reading them back with any passphrase that derives
/// `key_bytes` from `salt` yields the plaintext, the salt and that key. Only the
/// random source, or a plaintext too long to encrypt, makes it fail.
pub fn save_with_key(plaintext: &[u8], salt: &[u8; 32], key_bytes: &[u8; 32]) -> (r: Result<
    Vec<u8>,
    VaultError,
>)
    ensures
        match r {
            Ok(f) => {
                &&& exists|nonce: Seq<u8>|
                    nonce.len() == NONCE_LEN && f@ == file_image(
                        salt@,
                        nonce,
                        xchacha_sealed(key_bytes@, nonce, plaintext@),
                    )
                &&& forall|pwd: Seq<u8>|
                    #[trigger] passphrase_key(pwd, salt@) == Some(key_bytes@) ==> load_spec(
                        f@,
                        pwd,
                    ) == Ok::<Opened, FailureKind>((plaintext@, salt@, key_bytes@))
            },
            Err(e) => {
                &&& e.spec_kind() == FailureKind::Io || e.spec_kind() == FailureKind::Crypto
                &&& plaintext@.len() / 64 < 0xFFFF_FFFF ==> e.spec_kind() == FailureKind::Io
            },
        },
{
    let nonce = generate_nonce()?;
    let out = seal_with_nonce(plaintext, salt, key_bytes, &nonce)?;
    assert forall|pwd: Seq<u8>| #[trigger]
        passphrase_key(pwd, salt@) == Some(key_bytes@) implies load_spec(out@, pwd) == Ok::<Opened, FailureKind>(
        (plaintext@, salt@, key_bytes@),
    ) by {
        lemma_round_trip(pwd, salt@, nonce@, xchacha_sealed(key_bytes@, nonce@, plaintext@), plaintext@);
    }
    Ok(out)
}

/// Copies `N` bytes starting at `offset`.
fn copy_array<const N: usize>(bytes: &[u8], offset: usize) -> (r: [u8; N])
    requires
        offset + N <= bytes@.len(),
    ensures
        r@ == bytes@.subrange(offset as int, offset + N),
{
    let len = bytes.len();
    let mut out = [0u8; N];
    let mut i: usize = 0;
    while i < N
        invariant
            len == bytes@.len(),
            offset + N <= bytes@.len(),
            i <= N,
            out@.len() == N,
            forall|j: int| 0 <= j < i ==> out@[j] == bytes@[offset + j],
        decreases N - i,
    {
        out[i] = bytes[offset + i];
        i = i + 1;
    }
    assert(out@ =~= bytes@.subrange(offset as int, offset + N));
    out
}

/// Reads salt, nonce and sealed data from `offset` on, derives the key and
/// authenticates.
fn open_from(bytes: &[u8], offset: usize, master_password: &str) -> (r: Result<
    (Vec<u8>, [u8; 32], [u8; 32]),
    VaultError,
>)
    requires
        offset <= HEADER_LEN,
    ensures
        outcome(r) == open_at(bytes@, offset as int, master_password.spec_bytes()),
{
    if bytes.len() < offset + MIN_FILE_LEN {
        return Err(VaultError::Format("vault file too small".to_string()));
    }
    let salt: [u8; 32] = copy_array(bytes, offset);
    let nonce: [u8; 24] = copy_array(bytes, offset + SALT_LEN);
    let sealed = &bytes[offset + SALT_LEN + NONCE_LEN..bytes.len()];
    assert(sealed@ =~= bytes@.subrange(offset + 56, bytes@.len() as int));
    let key = derive_key(master_password, &salt)?;
    match xchacha_open(&key, &nonce, sealed) {
        Ok(plaintext) => Ok((plaintext, salt, key)),
        Err(_) => Err(VaultError::Crypto("authentication failed".to_string())),
    }
}

/// Whether the file opens with the magic bytes and has room for the
/// version byte.
fn starts_with_magic(bytes: &[u8]) -> (r: bool)
    ensures
        r == has_magic(bytes@),
{
    if bytes.len() < HEADER_LEN {
        return false;
    }
    let r = bytes[0] == 0x54u8 && bytes[1] == 0x4fu8 && bytes[2] == 0x52u8 && bytes[3] == 0x47u8;
    assert(r ==> bytes@.subrange(0, 4) =~= magic());
    assert(bytes@.subrange(0, 4) =~= magic() ==> bytes@.subrange(0, 4)[0] == magic()[0]
        && bytes@.subrange(0, 4)[1] == magic()[1] && bytes@.subrange(0, 4)[2] == magic()[2]
        && bytes@.subrange(0, 4)[3] == magic()[3]);
    r
}

/// Reads a vault file of any of the three layouts under a passphrase: the
/// plaintext, the salt and the derived key.
///
/// A file that opens with the version byte is read as the versioned layout
/// first; only where that reading fails authentication is it read again as
/// the headerless layout, and if that fails too the first failure is
/// returned. Any other failure of the first reading is returned at once.
pub fn load_with_password(bytes: &[u8], master_password: &str) -> (r: Result<
    (Vec<u8>, [u8; 32], [u8; 32]),
    VaultError,
>)
    ensures
        outcome(r) == load_spec(bytes@, master_password.spec_bytes()),
{
    if bytes.len() < MIN_FILE_LEN {
        return Err(VaultError::Format("vault file too small".to_string()));
    }
    if starts_with_magic(bytes) {
        if bytes.len() < HEADER_LEN + MIN_FILE_LEN {
            return Err(VaultError::Format("versioned vault file too small".to_string()));
        }
        open_from(bytes, HEADER_LEN, master_password)
    } else if bytes[0] == VAULT_FORMAT_VERSION {
        if bytes.len() < 1 + MIN_FILE_LEN {
            return Err(VaultError::Format("versioned vault file too small".to_string()));
        }
        match open_from(bytes, 1, master_password) {
            Ok(ok) => Ok(ok),
            Err(VaultError::Crypto(m)) => match open_from(bytes, 0, master_password) {
                Ok(ok) => Ok(ok),
                Err(_) => Err(VaultError::Crypto(m)),
            },
            Err(e) => Err(e),
        }
    } else {
        open_from(bytes, 0, master_password)
    }
}

/// A file written in the current layout reads back, under any passphrase
/// that derives the sealing key from its salt, as the sealed plaintext, the
/// salt and that key.
pub proof fn lemma_round_trip(
    pwd: Seq<u8>,
    salt: Seq<u8>,
    nonce: Seq<u8>,
    sealed: Seq<u8>,
    plaintext: Seq<u8>,
)
    requires
        salt.len() == SALT_LEN,
        nonce.len() == NONCE_LEN,
        sealed.len() >= AEAD_TAG_LEN,
        passphrase_key(pwd, salt) is Some,
        xchacha_opened(passphrase_key(pwd, salt)->0, nonce, sealed) == Some(plaintext),
    ensures
        load_spec(file_image(salt, nonce, sealed), pwd) == Ok::<Opened, FailureKind>(
            (plaintext, salt, passphrase_key(pwd, salt)->0),
        ),
{
    let f = file_image(salt, nonce, sealed);
    assert(f.subrange(0, 4) =~= magic());
    assert(f.subrange(5, 37) =~= salt);
    assert(f.subrange(37, 61) =~= nonce);
    assert(f.subrange(61, f.len() as int) =~= sealed);
}

/// A headerless file whose salt begins with the version byte still reads as
/// its sealed plaintext, wherever reading it as the versioned layout fails
/// authentication.
pub proof fn lemma_legacy_collision(
    pwd: Seq<u8>,
    salt: Seq<u8>,
    nonce: Seq<u8>,
    sealed: Seq<u8>,
    plaintext: Seq<u8>,
)
    requires
        salt.len() == SALT_LEN,
        nonce.len() == NONCE_LEN,
        sealed.len() >= AEAD_TAG_LEN,
        salt[0] == VAULT_FORMAT_VERSION,
        passphrase_key(pwd, salt) is Some,
        xchacha_opened(passphrase_key(pwd, salt)->0, nonce, sealed) == Some(plaintext),
        open_at(salt + nonce + sealed, 1, pwd) == Err::<Opened, FailureKind>(FailureKind::Crypto),
    ensures
        load_spec(salt + nonce + sealed, pwd) == Ok::<Opened, FailureKind>(
            (plaintext, salt, passphrase_key(pwd, salt)->0),
        ),
{
    let f = salt + nonce + sealed;
    assert(f[0] == salt[0]);
    assert(f.subrange(0, 4)[0] == salt[0]);
    assert(f.subrange(0, 4) != magic());
    assert(f.subrange(0, 32) =~= salt);
    assert(f.subrange(32, 56) =~= nonce);
    assert(f.subrange(56, f.len() as int) =~= sealed);
}

/// A file in the current layout whose sealed data does not authenticate
/// under the key that another passphrase derives fails with an
/// authentication error, and yields nothing of its content.
pub proof fn lemma_wrong_passphrase_fails(
    other: Seq<u8>,
    salt: Seq<u8>,
    nonce: Seq<u8>,
    sealed: Seq<u8>,
)
    requires
        salt.len() == SALT_LEN,
        nonce.len() == NONCE_LEN,
        sealed.len() >= AEAD_TAG_LEN,
        passphrase_key(other, salt) is Some,
        xchacha_opened(passphrase_key(other, salt)->0, nonce, sealed) is None,
    ensures
        load_spec(file_image(salt, nonce, sealed), other) == Err::<Opened, FailureKind>(
            FailureKind::Crypto,
        ),
{
    let f = file_image(salt, nonce, sealed);
    assert(f.subrange(0, 4) =~= magic());
    assert(f.subrange(5, 37) =~= salt);
    assert(f.subrange(37, 61) =~= nonce);
    assert(f.subrange(61, f.len() as int) =~= sealed);
}

} // verus!
