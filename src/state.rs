//! The lock/unlock state machine of the vault and the operations on the
//! entries of an unlocked vault.
//!
//! A vault is either `Locked`, with no key and no entries in memory, or
//! `Unlocked`, with the session key and the decrypted entries together. Each
//! operation takes the current monotonic clock reading (in milliseconds) as
//! `now`. Operations that change the entries change them in memory; the
//! caller then writes the file sealed by [`AppState::seal_for_save`] and
//! reports the outcome to [`AppState::settle_write`], which locks the vault
//! where the write failed, so that memory never runs ahead of the file. A
//! passphrase change installs its new key only after its file is written.
use crate::models::{
    Entry, EntryInput, EntryPublic, EntryUpdateInput, ExtensionConfig, FailedAttemptTracker,
    Timestamp, VaultSession, ts_le, INACTIVITY_TIMEOUT_SECS, MILLIS_PER_SEC,
};
use crate::primitives::{wipe_key, wipe_string};
use crate::text::{blank, is_blank};
use crate::vault::{
    derive_key, generate_salt, load_spec, passphrase_key, save_with_key, FailureKind, Opened,
    VaultError,
};
use vstd::prelude::*;
use vstd::string::StringSliceAdditionalSpecFns;

verus! {

/// Whether a vault is locked, or unlocked with its key and entries.
pub enum VaultState {
    Locked,
    Unlocked { session: VaultSession, entries: Vec<Entry> },
}

/// Errors of the vault operations.
#[derive(Debug)]
pub enum CommandError {
    /// The operation needs an unlocked vault.
    Locked,
    /// Unlocking is refused during a cooldown; the seconds left.
    RateLimited(u64),
    /// The current passphrase given for a change is wrong.
    InvalidCredential,
    /// No entry has the given identifier.
    NotFound,
    /// A vault file exists already.
    AlreadyExists,
    /// There is no vault file to unlock.
    VaultMissing,
    /// A path that the operation needs is blank; what it is for.
    PathRequired(String),
    /// Deriving a key, drawing randomness or sealing failed.
    Vault(VaultError),
    /// Reading the vault file failed; the cooldown that the failure started,
    /// in seconds, if any.
    UnlockFailed { error: VaultError, lockout: Option<u64> },
    /// Writing the vault file failed; the reason.
    WriteFailed(String),
    /// A freshly drawn entry identifier is already taken.
    IdCollision,
}

/// The key material of a passphrase change and the vault file sealed under
/// it. The key is wiped when it is dropped.
pub struct Rekey {
    pub salt: [u8; 32],
    pub key: [u8; 32],
    pub file: Vec<u8>,
}

impl Drop for Rekey {
    fn drop(&mut self)
        opens_invariants none
        no_unwind
    {
        wipe_key(&mut self.key);
    }
}

impl CommandError {
    /// The error as text.
    pub fn message(&self) -> (r: String)
        ensures
            self is Locked ==> r@ == "vault is locked"@,
            self is InvalidCredential ==> r@ == "current master password is incorrect"@,
            self is NotFound ==> r@ == "entry not found"@,
            self is AlreadyExists ==> r@ == "vault already exists"@,
            self is VaultMissing ==> r@ == "vault does not exist"@,
            self is IdCollision ==> r@ == "entry identifier already taken"@,
            self matches CommandError::PathRequired(w) ==> r@ == w@ + " path is required"@,
            self matches CommandError::WriteFailed(w) ==> r@ == "save: "@ + w@,
    {
        match self {
            CommandError::Locked => "vault is locked".to_string(),
            CommandError::RateLimited(secs) => {
                let mut m = "Too many failed attempts. Please wait ".to_string();
                m.append(secs.to_string().as_str());
                m.append(" seconds before trying again.");
                m
            },
            CommandError::InvalidCredential => "current master password is incorrect".to_string(),
            CommandError::NotFound => "entry not found".to_string(),
            CommandError::AlreadyExists => "vault already exists".to_string(),
            CommandError::VaultMissing => "vault does not exist".to_string(),
            CommandError::IdCollision => "entry identifier already taken".to_string(),
            CommandError::PathRequired(what) => {
                let mut m = what.clone();
                m.append(" path is required");
                m
            },
            CommandError::Vault(e) => e.message(),
            CommandError::WriteFailed(reason) => {
                let mut m = "save: ".to_string();
                m.append(reason.as_str());
                m
            },
            CommandError::UnlockFailed { error, lockout } => {
                let mut m = "load: ".to_string();
                m.append(error.message().as_str());
                if let Some(secs) = lockout {
                    m.append(" Too many failed attempts. Account locked for ");
                    m.append(secs.to_string().as_str());
                    m.append(" seconds.");
                }
                m
            },
        }
    }
}

/// Rejects a blank path; `what` names its use in the error.
pub fn require_path(path: &str, what: &str) -> (r: Result<(), CommandError>)
    ensures
        r is Ok <==> !blank(path@),
        r matches Err(e) ==> e matches CommandError::PathRequired(w) && w@ == what@,
{
    if is_blank(path) {
        Err(CommandError::PathRequired(what.to_string()))
    } else {
        Ok(())
    }
}

/// Whether two keys are equal, comparing every byte.
fn keys_equal(a: &[u8; 32], b: &[u8; 32]) -> (r: bool)
    ensures
        r == (a@ == b@),
{
    let mut same = true;
    let mut i: usize = 0;
    while i < 32
        invariant
            i <= 32,
            a@.len() == 32,
            b@.len() == 32,
            same == (forall|j: int| 0 <= j < i ==> a@[j] == b@[j]),
        decreases 32 - i,
    {
        same = same && a[i] == b[i];
        i = i + 1;
    }
    if same {
        assert(a@ =~= b@);
    }
    same
}

/// The first position of an entry with identifier `id`, if any.
pub(crate) fn position_of(entries: &Vec<Entry>, id: &String) -> (r: Option<usize>)
    ensures
        match r {
            Some(i) => first_with_id(entries@, id@, i as int),
            None => !has_id(entries@, id@),
        },
{
    let mut i: usize = 0;
    while i < entries.len()
        invariant
            i <= entries@.len(),
            forall|j: int| 0 <= j < i ==> (#[trigger] entries@[j]).id@ != id@,
        decreases entries@.len() - i,
    {
        if entries[i].id == *id {
            return Some(i);
        }
        i = i + 1;
    }
    None
}

/// Removes every entry with identifier `id`, keeping the order of the rest.
/// Removed entries are wiped as they are dropped.
fn remove_with_id(entries: &mut Vec<Entry>, id: &String)
    ensures
        final(entries)@ == old(entries)@.filter(keeps(id@)),
{
    let ghost orig = entries@;
    let mut kept: Vec<Entry> = Vec::new();
    assert(orig.take(0) =~= Seq::<Entry>::empty());
    proof {
        reveal(Seq::filter);
    }
    assert(entries@ =~= orig.skip(0));
    while entries.len() > 0
        invariant
            entries@.len() <= orig.len(),
            kept@ == orig.take(orig.len() - entries@.len()).filter(keeps(id@)),
            entries@ == orig.skip(orig.len() - entries@.len()),
        decreases entries@.len(),
    {
        let ghost k = orig.len() - entries@.len();
        let e = entries.remove(0);
        assert(e == orig[k]);
        assert(orig.take(k + 1).drop_last() =~= orig.take(k));
        assert(entries@ =~= orig.skip(k + 1));
        proof {
            reveal(Seq::filter);
        }
        if e.id == *id {
        } else {
            kept.push(e);
        }
    }
    assert(orig.take(orig.len() as int) =~= orig);
    *entries = kept;
}

/// Inactivity after which an unlocked vault locks itself, in milliseconds.
pub open spec fn timeout_millis() -> int {
    INACTIVITY_TIMEOUT_SECS * MILLIS_PER_SEC
}

/// Whether an entry does not carry the identifier `id`.
pub open spec fn keeps(id: Seq<char>) -> spec_fn(Entry) -> bool {
    |e: Entry| e.id@ != id
}

/// Whether `i` is the first position of an entry with identifier `id`.
pub open spec fn first_with_id(s: Seq<Entry>, id: Seq<char>, i: int) -> bool {
    &&& 0 <= i < s.len()
    &&& s[i].id@ == id
    &&& forall|j: int| 0 <= j < i ==> (#[trigger] s[j]).id@ != id
}

/// Whether some entry carries the identifier `id`.
pub open spec fn has_id(s: Seq<Entry>, id: Seq<char>) -> bool {
    exists|i: int| 0 <= i < s.len() && (#[trigger] s[i]).id@ == id
}

/// Whether `new` is `old` after an update with `input`: the new fields, the
/// password only where a non-empty one is given, the identifier and creation
/// time kept, and `wall` as update time unless it lies before the creation
/// time, which then counts instead.
pub open spec fn updated_entry(old: Entry, input: EntryUpdateInput, wall: Timestamp, new: Entry) -> bool {
    &&& new.id == old.id
    &&& new.title == input.title
    &&& new.username == input.username
    &&& new.url == input.url
    &&& new.notes == input.notes
    &&& new.password == match input.password {
        Some(p) => if p@.len() > 0 {
            p
        } else {
            old.password
        },
        None => old.password,
    }
    &&& new.created_at == old.created_at
    &&& new.updated_at == if ts_le(old.created_at, wall) {
        wall
    } else {
        old.created_at
    }
}

/// The process-wide state of the vault: the lock state, the time of the last
/// interaction, the failed-attempt tracker and the extension settings.
pub struct AppState {
    pub vault: VaultState,
    /// Monotonic clock reading of the last interaction, in milliseconds.
    pub last_interaction: u64,
    pub failed_attempts: FailedAttemptTracker,
    pub extension_config: ExtensionConfig,
}

impl AppState {
    /// The entries of an unlocked vault; none for a locked one.
    pub open spec fn entries_view(&self) -> Seq<Entry> {
        match self.vault {
            VaultState::Unlocked { entries, .. } => entries@,
            VaultState::Locked => Seq::empty(),
        }
    }

    pub open spec fn spec_is_locked(&self) -> bool {
        self.vault is Locked
    }

    /// The state after locking at `now`.
    pub open spec fn locked_at(self, now: u64) -> AppState {
        AppState {
            vault: VaultState::Locked,
            last_interaction: now,
            failed_attempts: self.failed_attempts,
            extension_config: self.extension_config,
        }
    }

    /// The state after an interaction at `now`.
    pub open spec fn touched_at(self, now: u64) -> AppState {
        AppState {
            vault: self.vault,
            last_interaction: now,
            failed_attempts: self.failed_attempts,
            extension_config: self.extension_config,
        }
    }

    /// Whether an inactivity check at `now` locks the vault.
    pub open spec fn idle_expired(&self, now: u64) -> bool {
        &&& self.vault is Unlocked
        &&& now > self.last_interaction
        &&& now - self.last_interaction > timeout_millis()
    }

    /// A locked state whose last interaction is at `now`.
    pub fn new(now: u64, extension_config: ExtensionConfig) -> (r: AppState)
        ensures
            r.vault is Locked,
            r.last_interaction == now,
            r.failed_attempts.count == 0,
            r.failed_attempts.locked_until is None,
            r.extension_config == extension_config,
    {
        AppState {
            vault: VaultState::Locked,
            last_interaction: now,
            failed_attempts: FailedAttemptTracker { count: 0, locked_until: None },
            extension_config,
        }
    }

    #[verifier::when_used_as_spec(spec_is_locked)]
    pub fn is_locked(&self) -> (r: bool)
        ensures
            r == self.spec_is_locked(),
    {
        match self.vault {
            VaultState::Locked => true,
            VaultState::Unlocked { .. } => false,
        }
    }

    /// Records an interaction at `now`, restarting the inactivity timer.
    pub fn heartbeat(&mut self, now: u64)
        ensures
            *final(self) == old(self).touched_at(now),
    {
        self.last_interaction = now;
    }

    /// Locks the vault at once: the session key and the entries are wiped
    /// and dropped.
    pub fn lock_now(&mut self, now: u64)
        ensures
            *final(self) == old(self).locked_at(now),
    {
        self.vault = VaultState::Locked;
        self.last_interaction = now;
    }

    /// Locks the vault; locking a locked vault changes nothing but the time
    /// of the last interaction, and succeeds.
    pub fn lock_vault(&mut self, now: u64) -> (r: Result<(), CommandError>)
        ensures
            r is Ok,
            *final(self) == old(self).locked_at(now),
            old(self).vault is Locked ==> final(self).vault == old(self).vault
                && final(self).failed_attempts == old(self).failed_attempts
                && final(self).extension_config == old(self).extension_config,
    {
        self.lock_now(now);
        Ok(())
    }

    /// The inactivity check: an unlocked vault whose last interaction lies
    /// more than the timeout before `now` is locked. Returns whether it was.
    pub fn auto_lock(&mut self, now: u64) -> (r: bool)
        ensures
            r == old(self).idle_expired(now),
            r ==> *final(self) == old(self).locked_at(now),
            !r ==> *final(self) == *old(self),
    {
        let unlocked = !self.is_locked();
        if unlocked && now > self.last_interaction && now - self.last_interaction
            > INACTIVITY_TIMEOUT_SECS * MILLIS_PER_SEC {
            self.lock_now(now);
            true
        } else {
            false
        }
    }

    /// Creates a vault: only where no vault file exists yet, with a fresh
    /// random salt, the key that the passphrase derives from it and no
    /// entries. The caller then writes the file.
    pub fn create_vault(&mut self, master_password: &str, vault_exists: bool, now: u64) -> (r:
        Result<(), CommandError>)
        ensures
            vault_exists ==> r matches Err(CommandError::AlreadyExists),
            r is Err ==> *final(self) == *old(self),
            !vault_exists && r is Err ==> (r matches Err(CommandError::Vault(v)) && (v.spec_kind()
                == FailureKind::Io || v.spec_kind() == FailureKind::Kdf)),
            !vault_exists && r is Err && master_password.spec_bytes().len() <= 0xFFFF_FFFF ==> (
            r matches Err(CommandError::Vault(v)) && v.spec_kind() == FailureKind::Io),
            r is Ok ==> {
                &&& final(self).vault matches VaultState::Unlocked { session, entries } && entries@.len()
                    == 0 && passphrase_key(master_password.spec_bytes(), session.salt@) == Some(
                    session.key@,
                )
                &&& final(self).last_interaction == now
                &&& final(self).failed_attempts == old(self).failed_attempts
                &&& final(self).extension_config == old(self).extension_config
            },
    {
        if vault_exists {
            return Err(CommandError::AlreadyExists);
        }
        let salt = match generate_salt() {
            Ok(s) => s,
            Err(e) => {
                return Err(CommandError::Vault(e));
            },
        };
        let key = match derive_key(master_password, &salt) {
            Ok(k) => k,
            Err(e) => {
                return Err(CommandError::Vault(e));
            },
        };
        self.vault = VaultState::Unlocked { session: VaultSession::new(salt, key), entries: Vec::new() };
        self.last_interaction = now;
        Ok(())
    }

    /// Decides whether an unlock may be tried: during a cooldown the attempt is
    /// refused with the seconds left, and no decryption is tried; an elapsed
    /// cooldown clears the tracker. Without a vault file there is nothing to
    /// unlock.
    pub fn begin_unlock(&mut self, vault_exists: bool, now: u64) -> (r: Result<(), CommandError>)
        ensures
            final(self).failed_attempts == old(self).failed_attempts.after_check(now),
            final(self).vault == old(self).vault,
            final(self).last_interaction == old(self).last_interaction,
            final(self).extension_config == old(self).extension_config,
            match old(self).failed_attempts.check_reply(now) {
                Some(secs) => r matches Err(CommandError::RateLimited(s)) && s == secs,
                None => if vault_exists {
                    r is Ok
                } else {
                    r matches Err(CommandError::VaultMissing)
                },
            },
    {
        match self.failed_attempts.check_lockout(now) {
            Some(secs) => Err(CommandError::RateLimited(secs)),
            None => if vault_exists {
                Ok(())
            } else {
                Err(CommandError::VaultMissing)
            },
        }
    }

    /// Completes an unlock with what reading the vault file gave. On success
    /// the tracker is cleared and the session and entries are installed; on
    /// failure the vault stays as it was and the failure is recorded, which
    /// may start a cooldown.
    pub fn unlock_vault(
        &mut self,
        loaded: Result<(Vec<Entry>, [u8; 32], [u8; 32]), VaultError>,
        now: u64,
    ) -> (r: Result<(), CommandError>)
        ensures
            final(self).extension_config == old(self).extension_config,
            match loaded {
                Ok((entries, salt, key)) => {
                    &&& r is Ok
                    &&& final(self).vault matches VaultState::Unlocked { session, entries: es }
                        && session.salt == salt && session.key == key && es == entries
                    &&& final(self).failed_attempts.count == 0
                    &&& final(self).failed_attempts.locked_until is None
                    &&& final(self).last_interaction == now
                },
                Err(error) => {
                    &&& r matches Err(CommandError::UnlockFailed { error: e, lockout })
                        && e == error && lockout == old(self).failed_attempts.failure_reply(now)
                    &&& final(self).failed_attempts == old(self).failed_attempts.after_failure(now)
                    &&& final(self).vault == old(self).vault
                    &&& final(self).last_interaction == old(self).last_interaction
                },
            },
    {
        match loaded {
            Ok((entries, salt, key)) => {
                self.failed_attempts.reset();
                self.vault = VaultState::Unlocked { session: VaultSession::new(salt, key), entries };
                self.last_interaction = now;
                Ok(())
            },
            Err(error) => {
                let lockout = self.failed_attempts.record_failure(now);
                Err(CommandError::UnlockFailed { error, lockout })
            },
        }
    }

    /// Seals a serialized entry collection under the session's salt and key
    /// with a fresh nonce: the bytes of the vault file to write. Reading them
    /// back with any passphrase that derives the session key from its salt
    /// yields the same plaintext.
    pub fn seal_for_save(&self, plaintext: &[u8]) -> (r: Result<Vec<u8>, CommandError>)
        ensures
            self.vault is Locked ==> r matches Err(CommandError::Locked),
            !(self.vault is Locked) && r is Err ==> (r matches Err(CommandError::Vault(v)) && (
            v.spec_kind() == FailureKind::Io || v.spec_kind() == FailureKind::Crypto)),
            !(self.vault is Locked) && r is Err && plaintext@.len() / 64 < 0xFFFF_FFFF ==> (
            r matches Err(CommandError::Vault(v)) && v.spec_kind() == FailureKind::Io),
            r matches Ok(f) ==> self.vault matches VaultState::Unlocked { session, .. } && forall|
                pwd: Seq<u8>,
            |
                #[trigger] passphrase_key(pwd, session.salt@) == Some(session.key@) ==> load_spec(
                    f@,
                    pwd,
                ) == Ok::<Opened, FailureKind>((plaintext@, session.salt@, session.key@)),
    {
        match &self.vault {
            VaultState::Locked => Err(CommandError::Locked),
            VaultState::Unlocked { session, .. } => {
                match save_with_key(plaintext, &session.salt, &session.key) {
                    Ok(f) => Ok(f),
                    Err(e) => Err(CommandError::Vault(e)),
                }
            },
        }
    }

    /// Installs the entries read from another vault file as this vault's,
    /// sealed from now on under a fresh salt and the key that the same
    /// passphrase derives from it. The other file's key is wiped. Counts as
    /// an interaction. The caller then writes the file.
    pub fn import_vault(
        &mut self,
        loaded: (Vec<Entry>, [u8; 32], [u8; 32]),
        master_password: &str,
        now: u64,
    ) -> (r: Result<(), CommandError>)
        ensures
            final(self).last_interaction == now,
            final(self).failed_attempts == old(self).failed_attempts,
            final(self).extension_config == old(self).extension_config,
            r is Err ==> final(self).vault == old(self).vault,
            r matches Err(e) ==> e matches CommandError::Vault(v) && (v.spec_kind()
                == FailureKind::Io || v.spec_kind() == FailureKind::Kdf),
            r is Err && master_password.spec_bytes().len() <= 0xFFFF_FFFF ==> (r matches Err(
                CommandError::Vault(v),
            ) && v.spec_kind() == FailureKind::Io),
            r is Ok ==> (final(self).vault matches VaultState::Unlocked { session, entries }
                && entries == loaded.0 && passphrase_key(master_password.spec_bytes(), session.salt@)
                == Some(session.key@)),
    {
        self.last_interaction = now;
        let (entries, _salt, mut import_key) = loaded;
        wipe_key(&mut import_key);
        let new_salt = match generate_salt() {
            Ok(s) => s,
            Err(e) => {
                return Err(CommandError::Vault(e));
            },
        };
        let new_key = match derive_key(master_password, &new_salt) {
            Ok(k) => k,
            Err(e) => {
                return Err(CommandError::Vault(e));
            },
        };
        self.vault = VaultState::Unlocked { session: VaultSession::new(new_salt, new_key), entries };
        Ok(())
    }

    /// The entries of an unlocked vault, for serializing them.
    pub fn entries(&self) -> (r: Result<&Vec<Entry>, CommandError>)
        ensures
            match self.vault {
                VaultState::Unlocked { entries, .. } => r matches Ok(v) && *v == entries,
                VaultState::Locked => r matches Err(CommandError::Locked),
            },
    {
        match &self.vault {
            VaultState::Unlocked { entries, .. } => Ok(entries),
            VaultState::Locked => Err(CommandError::Locked),
        }
    }

    /// Prepares a passphrase change of an unlocked vault: the current
    /// passphrase must derive the session key from the session salt; then a
    /// fresh salt, the key that the new passphrase derives from it, and the
    /// vault file that seals `plaintext` (the serialized entries) under them
    /// are returned. The session is left as it is: the caller writes the file
    /// and only then installs the new key with [`AppState::install_rekey`],
    /// so that a failed write keeps the old passphrase working.
    pub fn change_master_password(
        &mut self,
        current_password: &str,
        new_password: &str,
        plaintext: &[u8],
        now: u64,
    ) -> (r: Result<Rekey, CommandError>)
        ensures
            *final(self) == old(self).touched_at(now),
            match old(self).vault {
                VaultState::Locked => r matches Err(CommandError::Locked),
                VaultState::Unlocked { session, .. } => {
                    let current = passphrase_key(current_password.spec_bytes(), session.salt@);
                    &&& current is None ==> (r matches Err(CommandError::Vault(v)) && v.spec_kind()
                        == FailureKind::Kdf)
                    &&& (current is Some && current != Some(session.key@)) ==> (r matches Err(
                        CommandError::InvalidCredential,
                    ))
                    &&& (current == Some(session.key@) && r is Err) ==> (r matches Err(
                        CommandError::Vault(v),
                    ) && (v.spec_kind() == FailureKind::Io || v.spec_kind() == FailureKind::Kdf
                        || v.spec_kind() == FailureKind::Crypto))
                    &&& (current == Some(session.key@) && r is Err
                        && new_password.spec_bytes().len() <= 0xFFFF_FFFF && plaintext@.len() / 64
                        < 0xFFFF_FFFF) ==> (r matches Err(CommandError::Vault(v)) && v.spec_kind()
                        == FailureKind::Io)
                    &&& r matches Ok(k) ==> {
                        &&& current == Some(session.key@)
                        &&& passphrase_key(new_password.spec_bytes(), k.salt@) == Some(k.key@)
                        &&& load_spec(k.file@, new_password.spec_bytes()) == Ok::<
                            Opened,
                            FailureKind,
                        >((plaintext@, k.salt@, k.key@))
                    }
                },
            },
    {
        self.last_interaction = now;
        match &self.vault {
            VaultState::Locked => Err(CommandError::Locked),
            VaultState::Unlocked { session, .. } => {
                let mut derived = match derive_key(current_password, &session.salt) {
                    Ok(k) => k,
                    Err(e) => {
                        return Err(CommandError::Vault(e));
                    },
                };
                let same = keys_equal(&derived, &session.key);
                wipe_key(&mut derived);
                if !same {
                    return Err(CommandError::InvalidCredential);
                }
                let new_salt = match generate_salt() {
                    Ok(s) => s,
                    Err(e) => {
                        return Err(CommandError::Vault(e));
                    },
                };
                let new_key = match derive_key(new_password, &new_salt) {
                    Ok(k) => k,
                    Err(e) => {
                        return Err(CommandError::Vault(e));
                    },
                };
                let file = match save_with_key(plaintext, &new_salt, &new_key) {
                    Ok(f) => f,
                    Err(e) => {
                        return Err(CommandError::Vault(e));
                    },
                };
                assert(passphrase_key(new_password.spec_bytes(), new_salt@) == Some(new_key@));
                Ok(Rekey { salt: new_salt, key: new_key, file })
            },
        }
    }

    /// Installs the key material of a passphrase change once its file is
    /// written: the session's salt and key are overwritten, the entries stay.
    pub fn install_rekey(&mut self, rekey: Rekey) -> (r: Result<(), CommandError>)
        ensures
            final(self).last_interaction == old(self).last_interaction,
            final(self).failed_attempts == old(self).failed_attempts,
            final(self).extension_config == old(self).extension_config,
            old(self).vault is Locked ==> (r matches Err(CommandError::Locked)) && final(self).vault
                == old(self).vault,
            !(old(self).vault is Locked) ==> {
                &&& r is Ok
                &&& final(self).vault matches VaultState::Unlocked { session, entries }
                    && session.salt == rekey.salt && session.key == rekey.key && entries@
                    == old(self).entries_view()
            },
    {
        match &mut self.vault {
            VaultState::Locked => Err(CommandError::Locked),
            VaultState::Unlocked { session, .. } => {
                session.salt = rekey.salt;
                session.key = rekey.key;
                Ok(())
            },
        }
    }

    /// Settles the write of the vault file after a change in memory: where
    /// the write failed, the vault is locked, so that memory never holds what
    /// the file does not.
    pub fn settle_write(&mut self, written: Result<(), String>, now: u64) -> (r: Result<
        (),
        CommandError,
    >)
        ensures
            match written {
                Ok(()) => r is Ok && *final(self) == *old(self),
                Err(m) => (r matches Err(CommandError::WriteFailed(w)) && w == m) && *final(self)
                    == old(self).locked_at(now),
            },
    {
        match written {
            Ok(()) => Ok(()),
            Err(m) => {
                self.lock_now(now);
                Err(CommandError::WriteFailed(m))
            },
        }
    }

    /// Seals the serialized entries for an export to `path`, under the
    /// session's salt and key; a blank path is refused first. Counts as an
    /// interaction.
    pub fn export_vault(&mut self, path: &str, plaintext: &[u8], now: u64) -> (r: Result<
        Vec<u8>,
        CommandError,
    >)
        ensures
            *final(self) == old(self).touched_at(now),
            blank(path@) ==> (r matches Err(CommandError::PathRequired(_))),
            !blank(path@) && old(self).vault is Locked ==> (r matches Err(CommandError::Locked)),
            !blank(path@) && !(old(self).vault is Locked) && r is Err ==> (r matches Err(
                CommandError::Vault(v),
            ) && (v.spec_kind() == FailureKind::Io || v.spec_kind() == FailureKind::Crypto)),
            !blank(path@) && !(old(self).vault is Locked) && r is Err && plaintext@.len() / 64
                < 0xFFFF_FFFF ==> (r matches Err(CommandError::Vault(v)) && v.spec_kind()
                == FailureKind::Io),
            r matches Ok(f) ==> old(self).vault matches VaultState::Unlocked { session, .. }
                && forall|pwd: Seq<u8>|
                #[trigger] passphrase_key(pwd, session.salt@) == Some(session.key@) ==> load_spec(
                    f@,
                    pwd,
                ) == Ok::<Opened, FailureKind>((plaintext@, session.salt@, session.key@)),
    {
        self.last_interaction = now;
        require_path(path, "export")?;
        self.seal_for_save(plaintext)
    }

    /// The public view of every entry of an unlocked vault, in order.
    pub fn get_entries(&mut self, now: u64) -> (r: Result<Vec<EntryPublic>, CommandError>)
        ensures
            *final(self) == old(self).touched_at(now),
            old(self).vault is Locked ==> r matches Err(CommandError::Locked),
            !(old(self).vault is Locked) ==> (r matches Ok(v) && v@.len()
                == old(self).entries_view().len() && forall|i: int|
                0 <= i < v@.len() ==> (#[trigger] v@[i]).shows(old(self).entries_view()[i])),
    {
        self.last_interaction = now;
        match &self.vault {
            VaultState::Locked => Err(CommandError::Locked),
            VaultState::Unlocked { entries, .. } => {
                let mut out: Vec<EntryPublic> = Vec::new();
                let mut i: usize = 0;
                while i < entries.len()
                    invariant
                        i <= entries@.len(),
                        out@.len() == i,
                        forall|j: int| 0 <= j < i ==> (#[trigger] out@[j]).shows(entries@[j]),
                    decreases entries@.len() - i,
                {
                    out.push(EntryPublic::of_entry(&entries[i]));
                    i = i + 1;
                }
                Ok(out)
            },
        }
    }

    /// Adds a new entry at the end of the entries of an unlocked vault, with a
    /// fresh random identifier that no entry carries yet, created and updated
    /// at the wall-clock time `wall`, and returns its public view. A drawn
    /// identifier that is already taken is refused rather than reused.
    pub fn add_entry(&mut self, input: EntryInput, now: u64, wall: Timestamp) -> (r: Result<
        EntryPublic,
        CommandError,
    >)
        ensures
            final(self).last_interaction == now,
            final(self).failed_attempts == old(self).failed_attempts,
            final(self).extension_config == old(self).extension_config,
            old(self).vault is Locked ==> (r matches Err(CommandError::Locked)),
            r is Err ==> final(self).vault == old(self).vault,
            !(old(self).vault is Locked) && r is Err ==> (r matches Err(CommandError::IdCollision)
                || (r matches Err(CommandError::Vault(v)) && v.spec_kind() == FailureKind::Io)),
            r matches Ok(p) ==> {
                let before = old(self).entries_view();
                let after = final(self).entries_view();
                let e = after.last();
                &&& !(final(self).vault is Locked)
                &&& after.len() == before.len() + 1
                &&& after.take(before.len() as int) == before
                &&& e.id@.len() == 36
                &&& !has_id(before, e.id@)
                &&& e.title == input.title
                &&& e.username == input.username
                &&& e.password == input.password
                &&& e.url == input.url
                &&& e.notes == input.notes
                &&& e.created_at == wall
                &&& e.updated_at == wall
                &&& p.shows(e)
            },
    {
        self.last_interaction = now;
        match &mut self.vault {
            VaultState::Locked => Err(CommandError::Locked),
            VaultState::Unlocked { entries, .. } => {
                let entry = match Entry::new(
                    input.title,
                    input.username,
                    input.password,
                    input.url,
                    input.notes,
                    wall,
                ) {
                    Ok(e) => e,
                    Err(e) => {
                        return Err(CommandError::Vault(e));
                    },
                };
                if position_of(entries, &entry.id).is_some() {
                    return Err(CommandError::IdCollision);
                }
                let public = EntryPublic::of_entry(&entry);
                let ghost before = entries@;
                entries.push(entry);
                assert(entries@.take(before.len() as int) =~= before);
                Ok(public)
            },
        }
    }

    /// Updates the first entry with the input's identifier: new title,
    /// username, URL and notes, a new password only where a non-empty one is
    /// given, and the wall-clock time `wall` as update time (never before the
    /// creation time). Returns its public view.
    pub fn update_entry(&mut self, input: EntryUpdateInput, now: u64, wall: Timestamp) -> (r: Result<
        EntryPublic,
        CommandError,
    >)
        ensures
            final(self).last_interaction == now,
            final(self).failed_attempts == old(self).failed_attempts,
            final(self).extension_config == old(self).extension_config,
            old(self).vault is Locked ==> r matches Err(CommandError::Locked),
            r is Err ==> final(self).vault == old(self).vault,
            !(old(self).vault is Locked) ==> (r matches Err(CommandError::NotFound) <==> !has_id(
                old(self).entries_view(),
                input.id@,
            )),
            !(old(self).vault is Locked) && has_id(old(self).entries_view(), input.id@) ==> r is Ok,
            r matches Ok(p) ==> exists|i: int| #[trigger]
                first_with_id(old(self).entries_view(), input.id@, i) && {
                    let e = final(self).entries_view()[i];
                    &&& !(final(self).vault is Locked)
                    &&& final(self).entries_view() == old(self).entries_view().update(i, e)
                    &&& updated_entry(old(self).entries_view()[i], input, wall, e)
                    &&& p.shows(e)
                },
    {
        self.last_interaction = now;
        assert(self.entries_view() == old(self).entries_view());
        match &mut self.vault {
            VaultState::Locked => Err(CommandError::Locked),
            VaultState::Unlocked { entries, .. } => {
                let idx = match position_of(entries, &input.id) {
                    Some(i) => i,
                    None => {
                        return Err(CommandError::NotFound);
                    },
                };
                let ghost before = entries@;
                let mut entry = entries.remove(idx);
                // Replaced text is wiped before it is released.
                wipe_string(&mut entry.title);
                entry.title = input.title;
                wipe_string(&mut entry.username);
                entry.username = input.username;
                wipe_string(&mut entry.url);
                entry.url = input.url;
                wipe_string(&mut entry.notes);
                entry.notes = input.notes;
                if let Some(new_password) = input.password {
                    if !new_password.as_str().is_empty() {
                        wipe_string(&mut entry.password);
                        entry.password = new_password;
                    }
                }
                entry.touch(wall);
                let public = EntryPublic::of_entry(&entry);
                entries.insert(idx, entry);
                assert(entries@ =~= before.update(idx as int, entries@[idx as int]));
                assert(first_with_id(before, input.id@, idx as int));
                assert(updated_entry(before[idx as int], input, wall, entries@[idx as int]));
                assert(public.shows(entries@[idx as int]));
                Ok(public)
            },
        }
    }

    /// Deletes every entry with identifier `id` from an unlocked vault; it is
    /// an error where there is none.
    pub fn delete_entry(&mut self, id: &String, now: u64) -> (r: Result<(), CommandError>)
        ensures
            final(self).last_interaction == now,
            final(self).failed_attempts == old(self).failed_attempts,
            final(self).extension_config == old(self).extension_config,
            old(self).vault is Locked ==> r matches Err(CommandError::Locked),
            r is Err ==> final(self).vault == old(self).vault,
            !(old(self).vault is Locked) ==> {
                &&& r is Ok <==> has_id(old(self).entries_view(), id@)
                &&& r is Err ==> (r matches Err(CommandError::NotFound))
                &&& r is Ok ==> !(final(self).vault is Locked) && final(self).entries_view()
                    == old(self).entries_view().filter(keeps(id@))
            },
    {
        self.last_interaction = now;
        match &mut self.vault {
            VaultState::Locked => Err(CommandError::Locked),
            VaultState::Unlocked { entries, .. } => {
                match position_of(entries, id) {
                    None => Err(CommandError::NotFound),
                    Some(_) => {
                        remove_with_id(entries, id);
                        Ok(())
                    },
                }
            },
        }
    }

    /// The password of the first entry with identifier `id`, for a one-shot
    /// copy; callers must not keep or log it.
    pub fn get_secret(&mut self, id: &String, now: u64) -> (r: Result<String, CommandError>)
        ensures
            *final(self) == old(self).touched_at(now),
            old(self).vault is Locked ==> r matches Err(CommandError::Locked),
            !(old(self).vault is Locked) ==> (r matches Err(CommandError::NotFound) <==> !has_id(
                old(self).entries_view(),
                id@,
            )),
            !(old(self).vault is Locked) && has_id(old(self).entries_view(), id@) ==> r is Ok,
            r matches Ok(s) ==> exists|i: int| #[trigger]
                first_with_id(old(self).entries_view(), id@, i) && s@ == old(
                    self,
                ).entries_view()[i].password@,
    {
        self.last_interaction = now;
        assert(self.entries_view() == old(self).entries_view());
        match &self.vault {
            VaultState::Locked => Err(CommandError::Locked),
            VaultState::Unlocked { entries, .. } => {
                match position_of(entries, id) {
                    None => Err(CommandError::NotFound),
                    Some(i) => Ok(entries[i].password.clone()),
                }
            },
        }
    }
}

} // verus!
