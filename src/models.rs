//! Data types of the vault: entries, the unlocked session, the failed-attempt
//! tracker and the browser-extension settings, with the constants that govern
//! them.
use crate::primitives::{fill_random, uuid_v4_text, wipe_key, wipe_string};
use crate::vault::{FailureKind, VaultError};
use vstd::prelude::*;

verus! {

/// Filename of the encrypted vault file.
pub const VAULT_FILENAME: &'static str = "vault.dat";

/// Current vault file format version.
pub const VAULT_FORMAT_VERSION: u8 = 0x01;

/// Length of the key-derivation salt.
pub const SALT_LEN: usize = 32;

/// Length of the XChaCha20-Poly1305 nonce.
pub const NONCE_LEN: usize = 24;

/// How often the inactivity monitor checks for a timeout, in seconds.
pub const INACTIVITY_POLL_SECS: u64 = 10;

/// Inactivity after which an unlocked vault is locked, in seconds.
pub const INACTIVITY_TIMEOUT_SECS: u64 = 300;

/// Consecutive failed unlocks that start a cooldown.
pub const MAX_FAILED_ATTEMPTS: u32 = 5;

/// Length of the cooldown, in seconds.
pub const LOCKOUT_DURATION_SECS: u64 = 30;

/// Milliseconds in a second: monotonic clock readings are in milliseconds.
pub const MILLIS_PER_SEC: u64 = 1000;

/// Default port of the browser-extension bridge.
pub const EXTENSION_DEFAULT_PORT: u16 = 17832;

/// A wall-clock instant: whole seconds since the Unix epoch and the
/// nanoseconds past them.
#[derive(Clone, Copy, Debug, PartialEq, Eq, Structural)]
pub struct Timestamp {
    pub secs: i64,
    pub nanos: u32,
}

/// Whether `a` is not later than `b`.
pub open spec fn ts_le(a: Timestamp, b: Timestamp) -> bool {
    a.secs < b.secs || (a.secs == b.secs && a.nanos <= b.nanos)
}

impl Timestamp {
    /// Whether `self` is not later than `other`.
    pub fn not_after(&self, other: &Timestamp) -> (r: bool)
        ensures
            r == ts_le(*self, *other),
    {
        self.secs < other.secs || (self.secs == other.secs && self.nanos <= other.nanos)
    }
}

/// A password entry stored in the vault. Its text fields are wiped when it
/// is dropped.
#[derive(Clone, Debug)]
pub struct Entry {
    /// Unique identifier (a UUID v4).
    pub id: String,
    pub title: String,
    pub username: String,
    /// The secret; it leaves the process only through a one-shot copy.
    pub password: String,
    pub url: String,
    pub notes: String,
    pub created_at: Timestamp,
    pub updated_at: Timestamp,
}

impl Entry {
    /// An entry is never updated before it was created.
    pub open spec fn wf(&self) -> bool {
        ts_le(self.created_at, self.updated_at)
    }

    /// A new entry with a fresh random identifier, created and updated at
    /// the wall-clock time `now`. Only the random source can make it fail.
    pub fn new(
        title: String,
        username: String,
        password: String,
        url: String,
        notes: String,
        now: Timestamp,
    ) -> (r: Result<Entry, VaultError>)
        ensures
            match r {
                Ok(e) => {
                    &&& e.id@.len() == 36
                    &&& e.title == title
                    &&& e.username == username
                    &&& e.password == password
                    &&& e.url == url
                    &&& e.notes == notes
                    &&& e.created_at == now
                    &&& e.updated_at == now
                    &&& e.wf()
                },
                Err(err) => err.spec_kind() == FailureKind::Io,
            },
    {
        let id = new_uuid()?;
        Ok(Entry { id, title, username, password, url, notes, created_at: now, updated_at: now })
    }

    /// Marks the entry as updated at the wall-clock time `now`; a reading
    /// earlier than the creation time counts as the creation time.
    pub fn touch(&mut self, now: Timestamp)
        ensures
            final(self).updated_at == (if ts_le(old(self).created_at, now) {
                now
            } else {
                old(self).created_at
            }),
            final(self).wf(),
            final(self).id == old(self).id,
            final(self).title == old(self).title,
            final(self).username == old(self).username,
            final(self).password == old(self).password,
            final(self).url == old(self).url,
            final(self).notes == old(self).notes,
            final(self).created_at == old(self).created_at,
    {
        if self.created_at.not_after(&now) {
            self.updated_at = now;
        } else {
            self.updated_at = self.created_at;
        }
    }

    /// Overwrites every text field with zeros and empties it.
    pub fn zeroize(&mut self)
        ensures
            final(self).id@.len() == 0,
            final(self).title@.len() == 0,
            final(self).username@.len() == 0,
            final(self).password@.len() == 0,
            final(self).url@.len() == 0,
            final(self).notes@.len() == 0,
            final(self).created_at == old(self).created_at,
            final(self).updated_at == old(self).updated_at,
        opens_invariants none
        no_unwind
    {
        wipe_string(&mut self.id);
        wipe_string(&mut self.title);
        wipe_string(&mut self.username);
        wipe_string(&mut self.password);
        wipe_string(&mut self.url);
        wipe_string(&mut self.notes);
    }
}

impl Drop for Entry {
    fn drop(&mut self)
        opens_invariants none
        no_unwind
    {
        self.zeroize();
    }
}

/// The fields of a new entry, as a caller supplies them.
#[derive(Clone, Debug)]
pub struct EntryInput {
    pub title: String,
    pub username: String,
    pub password: String,
    pub url: String,
    pub notes: String,
}

/// The new fields of an existing entry; a missing or empty password keeps the
/// current one.
#[derive(Clone, Debug)]
pub struct EntryUpdateInput {
    pub id: String,
    pub title: String,
    pub username: String,
    pub password: Option<String>,
    pub url: String,
    pub notes: String,
}

/// What callers may see of an entry: everything but the password.
#[derive(Clone, Debug)]
pub struct EntryPublic {
    pub id: String,
    pub title: String,
    pub username: String,
    pub url: String,
    pub notes: String,
    pub created_at: Timestamp,
    pub updated_at: Timestamp,
}

impl EntryPublic {
    /// Whether `self` shows exactly the non-secret fields of `e`.
    pub open spec fn shows(self, e: Entry) -> bool {
        &&& self.id@ == e.id@
        &&& self.title@ == e.title@
        &&& self.username@ == e.username@
        &&& self.url@ == e.url@
        &&& self.notes@ == e.notes@
        &&& self.created_at == e.created_at
        &&& self.updated_at == e.updated_at
    }

    /// The public view of an entry.
    pub fn of_entry(e: &Entry) -> (r: EntryPublic)
        ensures
            r.shows(*e),
            r.id == e.id && r.title == e.title && r.username == e.username && r.url == e.url
                && r.notes == e.notes,
    {
        EntryPublic {
            id: e.id.clone(),
            title: e.title.clone(),
            username: e.username.clone(),
            url: e.url.clone(),
            notes: e.notes.clone(),
            created_at: e.created_at,
            updated_at: e.updated_at,
        }
    }
}

impl<'a> From<&'a Entry> for EntryPublic {
    fn from(e: &'a Entry) -> (r: EntryPublic)
        ensures
            r.shows(*e),
    {
        EntryPublic::of_entry(e)
    }
}

impl<'a> vstd::std_specs::convert::FromSpecImpl<&'a Entry> for EntryPublic {
    open spec fn obeys_from_spec() -> bool {
        true
    }

    open spec fn from_spec(e: &'a Entry) -> EntryPublic {
        EntryPublic {
            id: e.id,
            title: e.title,
            username: e.username,
            url: e.url,
            notes: e.notes,
            created_at: e.created_at,
            updated_at: e.updated_at,
        }
    }
}

/// Settings of the browser-extension bridge.
#[derive(Clone, Debug)]
pub struct ExtensionConfig {
    pub enabled: bool,
    pub token: String,
    pub port: u16,
}

impl ExtensionConfig {
    /// Disabled, on the default port, with a fresh random token. Only the
    /// random source can make it fail.
    pub fn new() -> (r: Result<ExtensionConfig, VaultError>)
        ensures
            match r {
                Ok(c) => !c.enabled && c.port == EXTENSION_DEFAULT_PORT && c.token@.len() == 36,
                Err(e) => e.spec_kind() == FailureKind::Io,
            },
    {
        let token = new_uuid()?;
        Ok(ExtensionConfig { enabled: false, token, port: EXTENSION_DEFAULT_PORT })
    }
}

/// A fresh random UUID (version 4) in its hyphenated form.
pub fn new_uuid() -> (r: Result<String, VaultError>)
    ensures
        match r {
            Ok(s) => s@.len() == 36,
            Err(e) => e.spec_kind() == FailureKind::Io,
        },
{
    let mut bytes = [0u8; 16];
    match fill_random(&mut bytes) {
        Ok(()) => Ok(uuid_v4_text(&bytes)),
        Err(_) => Err(VaultError::Io("random source unavailable".to_string())),
    }
}

/// The key material of an unlocked vault. The key is wiped when the session
/// is dropped.
pub struct VaultSession {
    /// Salt the key was derived with (stored in the vault file).
    pub salt: [u8; 32],
    /// The derived key.
    pub key: [u8; 32],
}

impl VaultSession {
    pub fn new(salt: [u8; 32], key_bytes: [u8; 32]) -> (r: VaultSession)
        ensures
            r.salt == salt,
            r.key == key_bytes,
    {
        VaultSession { salt, key: key_bytes }
    }

    pub fn key_bytes(&self) -> (r: &[u8; 32])
        ensures
            *r == self.key,
    {
        &self.key
    }
}

impl Drop for VaultSession {
    fn drop(&mut self)
        opens_invariants none
        no_unwind
    {
        wipe_key(&mut self.key);
    }
}

/// Consecutive failed unlock attempts, and the end of the current cooldown
/// as a monotonic clock reading in milliseconds.
#[derive(Clone, Debug)]
pub struct FailedAttemptTracker {
    pub count: u32,
    pub locked_until: Option<u64>,
}

/// The end of a cooldown that starts at `now` (the clock saturates).
pub open spec fn cooldown_end(now: u64) -> u64 {
    if now as int + LOCKOUT_DURATION_SECS * MILLIS_PER_SEC <= u64::MAX {
        (now + LOCKOUT_DURATION_SECS * MILLIS_PER_SEC) as u64
    } else {
        u64::MAX
    }
}

impl FailedAttemptTracker {
    /// The tracker after a failed attempt at `now`.
    pub open spec fn after_failure(self, now: u64) -> FailedAttemptTracker {
        let count = if self.count < u32::MAX {
            (self.count + 1) as u32
        } else {
            self.count
        };
        FailedAttemptTracker {
            count,
            locked_until: if count >= MAX_FAILED_ATTEMPTS {
                Some(cooldown_end(now))
            } else {
                self.locked_until
            },
        }
    }

    /// What a failed attempt reports: the cooldown in seconds once the
    /// threshold is reached.
    pub open spec fn failure_reply(self, now: u64) -> Option<u64> {
        if self.after_failure(now).count >= MAX_FAILED_ATTEMPTS {
            Some(LOCKOUT_DURATION_SECS)
        } else {
            None
        }
    }

    /// The tracker after a lockout check at `now`: an elapsed cooldown
    /// clears it.
    pub open spec fn after_check(self, now: u64) -> FailedAttemptTracker {
        match self.locked_until {
            Some(until) => if now < until {
                self
            } else {
                FailedAttemptTracker { count: 0, locked_until: None }
            },
            None => self,
        }
    }

    /// What a lockout check at `now` reports: the whole seconds left of an
    /// active cooldown.
    pub open spec fn check_reply(self, now: u64) -> Option<u64> {
        match self.locked_until {
            Some(until) => if now < until {
                Some(((until - now) / MILLIS_PER_SEC as int) as u64)
            } else {
                None
            },
            None => None,
        }
    }

    /// Records a failed attempt at `now`; from the threshold on it starts a
    /// cooldown and returns its length in seconds.
    pub fn record_failure(&mut self, now: u64) -> (r: Option<u64>)
        ensures
            *final(self) == old(self).after_failure(now),
            r == old(self).failure_reply(now),
    {
        if self.count < u32::MAX {
            self.count = self.count + 1;
        }
        if self.count >= MAX_FAILED_ATTEMPTS {
            let until = if now <= u64::MAX - LOCKOUT_DURATION_SECS * MILLIS_PER_SEC {
                now + LOCKOUT_DURATION_SECS * MILLIS_PER_SEC
            } else {
                u64::MAX
            };
            self.locked_until = Some(until);
            Some(LOCKOUT_DURATION_SECS)
        } else {
            None
        }
    }

    /// Returns the seconds left of an active cooldown at `now`; once the
    /// cooldown has elapsed it clears the tracker and returns `None`.
    pub fn check_lockout(&mut self, now: u64) -> (r: Option<u64>)
        ensures
            *final(self) == old(self).after_check(now),
            r == old(self).check_reply(now),
    {
        if let Some(until) = self.locked_until {
            if now < until {
                return Some((until - now) / MILLIS_PER_SEC);
            }
            self.count = 0;
            self.locked_until = None;
        }
        None
    }

    /// Clears the tracker after a successful unlock.
    pub fn reset(&mut self)
        ensures
            final(self).count == 0,
            final(self).locked_until is None,
    {
        self.count = 0;
        self.locked_until = None;
    }
}

impl Default for FailedAttemptTracker {
    fn default() -> (r: FailedAttemptTracker)
        ensures
            r.count == 0,
            r.locked_until is None,
    {
        FailedAttemptTracker { count: 0, locked_until: None }
    }
}

/// Five failed unlocks in a row, starting from no failures, start a cooldown
/// of thirty seconds on the fifth; a check during the cooldown reports the
/// whole seconds left and changes nothing; a check once it has elapsed
/// reports nothing and leaves the counter at zero.
pub proof fn lemma_five_failures_start_cooldown(
    t: FailedAttemptTracker,
    n1: u64,
    n2: u64,
    n3: u64,
    n4: u64,
    n5: u64,
    during: u64,
    after: u64,
)
    requires
        t.count == 0,
        t.locked_until is None,
        n5 as int + LOCKOUT_DURATION_SECS * MILLIS_PER_SEC <= u64::MAX,
        during < n5 + LOCKOUT_DURATION_SECS * MILLIS_PER_SEC,
        after >= n5 + LOCKOUT_DURATION_SECS * MILLIS_PER_SEC,
    ensures
        ({
            let t1 = t.after_failure(n1);
            let t2 = t1.after_failure(n2);
            let t3 = t2.after_failure(n3);
            let t4 = t3.after_failure(n4);
            let t5 = t4.after_failure(n5);
            &&& t.failure_reply(n1) is None
            &&& t1.failure_reply(n2) is None
            &&& t2.failure_reply(n3) is None
            &&& t3.failure_reply(n4) is None
            &&& t4.failure_reply(n5) == Some(LOCKOUT_DURATION_SECS)
            &&& t5.locked_until == Some((n5 + LOCKOUT_DURATION_SECS * MILLIS_PER_SEC) as u64)
            &&& (n5 <= during ==> t5.check_reply(during) == Some(
                (((n5 + LOCKOUT_DURATION_SECS * MILLIS_PER_SEC) - during) / MILLIS_PER_SEC as int) as u64,
            ) && t5.after_check(during) == t5)
            &&& t5.check_reply(after) is None
            &&& t5.after_check(after).count == 0
            &&& t5.after_check(after).locked_until is None
        }),
{
}

} // verus!
