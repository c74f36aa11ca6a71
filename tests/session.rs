use the_organizer::models::{
    Entry, EntryInput, EntryUpdateInput, ExtensionConfig, FailedAttemptTracker, Timestamp,
};
use the_organizer::state::{require_path, AppState, CommandError, Rekey, VaultState};
use the_organizer::vault::{derive_key, load_with_password, VaultError};

fn ts(secs: i64) -> Timestamp {
    Timestamp { secs, nanos: 0 }
}

fn entry(id: &str, title: &str, password: &str, url: &str) -> Entry {
    Entry {
        id: id.to_string(),
        title: title.to_string(),
        username: "user".to_string(),
        password: password.to_string(),
        url: url.to_string(),
        notes: String::new(),
        created_at: ts(100),
        updated_at: ts(100),
    }
}

fn unlocked(entries: Vec<Entry>) -> AppState {
    let mut st = AppState::new(0, ExtensionConfig::new().expect("config"));
    st.unlock_vault(Ok((entries, [1u8; 32], [2u8; 32])), 10).expect("unlock");
    st
}

#[test]
fn tracker_five_failures_start_thirty_second_cooldown() {
    let mut t = FailedAttemptTracker::default();
    for i in 0..4u64 {
        assert_eq!(t.record_failure(1_000 + i), None);
        assert_eq!(t.check_lockout(1_000 + i), None);
    }
    assert_eq!(t.record_failure(5_000), Some(30));
    assert_eq!(t.count, 5);
    assert_eq!(t.locked_until, Some(35_000));
    assert_eq!(t.check_lockout(5_000), Some(30));
    assert_eq!(t.check_lockout(20_500), Some(14));
    assert_eq!(t.count, 5);
    assert_eq!(t.check_lockout(35_000), None);
    assert_eq!(t.count, 0);
    assert_eq!(t.locked_until, None);
}

#[test]
fn tracker_reset_clears_everything() {
    let mut t = FailedAttemptTracker { count: 7, locked_until: Some(99) };
    t.reset();
    assert_eq!(t.count, 0);
    assert_eq!(t.locked_until, None);
}

#[test]
fn tracker_saturates_at_the_end_of_the_clock() {
    let mut t = FailedAttemptTracker { count: 4, locked_until: None };
    assert_eq!(t.record_failure(u64::MAX - 10), Some(30));
    assert_eq!(t.locked_until, Some(u64::MAX));
}

#[test]
fn unlock_rate_limit_refuses_sixth_attempt_without_decrypting() {
    let mut st = AppState::new(0, ExtensionConfig::new().expect("config"));
    for i in 0..5u64 {
        st.begin_unlock(true, 100 * i).expect("not limited yet");
        let err = st
            .unlock_vault(Err(VaultError::Crypto("bad".to_string())), 100 * i)
            .unwrap_err();
        match err {
            CommandError::UnlockFailed { lockout, .. } => {
                assert_eq!(lockout, if i == 4 { Some(30) } else { None });
            }
            other => panic!("unexpected {:?}", other),
        }
    }
    match st.begin_unlock(true, 1_400) {
        Err(CommandError::RateLimited(secs)) => assert_eq!(secs, 29),
        other => panic!("unexpected {:?}", other),
    }
    assert!(st.is_locked());
    assert!(st.begin_unlock(true, 400 + 30_000).is_ok());
    assert_eq!(st.failed_attempts.count, 0);
}

#[test]
fn unlock_needs_a_vault_file() {
    let mut st = AppState::new(0, ExtensionConfig::new().expect("config"));
    assert!(matches!(st.begin_unlock(false, 1), Err(CommandError::VaultMissing)));
    assert_eq!(CommandError::VaultMissing.message(), "vault does not exist");
}

#[test]
fn unlock_message_mentions_the_cooldown() {
    let e = CommandError::UnlockFailed {
        error: VaultError::Crypto("aead".to_string()),
        lockout: Some(30),
    };
    assert_eq!(
        e.message(),
        "load: Crypto: aead Too many failed attempts. Account locked for 30 seconds."
    );
    assert_eq!(
        CommandError::RateLimited(12).message(),
        "Too many failed attempts. Please wait 12 seconds before trying again."
    );
}

#[test]
fn successful_unlock_resets_the_tracker() {
    let mut st = AppState::new(0, ExtensionConfig::new().expect("config"));
    let _ = st.unlock_vault(Err(VaultError::Crypto("bad".to_string())), 1);
    assert_eq!(st.failed_attempts.count, 1);
    st.unlock_vault(Ok((Vec::new(), [0u8; 32], [0u8; 32])), 2).expect("unlock");
    assert_eq!(st.failed_attempts.count, 0);
    assert!(!st.is_locked());
    assert_eq!(st.last_interaction, 2);
}

#[test]
fn auto_lock_after_inactivity() {
    let mut st = unlocked(vec![entry("a", "A", "pa", "a.com")]);
    assert!(!st.auto_lock(10 + 300_000));
    assert!(!st.is_locked());
    assert!(st.auto_lock(10 + 300_001));
    assert!(st.is_locked());
    assert!(matches!(st.vault, VaultState::Locked));
    assert!(matches!(st.entries(), Err(CommandError::Locked)));
    assert_eq!(st.last_interaction, 300_011);
}

#[test]
fn auto_lock_leaves_locked_vault_alone() {
    let mut st = AppState::new(0, ExtensionConfig::new().expect("config"));
    assert!(!st.auto_lock(10_000_000));
    assert_eq!(st.last_interaction, 0);
}

#[test]
fn heartbeat_postpones_auto_lock() {
    let mut st = unlocked(Vec::new());
    st.heartbeat(200_000);
    assert!(!st.auto_lock(400_000));
    assert!(st.auto_lock(500_001));
}

#[test]
fn lock_on_locked_vault_is_a_no_op() {
    let mut st = AppState::new(5, ExtensionConfig::new().expect("config"));
    assert!(st.lock_vault(6).is_ok());
    assert!(st.is_locked());
    assert!(st.lock_vault(7).is_ok());
    assert!(st.is_locked());
    assert_eq!(st.failed_attempts.count, 0);
}

#[test]
fn lock_clears_session_and_entries() {
    let mut st = unlocked(vec![entry("a", "A", "pa", "a.com")]);
    assert!(st.lock_vault(20).is_ok());
    assert!(st.is_locked());
    assert!(matches!(st.get_entries(21), Err(CommandError::Locked)));
    assert!(matches!(st.seal_for_save(b"[]"), Err(CommandError::Locked)));
}

#[test]
fn get_entries_hides_passwords() {
    let mut st = unlocked(vec![entry("a", "A", "pa", "a.com"), entry("b", "B", "pb", "b.com")]);
    let list = st.get_entries(50).expect("list");
    assert_eq!(list.len(), 2);
    assert_eq!(list[0].id, "a");
    assert_eq!(list[1].title, "B");
    assert_eq!(st.last_interaction, 50);
}

#[test]
fn add_entry_appends_with_fresh_id() {
    let mut st = unlocked(vec![entry("a", "A", "pa", "a.com")]);
    let input = EntryInput {
        title: "New".to_string(),
        username: "bob".to_string(),
        password: "pw".to_string(),
        url: "new.com".to_string(),
        notes: "note".to_string(),
    };
    let public = st.add_entry(input, 60, ts(500)).expect("add");
    assert_eq!(public.title, "New");
    assert_eq!(public.id.len(), 36);
    let entries = st.entries().expect("unlocked");
    assert_eq!(entries.len(), 2);
    assert_eq!(entries[1].password, "pw");
    assert_eq!(entries[1].created_at, ts(500));
    assert_eq!(entries[1].updated_at, ts(500));
    assert_ne!(entries[1].id, entries[0].id);
}

#[test]
fn add_entry_needs_an_unlocked_vault() {
    let mut st = AppState::new(0, ExtensionConfig::new().expect("config"));
    let input = EntryInput {
        title: String::new(),
        username: String::new(),
        password: String::new(),
        url: String::new(),
        notes: String::new(),
    };
    assert!(matches!(st.add_entry(input, 1, ts(500)), Err(CommandError::Locked)));
}

#[test]
fn update_entry_keeps_password_when_blank() {
    let mut st = unlocked(vec![entry("a", "A", "pa", "a.com"), entry("b", "B", "pb", "b.com")]);
    let input = EntryUpdateInput {
        id: "b".to_string(),
        title: "B2".to_string(),
        username: "u2".to_string(),
        password: Some(String::new()),
        url: "b2.com".to_string(),
        notes: "n2".to_string(),
    };
    let public = st.update_entry(input, 70, ts(500)).expect("update");
    assert_eq!(public.updated_at, ts(500));
    assert_eq!(public.title, "B2");
    let entries = st.entries().expect("unlocked");
    assert_eq!(entries[1].password, "pb");
    assert_eq!(entries[1].url, "b2.com");
    assert_eq!(entries[1].created_at, ts(100));
    assert_eq!(entries[0].title, "A");

    let input = EntryUpdateInput {
        id: "a".to_string(),
        title: "A2".to_string(),
        username: "u".to_string(),
        password: Some("new".to_string()),
        url: "a.com".to_string(),
        notes: String::new(),
    };
    st.update_entry(input, 71, ts(500)).expect("update");
    assert_eq!(st.entries().expect("unlocked")[0].password, "new");
}

#[test]
fn update_entry_unknown_id_is_not_found() {
    let mut st = unlocked(vec![entry("a", "A", "pa", "a.com")]);
    let input = EntryUpdateInput {
        id: "zzz".to_string(),
        title: "X".to_string(),
        username: String::new(),
        password: None,
        url: String::new(),
        notes: String::new(),
    };
    assert!(matches!(st.update_entry(input, 1, ts(500)), Err(CommandError::NotFound)));
    assert_eq!(st.entries().expect("unlocked")[0].title, "A");
}

#[test]
fn delete_entry_removes_every_match() {
    let mut st = unlocked(vec![
        entry("a", "A", "pa", "a.com"),
        entry("b", "B", "pb", "b.com"),
        entry("a", "A2", "pa2", "a.com"),
    ]);
    st.delete_entry(&"a".to_string(), 80).expect("delete");
    let entries = st.entries().expect("unlocked");
    assert_eq!(entries.len(), 1);
    assert_eq!(entries[0].id, "b");
    assert!(matches!(
        st.delete_entry(&"a".to_string(), 81),
        Err(CommandError::NotFound)
    ));
}

#[test]
fn get_secret_returns_first_match() {
    let mut st = unlocked(vec![entry("a", "A", "pa", "a.com"), entry("a", "A2", "pa2", "a.com")]);
    assert_eq!(st.get_secret(&"a".to_string(), 90).expect("secret"), "pa");
    assert!(matches!(st.get_secret(&"q".to_string(), 91), Err(CommandError::NotFound)));
    assert_eq!(CommandError::NotFound.message(), "entry not found");
}

#[test]
fn create_vault_refuses_an_existing_file() {
    let mut st = AppState::new(0, ExtensionConfig::new().expect("config"));
    assert!(matches!(st.create_vault("pw", true, 1), Err(CommandError::AlreadyExists)));
    assert!(st.is_locked());
}

#[test]
fn create_vault_installs_an_empty_session() {
    let mut st = AppState::new(0, ExtensionConfig::new().expect("config"));
    st.create_vault("pw", false, 3).expect("create");
    assert!(!st.is_locked());
    assert_eq!(st.entries().expect("unlocked").len(), 0);
    assert_eq!(st.last_interaction, 3);
    let file = st.seal_for_save(b"[]").expect("seal");
    let loaded = load_with_password(&file, "pw").expect("load");
    assert_eq!(loaded.0, b"[]".to_vec());
}

#[test]
fn passphrase_change_needs_the_current_passphrase() {
    let salt = [4u8; 32];
    let key = derive_key("old", &salt).expect("kdf");
    let mut st = AppState::new(0, ExtensionConfig::new().expect("config"));
    st.unlock_vault(Ok((vec![entry("a", "A", "pa", "a.com")], salt, key)), 1).expect("unlock");
    assert!(matches!(
        st.change_master_password("wrong", "new", b"[]", 2),
        Err(CommandError::InvalidCredential)
    ));
    match &st.vault {
        VaultState::Unlocked { session, .. } => assert_eq!(session.key, key),
        VaultState::Locked => panic!("locked"),
    }
    assert_eq!(st.last_interaction, 2);
}

#[test]
fn passphrase_change_on_locked_vault_is_refused() {
    let mut st = AppState::new(0, ExtensionConfig::new().expect("config"));
    assert!(matches!(
        st.change_master_password("old", "new", b"[]", 2),
        Err(CommandError::Locked)
    ));
    assert!(st.install_rekey(Rekey { salt: [0u8; 32], key: [0u8; 32], file: Vec::new() }).is_err());
}

#[test]
fn passphrase_change_keeps_session_until_installed() {
    let salt = [4u8; 32];
    let key = derive_key("old", &salt).expect("kdf");
    let mut st = AppState::new(0, ExtensionConfig::new().expect("config"));
    st.unlock_vault(Ok((vec![entry("a", "A", "pa", "a.com")], salt, key)), 1).expect("unlock");
    let rekey = st.change_master_password("old", "new", b"payload", 2).expect("change");
    assert_ne!(rekey.salt, salt);
    // The file write failed: the rekey is dropped and the old session stays.
    drop(rekey);
    match &st.vault {
        VaultState::Unlocked { session, entries } => {
            assert_eq!(session.salt, salt);
            assert_eq!(session.key, key);
            assert_eq!(entries[0].id, "a");
        }
        VaultState::Locked => panic!("locked"),
    }
}

#[test]
fn passphrase_change_then_unlock_with_new_passphrase() {
    let salt = [4u8; 32];
    let key = derive_key("old", &salt).expect("kdf");
    let mut st = AppState::new(0, ExtensionConfig::new().expect("config"));
    st.unlock_vault(Ok((vec![entry("a", "A", "pa", "a.com")], salt, key)), 1).expect("unlock");
    let rekey = st.change_master_password("old", "new", b"payload", 2).expect("change");
    let loaded = load_with_password(&rekey.file, "new").expect("new passphrase opens");
    assert_eq!(loaded.0, b"payload".to_vec());
    assert_eq!(loaded.1, rekey.salt);
    assert_eq!(loaded.2, rekey.key);
    let (new_salt, new_key) = (rekey.salt, rekey.key);
    st.install_rekey(rekey).expect("install");
    match &st.vault {
        VaultState::Unlocked { session, entries } => {
            assert_eq!(session.salt, new_salt);
            assert_eq!(session.key, new_key);
            assert_eq!(entries.len(), 1);
            assert_eq!(entries[0].id, "a");
        }
        VaultState::Locked => panic!("locked"),
    }
}

#[test]
fn passphrase_change_then_old_passphrase_fails() {
    let salt = [4u8; 32];
    let key = derive_key("old", &salt).expect("kdf");
    let mut st = AppState::new(0, ExtensionConfig::new().expect("config"));
    st.unlock_vault(Ok((Vec::new(), salt, key)), 1).expect("unlock");
    let rekey = st.change_master_password("old", "new", b"payload", 2).expect("change");
    let res = load_with_password(&rekey.file, "old");
    assert!(matches!(res, Err(VaultError::Crypto(_))));
}

#[test]
fn import_installs_entries_under_a_fresh_salt() {
    let mut st = AppState::new(0, ExtensionConfig::new().expect("config"));
    let old_salt = [8u8; 32];
    st.import_vault((vec![entry("x", "X", "px", "x.com")], old_salt, [9u8; 32]), "pw", 7)
        .expect("import");
    assert_eq!(st.last_interaction, 7);
    match &st.vault {
        VaultState::Unlocked { session, entries } => {
            assert_ne!(session.salt, old_salt);
            assert_eq!(entries[0].id, "x");
            assert_eq!(derive_key("pw", &session.salt).expect("kdf"), session.key);
        }
        VaultState::Locked => panic!("locked"),
    }
}

#[test]
fn failed_write_locks_the_vault() {
    let mut st = unlocked(vec![entry("a", "A", "pa", "a.com")]);
    assert!(st.settle_write(Ok(()), 30).is_ok());
    assert!(!st.is_locked());
    let err = st.settle_write(Err("disk full".to_string()), 31).unwrap_err();
    assert_eq!(err.message(), "save: disk full");
    assert!(st.is_locked());
    assert_eq!(st.last_interaction, 31);
}

#[test]
fn export_checks_path_then_lock_state() {
    let mut st = AppState::new(0, ExtensionConfig::new().expect("config"));
    assert!(matches!(st.export_vault(" ", b"[]", 3), Err(CommandError::PathRequired(_))));
    assert!(matches!(st.export_vault("/tmp/out.dat", b"[]", 4), Err(CommandError::Locked)));
    assert_eq!(st.last_interaction, 4);
    let mut st = unlocked(Vec::new());
    let file = st.export_vault("/tmp/out.dat", b"[]", 5).expect("export");
    assert_eq!(&file[0..4], b"TORG");
    assert_eq!(&file[5..37], &[1u8; 32][..]);
    assert_eq!(st.last_interaction, 5);
}

#[test]
fn blank_paths_are_refused() {
    assert!(require_path("  \t", "export").is_err());
    assert_eq!(require_path("", "import").unwrap_err().message(), "import path is required");
    assert!(require_path(" /tmp/x ", "export").is_ok());
}

#[test]
fn entry_zeroize_empties_text() {
    let mut e = entry("a", "A", "secret", "a.com");
    e.zeroize();
    assert!(e.password.is_empty());
    assert!(e.id.is_empty());
    assert_eq!(e.created_at, ts(100));
}

#[test]
fn touch_never_goes_before_creation() {
    let mut e = entry("a", "A", "p", "a.com");
    e.touch(ts(50));
    assert_eq!(e.updated_at, ts(100));
    e.touch(Timestamp { secs: 100, nanos: 5 });
    assert_eq!(e.updated_at, Timestamp { secs: 100, nanos: 5 });
    let fresh = Entry::new("t".into(), "u".into(), "p".into(), "l".into(), "n".into(), ts(300))
        .expect("entry");
    assert_eq!(fresh.created_at, ts(300));
    assert_eq!(fresh.created_at, fresh.updated_at);
    assert_eq!(fresh.id.len(), 36);
}

#[test]
fn fresh_uuids_are_version_four() {
    let a = the_organizer::models::new_uuid().expect("uuid");
    let b = the_organizer::models::new_uuid().expect("uuid");
    assert_eq!(a.len(), 36);
    assert_eq!(a.as_bytes()[14], b'4');
    assert_eq!(a.as_bytes()[8], b'-');
    assert_ne!(a, b);
    assert_eq!(CommandError::IdCollision.message(), "entry identifier already taken");
}
