use music_uploader::broker::CredentialBroker;
use music_uploader::config::{Config, Credentials};
use music_uploader::secret::{
    classify_fault, read_of_slot, settle_read, settle_write, write_to_slot, BackendFault,
    CredentialError, SecretRead, SecretWrite, SERVICE, SLOT,
};
use std::collections::HashMap;

/// A secret backend held in memory, with an optional fault it answers with.
struct MemoryStore {
    slots: HashMap<(String, String), String>,
    fault: Option<BackendFault>,
    writes: usize,
    reads: usize,
}

impl MemoryStore {
    fn new() -> Self {
        MemoryStore { slots: HashMap::new(), fault: None, writes: 0, reads: 0 }
    }

    fn failing(fault: BackendFault) -> Self {
        MemoryStore { slots: HashMap::new(), fault: Some(fault), writes: 0, reads: 0 }
    }

    fn set(&mut self, write: &SecretWrite) -> Result<(), BackendFault> {
        self.writes += 1;
        if let Some(fault) = self.fault {
            return Err(fault);
        }
        self.slots.insert((write.service.clone(), write.slot.clone()), write.secret.clone());
        Ok(())
    }

    fn get(&mut self, read: &SecretRead) -> Result<String, BackendFault> {
        self.reads += 1;
        if let Some(fault) = self.fault {
            return Err(fault);
        }
        match self.slots.get(&(read.service.clone(), read.slot.clone())) {
            Some(secret) => Ok(secret.clone()),
            None => Err(BackendFault::NoEntry),
        }
    }
}

fn save(
    broker: &mut CredentialBroker,
    store: &mut MemoryStore,
    token: &str,
    owner: &str,
    repo: &str,
) -> Result<bool, CredentialError> {
    let pending =
        CredentialBroker::begin_save(token.to_string(), owner.to_string(), repo.to_string());
    let reply = store.set(pending.write());
    broker.complete_save(pending, reply)
}

fn load(
    broker: &CredentialBroker,
    store: &mut MemoryStore,
) -> Result<Option<Credentials>, CredentialError> {
    let read = CredentialBroker::begin_load();
    let reply = store.get(&read);
    broker.complete_load(reply)
}

fn all_faults() -> Vec<BackendFault> {
    vec![
        BackendFault::PlatformFailure,
        BackendFault::NoStorageAccess,
        BackendFault::NoEntry,
        BackendFault::BadEncoding,
        BackendFault::TooLong,
        BackendFault::Invalid,
        BackendFault::Ambiguous,
        BackendFault::Unrecognized,
    ]
}

#[test]
fn new_broker_knows_nothing() {
    let broker = CredentialBroker::new();
    assert_eq!(
        broker.snapshot(),
        Config { has_token: false, owner: String::new(), repo: String::new() }
    );
    assert_eq!(Config::empty(), broker.snapshot());
}

#[test]
fn save_then_load_round_trip() {
    let mut broker = CredentialBroker::new();
    let mut store = MemoryStore::new();
    assert_eq!(save(&mut broker, &mut store, "ghp_secret", "alice", "tunes"), Ok(true));
    let loaded = load(&broker, &mut store).unwrap().unwrap();
    assert_eq!(
        loaded,
        Credentials {
            token: "ghp_secret".to_string(),
            owner: "alice".to_string(),
            repo: "tunes".to_string(),
        }
    );
    assert_eq!(
        loaded.config(),
        Config { has_token: true, owner: "alice".to_string(), repo: "tunes".to_string() }
    );
    assert_eq!(broker.snapshot(), loaded.config());
}

#[test]
fn save_then_load_round_trip_on_many_values() {
    let values = ["t", "a b", "ünï-cödé", "x/y", "0123456789", "  ", "\"quoted\"", "line\nbreak"];
    for token in values {
        for owner in values {
            for repo in values {
                let mut broker = CredentialBroker::new();
                let mut store = MemoryStore::new();
                assert_eq!(save(&mut broker, &mut store, token, owner, repo), Ok(true));
                let loaded = load(&broker, &mut store).unwrap().unwrap();
                assert_eq!(loaded.token, token);
                assert_eq!(loaded.owner, owner);
                assert_eq!(loaded.repo, repo);
                assert!(loaded.config().has_token);
            }
        }
    }
}

#[test]
fn second_save_overwrites_first() {
    let mut broker = CredentialBroker::new();
    let mut store = MemoryStore::new();
    assert_eq!(save(&mut broker, &mut store, "first-token", "alice", "tunes"), Ok(true));
    assert_eq!(save(&mut broker, &mut store, "second-token", "bob", "songs"), Ok(true));
    let loaded = load(&broker, &mut store).unwrap().unwrap();
    assert_eq!(loaded.token, "second-token");
    assert_eq!(loaded.owner, "bob");
    assert_eq!(loaded.repo, "songs");
    assert_eq!(store.slots.len(), 1);
    assert_eq!(store.writes, 2);
}

#[test]
fn save_writes_the_token_to_the_fixed_slot() {
    let pending = CredentialBroker::begin_save(
        "ghp_secret".to_string(),
        "alice".to_string(),
        "tunes".to_string(),
    );
    assert_eq!(
        *pending.write(),
        SecretWrite {
            service: "music-uploader".to_string(),
            slot: "github-token".to_string(),
            secret: "ghp_secret".to_string(),
        }
    );
    assert_eq!(*pending.write(), write_to_slot("ghp_secret".to_string()));
    assert_eq!(SERVICE, "music-uploader");
    assert_eq!(SLOT, "github-token");
}

#[test]
fn load_reads_the_fixed_slot() {
    assert_eq!(
        CredentialBroker::begin_load(),
        SecretRead { service: "music-uploader".to_string(), slot: "github-token".to_string() }
    );
    assert_eq!(CredentialBroker::begin_load(), read_of_slot());
}

#[test]
fn refused_save_leaves_config_unchanged() {
    let mut broker = CredentialBroker::new();
    let mut store = MemoryStore::new();
    assert_eq!(save(&mut broker, &mut store, "old", "alice", "tunes"), Ok(true));
    let before = broker.snapshot();

    let mut locked = MemoryStore::failing(BackendFault::NoStorageAccess);
    assert_eq!(
        save(&mut broker, &mut locked, "new", "bob", "songs"),
        Err(CredentialError::AccessDenied)
    );
    assert_eq!(broker.snapshot(), before);

    let mut broken = MemoryStore::failing(BackendFault::PlatformFailure);
    assert_eq!(
        save(&mut broker, &mut broken, "new", "bob", "songs"),
        Err(CredentialError::BackendUnavailable)
    );
    assert_eq!(broker.snapshot(), before);
}

#[test]
fn refused_first_save_leaves_broker_unaware_of_a_token() {
    for fault in all_faults() {
        let mut broker = CredentialBroker::new();
        let mut store = MemoryStore::failing(fault);
        assert!(save(&mut broker, &mut store, "t", "alice", "tunes").is_err());
        assert_eq!(broker.snapshot(), Config::empty());
        assert_eq!(store.writes, 1);
    }
}

#[test]
fn load_from_empty_slot_is_not_an_error() {
    let broker = CredentialBroker::new();
    let mut store = MemoryStore::new();
    assert_eq!(load(&broker, &mut store), Ok(None));
    assert_eq!(broker.complete_load(Err(BackendFault::NoEntry)), Ok(None));
}

#[test]
fn load_keeps_owner_and_repo_when_the_slot_is_empty() {
    let mut broker = CredentialBroker::new();
    let mut store = MemoryStore::new();
    assert_eq!(save(&mut broker, &mut store, "t", "alice", "tunes"), Ok(true));
    let mut emptied = MemoryStore::new();
    assert_eq!(load(&broker, &mut emptied), Ok(None));
    assert_eq!(
        broker.snapshot(),
        Config { has_token: true, owner: "alice".to_string(), repo: "tunes".to_string() }
    );
}

#[test]
fn load_does_not_change_the_config() {
    let broker = CredentialBroker::new();
    let loaded = broker.complete_load(Ok("stored-earlier".to_string())).unwrap().unwrap();
    assert_eq!(
        loaded,
        Credentials {
            token: "stored-earlier".to_string(),
            owner: String::new(),
            repo: String::new(),
        }
    );
    assert_eq!(broker.snapshot(), Config::empty());
}

#[test]
fn load_reports_faults() {
    let mut broker = CredentialBroker::new();
    let mut store = MemoryStore::new();
    assert_eq!(save(&mut broker, &mut store, "t", "alice", "tunes"), Ok(true));
    assert_eq!(
        broker.complete_load(Err(BackendFault::NoStorageAccess)),
        Err(CredentialError::AccessDenied)
    );
    assert_eq!(
        broker.complete_load(Err(BackendFault::PlatformFailure)),
        Err(CredentialError::BackendUnavailable)
    );
    assert_eq!(
        broker.complete_load(Err(BackendFault::BadEncoding)),
        Err(CredentialError::BackendUnavailable)
    );
}

#[test]
fn faults_are_classified() {
    assert_eq!(classify_fault(BackendFault::NoStorageAccess), CredentialError::AccessDenied);
    for fault in all_faults() {
        if fault != BackendFault::NoStorageAccess {
            assert_eq!(classify_fault(fault), CredentialError::BackendUnavailable);
        }
    }
}

#[test]
fn write_replies_are_settled() {
    assert_eq!(settle_write(Ok(())), Ok(()));
    assert_eq!(settle_write(Err(BackendFault::NoStorageAccess)), Err(CredentialError::AccessDenied));
    assert_eq!(settle_write(Err(BackendFault::NoEntry)), Err(CredentialError::BackendUnavailable));
    assert_eq!(settle_write(Err(BackendFault::TooLong)), Err(CredentialError::BackendUnavailable));
}

#[test]
fn read_replies_are_settled() {
    assert_eq!(settle_read(Ok("t".to_string())), Ok(Some("t".to_string())));
    assert_eq!(settle_read(Ok(String::new())), Ok(Some(String::new())));
    assert_eq!(settle_read(Err(BackendFault::NoEntry)), Ok(None));
    assert_eq!(settle_read(Err(BackendFault::NoStorageAccess)), Err(CredentialError::AccessDenied));
    assert_eq!(settle_read(Err(BackendFault::Ambiguous)), Err(CredentialError::BackendUnavailable));
    assert_eq!(settle_read(Err(BackendFault::Invalid)), Err(CredentialError::BackendUnavailable));
    assert_eq!(
        settle_read(Err(BackendFault::Unrecognized)),
        Err(CredentialError::BackendUnavailable)
    );
}

#[test]
fn credential_errors_have_a_text() {
    assert_eq!(
        CredentialError::AccessDenied.message(),
        "AccessDenied: the secret store refused access."
    );
    assert_eq!(
        CredentialError::BackendUnavailable.message(),
        "BackendUnavailable: the secret store could not be used."
    );
}

#[test]
fn snapshot_is_a_copy() {
    let mut broker = CredentialBroker::new();
    let mut store = MemoryStore::new();
    let before = broker.snapshot();
    assert_eq!(save(&mut broker, &mut store, "t", "alice", "tunes"), Ok(true));
    assert_eq!(before, Config::empty());
    let after = broker.snapshot();
    assert_eq!(after.clone(), after);
    assert!(after.has_token);
}
