//! The credential broker: the owner of the in-memory configuration, kept in
//! step with the secret backend.
//!
//! Saving and loading each surround one call to the backend. The broker
//! never makes that call. `begin_save` and `begin_load` name the request,
//! and `complete_save` and `complete_load` take the backend's reply, so a
//! lock around the broker is needed for the completing step alone.

use vstd::prelude::*;
use crate::config::{Config, ConfigView, Credentials, CredentialsView};
use crate::secret::{
    fault_class, read_of_slot, read_result, reply_view, settle_read, settle_write, slot_read,
    slot_write, vault_after, vault_answer, write_result, write_to_slot, BackendFault,
    CredentialError, SecretRead, SecretWrite, SecretWriteView, Vault,
};

verus! {

/// Owner of the configuration record. The record changes through
/// [`CredentialBroker::complete_save`] only.
#[derive(Debug)]
pub struct CredentialBroker {
    config: Config,
}

impl View for CredentialBroker {
    type V = ConfigView;

    closed spec fn view(&self) -> ConfigView {
        self.config@
    }
}

/// A save whose write to the secret backend is under way: the owner and
/// repository wait here until the backend has answered.
#[derive(Debug)]
pub struct PendingSave {
    write: SecretWrite,
    owner: String,
    repo: String,
}

/// Mathematical value of a [`PendingSave`].
pub struct PendingSaveView {
    pub write: SecretWriteView,
    pub owner: Seq<char>,
    pub repo: Seq<char>,
}

impl View for PendingSave {
    type V = PendingSaveView;

    closed spec fn view(&self) -> PendingSaveView {
        PendingSaveView { write: self.write@, owner: self.owner@, repo: self.repo@ }
    }
}

/// The save that `begin_save` starts.
pub open spec fn save_begun(token: Seq<char>, owner: Seq<char>, repo: Seq<char>) -> PendingSaveView {
    PendingSaveView { write: slot_write(token), owner, repo }
}

/// The configuration after a save has been completed. Only a write that
/// the backend accepted changes it.
pub open spec fn config_after_save(
    before: ConfigView,
    pending: PendingSaveView,
    reply: Result<(), BackendFault>,
) -> ConfigView {
    match reply {
        Ok(_) => ConfigView { has_token: true, owner: pending.owner, repo: pending.repo },
        Err(_) => before,
    }
}

/// What a save returns.
pub open spec fn save_result(reply: Result<(), BackendFault>) -> Result<bool, CredentialError> {
    match write_result(reply) {
        Ok(_) => Ok(true),
        Err(error) => Err(error),
    }
}

/// What a load returns: the token that the backend holds, with the cached
/// owner and repository; nothing where the slot is empty.
pub open spec fn load_result(config: ConfigView, reply: Result<Seq<char>, BackendFault>) -> Result<
    Option<CredentialsView>,
    CredentialError,
> {
    match read_result(reply) {
        Ok(Some(token)) => Ok(
            Some(CredentialsView { token, owner: config.owner, repo: config.repo }),
        ),
        Ok(None) => Ok(None),
        Err(error) => Err(error),
    }
}

/// Mathematical value of what a load returns.
pub open spec fn loaded_view(loaded: Result<Option<Credentials>, CredentialError>) -> Result<
    Option<CredentialsView>,
    CredentialError,
> {
    match loaded {
        Ok(Some(credentials)) => Ok(Some(credentials@)),
        Ok(None) => Ok(None),
        Err(error) => Err(error),
    }
}

/// Joins the backend's reply to a read with the owner and repository of
/// `config`.
pub fn resolve(config: &Config, reply: Result<String, BackendFault>) -> (loaded: Result<
    Option<Credentials>,
    CredentialError,
>)
    ensures
        loaded_view(loaded) == load_result(config@, reply_view(reply)),
{
    match settle_read(reply) {
        Ok(Some(token)) => Ok(
            Some(Credentials { token, owner: config.owner.clone(), repo: config.repo.clone() }),
        ),
        Ok(None) => Ok(None),
        Err(error) => Err(error),
    }
}

impl PendingSave {
    /// The write to hand to the secret backend.
    pub fn write(&self) -> (write: &SecretWrite)
        ensures
            write@ == self@.write,
    {
        &self.write
    }
}

impl CredentialBroker {
    /// A broker that knows of no token, owner or repository.
    pub fn new() -> (broker: CredentialBroker)
        ensures
            broker@ == ConfigView::empty(),
    {
        CredentialBroker { config: Config::empty() }
    }

    /// A copy of the current configuration. It says whether a token is
    /// available and never holds the token.
    pub fn snapshot(&self) -> (config: Config)
        ensures
            config@ == self@,
    {
        self.config.clone()
    }

    /// Starts a save: names the write that must reach the secret backend
    /// before the configuration may change. The broker is not involved yet.
    pub fn begin_save(token: String, owner: String, repo: String) -> (pending: PendingSave)
        ensures
            pending@ == save_begun(token@, owner@, repo@),
    {
        PendingSave { write: write_to_slot(token), owner, repo }
    }

    /// Completes a save with the backend's reply to the write. If the write
    /// was accepted, the configuration records the token as present, with
    /// the new owner and repository, and the result is `Ok(true)`. If not,
    /// the configuration is left as it was and the classified error is
    /// returned.
    pub fn complete_save(&mut self, pending: PendingSave, reply: Result<(), BackendFault>) -> (result:
        Result<bool, CredentialError>)
        ensures
            result == save_result(reply),
            final(self)@ == config_after_save(old(self)@, pending@, reply),
    {
        match settle_write(reply) {
            Ok(_) => {
                self.config = Config { has_token: true, owner: pending.owner, repo: pending.repo };
                Ok(true)
            },
            Err(error) => Err(error),
        }
    }

    /// Starts a load: names the read to hand to the secret backend.
    pub fn begin_load() -> (read: SecretRead)
        ensures
            read@ == slot_read(),
    {
        read_of_slot()
    }

    /// Completes a load with the backend's reply to the read. An empty slot
    /// gives `Ok(None)`. The configuration does not change: owner and
    /// repository are those of the last completed save.
    pub fn complete_load(&self, reply: Result<String, BackendFault>) -> (loaded: Result<
        Option<Credentials>,
        CredentialError,
    >)
        ensures
            loaded_view(loaded) == load_result(self@, reply_view(reply)),
    {
        resolve(&self.config, reply)
    }
}

/// A save that the backend accepts, followed by a load from the same
/// backend, returns the saved token with the saved owner and repository,
/// and the configuration it stands for has the token present. This holds
/// whatever the broker and the backend held before.
pub proof fn lemma_save_then_load_round_trip(
    before: ConfigView,
    vault: Vault,
    token: Seq<char>,
    owner: Seq<char>,
    repo: Seq<char>,
)
    ensures
        ({
            let pending = save_begun(token, owner, repo);
            let stored = vault_after(vault, pending.write);
            let config = config_after_save(before, pending, Ok(()));
            let loaded = load_result(config, vault_answer(stored, slot_read()));
            &&& save_result(Ok(())) == Ok::<bool, CredentialError>(true)
            &&& config == ConfigView { has_token: true, owner, repo }
            &&& loaded == Ok::<Option<CredentialsView>, CredentialError>(
                Some(CredentialsView { token, owner, repo }),
            )
            &&& loaded->Ok_0->Some_0.config() == config
        }),
{
}

/// Of two accepted saves, a later load reflects the second only: its token,
/// its owner and its repository.
pub proof fn lemma_second_save_overwrites(
    before: ConfigView,
    vault: Vault,
    first_token: Seq<char>,
    first_owner: Seq<char>,
    first_repo: Seq<char>,
    token: Seq<char>,
    owner: Seq<char>,
    repo: Seq<char>,
)
    ensures
        ({
            let first = save_begun(first_token, first_owner, first_repo);
            let second = save_begun(token, owner, repo);
            let stored = vault_after(vault_after(vault, first.write), second.write);
            let config = config_after_save(
                config_after_save(before, first, Ok(())),
                second,
                Ok(()),
            );
            &&& stored == vault_after(vault, second.write)
            &&& load_result(config, vault_answer(stored, slot_read())) == Ok::<
                Option<CredentialsView>,
                CredentialError,
            >(Some(CredentialsView { token, owner, repo }))
        }),
{
    let first = save_begun(first_token, first_owner, first_repo);
    let second = save_begun(token, owner, repo);
    assert(vault_after(vault_after(vault, first.write), second.write) =~= vault_after(
        vault,
        second.write,
    ));
}

/// A save that the backend refuses changes nothing in memory, so the flag
/// never claims a token that was not durably stored.
pub proof fn lemma_refused_save_changes_nothing(
    before: ConfigView,
    pending: PendingSaveView,
    fault: BackendFault,
)
    ensures
        config_after_save(before, pending, Err(fault)) == before,
        save_result(Err(fault)) == Err::<bool, CredentialError>(fault_class(fault)),
{
}

} // verus!
