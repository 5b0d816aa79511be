//! The secret backend as the library sees it: one credential slot, the
//! requests made of it, its replies, and how its faults are classified.
//!
//! The backend itself is reached by the caller. It reports a failure as a
//! [`BackendFault`]; the library turns that into the [`CredentialError`] an
//! operation returns.

use vstd::prelude::*;

verus! {

/// Service under which the credential is filed.
pub const SERVICE: &'static str = "music-uploader";

/// Name of the single credential slot within [`SERVICE`].
pub const SLOT: &'static str = "github-token";

/// Why the platform's secret store did not do what was asked.
#[derive(Debug, Clone, Copy, PartialEq, Eq, Structural)]
pub enum BackendFault {
    /// The platform store failed at run time.
    PlatformFailure,
    /// The store exists but refused access, for instance because it is locked.
    NoStorageAccess,
    /// Nothing is stored in the slot.
    NoEntry,
    /// What is stored is not text.
    BadEncoding,
    /// An attribute of the slot exceeds a platform limit.
    TooLong,
    /// An attribute of the slot is not valid on this platform.
    Invalid,
    /// More than one stored credential matches the slot.
    Ambiguous,
    /// A failure of a kind this library does not know.
    Unrecognized,
}

/// Failure of a credential operation.
#[derive(Debug, Clone, Copy, PartialEq, Eq, Structural)]
pub enum CredentialError {
    /// The operating system refused permission.
    AccessDenied,
    /// The secret facility could not be reached, initialised or used.
    BackendUnavailable,
}

/// Text of a credential error.
pub open spec fn credential_text(error: CredentialError) -> Seq<char> {
    match error {
        CredentialError::AccessDenied => "AccessDenied: the secret store refused access."@,
        CredentialError::BackendUnavailable => "BackendUnavailable: the secret store could not be used."@,
    }
}

impl CredentialError {
    /// Text of the error.
    pub fn message(&self) -> (text: String)
        ensures
            text@ == credential_text(*self),
    {
        match self {
            CredentialError::AccessDenied => String::from_str(
                "AccessDenied: the secret store refused access.",
            ),
            CredentialError::BackendUnavailable => String::from_str(
                "BackendUnavailable: the secret store could not be used.",
            ),
        }
    }
}

/// Request to store `secret` in a slot, replacing what the slot held.
#[derive(Debug, PartialEq, Eq)]
pub struct SecretWrite {
    pub service: String,
    pub slot: String,
    pub secret: String,
}

/// Mathematical value of a [`SecretWrite`].
pub struct SecretWriteView {
    pub service: Seq<char>,
    pub slot: Seq<char>,
    pub secret: Seq<char>,
}

impl View for SecretWrite {
    type V = SecretWriteView;

    open spec fn view(&self) -> SecretWriteView {
        SecretWriteView { service: self.service@, slot: self.slot@, secret: self.secret@ }
    }
}

/// Request to read a slot.
#[derive(Debug, PartialEq, Eq)]
pub struct SecretRead {
    pub service: String,
    pub slot: String,
}

/// Mathematical value of a [`SecretRead`].
pub struct SecretReadView {
    pub service: Seq<char>,
    pub slot: Seq<char>,
}

impl View for SecretRead {
    type V = SecretReadView;

    open spec fn view(&self) -> SecretReadView {
        SecretReadView { service: self.service@, slot: self.slot@ }
    }
}

/// The write that stores `secret` in the application's slot.
pub open spec fn slot_write(secret: Seq<char>) -> SecretWriteView {
    SecretWriteView { service: SERVICE@, slot: SLOT@, secret }
}

/// The read of the application's slot.
pub open spec fn slot_read() -> SecretReadView {
    SecretReadView { service: SERVICE@, slot: SLOT@ }
}

/// The error that a fault is reported as.
pub open spec fn fault_class(fault: BackendFault) -> CredentialError {
    match fault {
        BackendFault::NoStorageAccess => CredentialError::AccessDenied,
        _ => CredentialError::BackendUnavailable,
    }
}

/// What a write amounts to, given the backend's reply.
pub open spec fn write_result(reply: Result<(), BackendFault>) -> Result<(), CredentialError> {
    match reply {
        Ok(_) => Ok(()),
        Err(fault) => Err(fault_class(fault)),
    }
}

/// What a read amounts to, given the backend's reply: an empty slot is an
/// answer, not an error.
pub open spec fn read_result(reply: Result<Seq<char>, BackendFault>) -> Result<
    Option<Seq<char>>,
    CredentialError,
> {
    match reply {
        Ok(secret) => Ok(Some(secret)),
        Err(BackendFault::NoEntry) => Ok(None),
        Err(fault) => Err(fault_class(fault)),
    }
}

/// Mathematical value of a read's reply.
pub open spec fn reply_view(reply: Result<String, BackendFault>) -> Result<
    Seq<char>,
    BackendFault,
> {
    match reply {
        Ok(secret) => Ok(secret@),
        Err(fault) => Err(fault),
    }
}

/// Mathematical value of a classified read.
pub open spec fn lookup_view(lookup: Result<Option<String>, CredentialError>) -> Result<
    Option<Seq<char>>,
    CredentialError,
> {
    match lookup {
        Ok(Some(secret)) => Ok(Some(secret@)),
        Ok(None) => Ok(None),
        Err(error) => Err(error),
    }
}

/// The write that stores `secret` in the application's slot.
pub fn write_to_slot(secret: String) -> (write: SecretWrite)
    ensures
        write@ == slot_write(secret@),
{
    SecretWrite { service: String::from_str(SERVICE), slot: String::from_str(SLOT), secret }
}

/// The read of the application's slot.
pub fn read_of_slot() -> (read: SecretRead)
    ensures
        read@ == slot_read(),
{
    SecretRead { service: String::from_str(SERVICE), slot: String::from_str(SLOT) }
}

/// Classifies a fault: a refusal of access is `AccessDenied`, every other
/// fault means that the backend could not be used.
pub fn classify_fault(fault: BackendFault) -> (error: CredentialError)
    ensures
        error == fault_class(fault),
{
    match fault {
        BackendFault::NoStorageAccess => CredentialError::AccessDenied,
        _ => CredentialError::BackendUnavailable,
    }
}

/// Classifies the reply to a write.
pub fn settle_write(reply: Result<(), BackendFault>) -> (result: Result<(), CredentialError>)
    ensures
        result == write_result(reply),
{
    match reply {
        Ok(_) => Ok(()),
        Err(fault) => Err(classify_fault(fault)),
    }
}

/// Classifies the reply to a read. An empty slot gives `Ok(None)`.
pub fn settle_read(reply: Result<String, BackendFault>) -> (result: Result<
    Option<String>,
    CredentialError,
>)
    ensures
        lookup_view(result) == read_result(reply_view(reply)),
{
    match reply {
        Ok(secret) => Ok(Some(secret)),
        Err(BackendFault::NoEntry) => Ok(None),
        Err(fault) => Err(classify_fault(fault)),
    }
}

/// Contents of a secret backend: the secret held in each slot that holds
/// one, by service and slot name.
pub type Vault = Map<(Seq<char>, Seq<char>), Seq<char>>;

/// The vault after a write that succeeded: the slot holds the new secret
/// and nothing else changed. A slot holds one secret, so a second write
/// replaces the first.
pub open spec fn vault_after(vault: Vault, write: SecretWriteView) -> Vault {
    vault.insert((write.service, write.slot), write.secret)
}

/// The reply of a working backend to a read.
pub open spec fn vault_answer(vault: Vault, read: SecretReadView) -> Result<
    Seq<char>,
    BackendFault,
> {
    if vault.dom().contains((read.service, read.slot)) {
        Ok(vault[(read.service, read.slot)])
    } else {
        Err(BackendFault::NoEntry)
    }
}

} // verus!
