//! Credential handling and the two-phase deposit protocol of a music uploader.
//!
//! An item is deposited as two files in a remote repository: its encrypted
//! payload, then its metadata. The token that authorises the writes lives in
//! the platform's secret store; in memory the library keeps only the owner,
//! the repository, and whether a token is known.
//!
//! The library decides; it performs no I/O. Every operation that needs the
//! secret backend or the network is split into steps: a step hands the
//! caller a request, the caller performs it, and the next step takes the
//! reply. The caller may therefore guard a [`broker::CredentialBroker`] with
//! a lock that is held for the in-memory steps only, and may run any number
//! of deposits side by side.
//!
//! * [`secret`]: the credential slot, its requests, replies and faults.
//! * [`config`]: the configuration record and loaded credentials.
//! * [`broker`]: saving and loading credentials.
//! * [`encoding`]: base64 text of a file's bytes.
//! * [`client`]: one write to the remote store and the outcome of it.
//! * [`artifact`]: paths and commit messages of the two artifacts.
//! * [`item`]: the item to deposit.
//! * [`report`]: how a deposit ended and what the caller is told.
//! * [`pipeline`]: the steps of a deposit.

pub mod artifact;
pub mod broker;
pub mod client;
pub mod config;
pub mod encoding;
pub mod item;
pub mod pipeline;
pub mod report;
pub mod secret;
