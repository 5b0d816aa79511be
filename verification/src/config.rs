//! The in-memory configuration record and the snapshots taken from it.

use vstd::prelude::*;

verus! {

/// What the application remembers between operations. The token itself is
/// never kept here: the record only says whether one is known to be stored.
#[derive(Debug, PartialEq, Eq)]
pub struct Config {
    pub has_token: bool,
    pub owner: String,
    pub repo: String,
}

/// Mathematical value of a [`Config`].
pub struct ConfigView {
    pub has_token: bool,
    pub owner: Seq<char>,
    pub repo: Seq<char>,
}

impl ConfigView {
    /// The record of a process that has saved nothing yet.
    pub open spec fn empty() -> ConfigView {
        ConfigView { has_token: false, owner: Seq::empty(), repo: Seq::empty() }
    }
}

impl View for Config {
    type V = ConfigView;

    open spec fn view(&self) -> ConfigView {
        ConfigView { has_token: self.has_token, owner: self.owner@, repo: self.repo@ }
    }
}

impl Clone for Config {
    fn clone(&self) -> (copy: Config)
        ensures
            copy@ == self@,
    {
        Config { has_token: self.has_token, owner: self.owner.clone(), repo: self.repo.clone() }
    }
}

impl Config {
    /// The record of a process that has saved nothing yet.
    pub fn empty() -> (config: Config)
        ensures
            config@ == ConfigView::empty(),
    {
        Config { has_token: false, owner: String::new(), repo: String::new() }
    }
}

/// A token read back from the secret backend, together with the owner and
/// repository that were cached when it was loaded.
#[derive(Debug, PartialEq, Eq)]
pub struct Credentials {
    pub token: String,
    pub owner: String,
    pub repo: String,
}

/// Mathematical value of [`Credentials`].
pub struct CredentialsView {
    pub token: Seq<char>,
    pub owner: Seq<char>,
    pub repo: Seq<char>,
}

impl CredentialsView {
    /// The configuration these credentials stand for: a token is present.
    pub open spec fn config(self) -> ConfigView {
        ConfigView { has_token: true, owner: self.owner, repo: self.repo }
    }
}

impl View for Credentials {
    type V = CredentialsView;

    open spec fn view(&self) -> CredentialsView {
        CredentialsView { token: self.token@, owner: self.owner@, repo: self.repo@ }
    }
}

impl Clone for Credentials {
    fn clone(&self) -> (copy: Credentials)
        ensures
            copy@ == self@,
    {
        Credentials {
            token: self.token.clone(),
            owner: self.owner.clone(),
            repo: self.repo.clone(),
        }
    }
}

impl Credentials {
    /// The configuration these credentials stand for, without the secret.
    pub fn config(&self) -> (config: Config)
        ensures
            config@ == self@.config(),
    {
        Config { has_token: true, owner: self.owner.clone(), repo: self.repo.clone() }
    }
}

} // verus!
