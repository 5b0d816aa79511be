//! How a deposit ended, and what the caller is told about it.

use vstd::prelude::*;
use crate::artifact::{metadata_path, metadata_path_of, payload_path, payload_path_of};
use crate::client::{detail_of, Outcome, OutcomeView};
use crate::secret::{credential_text, CredentialError};

verus! {

/// What is wrong with the configuration.
#[derive(Debug, Clone, Copy, PartialEq, Eq, Structural)]
pub enum ConfigError {
    /// No token is available: none was saved, or the slot is empty.
    MissingToken,
}

/// Why a deposit ended before anything was sent to the remote store.
#[derive(Debug, Clone, Copy, PartialEq, Eq, Structural)]
pub enum DepositError {
    Config(ConfigError),
    Credential(CredentialError),
}

/// The state in which a deposit that reached the remote store ended.
#[derive(Debug, Clone, Copy, PartialEq, Eq, Structural)]
pub enum PipelineState {
    /// Payload and metadata are both in the store.
    BothWritten,
    /// The payload was not written. Nothing was left in the store.
    PayloadFailed,
    /// The payload is in the store without its metadata: an orphaned
    /// artifact, which has to be completed or removed.
    PayloadOkMetadataFailed,
}

/// A deposit that reached the remote store: the outcome of either write,
/// the paths written to, and the state this amounts to.
#[derive(Debug, PartialEq, Eq)]
pub struct DepositResult {
    /// Name of the item.
    pub filename: String,
    /// Path of the payload artifact.
    pub payload_path: String,
    /// Path of the metadata artifact.
    pub metadata_path: String,
    /// Outcome of the payload write.
    pub payload: Outcome,
    /// Outcome of the metadata write; `None` where it was never attempted.
    pub metadata: Option<Outcome>,
    /// The state that the two outcomes amount to.
    pub state: PipelineState,
}

/// Mathematical value of a [`DepositResult`].
pub struct DepositResultView {
    pub filename: Seq<char>,
    pub payload_path: Seq<char>,
    pub metadata_path: Seq<char>,
    pub payload: OutcomeView,
    pub metadata: Option<OutcomeView>,
    pub state: PipelineState,
}

/// Mathematical value of an outcome that may be missing.
pub open spec fn attempt_view(attempt: Option<Outcome>) -> Option<OutcomeView> {
    match attempt {
        Some(outcome) => Some(outcome@),
        None => None,
    }
}

impl View for DepositResult {
    type V = DepositResultView;

    open spec fn view(&self) -> DepositResultView {
        DepositResultView {
            filename: self.filename@,
            payload_path: self.payload_path@,
            metadata_path: self.metadata_path@,
            payload: self.payload@,
            metadata: attempt_view(self.metadata),
            state: self.state,
        }
    }
}

/// The state that two outcomes amount to. Only two successes make a
/// success; a payload that was not written is a total failure, whatever is
/// known of the metadata.
pub open spec fn state_of(payload: OutcomeView, metadata: Option<OutcomeView>) -> PipelineState {
    if !(payload is Success) {
        PipelineState::PayloadFailed
    } else if metadata == Some(OutcomeView::Success) {
        PipelineState::BothWritten
    } else {
        PipelineState::PayloadOkMetadataFailed
    }
}

/// The result for the item named `filename`, given the outcomes of its
/// writes.
pub open spec fn result_of(
    filename: Seq<char>,
    payload: OutcomeView,
    metadata: Option<OutcomeView>,
) -> DepositResultView {
    DepositResultView {
        filename,
        payload_path: payload_path(filename),
        metadata_path: metadata_path(filename),
        payload,
        metadata,
        state: state_of(payload, metadata),
    }
}

impl DepositResultView {
    /// Whether the result is one that a deposit can end in: the paths are
    /// those of the item, the metadata write was attempted exactly when the
    /// payload write succeeded, and the state is the one that the outcomes
    /// amount to.
    pub open spec fn consistent(self) -> bool {
        &&& self.payload_path == payload_path(self.filename)
        &&& self.metadata_path == metadata_path(self.filename)
        &&& (self.metadata is Some <==> self.payload is Success)
        &&& self.state == state_of(self.payload, self.metadata)
    }

    /// What the failed write said, for a result that is a failure.
    pub open spec fn detail(self) -> Seq<char> {
        match self.state {
            PipelineState::BothWritten => Seq::empty(),
            PipelineState::PayloadFailed => detail_of(self.payload),
            PipelineState::PayloadOkMetadataFailed => match self.metadata {
                Some(outcome) => detail_of(outcome),
                None => Seq::empty(),
            },
        }
    }
}

/// Text of a deposit that sent nothing.
pub open spec fn refusal_text(error: DepositError) -> Seq<char> {
    match error {
        DepositError::Config(ConfigError::MissingToken) => "MissingToken: No GitHub token found. Please configure credentials."@,
        DepositError::Credential(inner) => credential_text(inner),
    }
}

/// Text of a deposit of which both artifacts were written.
pub open spec fn success_text(filename: Seq<char>) -> Seq<char> {
    "Successfully uploaded "@ + filename + " files to GitHub!"@
}

/// Text of a deposit of which nothing was written.
pub open spec fn payload_failed_text(detail: Seq<char>) -> Seq<char> {
    "PayloadFailed: "@ + detail
}

/// Text of a deposit that left an orphaned payload behind. It names the
/// orphan and the metadata artifact that is missing.
pub open spec fn orphaned_text(
    detail: Seq<char>,
    payload_path: Seq<char>,
    metadata_path: Seq<char>,
) -> Seq<char> {
    "PayloadOkMetadataFailed: "@ + detail + "; orphaned artifact: "@ + payload_path
        + "; metadata not written: "@ + metadata_path
}

/// What the caller is told of a result: the success message, or the text
/// of the failure.
pub open spec fn result_text(result: DepositResultView) -> Result<Seq<char>, Seq<char>> {
    match result.state {
        PipelineState::BothWritten => Ok(success_text(result.filename)),
        PipelineState::PayloadFailed => Err(payload_failed_text(result.detail())),
        PipelineState::PayloadOkMetadataFailed => Err(
            orphaned_text(result.detail(), result.payload_path, result.metadata_path),
        ),
    }
}

/// Mathematical value of a message.
pub open spec fn message_view(message: Result<String, String>) -> Result<Seq<char>, Seq<char>> {
    match message {
        Ok(text) => Ok(text@),
        Err(text) => Err(text@),
    }
}

impl DepositError {
    /// Text of the error.
    pub fn message(&self) -> (text: String)
        ensures
            text@ == refusal_text(*self),
    {
        match self {
            DepositError::Config(ConfigError::MissingToken) => String::from_str(
                "MissingToken: No GitHub token found. Please configure credentials.",
            ),
            DepositError::Credential(inner) => inner.message(),
        }
    }
}

/// The state that two outcomes amount to.
pub fn derive_state(payload: &Outcome, metadata: &Option<Outcome>) -> (state: PipelineState)
    ensures
        state == state_of(payload@, attempt_view(*metadata)),
{
    if !payload.succeeded() {
        PipelineState::PayloadFailed
    } else {
        match metadata {
            Some(outcome) => {
                if outcome.succeeded() {
                    PipelineState::BothWritten
                } else {
                    PipelineState::PayloadOkMetadataFailed
                }
            },
            None => PipelineState::PayloadOkMetadataFailed,
        }
    }
}

impl DepositResult {
    /// The result for the item named `filename`, given the outcomes of its
    /// writes.
    pub fn new(filename: String, payload: Outcome, metadata: Option<Outcome>) -> (result:
        DepositResult)
        ensures
            result@ == result_of(filename@, payload@, attempt_view(metadata)),
    {
        let payload_path = payload_path_of(filename.as_str());
        let metadata_path = metadata_path_of(filename.as_str());
        let state = derive_state(&payload, &metadata);
        DepositResult { filename, payload_path, metadata_path, payload, metadata, state }
    }

    /// Whether both artifacts were written.
    pub fn is_success(&self) -> (yes: bool)
        ensures
            yes == (self@.state == PipelineState::BothWritten),
    {
        match self.state {
            PipelineState::BothWritten => true,
            _ => false,
        }
    }

    /// What the failed write said; empty for a success.
    pub fn detail(&self) -> (text: String)
        ensures
            text@ == self@.detail(),
    {
        match self.state {
            PipelineState::BothWritten => String::new(),
            PipelineState::PayloadFailed => self.payload.detail(),
            PipelineState::PayloadOkMetadataFailed => match &self.metadata {
                Some(outcome) => outcome.detail(),
                None => String::new(),
            },
        }
    }

    /// What the caller is told: `Ok` with the success message where both
    /// artifacts were written, else `Err` with a text that begins with the
    /// name of the state.
    pub fn message(&self) -> (message: Result<String, String>)
        ensures
            message_view(message) == result_text(self@),
    {
        match self.state {
            PipelineState::BothWritten => {
                let mut text = String::from_str("Successfully uploaded ");
                text.append(self.filename.as_str());
                text.append(" files to GitHub!");
                Ok(text)
            },
            PipelineState::PayloadFailed => {
                let detail = self.detail();
                let mut text = String::from_str("PayloadFailed: ");
                text.append(detail.as_str());
                Err(text)
            },
            PipelineState::PayloadOkMetadataFailed => {
                let detail = self.detail();
                let mut text = String::from_str("PayloadOkMetadataFailed: ");
                text.append(detail.as_str());
                text.append("; orphaned artifact: ");
                text.append(self.payload_path.as_str());
                text.append("; metadata not written: ");
                text.append(self.metadata_path.as_str());
                Err(text)
            },
        }
    }
}

/// What a result amounts to follows from its outcomes alone: a success
/// takes two successes, an orphaned payload is a written payload whose
/// metadata write was attempted and failed, and a total failure is a
/// payload that was not written, after which nothing more was attempted.
pub proof fn lemma_state_reflects_outcomes(result: DepositResultView)
    requires
        result.consistent(),
    ensures
        result.state == PipelineState::BothWritten <==> result.payload is Success
            && result.metadata == Some(OutcomeView::Success),
        result.state == PipelineState::PayloadOkMetadataFailed <==> result.payload is Success
            && result.metadata is Some && !(result.metadata->Some_0 is Success),
        result.state == PipelineState::PayloadFailed <==> !(result.payload is Success)
            && result.metadata is None,
{
}

/// Only a deposit of which both artifacts were written is reported as a
/// success: an orphaned payload is always reported as a failure.
pub proof fn lemma_only_both_written_reads_as_success(result: DepositResultView)
    ensures
        result_text(result) is Ok <==> result.state == PipelineState::BothWritten,
        result.state == PipelineState::PayloadOkMetadataFailed ==> result_text(result) is Err,
{
}

/// The text of a result tells its state: results in different states never
/// read the same. In particular a total failure and an orphaned payload
/// cannot be mistaken for one another, nor either for a success.
pub proof fn lemma_text_tells_state(first: DepositResultView, second: DepositResultView)
    requires
        result_text(first) == result_text(second),
    ensures
        first.state == second.state,
{
    reveal_strlit("PayloadFailed: ");
    reveal_strlit("PayloadOkMetadataFailed: ");
    let total = payload_failed_text(first.detail());
    let total_too = payload_failed_text(second.detail());
    let orphan = orphaned_text(first.detail(), first.payload_path, first.metadata_path);
    let orphan_too = orphaned_text(second.detail(), second.payload_path, second.metadata_path);
    assert(total[7] == 'F' && total_too[7] == 'F');
    assert(orphan[7] == 'O' && orphan_too[7] == 'O');
}

/// No text of a result that reached the store reads like the text of a
/// deposit that sent nothing.
pub proof fn lemma_refusal_reads_unlike_failure(error: DepositError, result: DepositResultView)
    ensures
        result_text(result) != Err::<Seq<char>, Seq<char>>(refusal_text(error)),
{
    reveal_strlit("PayloadFailed: ");
    reveal_strlit("PayloadOkMetadataFailed: ");
    reveal_strlit("MissingToken: No GitHub token found. Please configure credentials.");
    reveal_strlit("AccessDenied: the secret store refused access.");
    reveal_strlit("BackendUnavailable: the secret store could not be used.");
    let refusal = refusal_text(error);
    assert(refusal[0] != 'P');
    let total = payload_failed_text(result.detail());
    let orphan = orphaned_text(result.detail(), result.payload_path, result.metadata_path);
    assert(total[0] == 'P');
    assert(orphan[0] == 'P');
}

} // verus!
