//! The deposit pipeline: the payload first, then the metadata, each written
//! once.
//!
//! A deposit alternates decisions with work that only the caller can do.
//! Each step below takes the reply to the request that the step before it
//! returned, and returns either the next state with the next request, or
//! the end of the deposit. A state is consumed by its step, so no step is
//! taken twice and no request is repeated.
//!
//! ```text
//! start ──► AwaitingToken ──► AwaitingPayload ──► AwaitingMetadata ──► DepositResult
//!   │             │                  │
//!   ▼             ▼                  ▼
//! DepositError  DepositError   DepositResult (PayloadFailed)
//! ```

use vstd::prelude::*;
use crate::artifact::{
    lemma_distinct_names_distinct_paths, metadata_message, metadata_message_of, metadata_path,
    metadata_path_of, payload_message, payload_message_of, payload_path, payload_path_of,
};
use crate::client::{
    build_url, classify, contents_url, outcome_of, put_file, put_request, Outcome, OutcomeView,
    TransportReply, TransportReplyView, WriteRequest, WriteRequestView,
};
use crate::broker::{load_result, resolve};
use crate::config::{Config, ConfigView, Credentials, CredentialsView};
use crate::encoding::base64_standard;
use crate::item::{DepositItem, ItemView};
use crate::report::{
    result_of, ConfigError, DepositError, DepositResult, DepositResultView, PipelineState,
};
use crate::secret::{
    fault_class, read_of_slot, reply_view, slot_read, BackendFault, SecretRead, SecretReadView,
};

verus! {

/// A deposit that has asked for the token.
#[derive(Debug)]
pub struct AwaitingToken {
    snapshot: Config,
    item: DepositItem,
}

/// Mathematical value of an [`AwaitingToken`].
pub struct AwaitingTokenView {
    pub snapshot: ConfigView,
    pub item: ItemView,
}

impl View for AwaitingToken {
    type V = AwaitingTokenView;

    closed spec fn view(&self) -> AwaitingTokenView {
        AwaitingTokenView { snapshot: self.snapshot@, item: self.item@ }
    }
}

/// A deposit whose payload write is under way. It holds the credentials
/// it loaded, for the metadata write that may follow.
#[derive(Debug)]
pub struct AwaitingPayload {
    credentials: Credentials,
    item: DepositItem,
}

/// Mathematical value of an [`AwaitingPayload`].
pub struct AwaitingPayloadView {
    pub credentials: CredentialsView,
    pub item: ItemView,
}

impl View for AwaitingPayload {
    type V = AwaitingPayloadView;

    closed spec fn view(&self) -> AwaitingPayloadView {
        AwaitingPayloadView { credentials: self.credentials@, item: self.item@ }
    }
}

/// A deposit whose payload is written and whose metadata write is under
/// way. The token is no longer held.
#[derive(Debug)]
pub struct AwaitingMetadata {
    filename: String,
}

/// Mathematical value of an [`AwaitingMetadata`].
pub struct AwaitingMetadataView {
    pub filename: Seq<char>,
}

impl View for AwaitingMetadata {
    type V = AwaitingMetadataView;

    closed spec fn view(&self) -> AwaitingMetadataView {
        AwaitingMetadataView { filename: self.filename@ }
    }
}

/// The credentials of a deposit: the token that the secret backend held
/// when the deposit asked for it, with the owner and repository of the
/// snapshot that the deposit started on.
pub open spec fn credentials_of(token: Seq<char>, snapshot: ConfigView) -> CredentialsView {
    CredentialsView { token, owner: snapshot.owner, repo: snapshot.repo }
}

/// The write of the payload of `item`, authorised by `credentials`.
pub open spec fn payload_request(credentials: CredentialsView, item: ItemView) -> WriteRequestView {
    put_request(
        contents_url(credentials.owner, credentials.repo, payload_path(item.filename)),
        credentials.token,
        payload_message(item.filename),
        base64_standard(item.payload),
    )
}

/// The write of the metadata of `item`, authorised by `credentials`.
pub open spec fn metadata_request(credentials: CredentialsView, item: ItemView) -> WriteRequestView {
    put_request(
        contents_url(credentials.owner, credentials.repo, metadata_path(item.filename)),
        credentials.token,
        metadata_message(item.filename),
        base64_standard(item.metadata_bytes()),
    )
}

/// The first step: a deposit needs a token, and a configuration that knows
/// of none ends it at once.
pub open spec fn start_step(snapshot: ConfigView, item: ItemView) -> Result<
    (AwaitingTokenView, SecretReadView),
    DepositError,
> {
    if snapshot.has_token {
        Ok((AwaitingTokenView { snapshot, item }, slot_read()))
    } else {
        Err(DepositError::Config(ConfigError::MissingToken))
    }
}

/// The step that takes the secret backend's reply. The credentials are
/// loaded as a load on the snapshot loads them: with a token the payload
/// is sent, without one the deposit ends.
pub open spec fn token_step(state: AwaitingTokenView, reply: Result<Seq<char>, BackendFault>) -> Result<
    (AwaitingPayloadView, WriteRequestView),
    DepositError,
> {
    match load_result(state.snapshot, reply) {
        Ok(Some(credentials)) => Ok(
            (
                AwaitingPayloadView { credentials, item: state.item },
                payload_request(credentials, state.item),
            ),
        ),
        Ok(None) => Err(DepositError::Config(ConfigError::MissingToken)),
        Err(error) => Err(DepositError::Credential(error)),
    }
}

/// The step that takes the reply to the payload write: after a success the
/// metadata is sent, after anything else the deposit ends as a total
/// failure.
pub open spec fn payload_step(state: AwaitingPayloadView, reply: TransportReplyView) -> Result<
    (AwaitingMetadataView, WriteRequestView),
    DepositResultView,
> {
    let outcome = outcome_of(reply);
    if outcome is Success {
        Ok(
            (
                AwaitingMetadataView { filename: state.item.filename },
                metadata_request(state.credentials, state.item),
            ),
        )
    } else {
        Err(result_of(state.item.filename, outcome, None))
    }
}

/// The step that takes the reply to the metadata write and ends the
/// deposit.
pub open spec fn metadata_step(
    state: AwaitingMetadataView,
    reply: TransportReplyView,
) -> DepositResultView {
    result_of(state.filename, OutcomeView::Success, Some(outcome_of(reply)))
}

/// Starts a deposit of `item` on a snapshot of the configuration. Where
/// the snapshot knows of no token the deposit ends with `MissingToken`;
/// otherwise the token is to be read from the secret backend.
pub fn start(snapshot: Config, item: DepositItem) -> (next: Result<
    (AwaitingToken, SecretRead),
    DepositError,
>)
    ensures
        match start_step(snapshot@, item@) {
            Ok((state, read)) => next matches Ok(pair) && pair.0@ == state && pair.1@ == read,
            Err(error) => next matches Err(given) && given == error,
        },
{
    if snapshot.has_token {
        Ok((AwaitingToken { snapshot, item }, read_of_slot()))
    } else {
        Err(DepositError::Config(ConfigError::MissingToken))
    }
}

impl AwaitingToken {
    /// Takes the secret backend's reply to the read. With a token, returns
    /// the write of the payload. An empty slot ends the deposit with
    /// `MissingToken`, a fault with its credential error.
    pub fn on_token(self, reply: Result<String, BackendFault>) -> (next: Result<
        (AwaitingPayload, WriteRequest),
        DepositError,
    >)
        ensures
            match token_step(self@, reply_view(reply)) {
                Ok((state, request)) => next matches Ok(pair) && pair.0@ == state && pair.1@
                    == request,
                Err(error) => next matches Err(given) && given == error,
            },
    {
        match resolve(&self.snapshot, reply) {
            Ok(Some(credentials)) => {
                let path = payload_path_of(self.item.filename());
                let url = build_url(
                    credentials.owner.as_str(),
                    credentials.repo.as_str(),
                    path.as_str(),
                );
                let message = payload_message_of(self.item.filename());
                let request = put_file(
                    url,
                    credentials.token.as_str(),
                    message,
                    self.item.payload(),
                );
                Ok((AwaitingPayload { credentials, item: self.item }, request))
            },
            Ok(None) => Err(DepositError::Config(ConfigError::MissingToken)),
            Err(error) => Err(DepositError::Credential(error)),
        }
    }
}

impl AwaitingPayload {
    /// Takes the reply to the payload write. After a success, returns the
    /// write of the metadata. After anything else the deposit has ended:
    /// nothing was written, and the metadata is not sent.
    pub fn on_payload(self, reply: TransportReply) -> (next: Result<
        (AwaitingMetadata, WriteRequest),
        DepositResult,
    >)
        ensures
            match payload_step(self@, reply@) {
                Ok((state, request)) => next matches Ok(pair) && pair.0@ == state && pair.1@
                    == request,
                Err(result) => next matches Err(given) && given@ == result,
            },
    {
        let outcome = classify(reply);
        if outcome.succeeded() {
            let path = metadata_path_of(self.item.filename());
            let url = build_url(
                self.credentials.owner.as_str(),
                self.credentials.repo.as_str(),
                path.as_str(),
            );
            let message = metadata_message_of(self.item.filename());
            let request = put_file(
                url,
                self.credentials.token.as_str(),
                message,
                self.item.metadata_bytes(),
            );
            let filename = String::from_str(self.item.filename());
            Ok((AwaitingMetadata { filename }, request))
        } else {
            let filename = String::from_str(self.item.filename());
            Err(DepositResult::new(filename, outcome, None))
        }
    }
}

impl AwaitingMetadata {
    /// Takes the reply to the metadata write and ends the deposit: both
    /// artifacts are written, or the payload is left orphaned.
    pub fn on_metadata(self, reply: TransportReply) -> (result: DepositResult)
        ensures
            result@ == metadata_step(self@, reply@),
    {
        let outcome = classify(reply);
        DepositResult::new(self.filename, Outcome::Success, Some(outcome))
    }
}

/// How a deposit ended.
pub enum RunEnd {
    /// Nothing was sent.
    Refused(DepositError),
    /// The remote store was reached.
    Finished(DepositResultView),
}

/// A whole deposit: the writes that were sent, in order, and the end.
pub struct Run {
    pub writes: Seq<WriteRequestView>,
    pub end: RunEnd,
}

/// The deposit of `item` on `snapshot`, where the secret backend answers
/// `token_reply` and the remote store answers `payload_reply` to the first
/// write and `metadata_reply` to the second. A reply to a request that is
/// never made plays no part.
pub open spec fn run(
    snapshot: ConfigView,
    item: ItemView,
    token_reply: Result<Seq<char>, BackendFault>,
    payload_reply: TransportReplyView,
    metadata_reply: TransportReplyView,
) -> Run {
    match start_step(snapshot, item) {
        Err(error) => Run { writes: Seq::empty(), end: RunEnd::Refused(error) },
        Ok((waiting, _)) => match token_step(waiting, token_reply) {
            Err(error) => Run { writes: Seq::empty(), end: RunEnd::Refused(error) },
            Ok((sending, first)) => match payload_step(sending, payload_reply) {
                Err(result) => Run { writes: seq![first], end: RunEnd::Finished(result) },
                Ok((closing, second)) => Run {
                    writes: seq![first, second],
                    end: RunEnd::Finished(metadata_step(closing, metadata_reply)),
                },
            },
        },
    }
}

/// A deposit on a configuration that knows of no token ends with
/// `MissingToken` and sends nothing, whatever the backend and the store
/// would have answered.
pub proof fn lemma_no_token_no_write(
    snapshot: ConfigView,
    item: ItemView,
    token_reply: Result<Seq<char>, BackendFault>,
    payload_reply: TransportReplyView,
    metadata_reply: TransportReplyView,
)
    requires
        !snapshot.has_token,
    ensures
        run(snapshot, item, token_reply, payload_reply, metadata_reply) == (Run {
            writes: Seq::empty(),
            end: RunEnd::Refused(DepositError::Config(ConfigError::MissingToken)),
        }),
{
}

/// A deposit on the configuration of a new broker, on which nothing was
/// saved, ends with `MissingToken` and sends nothing.
pub proof fn lemma_new_broker_no_write(
    item: ItemView,
    token_reply: Result<Seq<char>, BackendFault>,
    payload_reply: TransportReplyView,
    metadata_reply: TransportReplyView,
)
    ensures
        run(ConfigView::empty(), item, token_reply, payload_reply, metadata_reply) == (Run {
            writes: Seq::empty(),
            end: RunEnd::Refused(DepositError::Config(ConfigError::MissingToken)),
        }),
{
}

/// A deposit for which the secret backend holds no token, or fails, sends
/// nothing either.
pub proof fn lemma_no_secret_no_write(
    snapshot: ConfigView,
    item: ItemView,
    fault: BackendFault,
    payload_reply: TransportReplyView,
    metadata_reply: TransportReplyView,
)
    ensures
        ({
            let whole = run(snapshot, item, Err(fault), payload_reply, metadata_reply);
            &&& whole.writes.len() == 0
            &&& whole.end is Refused
            &&& snapshot.has_token && fault == BackendFault::NoEntry ==> whole.end
                == RunEnd::Refused(DepositError::Config(ConfigError::MissingToken))
            &&& snapshot.has_token && fault != BackendFault::NoEntry ==> whole.end
                == RunEnd::Refused(DepositError::Credential(fault_class(fault)))
        }),
{
}

/// A deposit whose payload is written and whose metadata is not ends as
/// `PayloadOkMetadataFailed`, never as a success. The result holds the
/// outcome of the metadata write and names both paths, and exactly two
/// writes were sent: the payload, then the metadata, each once.
pub proof fn lemma_metadata_failure_leaves_orphan(
    snapshot: ConfigView,
    item: ItemView,
    token: Seq<char>,
    payload_reply: TransportReplyView,
    metadata_reply: TransportReplyView,
)
    requires
        snapshot.has_token,
        outcome_of(payload_reply) is Success,
        !(outcome_of(metadata_reply) is Success),
    ensures
        ({
            let whole = run(snapshot, item, Ok(token), payload_reply, metadata_reply);
            &&& whole.writes == seq![
                payload_request(credentials_of(token, snapshot), item),
                metadata_request(credentials_of(token, snapshot), item),
            ]
            &&& whole.end matches RunEnd::Finished(result)
            &&& result.state == PipelineState::PayloadOkMetadataFailed
            &&& result.payload is Success
            &&& result.metadata == Some(outcome_of(metadata_reply))
            &&& result.payload_path == payload_path(item.filename)
            &&& result.metadata_path == metadata_path(item.filename)
        }),
{
}

/// A deposit whose payload is not written ends as `PayloadFailed` with the
/// outcome of that write. The payload write is the only one sent: the
/// metadata is never attempted.
pub proof fn lemma_payload_failure_ends_deposit(
    snapshot: ConfigView,
    item: ItemView,
    token: Seq<char>,
    payload_reply: TransportReplyView,
    metadata_reply: TransportReplyView,
)
    requires
        snapshot.has_token,
        !(outcome_of(payload_reply) is Success),
    ensures
        ({
            let whole = run(snapshot, item, Ok(token), payload_reply, metadata_reply);
            &&& whole.writes == seq![payload_request(credentials_of(token, snapshot), item)]
            &&& whole.end matches RunEnd::Finished(result)
            &&& result.state == PipelineState::PayloadFailed
            &&& result.payload == outcome_of(payload_reply)
            &&& result.metadata is None
        }),
{
}

/// A deposit whose two writes succeed ends as `BothWritten`, having sent
/// the payload and then the metadata, each once.
pub proof fn lemma_two_successes_both_written(
    snapshot: ConfigView,
    item: ItemView,
    token: Seq<char>,
    payload_reply: TransportReplyView,
    metadata_reply: TransportReplyView,
)
    requires
        snapshot.has_token,
        outcome_of(payload_reply) is Success,
        outcome_of(metadata_reply) is Success,
    ensures
        ({
            let whole = run(snapshot, item, Ok(token), payload_reply, metadata_reply);
            &&& whole.writes == seq![
                payload_request(credentials_of(token, snapshot), item),
                metadata_request(credentials_of(token, snapshot), item),
            ]
            &&& whole.end == RunEnd::Finished(
                result_of(item.filename, OutcomeView::Success, Some(OutcomeView::Success)),
            )
            &&& whole.end->Finished_0.state == PipelineState::BothWritten
        }),
{
}

/// However a deposit goes, it sends at most two writes, the first to the
/// payload path of its own item and the second to the metadata path of its
/// own item, in the repository of its own snapshot; and a result it ends
/// with is consistent.
pub proof fn lemma_every_write_is_the_items_own(
    snapshot: ConfigView,
    item: ItemView,
    token_reply: Result<Seq<char>, BackendFault>,
    payload_reply: TransportReplyView,
    metadata_reply: TransportReplyView,
)
    ensures
        ({
            let whole = run(snapshot, item, token_reply, payload_reply, metadata_reply);
            &&& whole.writes.len() <= 2
            &&& whole.writes.len() >= 1 ==> whole.writes[0].url == contents_url(
                snapshot.owner,
                snapshot.repo,
                payload_path(item.filename),
            )
            &&& whole.writes.len() == 2 ==> whole.writes[1].url == contents_url(
                snapshot.owner,
                snapshot.repo,
                metadata_path(item.filename),
            )
            &&& whole.end is Refused ==> whole.writes.len() == 0
            &&& whole.end matches RunEnd::Finished(result) ==> {
                &&& result.consistent()
                &&& result.filename == item.filename
                &&& whole.writes.len() == if result.state == PipelineState::PayloadFailed {
                    1nat
                } else {
                    2nat
                }
            }
        }),
{
}

/// Two deposits of items with different names, each of which succeeds with
/// both writes, both end as `BothWritten`, whatever else they have in
/// common. Each sends the two writes of its own item, and the four paths
/// written to are four different paths: neither deposit writes under the
/// other's name.
pub proof fn lemma_deposits_do_not_interleave(
    first_snapshot: ConfigView,
    first_item: ItemView,
    first_token: Seq<char>,
    first_payload_reply: TransportReplyView,
    first_metadata_reply: TransportReplyView,
    second_snapshot: ConfigView,
    second_item: ItemView,
    second_token: Seq<char>,
    second_payload_reply: TransportReplyView,
    second_metadata_reply: TransportReplyView,
)
    requires
        first_snapshot.has_token,
        second_snapshot.has_token,
        first_item.filename != second_item.filename,
        outcome_of(first_payload_reply) is Success,
        outcome_of(first_metadata_reply) is Success,
        outcome_of(second_payload_reply) is Success,
        outcome_of(second_metadata_reply) is Success,
    ensures
        ({
            let first = run(
                first_snapshot,
                first_item,
                Ok(first_token),
                first_payload_reply,
                first_metadata_reply,
            );
            let second = run(
                second_snapshot,
                second_item,
                Ok(second_token),
                second_payload_reply,
                second_metadata_reply,
            );
            &&& first.end matches RunEnd::Finished(first_result)
            &&& second.end matches RunEnd::Finished(second_result)
            &&& first_result.state == PipelineState::BothWritten
            &&& second_result.state == PipelineState::BothWritten
            &&& first.writes == seq![
                payload_request(credentials_of(first_token, first_snapshot), first_item),
                metadata_request(credentials_of(first_token, first_snapshot), first_item),
            ]
            &&& second.writes == seq![
                payload_request(credentials_of(second_token, second_snapshot), second_item),
                metadata_request(credentials_of(second_token, second_snapshot), second_item),
            ]
            &&& first_result.payload_path == payload_path(first_item.filename)
            &&& first_result.metadata_path == metadata_path(first_item.filename)
            &&& second_result.payload_path == payload_path(second_item.filename)
            &&& second_result.metadata_path == metadata_path(second_item.filename)
            &&& first_result.payload_path != second_result.payload_path
            &&& first_result.payload_path != second_result.metadata_path
            &&& first_result.metadata_path != second_result.payload_path
            &&& first_result.metadata_path != second_result.metadata_path
        }),
{
    lemma_distinct_names_distinct_paths(first_item.filename, second_item.filename);
}

} // verus!
