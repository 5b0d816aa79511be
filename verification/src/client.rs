//! The deposit client: one write of one file to the remote content store.
//!
//! The request is built here and its reply is classified here. Sending it
//! is the caller's part: a `PUT` to the `url` of the [`WriteRequest`], with
//! its headers, and with a JSON object of its body fields as the body.
//! Nothing is retried.

use vstd::prelude::*;
use crate::encoding::{base64_standard, encodable, encode_standard};

verus! {

/// Start of the address of every file of every repository.
pub const API_ROOT: &'static str = "https://api.github.com/repos/";

/// Value of the `User-Agent` header.
pub const USER_AGENT: &'static str = "music-uploader";

/// Value of the `Accept` header.
pub const ACCEPT: &'static str = "application/vnd.github+json";

/// Branch that every write goes to.
pub const BRANCH: &'static str = "main";

/// One write, ready to be sent.
#[derive(Debug, PartialEq, Eq)]
pub struct WriteRequest {
    /// Address of the file.
    pub url: String,
    /// Value of the `Authorization` header.
    pub authorization: String,
    /// Value of the `User-Agent` header.
    pub user_agent: String,
    /// Value of the `Accept` header.
    pub accept: String,
    /// Commit message: `message` of the body.
    pub message: String,
    /// Base64 text of the file: `content` of the body.
    pub content: String,
    /// Target branch: `branch` of the body.
    pub branch: String,
}

/// Mathematical value of a [`WriteRequest`].
pub struct WriteRequestView {
    pub url: Seq<char>,
    pub authorization: Seq<char>,
    pub user_agent: Seq<char>,
    pub accept: Seq<char>,
    pub message: Seq<char>,
    pub content: Seq<char>,
    pub branch: Seq<char>,
}

impl View for WriteRequest {
    type V = WriteRequestView;

    open spec fn view(&self) -> WriteRequestView {
        WriteRequestView {
            url: self.url@,
            authorization: self.authorization@,
            user_agent: self.user_agent@,
            accept: self.accept@,
            message: self.message@,
            content: self.content@,
            branch: self.branch@,
        }
    }
}

impl Clone for WriteRequest {
    fn clone(&self) -> (copy: WriteRequest)
        ensures
            copy@ == self@,
    {
        WriteRequest {
            url: self.url.clone(),
            authorization: self.authorization.clone(),
            user_agent: self.user_agent.clone(),
            accept: self.accept.clone(),
            message: self.message.clone(),
            content: self.content.clone(),
            branch: self.branch.clone(),
        }
    }
}

/// What came back from sending a [`WriteRequest`].
#[derive(Debug, PartialEq, Eq)]
pub enum TransportReply {
    /// The store answered. `body` is the text of its answer; it matters
    /// only where `status` is not a success.
    Response { status: u16, body: String },
    /// The request could not be sent or completed.
    Failed { cause: String },
}

/// Mathematical value of a [`TransportReply`].
pub enum TransportReplyView {
    Response { status: u16, body: Seq<char> },
    Failed { cause: Seq<char> },
}

impl View for TransportReply {
    type V = TransportReplyView;

    open spec fn view(&self) -> TransportReplyView {
        match *self {
            TransportReply::Response { status, body } => TransportReplyView::Response {
                status,
                body: body@,
            },
            TransportReply::Failed { cause } => TransportReplyView::Failed { cause: cause@ },
        }
    }
}

/// Result of one write.
#[derive(Debug, PartialEq, Eq)]
pub enum Outcome {
    /// The store accepted the file.
    Success,
    /// The store answered with a status outside 200..=299.
    RemoteRejected { status: u16, body: String },
    /// No answer was obtained.
    TransportFailed { cause: String },
}

/// Mathematical value of an [`Outcome`].
pub enum OutcomeView {
    Success,
    RemoteRejected { status: u16, body: Seq<char> },
    TransportFailed { cause: Seq<char> },
}

impl View for Outcome {
    type V = OutcomeView;

    open spec fn view(&self) -> OutcomeView {
        match *self {
            Outcome::Success => OutcomeView::Success,
            Outcome::RemoteRejected { status, body } => OutcomeView::RemoteRejected {
                status,
                body: body@,
            },
            Outcome::TransportFailed { cause } => OutcomeView::TransportFailed { cause: cause@ },
        }
    }
}

impl Clone for Outcome {
    fn clone(&self) -> (copy: Outcome)
        ensures
            copy@ == self@,
    {
        match self {
            Outcome::Success => Outcome::Success,
            Outcome::RemoteRejected { status, body } => Outcome::RemoteRejected {
                status: *status,
                body: body.clone(),
            },
            Outcome::TransportFailed { cause } => Outcome::TransportFailed { cause: cause.clone() },
        }
    }
}

/// Address of the file at `path` in the repository `repo` of `owner`.
pub open spec fn contents_url(owner: Seq<char>, repo: Seq<char>, path: Seq<char>) -> Seq<char> {
    API_ROOT@ + owner + "/"@ + repo + "/contents/"@ + path
}

/// Value of the `Authorization` header for `token`.
pub open spec fn bearer(token: Seq<char>) -> Seq<char> {
    "Bearer "@ + token
}

/// The write of `content`, already base64 text, to `url`.
pub open spec fn put_request(
    url: Seq<char>,
    token: Seq<char>,
    message: Seq<char>,
    content: Seq<char>,
) -> WriteRequestView {
    WriteRequestView {
        url,
        authorization: bearer(token),
        user_agent: USER_AGENT@,
        accept: ACCEPT@,
        message,
        content,
        branch: BRANCH@,
    }
}

/// The headers of a request, by name, in the order in which they are set.
pub open spec fn header_fields(request: WriteRequestView) -> Seq<(Seq<char>, Seq<char>)> {
    seq![
        ("Authorization"@, request.authorization),
        ("User-Agent"@, request.user_agent),
        ("Accept"@, request.accept),
    ]
}

/// The members of the JSON object that is the body of a request, by key.
/// Each value is a JSON string.
pub open spec fn body_fields(request: WriteRequestView) -> Seq<(Seq<char>, Seq<char>)> {
    seq![
        ("message"@, request.message),
        ("content"@, request.content),
        ("branch"@, request.branch),
    ]
}

/// Whether `status` is one of the success codes, 200 to 299.
pub open spec fn is_success_status(status: u16) -> bool {
    200 <= status < 300
}

/// How a reply is classified.
pub open spec fn outcome_of(reply: TransportReplyView) -> OutcomeView {
    match reply {
        TransportReplyView::Response { status, body } => if is_success_status(status) {
            OutcomeView::Success
        } else {
            OutcomeView::RemoteRejected { status, body }
        },
        TransportReplyView::Failed { cause } => OutcomeView::TransportFailed { cause },
    }
}

/// What an outcome says of a failure: the store's answer, or the cause
/// that kept the request from completing. Empty for a success.
pub open spec fn detail_of(outcome: OutcomeView) -> Seq<char> {
    match outcome {
        OutcomeView::Success => Seq::empty(),
        OutcomeView::RemoteRejected { status, body } => body,
        OutcomeView::TransportFailed { cause } => cause,
    }
}

/// Address of the file at `path` in the repository `repo` of `owner`.
pub fn build_url(owner: &str, repo: &str, path: &str) -> (url: String)
    ensures
        url@ == contents_url(owner@, repo@, path@),
{
    let mut url = String::from_str(API_ROOT);
    url.append(owner);
    url.append("/");
    url.append(repo);
    url.append("/contents/");
    url.append(path);
    url
}

impl WriteRequest {
    /// The headers to send, as pairs of name and value.
    pub fn headers(&self) -> (fields: Vec<(String, String)>)
        ensures
            fields.deep_view() == header_fields(self@),
    {
        let fields = vec![
            (String::from_str("Authorization"), self.authorization.clone()),
            (String::from_str("User-Agent"), self.user_agent.clone()),
            (String::from_str("Accept"), self.accept.clone()),
        ];
        assert(fields.deep_view() =~= header_fields(self@));
        fields
    }

    /// The members of the JSON object to send as the body, as pairs of key
    /// and string value.
    pub fn body(&self) -> (fields: Vec<(String, String)>)
        ensures
            fields.deep_view() == body_fields(self@),
    {
        let fields = vec![
            (String::from_str("message"), self.message.clone()),
            (String::from_str("content"), self.content.clone()),
            (String::from_str("branch"), self.branch.clone()),
        ];
        assert(fields.deep_view() =~= body_fields(self@));
        fields
    }
}

/// The write of `content`, already base64 text, to `url`, authorised by
/// `token`.
pub fn request_with_content(url: String, token: &str, message: String, content: String) -> (request:
    WriteRequest)
    ensures
        request@ == put_request(url@, token@, message@, content@),
{
    let mut authorization = String::from_str("Bearer ");
    authorization.append(token);
    WriteRequest {
        url,
        authorization,
        user_agent: String::from_str(USER_AGENT),
        accept: String::from_str(ACCEPT),
        message,
        content,
        branch: String::from_str(BRANCH),
    }
}

/// The write of the file `bytes` to `url`: the bytes travel as base64 text.
pub fn put_file(url: String, token: &str, message: String, bytes: &[u8]) -> (request: WriteRequest)
    requires
        encodable(bytes@.len()),
    ensures
        request@ == put_request(url@, token@, message@, base64_standard(bytes@)),
{
    let content = encode_standard(bytes);
    request_with_content(url, token, message, content)
}

/// Whether `status` is one of the success codes, 200 to 299.
pub fn is_success(status: u16) -> (yes: bool)
    ensures
        yes == is_success_status(status),
{
    200 <= status && status < 300
}

/// Classifies the reply to a write: a success status is `Success` whatever
/// the body, any other status is `RemoteRejected` with that status and
/// body, and a request that did not complete is `TransportFailed`.
pub fn classify(reply: TransportReply) -> (outcome: Outcome)
    ensures
        outcome@ == outcome_of(reply@),
{
    match reply {
        TransportReply::Response { status, body } => {
            if is_success(status) {
                Outcome::Success
            } else {
                Outcome::RemoteRejected { status, body }
            }
        },
        TransportReply::Failed { cause } => Outcome::TransportFailed { cause },
    }
}

impl Outcome {
    /// Whether the write succeeded.
    pub fn succeeded(&self) -> (yes: bool)
        ensures
            yes == (self@ is Success),
    {
        match self {
            Outcome::Success => true,
            _ => false,
        }
    }

    /// What the outcome says of a failure.
    pub fn detail(&self) -> (text: String)
        ensures
            text@ == detail_of(self@),
    {
        match self {
            Outcome::Success => String::new(),
            Outcome::RemoteRejected { status: _, body } => body.clone(),
            Outcome::TransportFailed { cause } => cause.clone(),
        }
    }
}

} // verus!
