use music_uploader::artifact::{
    metadata_message_of, metadata_path_of, payload_message_of, payload_path_of,
};
use music_uploader::client::{
    build_url, classify, is_success, put_file, request_with_content, Outcome, TransportReply,
    WriteRequest, ACCEPT, API_ROOT, BRANCH, USER_AGENT,
};
use music_uploader::encoding::can_encode;

fn content_of(bytes: &[u8]) -> String {
    put_file(String::new(), "", String::new(), bytes).content
}

#[test]
fn put_file_request_is_exact() {
    let request = put_file(
        "https://api.github.com/repos/alice/tunes/contents/music/song.encrypted".to_string(),
        "ghp_secret",
        "Add encrypted music file: song".to_string(),
        b"hello",
    );
    assert_eq!(
        request,
        WriteRequest {
            url: "https://api.github.com/repos/alice/tunes/contents/music/song.encrypted"
                .to_string(),
            authorization: "Bearer ghp_secret".to_string(),
            user_agent: "music-uploader".to_string(),
            accept: "application/vnd.github+json".to_string(),
            message: "Add encrypted music file: song".to_string(),
            content: "aGVsbG8=".to_string(),
            branch: "main".to_string(),
        }
    );
    assert_eq!(request.clone(), request);
}

#[test]
fn headers_and_body_fields_are_named() {
    let request = put_file("u".to_string(), "ghp_secret", "m".to_string(), b"hello");
    let pair = |name: &str, value: &str| (name.to_string(), value.to_string());
    assert_eq!(
        request.headers(),
        vec![
            pair("Authorization", "Bearer ghp_secret"),
            pair("User-Agent", "music-uploader"),
            pair("Accept", "application/vnd.github+json"),
        ]
    );
    assert_eq!(
        request.body(),
        vec![pair("message", "m"), pair("content", "aGVsbG8="), pair("branch", "main")]
    );
}

#[test]
fn request_with_content_takes_the_text_as_it_is() {
    let request = request_with_content(
        "u".to_string(),
        "tok",
        "m".to_string(),
        "not base64 at all".to_string(),
    );
    assert_eq!(request.url, "u");
    assert_eq!(request.authorization, "Bearer tok");
    assert_eq!(request.message, "m");
    assert_eq!(request.content, "not base64 at all");
    assert_eq!(request.user_agent, USER_AGENT);
    assert_eq!(request.accept, ACCEPT);
    assert_eq!(request.branch, BRANCH);
}

#[test]
fn content_is_standard_padded_base64() {
    assert_eq!(content_of(b""), "");
    assert_eq!(content_of(b"f"), "Zg==");
    assert_eq!(content_of(b"fo"), "Zm8=");
    assert_eq!(content_of(b"foo"), "Zm9v");
    assert_eq!(content_of(b"foob"), "Zm9vYg==");
    assert_eq!(content_of(b"fooba"), "Zm9vYmE=");
    assert_eq!(content_of(b"foobar"), "Zm9vYmFy");
    assert_eq!(content_of(&[0xfb, 0xff]), "+/8=");
    assert_eq!(content_of(&[0x00, 0x10, 0x83, 0x10, 0x51, 0x87]), "ABCDEFGH");
}

#[test]
fn content_differs_from_the_bytes() {
    let bytes = b"plain text payload";
    let content = content_of(bytes);
    assert_ne!(content.as_bytes(), bytes);
    assert_eq!(content, "cGxhaW4gdGV4dCBwYXlsb2Fk");
}

#[test]
fn ordinary_lengths_can_be_encoded() {
    assert!(can_encode(0));
    assert!(can_encode(1));
    assert!(can_encode(3));
    assert!(can_encode(10_000_000));
    let limit = (isize::MAX as usize) / 4 * 3;
    assert!(can_encode(limit));
    assert!(!can_encode(limit + 1));
    assert!(!can_encode(usize::MAX));
}

#[test]
fn url_names_owner_repo_and_path() {
    assert_eq!(
        build_url("alice", "tunes", "music/song.json"),
        "https://api.github.com/repos/alice/tunes/contents/music/song.json"
    );
    assert_eq!(build_url("", "", ""), "https://api.github.com/repos///contents/");
    assert_eq!(API_ROOT, "https://api.github.com/repos/");
}

#[test]
fn paths_and_messages_are_exact() {
    assert_eq!(payload_path_of("song"), "music/song.encrypted");
    assert_eq!(metadata_path_of("song"), "music/song.json");
    assert_eq!(payload_path_of(""), "music/.encrypted");
    assert_eq!(metadata_path_of("a b.mp3"), "music/a b.mp3.json");
    assert_eq!(payload_message_of("song"), "Add encrypted music file: song");
    assert_eq!(metadata_message_of("song"), "Add metadata for: song");
}

#[test]
fn success_statuses_are_200_to_299() {
    assert!(!is_success(0));
    assert!(!is_success(199));
    assert!(is_success(200));
    assert!(is_success(201));
    assert!(is_success(204));
    assert!(is_success(299));
    assert!(!is_success(300));
    assert!(!is_success(404));
    assert!(!is_success(500));
    assert!(!is_success(u16::MAX));
    for status in 0..=u16::MAX {
        assert_eq!(is_success(status), (200..300).contains(&status));
    }
}

#[test]
fn success_reply_is_success_whatever_the_body() {
    assert_eq!(
        classify(TransportReply::Response { status: 200, body: String::new() }),
        Outcome::Success
    );
    assert_eq!(
        classify(TransportReply::Response { status: 201, body: "{\"content\":{}}".to_string() }),
        Outcome::Success
    );
}

#[test]
fn other_statuses_are_rejections_with_status_and_body() {
    assert_eq!(
        classify(TransportReply::Response { status: 409, body: "conflict".to_string() }),
        Outcome::RemoteRejected { status: 409, body: "conflict".to_string() }
    );
    assert_eq!(
        classify(TransportReply::Response { status: 401, body: "Bad credentials".to_string() }),
        Outcome::RemoteRejected { status: 401, body: "Bad credentials".to_string() }
    );
    assert_eq!(
        classify(TransportReply::Response { status: 199, body: String::new() }),
        Outcome::RemoteRejected { status: 199, body: String::new() }
    );
    assert_eq!(
        classify(TransportReply::Response { status: 300, body: "moved".to_string() }),
        Outcome::RemoteRejected { status: 300, body: "moved".to_string() }
    );
}

#[test]
fn incomplete_request_is_a_transport_failure() {
    assert_eq!(
        classify(TransportReply::Failed { cause: "connection refused".to_string() }),
        Outcome::TransportFailed { cause: "connection refused".to_string() }
    );
}

#[test]
fn outcome_detail_is_body_or_cause() {
    assert_eq!(Outcome::Success.detail(), "");
    assert_eq!(
        Outcome::RemoteRejected { status: 422, body: "sha wasn't supplied".to_string() }.detail(),
        "sha wasn't supplied"
    );
    assert_eq!(Outcome::TransportFailed { cause: "timed out".to_string() }.detail(), "timed out");
    assert!(Outcome::Success.succeeded());
    assert!(!Outcome::RemoteRejected { status: 200, body: String::new() }.succeeded());
    assert!(!Outcome::TransportFailed { cause: String::new() }.succeeded());
    let outcome = Outcome::RemoteRejected { status: 500, body: "oops".to_string() };
    assert_eq!(outcome.clone(), outcome);
}
