//! Where the two artifacts of an item live in the remote store, and the
//! commit message that accompanies each.

use vstd::prelude::*;

verus! {

/// Path of the encrypted payload of the item named `filename`.
pub open spec fn payload_path(filename: Seq<char>) -> Seq<char> {
    "music/"@ + filename + ".encrypted"@
}

/// Path of the metadata document of the item named `filename`.
pub open spec fn metadata_path(filename: Seq<char>) -> Seq<char> {
    "music/"@ + filename + ".json"@
}

/// Commit message of the payload write.
pub open spec fn payload_message(filename: Seq<char>) -> Seq<char> {
    "Add encrypted music file: "@ + filename
}

/// Commit message of the metadata write.
pub open spec fn metadata_message(filename: Seq<char>) -> Seq<char> {
    "Add metadata for: "@ + filename
}

/// Path of the encrypted payload of the item named `filename`.
pub fn payload_path_of(filename: &str) -> (path: String)
    ensures
        path@ == payload_path(filename@),
{
    let mut path = String::from_str("music/");
    path.append(filename);
    path.append(".encrypted");
    path
}

/// Path of the metadata document of the item named `filename`.
pub fn metadata_path_of(filename: &str) -> (path: String)
    ensures
        path@ == metadata_path(filename@),
{
    let mut path = String::from_str("music/");
    path.append(filename);
    path.append(".json");
    path
}

/// Commit message of the payload write.
pub fn payload_message_of(filename: &str) -> (message: String)
    ensures
        message@ == payload_message(filename@),
{
    let mut message = String::from_str("Add encrypted music file: ");
    message.append(filename);
    message
}

/// Commit message of the metadata write.
pub fn metadata_message_of(filename: &str) -> (message: String)
    ensures
        message@ == metadata_message(filename@),
{
    let mut message = String::from_str("Add metadata for: ");
    message.append(filename);
    message
}

/// A text between a fixed prefix and a fixed suffix can be read back.
proof fn lemma_framed_text_is_unique(
    prefix: Seq<char>,
    first: Seq<char>,
    second: Seq<char>,
    suffix: Seq<char>,
)
    requires
        prefix + first + suffix == prefix + second + suffix,
    ensures
        first == second,
{
    let left = prefix + first + suffix;
    let right = prefix + second + suffix;
    assert(left.len() == prefix.len() + first.len() + suffix.len());
    assert(right.len() == prefix.len() + second.len() + suffix.len());
    assert forall|i: int| 0 <= i < first.len() implies first[i] == second[i] by {
        assert(left[prefix.len() + i] == first[i]);
        assert(right[prefix.len() + i] == second[i]);
    }
    assert(first =~= second);
}

/// No payload path is a metadata path, whatever the two items are called.
pub proof fn lemma_payload_path_is_no_metadata_path(first: Seq<char>, second: Seq<char>)
    ensures
        payload_path(first) != metadata_path(second),
{
    reveal_strlit(".encrypted");
    reveal_strlit(".json");
    let payload = payload_path(first);
    let metadata = metadata_path(second);
    assert(payload[payload.len() - 1] == 'd');
    assert(metadata[metadata.len() - 1] == 'n');
}

/// Items with different names share no path: each of the four artifacts of
/// two such items has a path of its own.
pub proof fn lemma_distinct_names_distinct_paths(first: Seq<char>, second: Seq<char>)
    requires
        first != second,
    ensures
        payload_path(first) != payload_path(second),
        metadata_path(first) != metadata_path(second),
        payload_path(first) != metadata_path(second),
        metadata_path(first) != payload_path(second),
{
    if payload_path(first) == payload_path(second) {
        lemma_framed_text_is_unique("music/"@, first, second, ".encrypted"@);
    }
    if metadata_path(first) == metadata_path(second) {
        lemma_framed_text_is_unique("music/"@, first, second, ".json"@);
    }
    lemma_payload_path_is_no_metadata_path(first, second);
    lemma_payload_path_is_no_metadata_path(second, first);
}

} // verus!
