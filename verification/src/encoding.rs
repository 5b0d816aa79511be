//! Base64 text of opaque bytes, as the remote store expects file content.

use vstd::prelude::*;

verus! {

/// The text that `base64::Engine::encode` returns for `bytes` on the
/// `STANDARD` engine: their base64 text in the standard alphabet, padded.
pub uninterp spec fn base64_standard(bytes: Seq<u8>) -> Seq<char>;

/// Length of the padded base64 text of `len` bytes: four characters for
/// every started group of three bytes.
pub open spec fn padded_len(len: nat) -> nat {
    (len / 3) * 4 + if len % 3 == 0 { 0nat } else { 4nat }
}

/// Whether the base64 text of `len` bytes fits in one allocation.
pub open spec fn encodable(len: nat) -> bool {
    padded_len(len) <= isize::MAX
}

/// Calls `base64::Engine::encode` on the `STANDARD` engine.
///
/// Trusted: the result is the standard padded base64 text of `bytes`, a
/// function of `bytes` alone. The engine panics when the text's length
/// overflows, and its buffer cannot be allocated beyond `isize::MAX`, so
/// such inputs are excluded.
#[verifier::external_body]
pub(crate) fn encode_standard(bytes: &[u8]) -> (text: String)
    requires
        encodable(bytes@.len()),
    ensures
        text@ == base64_standard(bytes@),
{
    base64::Engine::encode(&base64::engine::general_purpose::STANDARD, bytes)
}

/// Decides at run time whether `len` bytes can be encoded.
pub fn can_encode(len: usize) -> (ok: bool)
    ensures
        ok == encodable(len as nat),
{
    let groups: usize = if len % 3 == 0 { len / 3 } else { len / 3 + 1 };
    let limit: usize = (isize::MAX as usize) / 4;
    groups <= limit
}

} // verus!
