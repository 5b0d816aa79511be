//! The item to deposit: an encrypted payload and its metadata document,
//! under one name.

use vstd::prelude::*;
use vstd::utf8::encode_utf8;
use crate::encoding::{can_encode, encodable};

verus! {

/// One item, fixed once it is made. The payload is taken as already
/// encrypted and the metadata as well-formed: neither is looked into.
///
/// Every item is small enough for both artifacts to be sent as base64 text.
#[derive(Debug, PartialEq, Eq)]
pub struct DepositItem {
    filename: String,
    payload: Vec<u8>,
    metadata: String,
}

/// Mathematical value of a [`DepositItem`].
pub struct ItemView {
    pub filename: Seq<char>,
    pub payload: Seq<u8>,
    pub metadata: Seq<char>,
}

impl ItemView {
    /// The bytes of the metadata document, as they are sent.
    pub open spec fn metadata_bytes(self) -> Seq<u8> {
        encode_utf8(self.metadata)
    }

    /// Whether both artifacts can be encoded.
    pub open spec fn fits(self) -> bool {
        encodable(self.payload.len()) && encodable(self.metadata_bytes().len())
    }
}

impl View for DepositItem {
    type V = ItemView;

    closed spec fn view(&self) -> ItemView {
        ItemView { filename: self.filename@, payload: self.payload@, metadata: self.metadata@ }
    }
}

impl DepositItem {
    #[verifier::type_invariant]
    spec fn well_formed(self) -> bool {
        self@.fits()
    }

    /// The item of the given parts, or `None` where the payload or the
    /// metadata is too long for its base64 text to be held in memory.
    pub fn new(filename: String, payload: Vec<u8>, metadata: String) -> (item: Option<DepositItem>)
        ensures
            item is Some <==> (ItemView {
                filename: filename@,
                payload: payload@,
                metadata: metadata@,
            }).fits(),
            item matches Some(made) ==> made@ == (ItemView {
                filename: filename@,
                payload: payload@,
                metadata: metadata@,
            }),
    {
        if can_encode(payload.len()) && can_encode(metadata.as_str().as_bytes().len()) {
            Some(DepositItem { filename, payload, metadata })
        } else {
            None
        }
    }

    /// Name of the item.
    pub fn filename(&self) -> (name: &str)
        ensures
            name@ == self@.filename,
    {
        self.filename.as_str()
    }

    /// The encrypted payload.
    pub fn payload(&self) -> (bytes: &[u8])
        ensures
            bytes@ == self@.payload,
            encodable(bytes@.len()),
    {
        proof {
            use_type_invariant(self);
        }
        self.payload.as_slice()
    }

    /// The metadata document.
    pub fn metadata(&self) -> (text: &str)
        ensures
            text@ == self@.metadata,
    {
        self.metadata.as_str()
    }

    /// The bytes of the metadata document, as they are sent.
    pub fn metadata_bytes(&self) -> (bytes: &[u8])
        ensures
            bytes@ == self@.metadata_bytes(),
            encodable(bytes@.len()),
    {
        proof {
            use_type_invariant(self);
        }
        self.metadata.as_str().as_bytes()
    }
}

impl Clone for DepositItem {
    fn clone(&self) -> (copy: DepositItem)
        ensures
            copy@ == self@,
    {
        proof {
            use_type_invariant(self);
        }
        DepositItem {
            filename: self.filename.clone(),
            payload: self.payload.clone(),
            metadata: self.metadata.clone(),
        }
    }
}

} // verus!
