//! Record keys and records stored in the DHT.
use vstd::prelude::*;

use crate::peer::PeerId;

verus! {

/// A DHT lookup key: an opaque byte sequence.
#[derive(Clone, Debug, PartialEq, Eq, Hash)]
pub struct Key {
    bytes: Vec<u8>,
}

impl View for Key {
    type V = Seq<u8>;

    closed spec fn view(&self) -> Seq<u8> {
        self.bytes@
    }
}

impl Key {
    /// The key made of the given bytes.
    pub fn new(bytes: Vec<u8>) -> (r: Key)
        ensures
            r@ == bytes@,
    {
        Key { bytes }
    }

    /// The bytes of the key.
    pub fn to_vec(&self) -> (r: Vec<u8>)
        ensures
            r@ == self@,
    {
        self.bytes.clone()
    }

    /// The bytes of the key, borrowed.
    pub fn as_bytes(&self) -> (r: &[u8])
        ensures
            r@ == self@,
    {
        self.bytes.as_slice()
    }
}

/// What a record denotes. `expires` is an instant in milliseconds on the
/// clock that encoding and decoding are given.
pub struct RecordView {
    pub key: Seq<u8>,
    pub value: Seq<u8>,
    pub publisher: Option<Seq<u8>>,
    pub expires: Option<u64>,
}

/// A `(key, value)` record with an optional publisher and expiry.
#[derive(Clone, Debug, PartialEq, Eq)]
pub struct Record {
    /// Key of the record.
    pub key: Key,
    /// Value of the record.
    pub value: Vec<u8>,
    /// The peer that published the record, if known.
    pub publisher: Option<PeerId>,
    /// When the record expires, in milliseconds on the caller's clock.
    pub expires: Option<u64>,
}

impl View for Record {
    type V = RecordView;

    open spec fn view(&self) -> RecordView {
        RecordView {
            key: self.key@,
            value: self.value@,
            publisher: match self.publisher {
                Some(p) => Some(p@),
                None => None,
            },
            expires: self.expires,
        }
    }
}

impl Record {
    /// The publisher, when there is one, is a well-formed identifier.
    pub open spec fn wf(&self) -> bool {
        match self.publisher {
            Some(p) => p.wf(),
            None => true,
        }
    }

    /// A record with no publisher and no expiry.
    pub fn new(key: Key, value: Vec<u8>) -> (r: Record)
        ensures
            r@ == (RecordView { key: key@, value: value@, publisher: None, expires: None }),
            r.wf(),
    {
        Record { key, value, publisher: None, expires: None }
    }
}

} // verus!
