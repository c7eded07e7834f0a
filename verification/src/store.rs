//! What the flows exchange with the credential store.
//!
//! The store itself is not part of this library. It keeps one record per
//! username and offers two operations: a read by username, and a creation
//! that takes effect only where no record exists for the name. The types
//! here carry the results of both into the flows.

use vstd::prelude::*;

verus! {

/// The credentials kept for one username: salt and verifier, always both.
#[derive(Clone, Copy, Debug, PartialEq, Eq)]
pub struct CredentialRecord {
    pub salt: [u8; 16],
    pub verifier: [u8; 24],
}

/// A credential record as byte sequences.
pub struct RecordView {
    pub salt: Seq<u8>,
    pub verifier: Seq<u8>,
}

impl RecordView {
    /// Both parts have their fixed lengths.
    pub open spec fn complete(self) -> bool {
        self.salt.len() == 16 && self.verifier.len() == 24
    }
}

impl View for CredentialRecord {
    type V = RecordView;

    open spec fn view(&self) -> RecordView {
        RecordView { salt: self.salt@, verifier: self.verifier@ }
    }
}

/// One attribute of a stored item, as the store handed it back.
#[derive(Clone, Debug, PartialEq, Eq)]
pub enum Attribute {
    /// The item has no such attribute.
    Missing,
    /// The attribute holds binary data.
    Bytes(Vec<u8>),
    /// The attribute holds something that is not binary data.
    Other,
}

/// An attribute with its bytes as a sequence.
pub enum AttributeView {
    Missing,
    Bytes(Seq<u8>),
    Other,
}

impl View for Attribute {
    type V = AttributeView;

    open spec fn view(&self) -> AttributeView {
        match self {
            Attribute::Missing => AttributeView::Missing,
            Attribute::Bytes(bytes) => AttributeView::Bytes(bytes@),
            Attribute::Other => AttributeView::Other,
        }
    }
}

/// The item found under a username, before it is checked.
#[derive(Clone, Debug, PartialEq, Eq)]
pub struct StoredItem {
    pub salt: Attribute,
    pub verifier: Attribute,
}

/// A stored item with its attributes as sequences.
pub struct StoredItemView {
    pub salt: AttributeView,
    pub verifier: AttributeView,
}

impl View for StoredItem {
    type V = StoredItemView;

    open spec fn view(&self) -> StoredItemView {
        StoredItemView { salt: self.salt@, verifier: self.verifier@ }
    }
}

/// What is wrong with a stored item that is no credential record.
#[derive(Clone, Copy, Debug, PartialEq, Eq, Structural)]
pub enum RecordDefect {
    /// The salt is missing or is not binary data.
    SaltAbsent,
    /// The salt is not 16 bytes long.
    SaltLength,
    /// The verifier is missing or is not binary data.
    VerifierAbsent,
    /// The verifier is not 24 bytes long.
    VerifierLength,
}

/// The defect of an item, the salt's before the verifier's, or `None` for a
/// sound record.
pub open spec fn defect_of(item: StoredItemView) -> Option<RecordDefect> {
    match item.salt {
        AttributeView::Bytes(salt) => if salt.len() != 16 {
            Some(RecordDefect::SaltLength)
        } else {
            match item.verifier {
                AttributeView::Bytes(verifier) => if verifier.len() != 24 {
                    Some(RecordDefect::VerifierLength)
                } else {
                    None
                },
                _ => Some(RecordDefect::VerifierAbsent),
            }
        },
        _ => Some(RecordDefect::SaltAbsent),
    }
}

/// The item under which a record is stored.
pub open spec fn item_of(record: RecordView) -> StoredItemView {
    StoredItemView {
        salt: AttributeView::Bytes(record.salt),
        verifier: AttributeView::Bytes(record.verifier),
    }
}

fn salt_from(bytes: &Vec<u8>) -> (out: [u8; 16])
    requires
        bytes@.len() == 16,
    ensures
        out@ == bytes@,
{
    let mut out = [0u8; 16];
    let mut i: usize = 0;
    while i < 16
        invariant
            i <= 16,
            bytes@.len() == 16,
            forall|j: int| 0 <= j < i ==> out@[j] == bytes@[j],
        decreases 16 - i,
    {
        out[i] = bytes[i];
        i += 1;
    }
    assert(out@ =~= bytes@);
    out
}

fn verifier_from(bytes: &Vec<u8>) -> (out: [u8; 24])
    requires
        bytes@.len() == 24,
    ensures
        out@ == bytes@,
{
    let mut out = [0u8; 24];
    let mut i: usize = 0;
    while i < 24
        invariant
            i <= 24,
            bytes@.len() == 24,
            forall|j: int| 0 <= j < i ==> out@[j] == bytes@[j],
        decreases 24 - i,
    {
        out[i] = bytes[i];
        i += 1;
    }
    assert(out@ =~= bytes@);
    out
}

/// Checks a stored item and reads the credential record out of it. A
/// missing part or one of the wrong length is reported, never passed on.
pub fn decode_record(item: &StoredItem) -> (out: Result<CredentialRecord, RecordDefect>)
    ensures
        match out {
            Ok(record) => defect_of(item@) is None && item@ == item_of(record@),
            Err(defect) => defect_of(item@) == Some(defect),
        },
{
    let salt = match &item.salt {
        Attribute::Bytes(bytes) => {
            if bytes.len() != 16 {
                return Err(RecordDefect::SaltLength);
            }
            salt_from(bytes)
        },
        _ => {
            return Err(RecordDefect::SaltAbsent);
        },
    };
    let verifier = match &item.verifier {
        Attribute::Bytes(bytes) => {
            if bytes.len() != 24 {
                return Err(RecordDefect::VerifierLength);
            }
            verifier_from(bytes)
        },
        _ => {
            return Err(RecordDefect::VerifierAbsent);
        },
    };
    Ok(CredentialRecord { salt, verifier })
}

/// The item that stores a record: both parts as binary attributes.
pub fn encode_record(record: &CredentialRecord) -> (out: StoredItem)
    ensures
        out@ == item_of(record@),
{
    let mut salt: Vec<u8> = Vec::new();
    salt.extend_from_slice(record.salt.as_slice());
    let mut verifier: Vec<u8> = Vec::new();
    verifier.extend_from_slice(record.verifier.as_slice());
    assert(salt@ =~= record.salt@);
    assert(verifier@ =~= record.verifier@);
    StoredItem { salt: Attribute::Bytes(salt), verifier: Attribute::Bytes(verifier) }
}

/// The result of reading a username from the store.
#[derive(Clone, Debug, PartialEq, Eq)]
pub enum ReadResult {
    /// An item exists under the name.
    Found(StoredItem),
    /// No item exists under the name.
    Absent,
    /// The store could not be read for the moment; the text says why.
    Unavailable(String),
}

/// A read result over sequences.
pub enum ReadView {
    Found(StoredItemView),
    Absent,
    Unavailable(Seq<char>),
}

impl View for ReadResult {
    type V = ReadView;

    open spec fn view(&self) -> ReadView {
        match self {
            ReadResult::Found(item) => ReadView::Found(item@),
            ReadResult::Absent => ReadView::Absent,
            ReadResult::Unavailable(why) => ReadView::Unavailable(why@),
        }
    }
}

/// The result of the conditional creation of a record. The store performs
/// it as one step: of several creations for one name, one is `Created` and
/// the others are `AlreadyExists`.
#[derive(Clone, Copy, Debug, PartialEq, Eq, Structural)]
pub enum WriteResult {
    /// The record was written; none existed before.
    Created,
    /// A record existed; nothing was written.
    AlreadyExists,
    /// The store could not be written for the moment; nothing is known to
    /// have been written.
    Unavailable,
}

} // verus!
