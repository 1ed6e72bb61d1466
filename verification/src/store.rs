//! The object store as the service sees it: the calls it makes, what can
//! come back, and a model of a store that answers truthfully, against which
//! the laws of the endpoints are stated.
//!
//! The store itself is reached by the caller. Nothing here performs a call.

use vstd::prelude::*;

verus! {

/// The bucket that holds the firmware images.
pub const FIRMWARE_BUCKET: &'static str = "bin";

/// The bucket that holds the registry of client records.
pub const CONFIG_BUCKET: &'static str = "config-wg";

/// A call on the object store.
#[derive(Debug, PartialEq, Eq)]
pub enum StoreCall {
    /// List the keys of a bucket.
    List { bucket: String },
    /// Read an object.
    Get { bucket: String, key: String },
    /// Write an object, replacing what the key held before.
    Put { bucket: String, key: String, body: Vec<u8> },
    /// Remove an object.
    Delete { bucket: String, key: String },
}

/// A store call as contracts see it.
pub enum StoreCallView {
    List { bucket: Seq<char> },
    Get { bucket: Seq<char>, key: Seq<char> },
    Put { bucket: Seq<char>, key: Seq<char>, body: Seq<u8> },
    Delete { bucket: Seq<char>, key: Seq<char> },
}

impl View for StoreCall {
    type V = StoreCallView;

    open spec fn view(&self) -> StoreCallView {
        match self {
            StoreCall::List { bucket } => StoreCallView::List { bucket: bucket@ },
            StoreCall::Get { bucket, key } => StoreCallView::Get { bucket: bucket@, key: key@ },
            StoreCall::Put { bucket, key, body } => StoreCallView::Put {
                bucket: bucket@,
                key: key@,
                body: body@,
            },
            StoreCall::Delete { bucket, key } => StoreCallView::Delete {
                bucket: bucket@,
                key: key@,
            },
        }
    }
}

/// What came back from reading an object.
#[derive(Debug, PartialEq, Eq)]
pub enum Fetched {
    /// The object's bytes.
    Object(Vec<u8>),
    /// The store holds no object under the key; holds the store's message.
    Absent(String),
    /// The store failed to answer; holds its message.
    Unavailable(String),
    /// The store answered, but the body could not be read; holds the message.
    Unreadable(String),
}

/// The outcome of a read as contracts see it.
pub enum FetchedView {
    Object(Seq<u8>),
    Absent(Seq<char>),
    Unavailable(Seq<char>),
    Unreadable(Seq<char>),
}

impl View for Fetched {
    type V = FetchedView;

    open spec fn view(&self) -> FetchedView {
        match self {
            Fetched::Object(bytes) => FetchedView::Object(bytes@),
            Fetched::Absent(message) => FetchedView::Absent(message@),
            Fetched::Unavailable(message) => FetchedView::Unavailable(message@),
            Fetched::Unreadable(message) => FetchedView::Unreadable(message@),
        }
    }
}

/// The contents of an object store: the bytes under each bucket and key.
pub struct StoreModel {
    pub objects: Map<(Seq<char>, Seq<char>), Seq<u8>>,
}

impl StoreModel {
    /// Whether the store holds an object under `key` in `bucket`.
    pub open spec fn holds(self, bucket: Seq<char>, key: Seq<char>) -> bool {
        self.objects.dom().contains((bucket, key))
    }

    /// The bytes of the object under `key` in `bucket`.
    pub open spec fn object(self, bucket: Seq<char>, key: Seq<char>) -> Seq<u8> {
        self.objects[(bucket, key)]
    }

    /// The store after it has carried out `call`. A write replaces what the
    /// key held, a removal takes the object away, reading changes nothing.
    pub open spec fn after(self, call: StoreCallView) -> StoreModel {
        match call {
            StoreCallView::Put { bucket, key, body } => StoreModel {
                objects: self.objects.insert((bucket, key), body),
            },
            StoreCallView::Delete { bucket, key } => StoreModel {
                objects: self.objects.remove((bucket, key)),
            },
            _ => self,
        }
    }

    /// Whether `listing` is what a truthful store answers when asked for the
    /// keys of `bucket`: each key once, in any order.
    pub open spec fn lists(self, bucket: Seq<char>, listing: Seq<Seq<char>>) -> bool {
        &&& listing.no_duplicates()
        &&& forall|key: Seq<char>| listing.contains(key) <==> self.holds(bucket, key)
    }

    /// Whether `fetched` is what a truthful store answers when asked for the
    /// object under `key`: its bytes, or that there is none.
    pub open spec fn fetches(
        self,
        bucket: Seq<char>,
        key: Seq<char>,
        fetched: FetchedView,
    ) -> bool {
        if self.holds(bucket, key) {
            fetched == FetchedView::Object(self.object(bucket, key))
        } else {
            fetched is Absent
        }
    }

    /// Whether `outcome` is what a truthful store answers to a write: it
    /// always succeeds.
    pub open spec fn writes(self, outcome: Result<(), Seq<char>>) -> bool {
        outcome is Ok
    }

    /// Whether `outcome` is what a truthful store answers to a removal: an
    /// error where there is nothing to remove.
    pub open spec fn removes(
        self,
        bucket: Seq<char>,
        key: Seq<char>,
        outcome: Result<(), Seq<char>>,
    ) -> bool {
        outcome is Ok <==> self.holds(bucket, key)
    }
}

/// The view of the outcome of a write or a removal.
pub open spec fn outcome_view(outcome: Result<(), String>) -> Result<(), Seq<char>> {
    match outcome {
        Ok(()) => Ok(()),
        Err(message) => Err(message@),
    }
}

} // verus!
