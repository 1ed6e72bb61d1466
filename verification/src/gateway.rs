//! The firmware endpoints: what each of them asks of the object store and
//! what it answers for every outcome.
//!
//! Each endpoint comes as a pair. One function names the store call to make,
//! the other turns what the store returned into the reply. `latest_firmware`
//! takes two calls and sits in between: from the listing it decides which
//! object to read, or replies at once.

use vstd::prelude::*;
use vstd::utf8::encode_utf8;
use vstd::string::{StrSliceExecFns, StringExecFns};
use crate::encoding::{all_safe, lemma_percent_encoded_is_safe, percent_encode, percent_encoded};
use crate::http::{
    FileReply, FileReplyView, Header, Status, TextReply, TextReplyView, is_sendable,
    is_value_byte, join, lemma_printable_is_sendable, lemma_sendable_concat, sendable,
};
use crate::order::text_le;
use crate::pattern::version_of;
use crate::resolver::{
    NotFound, lemma_latest_key_carries_latest_tag, lemma_latest_tag_is_maximum,
    lemma_latest_tag_none, resolve_latest,
    resolve_latest_object, resolved_key, resolved_tag, resolved_view, texts,
};
use crate::store::{
    FIRMWARE_BUCKET, Fetched, FetchedView, StoreCall, StoreCallView, StoreModel, outcome_view,
};

verus! {

/// The summary of the latest version that `/manifest` returns.
#[derive(Debug, PartialEq, Eq)]
pub struct Manifest {
    pub version: String,
    pub error: String,
}

/// The reply of `/manifest`.
#[derive(Debug, PartialEq, Eq)]
pub struct ManifestReply {
    pub status: Status,
    pub manifest: Manifest,
}

/// A manifest reply as contracts see it.
pub struct ManifestReplyView {
    pub status: Status,
    pub version: Seq<char>,
    pub error: Seq<char>,
}

impl View for ManifestReply {
    type V = ManifestReplyView;

    open spec fn view(&self) -> ManifestReplyView {
        ManifestReplyView {
            status: self.status,
            version: self.manifest.version@,
            error: self.manifest.error@,
        }
    }
}

/// The banner served at `/`.
pub fn root() -> (r: &'static str)
    ensures
        r@ == "Welcome to Charizhard OTA ! Check /latest to get latest firmware"@,
{
    "Welcome to Charizhard OTA ! Check /latest to get latest firmware"
}

/// The reply to a request that no route matches.
pub fn fallback() -> (r: TextReply)
    ensures
        r@ == (TextReplyView { status: Status::NotFound, body: "Not Found"@ }),
{
    TextReply { status: Status::NotFound, body: String::from_str("Not Found") }
}

/// The call that lists the firmware bucket.
pub fn list_firmware() -> (r: StoreCall)
    ensures
        r@ == (StoreCallView::List { bucket: FIRMWARE_BUCKET@ }),
{
    StoreCall::List { bucket: String::from_str(FIRMWARE_BUCKET) }
}

/// The call that reads the firmware object `file_name`. The name is taken
/// as it is: any object of the bucket can be asked for.
pub fn fetch_firmware(file_name: &str) -> (r: StoreCall)
    ensures
        r@ == (StoreCallView::Get { bucket: FIRMWARE_BUCKET@, key: file_name@ }),
{
    StoreCall::Get { bucket: String::from_str(FIRMWARE_BUCKET), key: String::from_str(file_name) }
}

/// The call that writes `body` under `file_name`. Nothing is asked of the
/// store first: an object already there is replaced.
pub fn store_firmware(file_name: &str, body: Vec<u8>) -> (r: StoreCall)
    ensures
        r@ == (StoreCallView::Put { bucket: FIRMWARE_BUCKET@, key: file_name@, body: body@ }),
{
    StoreCall::Put {
        bucket: String::from_str(FIRMWARE_BUCKET),
        key: String::from_str(file_name),
        body,
    }
}

/// The call that removes the firmware object `file_name`.
pub fn remove_firmware(file_name: &str) -> (r: StoreCall)
    ensures
        r@ == (StoreCallView::Delete { bucket: FIRMWARE_BUCKET@, key: file_name@ }),
{
    StoreCall::Delete {
        bucket: String::from_str(FIRMWARE_BUCKET),
        key: String::from_str(file_name),
    }
}

/// The manifest reply for what the listing resolved to.
pub open spec fn manifest_reply(resolved: Result<Seq<char>, NotFound>) -> ManifestReplyView {
    match resolved {
        Ok(tag) => ManifestReplyView { status: Status::Success, version: tag, error: "Found"@ },
        Err(_) => ManifestReplyView {
            status: Status::NoContent,
            version: Seq::empty(),
            error: "No firmware files found"@,
        },
    }
}

/// The manifest reply where the bucket could not be listed.
pub open spec fn manifest_unlisted(message: Seq<char>) -> ManifestReplyView {
    ManifestReplyView {
        status: Status::InternalServerError,
        version: Seq::empty(),
        error: "Error querying bucket "@ + message,
    }
}

/// The manifest reply for a listing of the firmware bucket, or for the
/// message that came in its place.
pub open spec fn manifest_of(listing: Result<Seq<Seq<char>>, Seq<char>>) -> ManifestReplyView {
    match listing {
        Ok(keys) => manifest_reply(resolved_tag(keys)),
        Err(message) => manifest_unlisted(message),
    }
}

/// The view of a bucket listing, or of the message that came in its place.
pub open spec fn listing_view(listing: Result<Vec<String>, String>) -> Result<
    Seq<Seq<char>>,
    Seq<char>,
> {
    match listing {
        Ok(keys) => Ok(texts(keys@)),
        Err(message) => Err(message@),
    }
}

/// Builds the manifest reply from what the listing resolved to.
pub fn manifest_for(resolved: Result<String, NotFound>) -> (r: ManifestReply)
    ensures
        r@ == manifest_reply(resolved_view(resolved)),
{
    match resolved {
        Ok(tag) => ManifestReply {
            status: Status::Success,
            manifest: Manifest { version: tag, error: String::from_str("Found") },
        },
        Err(_) => ManifestReply {
            status: Status::NoContent,
            manifest: Manifest {
                version: String::new(),
                error: String::from_str("No firmware files found"),
            },
        },
    }
}

/// Answers `/manifest` from the listing of the firmware bucket.
///
/// The reply is a function of the listing alone: nothing is kept between
/// requests. A listing without a firmware key is answered with `NoContent`,
/// not with an error; a store failure with `InternalServerError` and the
/// store's message.
pub fn handle_manifest(listing: Result<Vec<String>, String>) -> (r: ManifestReply)
    ensures
        r@ == manifest_of(listing_view(listing)),
        listing matches Ok(keys) ==> ((forall|i: int|
            0 <= i < keys.len() ==> version_of(#[trigger] keys[i]@) is None) ==> r.status
            == Status::NoContent && r.manifest.version@ == Seq::<char>::empty()),
{
    match listing {
        Err(message) => ManifestReply {
            status: Status::InternalServerError,
            manifest: Manifest {
                version: String::new(),
                error: join("Error querying bucket ", message.as_str()),
            },
        },
        Ok(keys) => {
            proof {
                lemma_latest_tag_none(texts(keys@));
                if forall|i: int| 0 <= i < keys.len() ==> version_of(#[trigger] keys[i]@) is None {
                    assert forall|i: int| 0 <= i < texts(keys@).len() implies version_of(
                        #[trigger] texts(keys@)[i],
                    ) is None by {
                        assert(version_of(keys[i]@) is None);
                    }
                }
            }
            manifest_for(resolve_latest(&keys))
        },
    }
}

/// What `/latest` does once the firmware bucket is listed.
#[derive(Debug, PartialEq, Eq)]
pub enum LatestStep {
    /// Read the object under this key and answer with `get_file`.
    Fetch(String),
    /// Answer at once.
    Reply(FileReply),
}

/// A step of `/latest` as contracts see it.
pub enum LatestStepView {
    Fetch(Seq<char>),
    Reply(FileReplyView),
}

impl View for LatestStep {
    type V = LatestStepView;

    open spec fn view(&self) -> LatestStepView {
        match self {
            LatestStep::Fetch(key) => LatestStepView::Fetch(key@),
            LatestStep::Reply(reply) => LatestStepView::Reply(reply@),
        }
    }
}

/// A file reply that carries no file: a status and a message as its body.
pub open spec fn refusal(status: Status, message: Seq<char>) -> FileReplyView {
    FileReplyView { status, headers: Seq::empty(), body: encode_utf8(message) }
}

/// The step of `/latest` for what the listing resolved to.
pub open spec fn latest_step(resolved: Result<Seq<char>, NotFound>) -> LatestStepView {
    match resolved {
        Ok(key) => LatestStepView::Fetch(key),
        Err(_) => LatestStepView::Reply(refusal(Status::NotFound, "No firmware files found."@)),
    }
}

/// The step of `/latest` where the bucket could not be listed.
pub open spec fn latest_unlisted(message: Seq<char>) -> LatestStepView {
    LatestStepView::Reply(
        refusal(Status::InternalServerError, "Error querying bucket: "@ + message),
    )
}

/// The step of `/latest` for a listing of the firmware bucket, or for the
/// message that came in its place.
pub open spec fn latest_of(listing: Result<Seq<Seq<char>>, Seq<char>>) -> LatestStepView {
    match listing {
        Ok(keys) => latest_step(resolved_key(keys)),
        Err(message) => latest_unlisted(message),
    }
}

/// Builds a file reply that carries no file.
pub fn refuse(status: Status, message: String) -> (r: FileReply)
    ensures
        r@ == refusal(status, message@),
{
    let r = FileReply { status, headers: Vec::new(), body: message.as_str().as_bytes_vec() };
    assert(r@.headers =~= Seq::empty());
    r
}

/// Decides the step of `/latest` from what the listing resolved to.
pub fn latest_for(resolved: Result<String, NotFound>) -> (r: LatestStep)
    ensures
        r@ == latest_step(resolved_view(resolved)),
{
    match resolved {
        Ok(key) => LatestStep::Fetch(key),
        Err(_) => LatestStep::Reply(
            refuse(Status::NotFound, String::from_str("No firmware files found.")),
        ),
    }
}

/// Decides what `/latest` does from the listing of the firmware bucket:
/// read the latest object, or answer that there is none.
///
/// The object chosen is the one whose version `/manifest` reports for the
/// same listing.
pub fn latest_firmware(listing: Result<Vec<String>, String>) -> (r: LatestStep)
    ensures
        r@ == latest_of(listing_view(listing)),
{
    match listing {
        Err(message) => LatestStep::Reply(
            refuse(Status::InternalServerError, join("Error querying bucket: ", message.as_str())),
        ),
        Ok(keys) => latest_for(resolve_latest_object(&keys)),
    }
}

/// The file name as the `Content-Disposition` header shows it: the name
/// itself where it can be sent as a header value, and its percent-encoding
/// where it holds a control character other than the tab.
pub open spec fn shown_name(file_name: Seq<char>) -> Seq<char> {
    if sendable(file_name) {
        file_name
    } else {
        percent_encoded(file_name)
    }
}

/// The value of the `Content-Disposition` header for a file of this name.
pub open spec fn attachment(file_name: Seq<char>) -> Seq<char> {
    "attachment; filename=\""@ + shown_name(file_name) + "\""@
}

/// The headers of a successful download.
pub open spec fn download_headers(file_name: Seq<char>) -> Seq<(Seq<char>, Seq<char>)> {
    seq![
        ("Content-Type"@, "application/octet-stream"@),
        ("Content-Disposition"@, attachment(file_name)),
    ]
}

/// The reply to a download of `file_name` for each outcome of the read: the
/// object as an attachment, `NotFound` where the store holds no such object,
/// and `InternalServerError` where the store failed.
pub open spec fn file_reply(file_name: Seq<char>, fetched: FetchedView) -> FileReplyView {
    match fetched {
        FetchedView::Object(bytes) => FileReplyView {
            status: Status::Success,
            headers: download_headers(file_name),
            body: bytes,
        },
        FetchedView::Absent(message) => refusal(Status::NotFound, message),
        FetchedView::Unavailable(message) => refusal(Status::InternalServerError, message),
        FetchedView::Unreadable(message) => refusal(
            Status::InternalServerError,
            "Failed to read object content: "@ + message,
        ),
    }
}

/// Every header of a download can be sent, whatever the file is called.
pub proof fn lemma_download_headers_are_sendable(file_name: Seq<char>, i: int)
    requires
        0 <= i < download_headers(file_name).len(),
    ensures
        sendable(download_headers(file_name)[i].0),
        sendable(download_headers(file_name)[i].1),
{
    reveal_strlit("Content-Type");
    reveal_strlit("application/octet-stream");
    reveal_strlit("Content-Disposition");
    reveal_strlit("attachment; filename=\"");
    reveal_strlit("\"");
    lemma_printable_is_sendable("Content-Type"@);
    lemma_printable_is_sendable("application/octet-stream"@);
    lemma_printable_is_sendable("Content-Disposition"@);
    lemma_printable_is_sendable("attachment; filename=\""@);
    lemma_printable_is_sendable("\""@);
    if !sendable(file_name) {
        lemma_percent_encoded_is_safe(file_name);
        let bytes = encode_utf8(percent_encoded(file_name));
        assert forall|k: int| 0 <= k < bytes.len() implies is_value_byte(#[trigger] bytes[k]) by {
            assert(all_safe(bytes));
        }
    }
    lemma_sendable_concat("attachment; filename=\""@, shown_name(file_name));
    lemma_sendable_concat("attachment; filename=\""@ + shown_name(file_name), "\""@);
}

/// Whether every header of a reply can be sent: whether no name and no
/// value holds a control character other than the tab.
pub open spec fn headers_sendable(reply: FileReplyView) -> bool {
    forall|i: int|
        0 <= i < reply.headers.len() ==> sendable((#[trigger] reply.headers[i]).0) && sendable(
            reply.headers[i].1,
        )
}

/// Builds the reply to a download from what the store returned.
///
/// An object is passed on byte for byte, as an attachment under the name
/// that was asked for. Any name is served; a name that cannot be sent in a
/// header is shown percent-encoded. Only an absent object is answered with
/// `NotFound`; a store that failed is answered with `InternalServerError`.
pub fn get_file(file_name: &String, fetched: Fetched) -> (r: FileReply)
    ensures
        r@ == file_reply(file_name@, fetched@),
        headers_sendable(r@),
{
    proof {
        lemma_download_headers_are_sendable(file_name@, 0);
        lemma_download_headers_are_sendable(file_name@, 1);
    }
    match fetched {
        Fetched::Object(bytes) => {
            let mut headers: Vec<Header> = Vec::new();
            headers.push(
                Header {
                    name: String::from_str("Content-Type"),
                    value: String::from_str("application/octet-stream"),
                },
            );
            let shown = if is_sendable(file_name.as_str()) {
                file_name.clone()
            } else {
                percent_encode(file_name.as_str())
            };
            let value = join("attachment; filename=\"", shown.as_str()).concat("\"");
            headers.push(Header { name: String::from_str("Content-Disposition"), value });
            let r = FileReply { status: Status::Success, headers, body: bytes };
            assert(r@.headers =~= download_headers(file_name@));
            r
        },
        Fetched::Absent(message) => refuse(Status::NotFound, message),
        Fetched::Unavailable(message) => refuse(Status::InternalServerError, message),
        Fetched::Unreadable(message) => refuse(
            Status::InternalServerError,
            join("Failed to read object content: ", message.as_str()),
        ),
    }
}

/// Answers `GET /firmware/{name}` from what the store returned for the
/// object of that name.
pub fn specific_firmware(file_name: String, fetched: Fetched) -> (r: FileReply)
    ensures
        r@ == file_reply(file_name@, fetched@),
        headers_sendable(r@),
{
    get_file(&file_name, fetched)
}

/// The reply to an upload for each outcome of the write.
pub open spec fn upload_reply(outcome: Result<(), Seq<char>>) -> TextReplyView {
    match outcome {
        Ok(()) => TextReplyView {
            status: Status::Success,
            body: "Firmware successfully uploaded !"@,
        },
        Err(message) => TextReplyView {
            status: Status::InternalServerError,
            body: "Error uploading firmware "@ + message,
        },
    }
}

/// Answers `POST /firmware/{name}` from the outcome of the write.
pub fn post_firmware(stored: Result<(), String>) -> (r: TextReply)
    ensures
        r@ == upload_reply(outcome_view(stored)),
{
    match stored {
        Ok(()) => TextReply {
            status: Status::Success,
            body: String::from_str("Firmware successfully uploaded !"),
        },
        Err(message) => TextReply {
            status: Status::InternalServerError,
            body: join("Error uploading firmware ", message.as_str()),
        },
    }
}

/// The reply to a removal for each outcome of it.
pub open spec fn removal_reply(outcome: Result<(), Seq<char>>) -> TextReplyView {
    match outcome {
        Ok(()) => TextReplyView {
            status: Status::Success,
            body: "Firmware successfully deleted !"@,
        },
        Err(message) => TextReplyView {
            status: Status::InternalServerError,
            body: "Error deleting firmware "@ + message,
        },
    }
}

/// Answers `DELETE /firmware/{name}` from the outcome of the removal.
///
/// Removing what is not there is an error of the store and is answered as
/// one: a second removal of the same name fails.
pub fn delete_firmware(removed: Result<(), String>) -> (r: TextReply)
    ensures
        r@ == removal_reply(outcome_view(removed)),
{
    match removed {
        Ok(()) => TextReply {
            status: Status::Success,
            body: String::from_str("Firmware successfully deleted !"),
        },
        Err(message) => TextReply {
            status: Status::InternalServerError,
            body: join("Error deleting firmware ", message.as_str()),
        },
    }
}

/// An upload followed by a download of the same name returns what was
/// uploaded, byte for byte, as an attachment, whatever the store held
/// before and whether or not the name was taken. The attachment carries the
/// name as it is, unless the name holds a control character.
pub proof fn lemma_upload_then_download(
    store: StoreModel,
    file_name: Seq<char>,
    body: Seq<u8>,
    stored: Result<(), Seq<char>>,
    fetched: FetchedView,
)
    requires
        store.writes(stored),
        store.after(
            StoreCallView::Put { bucket: FIRMWARE_BUCKET@, key: file_name, body },
        ).fetches(FIRMWARE_BUCKET@, file_name, fetched),
    ensures
        upload_reply(stored).status == Status::Success,
        file_reply(file_name, fetched).status == Status::Success,
        file_reply(file_name, fetched).body == body,
        sendable(file_name) ==> file_reply(file_name, fetched).headers == seq![
            ("Content-Type"@, "application/octet-stream"@),
            ("Content-Disposition"@, "attachment; filename=\""@ + file_name + "\""@),
        ],
{
}

/// Against a store that answers truthfully, a download is answered with
/// `NotFound` exactly when the store holds no object of that name, and is
/// never answered with a server error.
pub proof fn lemma_not_found_means_absent(
    store: StoreModel,
    file_name: Seq<char>,
    fetched: FetchedView,
)
    requires
        store.fetches(FIRMWARE_BUCKET@, file_name, fetched),
    ensures
        file_reply(file_name, fetched).status == Status::NotFound <==> !store.holds(
            FIRMWARE_BUCKET@,
            file_name,
        ),
        file_reply(file_name, fetched).status != Status::InternalServerError,
{
}

/// Against a store that answers truthfully, the object that `/latest`
/// decides to read is there, and the reply carries its bytes.
pub proof fn lemma_latest_object_is_served(
    store: StoreModel,
    listing: Seq<Seq<char>>,
    key: Seq<char>,
    fetched: FetchedView,
)
    requires
        store.lists(FIRMWARE_BUCKET@, listing),
        latest_step(resolved_key(listing)) == LatestStepView::Fetch(key),
        store.fetches(FIRMWARE_BUCKET@, key, fetched),
    ensures
        file_reply(key, fetched).status == Status::Success,
        file_reply(key, fetched).body == store.object(FIRMWARE_BUCKET@, key),
{
    lemma_latest_key_carries_latest_tag(listing);
    assert(listing.contains(key));
}

/// Removal is not idempotent: of two removals of an object in a row, the
/// first succeeds and the second is answered as a failure of the store.
pub proof fn lemma_second_removal_fails(
    store: StoreModel,
    file_name: Seq<char>,
    first: Result<(), Seq<char>>,
    second: Result<(), Seq<char>>,
)
    requires
        store.holds(FIRMWARE_BUCKET@, file_name),
        store.removes(FIRMWARE_BUCKET@, file_name, first),
        store.after(StoreCallView::Delete { bucket: FIRMWARE_BUCKET@, key: file_name }).removes(
            FIRMWARE_BUCKET@,
            file_name,
            second,
        ),
    ensures
        removal_reply(first).status == Status::Success,
        removal_reply(second).status == Status::InternalServerError,
{
}

/// `/latest` and `/manifest` agree: on one listing, `/latest` reads an
/// object exactly when `/manifest` reports a version, the object is one of
/// the listing, and its key carries the version reported.
pub proof fn lemma_latest_serves_manifest_version(listing: Seq<Seq<char>>)
    ensures
        latest_step(resolved_key(listing)) is Fetch <==> manifest_reply(
            resolved_tag(listing),
        ).status == Status::Success,
        latest_step(resolved_key(listing)) matches LatestStepView::Fetch(key) ==> {
            &&& listing.contains(key)
            &&& version_of(key) == Some(manifest_reply(resolved_tag(listing)).version)
        },
{
    lemma_latest_key_carries_latest_tag(listing);
}

/// For a listing with at least one firmware key, `/manifest` reports a
/// version with `Success`; the version is the tag of a listed key, and the
/// tag of every listed key is no later in string order.
pub proof fn lemma_manifest_reports_the_maximum(listing: Seq<Seq<char>>)
    requires
        exists|i: int| 0 <= i < listing.len() && version_of(#[trigger] listing[i]) is Some,
    ensures
        manifest_reply(resolved_tag(listing)).status == Status::Success,
        exists|i: int|
            0 <= i < listing.len() && version_of(#[trigger] listing[i]) == Some(
                manifest_reply(resolved_tag(listing)).version,
            ),
        forall|i: int|
            0 <= i < listing.len() ==> (version_of(#[trigger] listing[i]) matches Some(tag)
                ==> text_le(tag, manifest_reply(resolved_tag(listing)).version)),
{
    lemma_latest_tag_none(listing);
    lemma_latest_tag_is_maximum(listing);
}

/// A listing without a firmware key is answered with `NoContent` by
/// `/manifest` and with `NotFound` by `/latest`.
pub proof fn lemma_no_firmware_is_no_error(listing: Seq<Seq<char>>)
    requires
        forall|i: int| 0 <= i < listing.len() ==> version_of(#[trigger] listing[i]) is None,
    ensures
        manifest_reply(resolved_tag(listing)).status == Status::NoContent,
        manifest_reply(resolved_tag(listing)).version == Seq::<char>::empty(),
        latest_step(resolved_key(listing)) == LatestStepView::Reply(
            refusal(Status::NotFound, "No firmware files found."@),
        ),
{
    lemma_latest_tag_none(listing);
    lemma_latest_key_carries_latest_tag(listing);
}

} // verus!
