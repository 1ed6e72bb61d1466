//! The registry of client records and the issuance of a client's VPN
//! configuration.
//!
//! The registry is one JSON object, stored as a single blob in its own
//! bucket, that maps client identifiers to records. Only the first blob that
//! the bucket lists is read. A request names its client in the
//! `id_client_x` header and is answered with that client's record as an
//! `application/x-www-form-urlencoded` body.
//!
//! Reading the store and decoding JSON are the caller's part; the functions
//! here take what came of them.

use vstd::prelude::*;
use vstd::string::StringExecFns;
use crate::encoding::{is_plain, lemma_plain_text_unchanged, percent_encode, percent_encoded};
use crate::http::{Status, TextReply, TextReplyView, join};
use crate::order::same_text;
use crate::resolver::texts;
use crate::store::{CONFIG_BUCKET, StoreCall, StoreCallView};

verus! {

/// The request header that names the client.
pub const CLIENT_ID_HEADER: &'static str = "id_client_x";

/// The VPN parameters of one client.
#[derive(Debug, PartialEq, Eq)]
pub struct ClientData {
    pub endpoint: String,
    pub public_key: String,
    pub private_key: String,
    pub alloweds_ips: String,
}

/// A client record as contracts see it.
pub struct ClientDataView {
    pub endpoint: Seq<char>,
    pub public_key: Seq<char>,
    pub private_key: Seq<char>,
    pub alloweds_ips: Seq<char>,
}

impl View for ClientData {
    type V = ClientDataView;

    open spec fn view(&self) -> ClientDataView {
        ClientDataView {
            endpoint: self.endpoint@,
            public_key: self.public_key@,
            private_key: self.private_key@,
            alloweds_ips: self.alloweds_ips@,
        }
    }
}

impl Clone for ClientData {
    fn clone(&self) -> (r: Self)
        ensures
            r@ == self@,
    {
        ClientData {
            endpoint: self.endpoint.clone(),
            public_key: self.public_key.clone(),
            private_key: self.private_key.clone(),
            alloweds_ips: self.alloweds_ips.clone(),
        }
    }
}

/// One entry of the registry.
struct ClientEntry {
    client_id: String,
    data: ClientData,
}

/// The map that a sequence of entries stands for: a later entry replaces an
/// earlier one with the same identifier.
spec fn entries_map(entries: Seq<ClientEntry>) -> Map<Seq<char>, ClientDataView>
    decreases entries.len(),
{
    if entries.len() == 0 {
        Map::empty()
    } else {
        entries_map(entries.drop_last()).insert(entries.last().client_id@, entries.last().data@)
    }
}

/// The decoded registry: client records by client identifier.
pub struct ClientRegistry {
    entries: Vec<ClientEntry>,
}

impl View for ClientRegistry {
    type V = Map<Seq<char>, ClientDataView>;

    closed spec fn view(&self) -> Map<Seq<char>, ClientDataView> {
        entries_map(self.entries@)
    }
}

impl ClientRegistry {
    /// A registry without records.
    pub fn new() -> (r: ClientRegistry)
        ensures
            r@ == Map::<Seq<char>, ClientDataView>::empty(),
    {
        ClientRegistry { entries: Vec::new() }
    }

    /// Records `data` under `client_id`, in place of what was recorded under
    /// that identifier before.
    pub fn insert(&mut self, client_id: String, data: ClientData)
        ensures
            final(self)@ == old(self)@.insert(client_id@, data@),
    {
        let ghost before = self.entries@;
        self.entries.push(ClientEntry { client_id, data });
        assert(self.entries@.drop_last() == before);
    }

    /// The record of `client_id`, if there is one. Identifiers are compared
    /// letter for letter.
    pub fn get(&self, client_id: &str) -> (r: Option<&ClientData>)
        ensures
            r is Some <==> self@.contains_key(client_id@),
            r matches Some(data) ==> data@ == self@[client_id@],
    {
        let mut i: usize = self.entries.len();
        assert(self.entries@.take(i as int) == self.entries@);
        while i > 0
            invariant
                i <= self.entries.len(),
                entries_map(self.entries@).contains_key(client_id@) <==> entries_map(
                    self.entries@.take(i as int),
                ).contains_key(client_id@),
                entries_map(self.entries@).contains_key(client_id@) ==> entries_map(
                    self.entries@,
                )[client_id@] == entries_map(self.entries@.take(i as int))[client_id@],
            decreases i,
        {
            proof {
                assert(self.entries@.take(i as int).drop_last() == self.entries@.take(i - 1));
                assert(self.entries@.take(i as int).last() == self.entries@[i - 1]);
            }
            i -= 1;
            if same_text(self.entries[i].client_id.as_str(), client_id) {
                return Some(&self.entries[i].data);
            }
        }
        None
    }
}


/// The body that carries a client record: its four fields as
/// `name=value` pairs joined by `&`, each value percent-encoded. The order
/// of the fields is fixed.
pub open spec fn form_encoded(data: ClientDataView) -> Seq<char> {
    "endpoint="@ + percent_encoded(data.endpoint) + "&public_key="@ + percent_encoded(
        data.public_key,
    ) + "&private_key="@ + percent_encoded(data.private_key) + "&allowed_ips="@ + percent_encoded(
        data.alloweds_ips,
    )
}

/// Percent-encodes a field name. The names of the four fields hold nothing
/// that the encoding changes.
fn encode_name(name: &str) -> (r: String)
    requires
        is_plain(name@),
    ensures
        r@ == name@,
{
    proof {
        lemma_plain_text_unchanged(name@);
    }
    percent_encode(name)
}

/// Appends `separator`, the encoded `name`, `=` and the encoded `value`.
fn push_pair(body: &mut String, separator: &str, name: &str, value: &str)
    requires
        is_plain(name@),
    ensures
        final(body)@ == old(body)@ + separator@ + name@ + "="@ + percent_encoded(value@),
{
    body.append(separator);
    body.append(encode_name(name).as_str());
    body.append("=");
    body.append(percent_encode(value).as_str());
}

/// Encodes a client record as an `application/x-www-form-urlencoded` body.
///
/// Names and values are percent-encoded, so that `:` and `/` in an endpoint
/// or an address range are escaped. The fields come in the order `endpoint`,
/// `public_key`, `private_key`, `allowed_ips`.
pub fn create_urlencoded_data(client_data: &ClientData) -> (r: String)
    ensures
        r@ == form_encoded(client_data@),
{
    proof {
        reveal_strlit("endpoint");
        reveal_strlit("public_key");
        reveal_strlit("private_key");
        reveal_strlit("allowed_ips");
        reveal_strlit("");
        reveal_strlit("&");
        reveal_strlit("=");
        reveal_strlit("endpoint=");
        reveal_strlit("&public_key=");
        reveal_strlit("&private_key=");
        reveal_strlit("&allowed_ips=");
        assert(is_plain("endpoint"@));
        assert(is_plain("public_key"@));
        assert(is_plain("private_key"@));
        assert(is_plain("allowed_ips"@));
    }
    let mut body = String::new();
    push_pair(&mut body, "", "endpoint", client_data.endpoint.as_str());
    assert(body@ =~= "endpoint="@ + percent_encoded(client_data@.endpoint));
    push_pair(&mut body, "&", "public_key", client_data.public_key.as_str());
    assert(body@ =~= "endpoint="@ + percent_encoded(client_data@.endpoint) + "&public_key="@
        + percent_encoded(client_data@.public_key));
    push_pair(&mut body, "&", "private_key", client_data.private_key.as_str());
    assert(body@ =~= "endpoint="@ + percent_encoded(client_data@.endpoint) + "&public_key="@
        + percent_encoded(client_data@.public_key) + "&private_key="@ + percent_encoded(
        client_data@.private_key,
    ));
    push_pair(&mut body, "&", "allowed_ips", client_data.alloweds_ips.as_str());
    assert(body@ =~= form_encoded(client_data@));
    body
}

/// What the request says of its client.
#[derive(Debug, PartialEq, Eq)]
pub enum ClientHeader {
    /// The request has no `id_client_x` header.
    Missing,
    /// The header is there, but its value is not text.
    Invalid,
    /// The client identifier.
    Value(String),
}

/// A header lookup as contracts see it.
pub enum ClientHeaderView {
    Missing,
    Invalid,
    Value(Seq<char>),
}

impl View for ClientHeader {
    type V = ClientHeaderView;

    open spec fn view(&self) -> ClientHeaderView {
        match self {
            ClientHeader::Missing => ClientHeaderView::Missing,
            ClientHeader::Invalid => ClientHeaderView::Invalid,
            ClientHeader::Value(id) => ClientHeaderView::Value(id@),
        }
    }
}

/// What came of reading and decoding the registry blob.
pub enum RegistryBlob {
    /// The store did not deliver the blob; holds the store's message.
    Unavailable(String),
    /// The blob is not a JSON object of client records; holds the decoder's
    /// message.
    Malformed(String),
    /// The decoded registry.
    Decoded(ClientRegistry),
}

/// A registry blob as contracts see it.
pub enum RegistryBlobView {
    Unavailable(Seq<char>),
    Malformed(Seq<char>),
    Decoded(Map<Seq<char>, ClientDataView>),
}

impl View for RegistryBlob {
    type V = RegistryBlobView;

    open spec fn view(&self) -> RegistryBlobView {
        match self {
            RegistryBlob::Unavailable(message) => RegistryBlobView::Unavailable(message@),
            RegistryBlob::Malformed(message) => RegistryBlobView::Malformed(message@),
            RegistryBlob::Decoded(registry) => RegistryBlobView::Decoded(registry@),
        }
    }
}

/// Why no configuration is issued.
#[derive(Debug, PartialEq, Eq)]
pub enum LookupError {
    /// The request does not name a client.
    MissingHeader,
    /// The request names its client in a header that is not text.
    InvalidHeader,
    /// The store failed to list the registry bucket; holds its message.
    ListingFailed(String),
    /// The registry bucket holds no blob.
    EmptyBucket,
    /// The store failed to deliver the registry blob; holds its message.
    FetchFailed(String),
    /// The blob did not decode; holds the decoder's message.
    MalformedJson(String),
    /// The registry has no record of this client. Not a fault of the server.
    ClientNotFound(String),
}

/// A lookup failure as contracts see it.
pub enum LookupErrorView {
    MissingHeader,
    InvalidHeader,
    ListingFailed(Seq<char>),
    EmptyBucket,
    FetchFailed(Seq<char>),
    MalformedJson(Seq<char>),
    ClientNotFound(Seq<char>),
}

impl View for LookupError {
    type V = LookupErrorView;

    open spec fn view(&self) -> LookupErrorView {
        match self {
            LookupError::MissingHeader => LookupErrorView::MissingHeader,
            LookupError::InvalidHeader => LookupErrorView::InvalidHeader,
            LookupError::ListingFailed(message) => LookupErrorView::ListingFailed(message@),
            LookupError::EmptyBucket => LookupErrorView::EmptyBucket,
            LookupError::FetchFailed(message) => LookupErrorView::FetchFailed(message@),
            LookupError::MalformedJson(message) => LookupErrorView::MalformedJson(message@),
            LookupError::ClientNotFound(id) => LookupErrorView::ClientNotFound(id@),
        }
    }
}

/// The status of the reply to a lookup that failed.
pub open spec fn failure_status(error: LookupErrorView) -> Status {
    match error {
        LookupErrorView::MissingHeader => Status::BadRequest,
        LookupErrorView::InvalidHeader => Status::BadRequest,
        LookupErrorView::ListingFailed(_) => Status::InternalServerError,
        LookupErrorView::EmptyBucket => Status::ServiceUnavailable,
        LookupErrorView::FetchFailed(_) => Status::InternalServerError,
        LookupErrorView::MalformedJson(_) => Status::ServiceUnavailable,
        LookupErrorView::ClientNotFound(_) => Status::NotFound,
    }
}

/// What a failure is, in words.
pub open spec fn failure_message(error: LookupErrorView) -> Seq<char> {
    match error {
        LookupErrorView::MissingHeader => "Missing 'id_client_x' header"@,
        LookupErrorView::InvalidHeader => "Invalid 'id_client_x' header"@,
        LookupErrorView::ListingFailed(message) => "Error querying bucket "@ + message,
        LookupErrorView::EmptyBucket => "No configuration blob in the bucket"@,
        LookupErrorView::FetchFailed(message) => "Error reading the configuration blob: "@
            + message,
        LookupErrorView::MalformedJson(message) => "Erreur de format JSON : "@ + message,
        LookupErrorView::ClientNotFound(id) => "Client ID '"@ + id + "' non trouv\u{e9}"@,
    }
}

impl LookupError {
    /// The status that the failure is answered with.
    pub fn status(&self) -> (r: Status)
        ensures
            r == failure_status(self@),
    {
        match self {
            LookupError::MissingHeader => Status::BadRequest,
            LookupError::InvalidHeader => Status::BadRequest,
            LookupError::ListingFailed(_) => Status::InternalServerError,
            LookupError::EmptyBucket => Status::ServiceUnavailable,
            LookupError::FetchFailed(_) => Status::InternalServerError,
            LookupError::MalformedJson(_) => Status::ServiceUnavailable,
            LookupError::ClientNotFound(_) => Status::NotFound,
        }
    }

    /// What the failure is, in words, for the log.
    pub fn message(&self) -> (r: String)
        ensures
            r@ == failure_message(self@),
    {
        match self {
            LookupError::MissingHeader => String::from_str("Missing 'id_client_x' header"),
            LookupError::InvalidHeader => String::from_str("Invalid 'id_client_x' header"),
            LookupError::ListingFailed(message) => join(
                "Error querying bucket ",
                message.as_str(),
            ),
            LookupError::EmptyBucket => String::from_str("No configuration blob in the bucket"),
            LookupError::FetchFailed(message) => join(
                "Error reading the configuration blob: ",
                message.as_str(),
            ),
            LookupError::MalformedJson(message) => join(
                "Erreur de format JSON : ",
                message.as_str(),
            ),
            LookupError::ClientNotFound(id) => join("Client ID '", id.as_str()).concat(
                "' non trouv\u{e9}",
            ),
        }
    }
}

/// The view of what a lookup gave.
pub open spec fn lookup_view(outcome: Result<ClientData, LookupError>) -> Result<
    ClientDataView,
    LookupErrorView,
> {
    match outcome {
        Ok(data) => Ok(data@),
        Err(e) => Err(e@),
    }
}

/// The client that a request names.
pub open spec fn named_client(header: ClientHeaderView) -> Result<Seq<char>, LookupErrorView> {
    match header {
        ClientHeaderView::Missing => Err(LookupErrorView::MissingHeader),
        ClientHeaderView::Invalid => Err(LookupErrorView::InvalidHeader),
        ClientHeaderView::Value(id) => Ok(id),
    }
}

/// The view of a client identifier, or of the failure to find one.
pub open spec fn text_or_error(outcome: Result<String, LookupError>) -> Result<
    Seq<char>,
    LookupErrorView,
> {
    match outcome {
        Ok(text) => Ok(text@),
        Err(e) => Err(e@),
    }
}

/// Takes the client identifier from what the request's header gave.
pub fn client_id_of(header: ClientHeader) -> (r: Result<String, LookupError>)
    ensures
        text_or_error(r) == named_client(header@),
{
    match header {
        ClientHeader::Missing => Err(LookupError::MissingHeader),
        ClientHeader::Invalid => Err(LookupError::InvalidHeader),
        ClientHeader::Value(id) => Ok(id),
    }
}

/// The call that lists the registry bucket.
pub fn list_registry() -> (r: StoreCall)
    ensures
        r@ == (StoreCallView::List { bucket: CONFIG_BUCKET@ }),
{
    StoreCall::List { bucket: String::from_str(CONFIG_BUCKET) }
}

/// The call that reads the registry blob under `key`.
pub fn fetch_registry(key: &str) -> (r: StoreCall)
    ensures
        r@ == (StoreCallView::Get { bucket: CONFIG_BUCKET@, key: key@ }),
{
    StoreCall::Get { bucket: String::from_str(CONFIG_BUCKET), key: String::from_str(key) }
}

/// The blob to read, given the listing of the registry bucket: the first
/// key listed. Other blobs are not looked at.
pub open spec fn blob_key(listing: Result<Seq<Seq<char>>, Seq<char>>) -> Result<
    Seq<char>,
    LookupErrorView,
> {
    match listing {
        Err(message) => Err(LookupErrorView::ListingFailed(message)),
        Ok(keys) => if keys.len() == 0 {
            Err(LookupErrorView::EmptyBucket)
        } else {
            Ok(keys[0])
        },
    }
}

/// The view of a bucket listing, or of the message that came in its place.
pub open spec fn listed(listing: Result<Vec<String>, String>) -> Result<Seq<Seq<char>>, Seq<char>> {
    match listing {
        Ok(keys) => Ok(texts(keys@)),
        Err(message) => Err(message@),
    }
}

/// Picks the registry blob from the listing of the registry bucket.
pub fn first_blob(listing: Result<Vec<String>, String>) -> (r: Result<String, LookupError>)
    ensures
        text_or_error(r) == blob_key(listed(listing)),
{
    match listing {
        Err(message) => Err(LookupError::ListingFailed(message)),
        Ok(keys) => {
            if keys.len() == 0 {
                Err(LookupError::EmptyBucket)
            } else {
                Ok(keys[0].clone())
            }
        },
    }
}

/// What `/configwg` does next.
#[derive(Debug, PartialEq, Eq)]
pub enum ConfigStep {
    /// List the registry bucket.
    List,
    /// Read the blob under this key.
    Fetch(String),
    /// Answer at once, without a further call on the store.
    Reply(TextReply),
}

/// A step of `/configwg` as contracts see it.
pub enum ConfigStepView {
    List,
    Fetch(Seq<char>),
    Reply(TextReplyView),
}

impl View for ConfigStep {
    type V = ConfigStepView;

    open spec fn view(&self) -> ConfigStepView {
        match self {
            ConfigStep::List => ConfigStepView::List,
            ConfigStep::Fetch(key) => ConfigStepView::Fetch(key@),
            ConfigStep::Reply(reply) => ConfigStepView::Reply(reply@),
        }
    }
}

/// The view of a listing that may not have been asked for yet.
pub open spec fn listed_opt(listing: Option<Result<Vec<String>, String>>) -> Option<
    Result<Seq<Seq<char>>, Seq<char>>,
> {
    match listing {
        Some(l) => Some(listed(l)),
        None => None,
    }
}

/// The next step of `/configwg`, given the header and, once it is there,
/// the listing of the registry bucket. A request that names no client is
/// answered before the store is asked anything; a listing that failed or is
/// empty is answered without a read.
pub open spec fn config_step_spec(
    header: ClientHeaderView,
    listing: Option<Result<Seq<Seq<char>>, Seq<char>>>,
) -> ConfigStepView {
    match named_client(header) {
        Err(error) => ConfigStepView::Reply(config_reply(Err(error))),
        Ok(_) => match listing {
            None => ConfigStepView::List,
            Some(l) => match blob_key(l) {
                Ok(key) => ConfigStepView::Fetch(key),
                Err(error) => ConfigStepView::Reply(config_reply(Err(error))),
            },
        },
    }
}

/// The record of `client_id` in a decoded registry, or the failure that
/// stands for its absence or for a blob that did not decode.
pub open spec fn record_of(
    decoded: Result<Map<Seq<char>, ClientDataView>, Seq<char>>,
    client_id: Seq<char>,
) -> Result<ClientDataView, LookupErrorView> {
    match decoded {
        Err(message) => Err(LookupErrorView::MalformedJson(message)),
        Ok(registry) => if registry.contains_key(client_id) {
            Ok(registry[client_id])
        } else {
            Err(LookupErrorView::ClientNotFound(client_id))
        },
    }
}

/// The view of what decoding the blob gave.
pub open spec fn decoded_view(decoded: Result<ClientRegistry, String>) -> Result<
    Map<Seq<char>, ClientDataView>,
    Seq<char>,
> {
    match decoded {
        Ok(registry) => Ok(registry@),
        Err(message) => Err(message@),
    }
}

/// Finds the record of `client_id` in what decoding the registry blob gave.
///
/// A blob that did not decode gives `MalformedJson` with the decoder's
/// message; a registry without the client gives `ClientNotFound`.
pub fn parse_client_json(decoded: Result<ClientRegistry, String>, client_id: &str) -> (r: Result<
    ClientData,
    LookupError,
>)
    ensures
        lookup_view(r) == record_of(decoded_view(decoded), client_id@),
{
    match decoded {
        Err(message) => Err(LookupError::MalformedJson(message)),
        Ok(registry) => match registry.get(client_id) {
            Some(data) => Ok(data.clone()),
            None => Err(LookupError::ClientNotFound(String::from_str(client_id))),
        },
    }
}

/// What a lookup of `client_id` gives for each outcome of reading the blob.
pub open spec fn looked_up(client_id: Seq<char>, blob: RegistryBlobView) -> Result<
    ClientDataView,
    LookupErrorView,
> {
    match blob {
        RegistryBlobView::Unavailable(message) => Err(LookupErrorView::FetchFailed(message)),
        RegistryBlobView::Malformed(message) => record_of(Err(message), client_id),
        RegistryBlobView::Decoded(registry) => record_of(Ok(registry), client_id),
    }
}

/// Looks `client_id` up in what came of reading the registry blob.
pub fn lookup(client_id: &str, blob: RegistryBlob) -> (r: Result<ClientData, LookupError>)
    ensures
        lookup_view(r) == looked_up(client_id@, blob@),
{
    match blob {
        RegistryBlob::Unavailable(message) => Err(LookupError::FetchFailed(message)),
        RegistryBlob::Malformed(message) => parse_client_json(Err(message), client_id),
        RegistryBlob::Decoded(registry) => parse_client_json(Ok(registry), client_id),
    }
}

/// The body of the reply to a lookup that failed.
pub open spec fn failure_body(error: LookupErrorView) -> Seq<char> {
    match error {
        LookupErrorView::MissingHeader => "Missing 'id_client_x' header"@,
        LookupErrorView::InvalidHeader => "Invalid 'id_client_x' header"@,
        LookupErrorView::ListingFailed(message) => "Error querying bucket "@ + message,
        _ => "Cannot send you the config"@,
    }
}

/// The reply of `/configwg` for what the lookup gave.
pub open spec fn config_reply(outcome: Result<ClientDataView, LookupErrorView>) -> TextReplyView {
    match outcome {
        Ok(data) => TextReplyView { status: Status::Success, body: form_encoded(data) },
        Err(error) => TextReplyView { status: failure_status(error), body: failure_body(error) },
    }
}

/// Answers `/configwg` from what the lookup gave: the client's record as a
/// form-encoded body, or the status that stands for the failure.
///
/// What exactly went wrong with the store or the blob is not told to the
/// client; `LookupError::message` has it for the log.
pub fn config_wg(outcome: Result<ClientData, LookupError>) -> (r: TextReply)
    ensures
        r@ == config_reply(lookup_view(outcome)),
{
    match outcome {
        Ok(data) => TextReply { status: Status::Success, body: create_urlencoded_data(&data) },
        Err(error) => {
            let status = error.status();
            let body = match error {
                LookupError::MissingHeader => String::from_str("Missing 'id_client_x' header"),
                LookupError::InvalidHeader => String::from_str("Invalid 'id_client_x' header"),
                LookupError::ListingFailed(message) => join(
                    "Error querying bucket ",
                    message.as_str(),
                ),
                _ => String::from_str("Cannot send you the config"),
            };
            TextReply { status, body }
        },
    }
}

/// Decides the next step of `/configwg`: list the registry bucket, read
/// the blob, or answer at once.
///
/// `listing` is `None` until the bucket has been listed. After `Fetch`, the
/// reply is `config_wg` of `lookup`.
pub fn config_step(
    header: &ClientHeader,
    listing: Option<Result<Vec<String>, String>>,
) -> (r: ConfigStep)
    ensures
        r@ == config_step_spec(header@, listed_opt(listing)),
{
    match header {
        ClientHeader::Missing => ConfigStep::Reply(config_wg(Err(LookupError::MissingHeader))),
        ClientHeader::Invalid => ConfigStep::Reply(config_wg(Err(LookupError::InvalidHeader))),
        ClientHeader::Value(_) => match listing {
            None => ConfigStep::List,
            Some(l) => match first_blob(l) {
                Ok(key) => ConfigStep::Fetch(key),
                Err(error) => ConfigStep::Reply(config_wg(Err(error))),
            },
        },
    }
}

} // verus!
