use charizhard_ota::http::{Status, TextReply};
use charizhard_ota::registry::{
    client_id_of, config_step, config_wg, create_urlencoded_data, fetch_registry, first_blob,
    list_registry, lookup, parse_client_json, ClientData, ClientHeader, ClientRegistry,
    ConfigStep, LookupError, RegistryBlob, CLIENT_ID_HEADER,
};
use charizhard_ota::store::StoreCall;

fn record(endpoint: &str, public_key: &str, private_key: &str, alloweds_ips: &str) -> ClientData {
    ClientData {
        endpoint: endpoint.to_string(),
        public_key: public_key.to_string(),
        private_key: private_key.to_string(),
        alloweds_ips: alloweds_ips.to_string(),
    }
}

fn dev1() -> ClientData {
    record("1.1.1.1:51820", "PK", "SK", "10.0.0.0/24")
}

fn registry() -> ClientRegistry {
    let mut registry = ClientRegistry::new();
    registry.insert("dev1".to_string(), dev1());
    registry
}

fn issue(header: ClientHeader, blob: RegistryBlob) -> TextReply {
    let outcome = match client_id_of(header) {
        Ok(id) => lookup(&id, blob),
        Err(e) => Err(e),
    };
    config_wg(outcome)
}

#[test]
fn header_name() {
    assert_eq!(CLIENT_ID_HEADER, "id_client_x");
}

#[test]
fn urlencoded_data_escapes_reserved_characters() {
    assert_eq!(
        create_urlencoded_data(&dev1()),
        "endpoint=1.1.1.1%3A51820&public_key=PK&private_key=SK&allowed_ips=10.0.0.0%2F24"
    );
}

#[test]
fn urlencoded_data_of_the_documented_example() {
    let data = record("1.1.1.1:51820", "INSERT_PUB_KEY", "INSERT_PRV_KEY", "10.200.200.200/32");
    assert_eq!(
        create_urlencoded_data(&data),
        "endpoint=1.1.1.1%3A51820&public_key=INSERT_PUB_KEY&private_key=INSERT_PRV_KEY&allowed_ips=10.200.200.200%2F32"
    );
}

#[test]
fn urlencoded_data_escapes_every_byte_outside_the_plain_set() {
    let data = record("a b&c=d", "+/=", "é~-._", "");
    assert_eq!(
        create_urlencoded_data(&data),
        "endpoint=a%20b%26c%3Dd&public_key=%2B%2F%3D&private_key=%C3%A9~-._&allowed_ips="
    );
}

#[test]
fn config_is_issued_to_a_known_client() {
    let reply = issue(ClientHeader::Value("dev1".to_string()), RegistryBlob::Decoded(registry()));
    assert_eq!(
        reply,
        TextReply {
            status: Status::Success,
            body: "endpoint=1.1.1.1%3A51820&public_key=PK&private_key=SK&allowed_ips=10.0.0.0%2F24"
                .to_string()
        }
    );
}

#[test]
fn config_of_an_unknown_client_is_not_found() {
    let reply = issue(ClientHeader::Value("dev2".to_string()), RegistryBlob::Decoded(registry()));
    assert_eq!(reply.status, Status::NotFound);
    assert_eq!(reply.status.code(), 404);
    assert_eq!(reply.body, "Cannot send you the config");
}

#[test]
fn config_without_header_is_a_bad_request() {
    let reply = issue(ClientHeader::Missing, RegistryBlob::Decoded(registry()));
    assert_eq!(
        reply,
        TextReply {
            status: Status::BadRequest,
            body: "Missing 'id_client_x' header".to_string()
        }
    );
    assert_eq!(reply.status.code(), 400);
}

#[test]
fn config_with_unreadable_header_is_a_bad_request() {
    let reply = issue(ClientHeader::Invalid, RegistryBlob::Decoded(registry()));
    assert_eq!(
        reply,
        TextReply {
            status: Status::BadRequest,
            body: "Invalid 'id_client_x' header".to_string()
        }
    );
}

#[test]
fn client_identifiers_are_compared_exactly() {
    let registry = registry();
    assert_eq!(registry.get("dev1"), Some(&dev1()));
    assert_eq!(registry.get("Dev1"), None);
    assert_eq!(registry.get("dev1 "), None);
    assert_eq!(registry.get(""), None);
}

#[test]
fn registry_insert_replaces() {
    let mut registry = ClientRegistry::new();
    assert_eq!(registry.get("a"), None);
    registry.insert("a".to_string(), record("1", "2", "3", "4"));
    registry.insert("b".to_string(), record("5", "6", "7", "8"));
    registry.insert("a".to_string(), record("9", "9", "9", "9"));
    assert_eq!(registry.get("a"), Some(&record("9", "9", "9", "9")));
    assert_eq!(registry.get("b"), Some(&record("5", "6", "7", "8")));
}

#[test]
fn client_data_clone_keeps_the_fields() {
    assert_eq!(dev1().clone(), dev1());
}

#[test]
fn store_calls_name_the_registry_bucket() {
    assert_eq!(list_registry(), StoreCall::List { bucket: "config-wg".to_string() });
    assert_eq!(
        fetch_registry("clients.json"),
        StoreCall::Get { bucket: "config-wg".to_string(), key: "clients.json".to_string() }
    );
}

#[test]
fn first_blob_is_the_first_key_listed() {
    assert_eq!(
        first_blob(Ok(vec!["b.json".to_string(), "a.json".to_string()])),
        Ok("b.json".to_string())
    );
}

#[test]
fn first_blob_of_an_empty_bucket() {
    assert_eq!(first_blob(Ok(Vec::new())), Err(LookupError::EmptyBucket));
    assert_eq!(config_wg(Err(LookupError::EmptyBucket)).status, Status::ServiceUnavailable);
}

#[test]
fn first_blob_of_a_failed_listing() {
    let failed = first_blob(Err("refused".to_string()));
    assert_eq!(failed, Err(LookupError::ListingFailed("refused".to_string())));
    assert_eq!(
        config_wg(failed.map(|_| dev1())),
        TextReply {
            status: Status::InternalServerError,
            body: "Error querying bucket refused".to_string()
        }
    );
}

#[test]
fn parse_client_json_finds_the_record() {
    assert_eq!(parse_client_json(Ok(registry()), "dev1"), Ok(dev1()));
}

#[test]
fn parse_client_json_reports_the_decode_error() {
    let r = parse_client_json(Err("expected value at line 1 column 1".to_string()), "dev1");
    assert_eq!(
        r,
        Err(LookupError::MalformedJson("expected value at line 1 column 1".to_string()))
    );
    assert_eq!(
        r.unwrap_err().message(),
        "Erreur de format JSON : expected value at line 1 column 1"
    );
}

#[test]
fn parse_client_json_reports_the_missing_client() {
    let r = parse_client_json(Ok(registry()), "dev2");
    assert_eq!(r, Err(LookupError::ClientNotFound("dev2".to_string())));
    assert_eq!(r.unwrap_err().message(), "Client ID 'dev2' non trouvé");
}

#[test]
fn lookup_for_each_blob() {
    assert_eq!(lookup("dev1", RegistryBlob::Decoded(registry())), Ok(dev1()));
    assert_eq!(
        lookup("dev1", RegistryBlob::Unavailable("gone".to_string())),
        Err(LookupError::FetchFailed("gone".to_string()))
    );
    assert_eq!(
        lookup("dev1", RegistryBlob::Malformed("eof".to_string())),
        Err(LookupError::MalformedJson("eof".to_string()))
    );
}

#[test]
fn failures_map_to_statuses() {
    let cases = [
        (LookupError::MissingHeader, Status::BadRequest),
        (LookupError::InvalidHeader, Status::BadRequest),
        (LookupError::ListingFailed("x".to_string()), Status::InternalServerError),
        (LookupError::EmptyBucket, Status::ServiceUnavailable),
        (LookupError::FetchFailed("x".to_string()), Status::InternalServerError),
        (LookupError::MalformedJson("x".to_string()), Status::ServiceUnavailable),
        (LookupError::ClientNotFound("x".to_string()), Status::NotFound),
    ];
    for (error, status) in cases {
        assert_eq!(error.status(), status);
        assert_eq!(config_wg(Err(error)).status, status);
    }
}

#[test]
fn store_and_decode_failures_are_not_told_to_the_client() {
    for error in [
        LookupError::EmptyBucket,
        LookupError::FetchFailed("secret".to_string()),
        LookupError::MalformedJson("secret".to_string()),
        LookupError::ClientNotFound("dev9".to_string()),
    ] {
        assert_eq!(config_wg(Err(error)).body, "Cannot send you the config");
    }
}

#[test]
fn failure_messages() {
    assert_eq!(LookupError::MissingHeader.message(), "Missing 'id_client_x' header");
    assert_eq!(LookupError::InvalidHeader.message(), "Invalid 'id_client_x' header");
    assert_eq!(
        LookupError::ListingFailed("x".to_string()).message(),
        "Error querying bucket x"
    );
    assert_eq!(LookupError::EmptyBucket.message(), "No configuration blob in the bucket");
    assert_eq!(
        LookupError::FetchFailed("x".to_string()).message(),
        "Error reading the configuration blob: x"
    );
}

#[test]
fn config_step_answers_a_bad_header_before_the_store_is_asked() {
    let missing = TextReply {
        status: Status::BadRequest,
        body: "Missing 'id_client_x' header".to_string(),
    };
    assert_eq!(config_step(&ClientHeader::Missing, None), ConfigStep::Reply(missing));
    let invalid = TextReply {
        status: Status::BadRequest,
        body: "Invalid 'id_client_x' header".to_string(),
    };
    assert_eq!(config_step(&ClientHeader::Invalid, None), ConfigStep::Reply(invalid));
    assert_eq!(
        config_step(&ClientHeader::Missing, Some(Ok(vec!["clients.json".to_string()]))),
        ConfigStep::Reply(TextReply {
            status: Status::BadRequest,
            body: "Missing 'id_client_x' header".to_string()
        })
    );
}

#[test]
fn config_step_lists_then_reads_the_first_blob() {
    let header = ClientHeader::Value("dev1".to_string());
    assert_eq!(config_step(&header, None), ConfigStep::List);
    assert_eq!(
        config_step(&header, Some(Ok(vec!["b.json".to_string(), "a.json".to_string()]))),
        ConfigStep::Fetch("b.json".to_string())
    );
}

#[test]
fn config_step_answers_a_failed_or_empty_listing_without_a_read() {
    let header = ClientHeader::Value("dev1".to_string());
    assert_eq!(
        config_step(&header, Some(Ok(Vec::new()))),
        ConfigStep::Reply(TextReply {
            status: Status::ServiceUnavailable,
            body: "Cannot send you the config".to_string()
        })
    );
    assert_eq!(
        config_step(&header, Some(Err("refused".to_string()))),
        ConfigStep::Reply(TextReply {
            status: Status::InternalServerError,
            body: "Error querying bucket refused".to_string()
        })
    );
}
