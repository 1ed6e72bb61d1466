use charizhard_ota::order::{same_text, str_le};
use charizhard_ota::pattern::{extract_version, FIRMWARE_PATTERN};
use charizhard_ota::resolver::{
    firmware_objects, latest_object, object_no_later, resolve_latest, resolve_latest_object,
    FirmwareObject, NotFound,
};

fn keys(names: &[&str]) -> Vec<String> {
    names.iter().map(|s| s.to_string()).collect()
}

fn object(key: &str, tag: &str) -> FirmwareObject {
    FirmwareObject { key: key.to_string(), version_tag: tag.to_string() }
}

#[test]
fn pattern_is_the_documented_one() {
    assert_eq!(FIRMWARE_PATTERN, r"charizhard\.V(\d+\.\d+)\.bin");
}

#[test]
fn extract_version_takes_the_tag_out_of_the_key() {
    assert_eq!(extract_version("charizhard.V1.4.bin"), Some("1.4".to_string()));
    assert_eq!(extract_version("charizhard.V10.25.bin"), Some("10.25".to_string()));
}

#[test]
fn extract_version_passes_over_other_keys() {
    assert_eq!(extract_version(""), None);
    assert_eq!(extract_version("readme.txt"), None);
    assert_eq!(extract_version("charizhard.V1.bin"), None);
    assert_eq!(extract_version("charizhard.V1.4.hex"), None);
    assert_eq!(extract_version("charizhardXV1.4.bin"), None);
    assert_eq!(extract_version("charizhard.v1.4.bin"), None);
}

#[test]
fn extract_version_finds_the_pattern_inside_a_longer_key() {
    assert_eq!(extract_version("old/charizhard.V3.1.bin.bak"), Some("3.1".to_string()));
}

#[test]
fn str_le_is_the_order_of_str() {
    let samples = ["", "1.0", "10.0", "2.0", "9.0", "9.10", "a", "é", "1.05", "1.0.bin"];
    for a in samples {
        for b in samples {
            assert_eq!(str_le(a, b), a <= b, "{:?} <= {:?}", a, b);
        }
    }
}

#[test]
fn str_le_puts_ten_before_nine() {
    assert!(str_le("10.0", "9.0"));
    assert!(!str_le("9.0", "10.0"));
    assert!(str_le("10.0", "2.0"));
}

#[test]
fn same_text_compares_letter_for_letter() {
    assert!(same_text("admin", "admin"));
    assert!(!same_text("admin", "Admin"));
    assert!(!same_text("admin", "admin "));
    assert!(same_text("", ""));
}

#[test]
fn object_order_goes_by_tag_then_key() {
    assert!(object_no_later(&object("b", "1.0"), &object("a", "2.0")));
    assert!(!object_no_later(&object("a", "2.0"), &object("b", "1.0")));
    assert!(object_no_later(&object("a", "1.0"), &object("b", "1.0")));
    assert!(!object_no_later(&object("b", "1.0"), &object("a", "1.0")));
    assert!(object_no_later(&object("a", "1.0"), &object("a", "1.0")));
}

#[test]
fn latest_object_of_nothing_is_none() {
    assert_eq!(latest_object(&Vec::new()), None);
}

#[test]
fn latest_object_is_the_greatest_by_tag_then_key() {
    let objects = vec![
        object("charizhard.V1.0.bin", "1.0"),
        object("x/charizhard.V2.0.bin", "2.0"),
        object("charizhard.V2.0.bin", "2.0"),
        object("charizhard.V10.0.bin", "10.0"),
    ];
    assert_eq!(latest_object(&objects), Some(&object("x/charizhard.V2.0.bin", "2.0")));
}

#[test]
fn firmware_objects_keeps_matching_keys_in_listing_order() {
    let listing = keys(&["charizhard.V2.0.bin", "notes.txt", "charizhard.V1.3.bin"]);
    assert_eq!(
        firmware_objects(&listing),
        vec![object("charizhard.V2.0.bin", "2.0"), object("charizhard.V1.3.bin", "1.3")]
    );
}

#[test]
fn resolve_latest_pins_the_lexicographic_quirk() {
    let listing = keys(&["charizhard.V2.0.bin", "charizhard.V10.0.bin"]);
    assert_eq!(resolve_latest(&listing), Ok("2.0".to_string()));
    assert_eq!(resolve_latest_object(&listing), Ok("charizhard.V2.0.bin".to_string()));
}

#[test]
fn resolve_latest_of_nine_and_ten_is_nine() {
    let listing = keys(&["charizhard.V10.0.bin", "charizhard.V9.0.bin"]);
    assert_eq!(resolve_latest(&listing), Ok("9.0".to_string()));
}

#[test]
fn resolve_latest_without_firmware_is_not_found() {
    assert_eq!(resolve_latest(&Vec::new()), Err(NotFound));
    assert_eq!(resolve_latest(&keys(&["a.txt", "charizhard.bin"])), Err(NotFound));
    assert_eq!(resolve_latest_object(&Vec::new()), Err(NotFound));
    assert_eq!(resolve_latest_object(&keys(&["a.txt"])), Err(NotFound));
}

#[test]
fn resolve_latest_skips_other_keys() {
    let listing = keys(&["zzz", "charizhard.V1.2.bin", "charizhard.V1.bin", "~"]);
    assert_eq!(resolve_latest(&listing), Ok("1.2".to_string()));
    assert_eq!(resolve_latest_object(&listing), Ok("charizhard.V1.2.bin".to_string()));
}

#[test]
fn resolve_latest_is_repeatable_and_ignores_order() {
    let a = keys(&["charizhard.V1.9.bin", "charizhard.V1.10.bin", "charizhard.V0.3.bin"]);
    let b = keys(&["charizhard.V0.3.bin", "charizhard.V1.10.bin", "charizhard.V1.9.bin"]);
    let first = resolve_latest(&a);
    assert_eq!(first, Ok("1.9".to_string()));
    assert_eq!(resolve_latest(&a), first);
    assert_eq!(resolve_latest(&b), first);
    assert_eq!(resolve_latest_object(&a), resolve_latest_object(&b));
}

#[test]
fn latest_object_carries_the_latest_tag() {
    let listings = [
        keys(&["charizhard.V2.0.bin", "charizhard.V10.0.bin"]),
        keys(&["a/charizhard.V3.3.bin", "charizhard.V3.3.bin", "charizhard.V1.0.bin"]),
        keys(&["charizhard.V1.0.bin", "charizhard.V1.05.bin", "charizhard.V1.1.bin"]),
    ];
    for listing in listings.iter() {
        let tag = resolve_latest(listing).unwrap();
        let key = resolve_latest_object(listing).unwrap();
        assert!(listing.contains(&key));
        assert_eq!(extract_version(&key), Some(tag));
    }
}

#[test]
fn latest_object_of_plain_keys_is_the_greatest_key() {
    let listing = keys(&[
        "charizhard.V1.0.bin",
        "charizhard.V1.05.bin",
        "charizhard.V1.1.bin",
        "charizhard.V0.9.bin",
    ]);
    let mut sorted = listing.clone();
    sorted.sort();
    assert_eq!(resolve_latest_object(&listing).unwrap(), *sorted.last().unwrap());
}
